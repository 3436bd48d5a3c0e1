use mux_streams::{Role, StreamId};

#[test]
fn client_creates_the_odd_streams() {
    assert!(Role::Client.is_local_init(StreamId(1)));
    assert!(Role::Client.is_local_init(StreamId(3)));
    assert!(!Role::Client.is_local_init(StreamId(2)));
    assert!(!Role::Client.is_local_init(StreamId(4)));
}

#[test]
fn server_creates_the_even_streams() {
    assert!(Role::Server.is_local_init(StreamId(2)));
    assert!(Role::Server.is_local_init(StreamId(4)));
    assert!(!Role::Server.is_local_init(StreamId(1)));
    assert!(!Role::Server.is_local_init(StreamId(3)));
}

#[test]
fn the_two_roles_never_agree_on_a_stream() {
    for n in [0u32, 1, 2, 3, 4, 5, 100, 101, u32::MAX - 1, u32::MAX] {
        let id = StreamId(n);
        assert_ne!(Role::Client.is_local_init(id), Role::Server.is_local_init(id));
    }
}

#[test]
fn asking_again_gives_the_same_answer() {
    for n in [0u32, 1, 2, 7, 8, u32::MAX] {
        for role in [Role::Client, Role::Server] {
            let first = role.is_local_init(StreamId(n));
            let second = role.is_local_init(StreamId(n));
            assert_eq!(first, second);
        }
    }
}

#[test]
fn only_the_parity_of_the_number_matters() {
    for role in [Role::Client, Role::Server] {
        assert_eq!(role.is_local_init(StreamId(1)), role.is_local_init(StreamId(u32::MAX)));
        assert_eq!(role.is_local_init(StreamId(2)), role.is_local_init(StreamId(u32::MAX - 1)));
    }
}

#[test]
fn stream_numbers_know_who_created_them() {
    assert!(StreamId(1).is_client_initiated());
    assert!(!StreamId(1).is_server_initiated());
    assert!(StreamId(2).is_server_initiated());
    assert!(!StreamId(2).is_client_initiated());
}

#[test]
fn role_knows_whether_it_is_the_server() {
    assert!(Role::Server.is_server());
    assert!(!Role::Client.is_server());
}
