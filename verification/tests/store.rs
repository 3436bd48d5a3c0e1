use mux_streams::{Key, State, Store, Stream, StreamId};

#[test]
fn new_stream_is_open_and_holds_nothing() {
    let s = Stream::new(StreamId(9));
    assert_eq!(s.id(), StreamId(9));
    assert!(!s.is_closed());
    assert!(!s.is_counted());
    assert!(!s.is_released());
    assert_eq!(s, Stream { id: StreamId(9), state: State::Open, counted: false, released: false });
}

#[test]
fn empty_store_knows_no_key_and_no_stream() {
    let store = Store::new();
    assert!(!store.contains(Key(0)));
    assert_eq!(store.find(StreamId(1)), None);
}

#[test]
fn insert_hands_out_keys_in_order_and_links_the_record() {
    let mut store = Store::new();
    let a = store.insert(Stream::new(StreamId(1)));
    let b = store.insert(Stream::new(StreamId(3)));
    assert_eq!(a, Key(0));
    assert_eq!(b, Key(1));
    assert!(store.contains(a));
    assert!(store.contains(b));
    assert!(!store.contains(Key(2)));
    assert!(store.is_linked(a));
    assert_eq!(store.id(a), StreamId(1));
    assert_eq!(store.id(b), StreamId(3));
    assert_eq!(store.find(StreamId(1)), Some(a));
    assert_eq!(store.find(StreamId(3)), Some(b));
    assert_eq!(store.find(StreamId(5)), None);
}

#[test]
fn handle_reads_what_the_record_says() {
    let mut store = Store::new();
    let key = store.insert(Stream { id: StreamId(4), state: State::Closed, counted: true, released: false });
    assert!(store.is_closed(key));
    assert!(store.is_counted(key));
    assert!(!store.is_released(key));
    assert_eq!(
        store.get(key),
        Stream { id: StreamId(4), state: State::Closed, counted: true, released: false }
    );
}

#[test]
fn close_and_release_change_one_field_each() {
    let mut store = Store::new();
    let key = store.insert(Stream { id: StreamId(2), state: State::Open, counted: true, released: false });
    store.close(key);
    assert_eq!(
        store.get(key),
        Stream { id: StreamId(2), state: State::Closed, counted: true, released: false }
    );
    assert!(store.is_linked(key));
    store.release(key);
    assert_eq!(
        store.get(key),
        Stream { id: StreamId(2), state: State::Closed, counted: true, released: true }
    );
    assert!(store.is_linked(key));
}

#[test]
fn set_replaces_the_record_and_keeps_its_place_in_the_index() {
    let mut store = Store::new();
    let key = store.insert(Stream::new(StreamId(2)));
    store.unlink(key);
    store.set(key, Stream { id: StreamId(6), state: State::Closed, counted: false, released: true });
    assert_eq!(store.id(key), StreamId(6));
    assert!(!store.is_linked(key));
    assert_eq!(store.find(StreamId(6)), None);
}

#[test]
fn unlink_hides_the_record_from_lookup_but_keeps_it() {
    let mut store = Store::new();
    let key = store.insert(Stream::new(StreamId(7)));
    store.unlink(key);
    assert!(store.contains(key));
    assert!(!store.is_linked(key));
    assert_eq!(store.find(StreamId(7)), None);
    assert_eq!(store.id(key), StreamId(7));
    store.unlink(key);
    assert!(store.contains(key));
    assert!(!store.is_linked(key));
}

#[test]
fn remove_frees_the_record_and_the_key_stays_dead() {
    let mut store = Store::new();
    let a = store.insert(Stream::new(StreamId(1)));
    let b = store.insert(Stream::new(StreamId(3)));
    store.unlink(a);
    store.remove(a);
    assert!(!store.contains(a));
    assert!(store.contains(b));
    assert_eq!(store.find(StreamId(3)), Some(b));
    let c = store.insert(Stream::new(StreamId(5)));
    assert_eq!(c, Key(2));
    assert!(!store.contains(a));
    assert!(store.contains(c));
}

#[test]
fn lookup_finds_the_first_linked_record_of_a_number() {
    let mut store = Store::new();
    let a = store.insert(Stream::new(StreamId(1)));
    let b = store.insert(Stream::new(StreamId(1)));
    assert_eq!(store.find(StreamId(1)), Some(a));
    store.unlink(a);
    assert_eq!(store.find(StreamId(1)), Some(b));
    store.unlink(b);
    assert_eq!(store.find(StreamId(1)), None);
}
