use rijq::store::{FileSessionStore, MemorySessionStore, SessionStore};
use rijq::supervisor::{backoff_secs, select_address, ServerAddr, TransportError};

#[test]
fn empty_address_list_is_fatal() {
    let addrs: Vec<ServerAddr> = vec![];
    assert_eq!(select_address(&addrs), Err(TransportError::EmptyAddressList));
}

#[test]
fn single_address_is_selected() {
    let a = ServerAddr { ip: 0x7F000001, port: 8080 };
    let addrs = vec![a];
    assert_eq!(select_address(&addrs), Ok(a));
}

#[test]
fn selected_address_is_always_a_member() {
    let addrs = vec![
        ServerAddr { ip: 1, port: 1 },
        ServerAddr { ip: 2, port: 2 },
        ServerAddr { ip: 3, port: 3 },
    ];
    for _ in 0..50 {
        let got = select_address(&addrs).unwrap();
        assert!(addrs.contains(&got));
    }
}

#[test]
fn backoff_waits_one_through_five_then_saturates_at_six() {
    let waits: Vec<u64> = (1u64..=8).map(backoff_secs).collect();
    assert_eq!(waits, vec![1, 2, 3, 4, 5, 6, 6, 6]);
    assert_eq!(backoff_secs(1000), 6);
}

#[test]
fn memory_store_saves_loads_and_removes() {
    let mut s = MemorySessionStore::empty();
    assert_eq!(s.load_session(), Ok(None));
    s.save_session(vec![1, 2, 3]).unwrap();
    assert_eq!(s.load_session(), Ok(Some(vec![1, 2, 3])));
    s.save_session(vec![4]).unwrap();
    assert_eq!(s.load_session(), Ok(Some(vec![4])));
    s.remove_session().unwrap();
    assert_eq!(s.load_session(), Ok(None));
}

#[test]
fn removing_an_absent_record_is_not_an_error() {
    let mut s = MemorySessionStore::empty();
    assert!(s.remove_session().is_ok());
}

#[test]
fn boxed_file_store_keeps_its_path() {
    let b = FileSessionStore::boxed(String::from("rijq.session"));
    assert_eq!(b.path, "rijq.session");
}
