use upload_sessions::id::SessionId;
use upload_sessions::state::upload::UploadState;
use upload_sessions::state::{
    bootstrap_upload, Expired, State, StateHandle, StateReq, UploadStateLease, IDLE_MILLIS,
    LEASE_MILLIS,
};

fn ids(expired: &[Expired<&'static str>]) -> Vec<(u128, &'static str)> {
    expired.iter().map(|e| (e.id.0, e.state)).collect()
}

#[test]
fn lease_and_idle_times() {
    assert_eq!(LEASE_MILLIS, 60_000);
    assert_eq!(IDLE_MILLIS, 24 * 3600 * 1000);
}

#[test]
fn a_state_rests_until_it_is_checked_out() {
    let mut table: State<&'static str> = State::new();
    assert_eq!(table.insert(1_000, SessionId(1), "one"), None);
    assert_eq!(table.insert(1_000, SessionId(2), "two"), None);
    assert_eq!(table.get(SessionId(1)), Some("one"));
    assert_eq!(table.get(SessionId(1)), None);
    assert_eq!(table.get(SessionId(3)), None);
    assert_eq!(table.get(SessionId(2)), Some("two"));
}

#[test]
fn inserting_twice_under_one_id_hands_the_first_back() {
    let mut table: State<&'static str> = State::new();
    assert_eq!(table.insert(0, SessionId(1), "old"), None);
    assert_eq!(table.insert(10, SessionId(1), "new"), Some("old"));
    let (expired, wake) = table.timeout_routine(60_001);
    assert!(expired.is_empty());
    assert_eq!(wake, 60_010);
    let (expired, _) = table.timeout_routine(60_011);
    assert_eq!(ids(&expired), vec![(1, "new")]);
}

#[test]
fn nothing_is_due_before_its_deadline() {
    let mut table: State<&'static str> = State::new();
    table.insert(1_000, SessionId(1), "one");
    let (expired, wake) = table.timeout_routine(1_000);
    assert!(expired.is_empty());
    assert_eq!(wake, 61_000);
    let (expired, wake) = table.timeout_routine(60_999);
    assert!(expired.is_empty());
    assert_eq!(wake, 61_000);
    assert_eq!(table.get(SessionId(1)), Some("one"));
}

#[test]
fn what_is_due_is_evicted_in_order_of_deadline() {
    let mut table: State<&'static str> = State::new();
    table.insert(3_000, SessionId(30), "third");
    table.insert(1_000, SessionId(10), "first");
    table.insert(2_000, SessionId(20), "second");
    table.insert(9_000, SessionId(90), "stays");
    let (expired, wake) = table.timeout_routine(63_000);
    assert_eq!(ids(&expired), vec![(10, "first"), (20, "second"), (30, "third")]);
    assert_eq!(wake, 69_000);
    assert_eq!(table.get(SessionId(10)), None);
    assert_eq!(table.get(SessionId(90)), Some("stays"));
}

#[test]
fn states_with_one_deadline_take_the_first_free_place() {
    let mut table: State<&'static str> = State::new();
    table.insert(500, SessionId(7), "a");
    table.insert(500, SessionId(3), "b");
    table.insert(500, SessionId(5), "c");
    assert_eq!(table.get(SessionId(3)), Some("b"));
    table.insert(500, SessionId(1), "d");
    let (expired, wake) = table.timeout_routine(60_500);
    assert_eq!(ids(&expired), vec![(7, "a"), (1, "d"), (5, "c")]);
    assert_eq!(wake, 60_500 + IDLE_MILLIS);
}

#[test]
fn an_empty_table_is_looked_at_again_in_a_day() {
    let mut table: State<u8> = State::new();
    let (expired, wake) = table.timeout_routine(5);
    assert!(expired.is_empty());
    assert_eq!(wake, 5 + 86_400_000);
}

#[test]
fn requests_are_served_as_insert_and_get() {
    let (handle, mut table) = StateHandle::start_new::<&'static str>();
    let req = handle.insert(SessionId(4), "four");
    assert!(matches!(req, StateReq::Insert(SessionId(4), "four")));
    assert_eq!(table.handle_req(100, req), None);
    assert_eq!(table.handle_req(200, StateReq::Insert(SessionId(4), "again")), Some("four"));
    assert_eq!(table.handle_req(300, StateReq::Get(SessionId(4))), Some("again"));
    assert_eq!(table.handle_req(400, StateReq::Get(SessionId(4))), None);
}

#[test]
fn a_lease_is_completed_or_released() {
    let lease = UploadStateLease::checkout(SessionId(8), Some(vec![1u8])).ok().unwrap();
    assert_eq!(lease.id(), SessionId(8));
    let mut lease = lease;
    lease.submit().push(2);
    match lease.release() {
        StateReq::Insert(id, state) => {
            assert_eq!(id, SessionId(8));
            assert_eq!(state, vec![1, 2]);
        }
        _ => panic!("a released lease goes back to rest"),
    }
    let lease = UploadStateLease::checkout(SessionId(9), Some("nine")).ok().unwrap();
    assert_eq!(lease.complete(), "nine");
}

#[test]
fn a_lease_on_nothing_is_not_found() {
    let refused = UploadStateLease::<u8>::checkout(SessionId(8), None).err().unwrap();
    assert_eq!(refused.status, 404);
    assert_eq!(refused.body, "");
}

#[test]
fn an_upload_state_is_spent_by_completion() {
    let mut state = UploadState::new(vec![0u8], "./data/x".to_string());
    assert!(state.is_open());
    state.submit().push(1);
    state.submit().push(2);
    assert_eq!(state.complete(), vec![0, 1, 2]);
    assert!(!state.is_open());
    assert_eq!(state.rollback(), None);
}

#[test]
fn an_upload_state_is_spent_by_rollback() {
    let mut state = UploadState::new("file", "./data/y".to_string());
    assert_eq!(state.rollback(), Some(("file", "./data/y".to_string())));
    assert!(!state.is_open());
    assert_eq!(state.rollback(), None);
}

#[test]
fn a_new_upload_is_named_by_id_and_path() {
    let (id, path) = bootstrap_upload();
    assert_eq!(path, format!("./data/{}", id.to_text()));
    let (other, _) = bootstrap_upload();
    assert_ne!(id, other);
}

#[test]
fn a_request_for_an_unknown_upload_is_not_found_and_changes_nothing() {
    let mut table: State<&'static str> = State::new();
    table.insert(1_000, SessionId(1), "one");
    let other = SessionId(2).to_text();
    for id in ["unknown-id", "", other.as_str()] {
        let refused = UploadStateLease::from_request_parts(&mut table, id).err().unwrap();
        assert_eq!(refused.status, 404);
        assert_eq!(refused.body, "");
    }
    let (expired, wake) = table.timeout_routine(1_000);
    assert!(expired.is_empty());
    assert_eq!(wake, 61_000);
    assert_eq!(table.get(SessionId(1)), Some("one"));
}

#[test]
fn a_request_for_a_resting_upload_gets_the_lease() {
    let mut table: State<&'static str> = State::new();
    table.insert(1_000, SessionId(1), "one");
    table.insert(2_000, SessionId(2), "two");
    let text = SessionId(1).to_text();
    let lease = UploadStateLease::from_request_parts(&mut table, &text).ok().unwrap();
    assert_eq!(lease.id(), SessionId(1));
    assert_eq!(lease.complete(), "one");
    assert!(UploadStateLease::from_request_parts(&mut table, &text).is_err());
    let (_, wake) = table.timeout_routine(1_000);
    assert_eq!(wake, 62_000);
}

#[test]
fn a_new_upload_gets_an_id_of_version_seven() {
    let (id, _) = bootstrap_upload();
    assert_eq!((id.0 >> 76) & 0xf, 7);
    assert_eq!((id.0 >> 62) & 0x3, 2);
}
