use event_api::event::{Event, RepositoryError};
use event_api::handlers::{all_events, all_response, create_event, create_response, root};
use event_api::repository::{EventRepository, EventRepositoryForMemory};
use event_api::store::EventStore;

fn payload(name: &str, detail: &str) -> Event {
    Event::new(String::new(), name.to_string(), detail.to_string())
}

#[test]
fn event_new_keeps_fields() {
    let e = Event::new("7".to_string(), "onclick".to_string(), "hint-button".to_string());
    assert_eq!(e.uid, "7");
    assert_eq!(e.event_name, "onclick");
    assert_eq!(e.event_detail, "hint-button");
}

#[test]
fn post_button_click_answers_created() {
    let repo = EventRepositoryForMemory::new();
    let r = create_event(&repo, payload("button-click", "run-button"));
    let (code, e) = r.ok().unwrap();
    assert_eq!(code, 201);
    assert_eq!(e.event_name, "button-click");
    assert_eq!(e.event_detail, "run-button");
    assert_eq!(e.uid, "1");
}

#[test]
fn three_creates_are_listed_with_unique_ids() {
    let repo = EventRepositoryForMemory::new();
    for detail in ["run-button", "hint-button", "testcase-button"] {
        assert!(create_event(&repo, payload("onclick", detail)).is_ok());
    }
    let (code, events) = all_events(&repo).ok().unwrap();
    assert_eq!(code, 200);
    assert_eq!(events.len(), 3);
    let mut details: Vec<&str> = events.iter().map(|e| e.event_detail.as_str()).collect();
    details.sort();
    assert_eq!(details, vec!["hint-button", "run-button", "testcase-button"]);
    assert!(events.iter().all(|e| e.event_name == "onclick"));
    let mut ids: Vec<&str> = events.iter().map(|e| e.uid.as_str()).collect();
    ids.sort();
    ids.dedup();
    assert_eq!(ids, vec!["1", "2", "3"]);
}

#[test]
fn root_answers_greeting_whatever_is_stored() {
    assert_eq!(root(), "Hello World!!\n");
    let repo = EventRepositoryForMemory::new();
    repo.create(payload("a", "b")).ok().unwrap();
    assert_eq!(root(), "Hello World!!\n");
}

#[test]
fn create_then_all_holds_payload_once() {
    let repo = EventRepositoryForMemory::new();
    repo.create(payload("x", "first")).ok().unwrap();
    repo.create(payload("scroll", "page-end")).ok().unwrap();
    let events = repo.all().ok().unwrap();
    let n = events
        .iter()
        .filter(|e| e.event_name == "scroll" && e.event_detail == "page-end")
        .count();
    assert_eq!(n, 1);
}

#[test]
fn two_reads_agree() {
    let repo = EventRepositoryForMemory::new();
    repo.create(payload("a", "1")).ok().unwrap();
    repo.create(payload("b", "2")).ok().unwrap();
    let first = repo.all().ok().unwrap();
    let second = repo.all().ok().unwrap();
    assert_eq!(first.len(), second.len());
    for (x, y) in first.iter().zip(second.iter()) {
        assert_eq!(x.uid, y.uid);
        assert_eq!(x.event_name, y.event_name);
        assert_eq!(x.event_detail, y.event_detail);
    }
}

#[test]
fn many_creates_through_clones_get_distinct_ids() {
    let repo = EventRepositoryForMemory::new();
    let handles: Vec<EventRepositoryForMemory> = (0..4).map(|_| repo.clone()).collect();
    let mut returned: Vec<String> = Vec::new();
    for i in 0..12 {
        let h = &handles[i % 4];
        returned.push(h.create(payload("tick", &i.to_string())).ok().unwrap().uid);
    }
    let events = repo.all().ok().unwrap();
    assert_eq!(events.len(), 12);
    let mut ids: Vec<String> = events.iter().map(|e| e.uid.clone()).collect();
    ids.sort();
    ids.dedup();
    assert_eq!(ids.len(), 12);
    returned.sort();
    assert_eq!(returned, ids);
    assert!(returned.contains(&"10".to_string()));
    assert!(returned.contains(&"12".to_string()));
}

#[test]
fn ids_follow_creation_order_in_store() {
    let mut store = EventStore::new();
    for i in 0..11 {
        let e = store.create(payload("n", &i.to_string()));
        assert_eq!(e.uid, (i + 1).to_string());
    }
    let events = store.all();
    assert_eq!(events.len(), 11);
    assert_eq!(events[10].uid, "11");
    assert_eq!(events[10].event_detail, "10");
    assert_eq!(events[0].uid, "1");
}

#[test]
fn payload_uid_is_replaced_by_assigned_id() {
    let repo = EventRepositoryForMemory::new();
    let e = repo
        .create(Event::new("client-chosen".to_string(), "n".to_string(), "d".to_string()))
        .ok()
        .unwrap();
    assert_eq!(e.uid, "1");
}

#[test]
fn failed_creation_answers_not_found() {
    let r = create_response(Err(RepositoryError::Backend("connection dropped".to_string())));
    assert_eq!(r.err(), Some(404));
}

#[test]
fn failed_listing_answers_server_error() {
    let r = all_response(Err(RepositoryError::Backend("connection dropped".to_string())));
    assert_eq!(r.err(), Some(500));
}

#[test]
fn successful_responses_carry_values() {
    let e = Event::new("3".to_string(), "k".to_string(), "v".to_string());
    let (code, out) = create_response(Ok(e)).ok().unwrap();
    assert_eq!(code, 201);
    assert_eq!(out.uid, "3");
    let (code, list) = all_response(Ok(vec![])).ok().unwrap();
    assert_eq!(code, 200);
    assert!(list.is_empty());
}

#[test]
fn empty_store_lists_nothing() {
    let repo = EventRepositoryForMemory::new();
    assert!(repo.all().ok().unwrap().is_empty());
    assert!(EventStore::new().all().is_empty());
}

#[test]
fn row_maps_to_event() {
    let e = Event::from_row(1234, "onclick".to_string(), "run-button".to_string());
    assert_eq!(e.uid, "1234");
    assert_eq!(e.event_name, "onclick");
    assert_eq!(e.event_detail, "run-button");
    assert_eq!(Event::from_row(-42, String::new(), String::new()).uid, "-42");
    assert_eq!(Event::from_row(0, String::new(), String::new()).uid, "0");
    assert_eq!(Event::from_row(i64::MIN, String::new(), String::new()).uid, "-9223372036854775808");
}
