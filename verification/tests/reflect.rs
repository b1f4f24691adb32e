use dynwatch::event::{observe, strip_event, Event, EventRecord};
use dynwatch::object::{Object, ResourceIdentity, Value};
use dynwatch::store::{reflect, Store};

fn ident(name: &str) -> ResourceIdentity {
    ResourceIdentity { namespace: Some("default".to_string()), name: name.to_string() }
}

fn obj(name: &str) -> Object {
    Object { identity: ident(name), managed_fields: None, content: Value::Null }
}

#[test]
fn applied_applied_deleted_leaves_exactly_b() {
    let mut store = Store::new();
    store.apply(Event::Applied(obj("a")));
    store.apply(Event::Applied(obj("b")));
    store.apply(Event::Deleted(obj("a")));
    assert_eq!(store.len(), 1);
    assert!(!store.contains(&ident("a")));
    assert_eq!(store.get(&ident("b")), Some(&obj("b")));
}

#[test]
fn restart_purges_entries_absent_from_the_list() {
    let mut store = Store::new();
    store.apply(Event::Applied(obj("a")));
    store.apply(Event::Applied(obj("b")));
    store.apply(Event::Restarted(vec![obj("b"), obj("c")]));
    assert_eq!(store.len(), 2);
    assert!(!store.contains(&ident("a")));
    assert_eq!(store.get(&ident("b")), Some(&obj("b")));
    assert_eq!(store.get(&ident("c")), Some(&obj("c")));
}

#[test]
fn restart_with_empty_list_empties_the_store() {
    let mut store = Store::new();
    store.apply(Event::Applied(obj("a")));
    store.apply(Event::Restarted(Vec::new()));
    assert_eq!(store.len(), 0);
    assert!(!store.contains(&ident("a")));
}

#[test]
fn apply_upserts_by_identity() {
    let mut store = Store::new();
    let old = Object { identity: ident("a"), managed_fields: None, content: Value::Int(1) };
    let new = Object { identity: ident("a"), managed_fields: None, content: Value::Int(2) };
    store.apply(Event::Applied(old));
    store.apply(Event::Applied(new));
    assert_eq!(store.len(), 1);
    let got = store.get(&ident("a")).unwrap();
    assert_eq!(got.content, Value::Int(2));
}

#[test]
fn delete_of_absent_identity_is_a_no_op() {
    let mut store = Store::new();
    store.apply(Event::Applied(obj("a")));
    store.apply(Event::Deleted(obj("b")));
    assert_eq!(store.len(), 1);
    assert!(store.contains(&ident("a")));
}

#[test]
fn namespace_distinguishes_identities() {
    let mut store = Store::new();
    let one = Object {
        identity: ResourceIdentity { namespace: Some("x".to_string()), name: "a".to_string() },
        managed_fields: None,
        content: Value::Null,
    };
    let two = Object {
        identity: ResourceIdentity { namespace: Some("y".to_string()), name: "a".to_string() },
        managed_fields: None,
        content: Value::Null,
    };
    store.apply(Event::Applied(one));
    store.apply(Event::Applied(two));
    assert_eq!(store.len(), 2);
}

#[test]
fn readers_walk_current_entries() {
    let mut store = Store::new();
    store.apply(Event::Applied(obj("a")));
    store.apply(Event::Applied(obj("b")));
    let names: Vec<String> =
        store.objects().iter().map(|o| o.identity.name.clone()).collect();
    assert_eq!(names, vec!["a".to_string(), "b".to_string()]);
}

fn bookkeeping() -> Option<Value> {
    Some(Value::Text("manager: kubectl".to_string()))
}

#[test]
fn strip_clears_bookkeeping_and_keeps_content() {
    let dirty = Object {
        identity: ident("a"),
        managed_fields: bookkeeping(),
        content: Value::Text("spec".to_string()),
    };
    let out = strip_event(Event::Applied(dirty));
    match out {
        Event::Applied(o) => {
            assert_eq!(o.managed_fields, None);
            assert_eq!(o.identity, ident("a"));
            assert_eq!(o.content, Value::Text("spec".to_string()));
        },
        _ => panic!("event kind changed"),
    }
}

#[test]
fn strip_covers_every_object_of_a_restart() {
    let dirty_a = Object {
        identity: ident("a"),
        managed_fields: bookkeeping(),
        content: Value::Int(1),
    };
    let dirty_b = Object {
        identity: ident("b"),
        managed_fields: bookkeeping(),
        content: Value::Int(2),
    };
    let out = strip_event(Event::Restarted(vec![dirty_a, dirty_b]));
    match out {
        Event::Restarted(l) => {
            assert_eq!(l.len(), 2);
            assert_eq!(l[0].managed_fields, None);
            assert_eq!(l[0].content, Value::Int(1));
            assert_eq!(l[1].managed_fields, None);
            assert_eq!(l[1].content, Value::Int(2));
        },
        _ => panic!("event kind changed"),
    }
}

#[test]
fn strip_passes_deleted_through() {
    let o = obj("a");
    let out = strip_event(Event::Deleted(o));
    assert_eq!(out, Event::Deleted(obj("a")));
}

#[test]
fn pipeline_trims_and_stores_in_one_step() {
    let mut store = Store::new();
    let dirty = Object {
        identity: ident("a"),
        managed_fields: bookkeeping(),
        content: Value::Int(7),
    };
    let rec = reflect(&mut store, Event::Applied(dirty));
    assert_eq!(rec, EventRecord::Applied);
    let got = store.get(&ident("a")).unwrap();
    assert_eq!(got.managed_fields, None);
    assert_eq!(got.content, Value::Int(7));
    let rec2 = reflect(&mut store, Event::Restarted(vec![obj("x"), obj("y")]));
    assert_eq!(rec2, EventRecord::Restarted(2));
    assert_eq!(store.len(), 2);
    assert!(!store.contains(&ident("a")));
}

#[test]
fn one_record_per_event_with_restart_count() {
    assert_eq!(observe(&Event::Applied(obj("a"))), EventRecord::Applied);
    assert_eq!(observe(&Event::Deleted(obj("a"))), EventRecord::Deleted);
    assert_eq!(
        observe(&Event::Restarted(vec![obj("a"), obj("b"), obj("c")])),
        EventRecord::Restarted(3)
    );
}
