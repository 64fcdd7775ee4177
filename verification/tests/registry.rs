use zenoh_grpc::registry::{ensure_owner, AccessError, HandleCounter, HandleTable, InflightTable, PluginRegistry};

#[test]
fn owner_check() {
    assert_eq!(ensure_owner("a", "a"), Ok(()));
    assert_eq!(ensure_owner("a", "b"), Err(AccessError::NotOwner));
    assert_eq!(ensure_owner("", "a"), Err(AccessError::NotOwner));
    assert_eq!(ensure_owner("ab", "a"), Err(AccessError::NotOwner));
}

#[test]
fn handles_count_up_from_one() {
    let mut c = HandleCounter::new();
    assert_eq!(c.alloc_handle(), 1);
    assert_eq!(c.alloc_handle(), 2);
    assert_eq!(c.alloc_handle(), 3);
}

#[test]
fn only_the_owner_may_use_a_handle() {
    let mut t = HandleTable::new();
    t.insert(7, "alice".to_string(), "pub-7");
    assert_eq!(t.get_owned(7, "alice"), Ok(&"pub-7"));
    assert_eq!(t.get_owned(7, "bob"), Err(AccessError::NotOwner));
    assert_eq!(t.get_owned(8, "alice"), Err(AccessError::NotFound));
}

#[test]
fn undeclare_by_another_client_is_refused_but_removes_the_entry() {
    let mut t = HandleTable::new();
    t.insert(1, "alice".to_string(), 10);
    t.insert(2, "alice".to_string(), 20);
    assert_eq!(t.remove_owned(1, "bob"), Err(AccessError::NotOwner));
    assert_eq!(t.get_owned(1, "alice"), Err(AccessError::NotFound));
    assert_eq!(t.remove_owned(2, "alice"), Ok(20));
    assert_eq!(t.remove_owned(2, "alice"), Err(AccessError::NotFound));
}

#[test]
fn cleanup_removes_everything_a_client_declared() {
    let mut r: PluginRegistry<&str, &str, &str, &str, &str> = PluginRegistry::new();
    let h1 = r.handles.alloc_handle();
    let h2 = r.handles.alloc_handle();
    let h3 = r.handles.alloc_handle();
    let h4 = r.handles.alloc_handle();
    r.publishers.insert(h1, "alice".into(), "p1");
    r.publishers.insert(h2, "bob".into(), "p2");
    r.subscribers.insert(h3, "alice".into(), "s3");
    r.queryables.insert(h4, "alice".into(), "q4");
    let q1 = r.inflight.register_query("alice".into(), h4, "query-a");
    let q2 = r.inflight.register_query("bob".into(), 99, "query-b");

    let cleanup = r.cleanup_client("alice");
    assert_eq!(cleanup.publishers, vec![(h1, "p1")]);
    assert_eq!(cleanup.subscribers, vec![(h3, "s3")]);
    assert_eq!(cleanup.queryables, vec![(h4, "q4")]);
    assert!(cleanup.queriers.is_empty());

    assert_eq!(r.publishers.get_owned(h1, "alice"), Err(AccessError::NotFound));
    assert_eq!(r.publishers.get_owned(h2, "bob"), Ok(&"p2"));
    assert!(r.inflight.get(q1).is_none());
    assert!(r.inflight.get(q2).is_some());
}

#[test]
fn cleanup_of_many_handles() {
    let mut t = HandleTable::new();
    for h in 0..50u64 {
        let owner = if h % 3 == 0 { "x" } else { "y" };
        t.insert(h, owner.to_string(), h * 10);
    }
    let mut removed = t.remove_owned_by("x");
    removed.sort();
    let expected: Vec<(u64, u64)> = (0..50u64).filter(|h| h % 3 == 0).map(|h| (h, h * 10)).collect();
    assert_eq!(removed, expected);
    assert_eq!(t.handles_owned_by("x"), Vec::<u64>::new());
    assert_eq!(t.handles_owned_by("y").len(), 33);
}

#[test]
fn replies_must_come_from_the_owner_through_the_queryable() {
    let mut t = InflightTable::new();
    let id = t.register_query("alice".into(), 5, "q");
    assert_eq!(id, 1);
    assert_eq!(t.check_reply(id, "alice", 5), Ok(&"q"));
    assert_eq!(t.check_reply(id, "bob", 5), Err(AccessError::NotOwner));
    assert_eq!(t.check_reply(id, "alice", 6), Err(AccessError::WrongQueryable));
    assert_eq!(t.check_reply(id + 1, "alice", 5), Err(AccessError::NotFound));
}

#[test]
fn undeclaring_a_queryable_drops_its_queries() {
    let mut r: PluginRegistry<(), (), &str, (), &str> = PluginRegistry::new();
    let h = r.handles.alloc_handle();
    let other = r.handles.alloc_handle();
    r.queryables.insert(h, "alice".into(), "qa");
    r.queryables.insert(other, "alice".into(), "qb");
    let q1 = r.inflight.register_query("alice".into(), h, "x");
    let q2 = r.inflight.register_query("alice".into(), other, "y");

    assert_eq!(r.undeclare_queryable(h, "bob"), Err(AccessError::NotOwner));
    assert!(r.inflight.get(q1).is_some());
    assert_eq!(r.undeclare_queryable(h, "alice"), Err(AccessError::NotFound));

    assert_eq!(r.undeclare_queryable(other, "alice"), Ok("qb"));
    assert!(r.inflight.get(q1).is_some());
    assert!(r.inflight.get(q2).is_none());
}
