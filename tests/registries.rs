use cloud_ws::registry::ConnectionRegistry;
use cloud_ws::workspaces::{Access, WorkspaceRegistry};

fn s(x: &str) -> String {
    x.to_string()
}

#[test]
fn insert_then_contains() {
    let mut reg: ConnectionRegistry<u32> = ConnectionRegistry::new();
    reg.insert(s("w1"), s("a"), 1);
    assert!(reg.contains(&s("w1"), &s("a")));
    assert!(!reg.contains(&s("w1"), &s("b")));
    assert!(!reg.contains(&s("w2"), &s("a")));
    assert_eq!(reg.len(), 1);
}

#[test]
fn insert_same_key_replaces_sender() {
    let mut reg: ConnectionRegistry<u32> = ConnectionRegistry::new();
    reg.insert(s("w1"), s("a"), 1);
    reg.insert(s("w1"), s("a"), 7);
    assert_eq!(reg.len(), 1);
    assert_eq!(reg.entry(0).sender, 7);
}

#[test]
fn remove_missing_key_is_noop() {
    let mut reg: ConnectionRegistry<u32> = ConnectionRegistry::new();
    reg.insert(s("w1"), s("a"), 1);
    reg.remove(&s("w1"), &s("zzz"));
    reg.remove(&s("w9"), &s("a"));
    assert_eq!(reg.len(), 1);
    assert!(reg.contains(&s("w1"), &s("a")));
}

#[test]
fn remove_is_idempotent() {
    let mut reg: ConnectionRegistry<u32> = ConnectionRegistry::new();
    reg.insert(s("w1"), s("a"), 1);
    reg.insert(s("w1"), s("b"), 2);
    reg.remove(&s("w1"), &s("a"));
    reg.remove(&s("w1"), &s("a"));
    assert!(!reg.contains(&s("w1"), &s("a")));
    assert!(reg.contains(&s("w1"), &s("b")));
    assert_eq!(reg.len(), 1);
}

#[test]
fn same_connection_id_in_two_workspaces_is_two_entries() {
    let mut reg: ConnectionRegistry<u32> = ConnectionRegistry::new();
    reg.insert(s("w1"), s("a"), 1);
    reg.insert(s("w2"), s("a"), 2);
    assert_eq!(reg.len(), 2);
    reg.remove(&s("w1"), &s("a"));
    assert!(reg.contains(&s("w2"), &s("a")));
}

#[test]
fn first_access_is_vacant_then_existing() {
    let mut reg: WorkspaceRegistry<u32> = WorkspaceRegistry::new();
    assert!(matches!(reg.access(&s("w1")), Access::Vacant));
    let r: Result<(), String> = reg.install(s("w1"), Ok(42));
    assert!(r.is_ok());
    match reg.access(&s("w1")) {
        Access::Existing(d) => assert_eq!(*d, 42),
        Access::Vacant => panic!("created twice"),
    }
    assert_eq!(reg.get(&s("w1")), Some(&42));
}

#[test]
fn failed_creation_registers_nothing() {
    let mut reg: WorkspaceRegistry<u32> = WorkspaceRegistry::new();
    let r = reg.install(s("w1"), Err(s("store down")));
    assert_eq!(r, Err(s("store down")));
    assert!(matches!(reg.access(&s("w1")), Access::Vacant));
    assert_eq!(reg.get(&s("w1")), None);
}

#[test]
fn exclusive_creation_counts_one_store_call() {
    let mut reg: WorkspaceRegistry<u32> = WorkspaceRegistry::new();
    let mut creations = 0;
    let mut handles = Vec::new();
    for _ in 0..5 {
        let h = match reg.access(&s("w1")) {
            Access::Existing(d) => *d,
            Access::Vacant => {
                creations += 1;
                reg.install(s("w1"), Ok::<u32, String>(9)).unwrap();
                9
            }
        };
        handles.push(h);
    }
    assert_eq!(creations, 1);
    assert!(handles.iter().all(|h| *h == 9));
}

#[test]
fn workspace_remove_untracks() {
    let mut reg: WorkspaceRegistry<u32> = WorkspaceRegistry::new();
    reg.install(s("w1"), Ok::<u32, String>(1)).unwrap();
    reg.install(s("w2"), Ok::<u32, String>(2)).unwrap();
    reg.remove(&s("w1"));
    assert_eq!(reg.get(&s("w1")), None);
    assert_eq!(reg.get(&s("w2")), Some(&2));
}
