use rubrika_models::runtime_table::{
    clone_process, ManagedModelProcess, RuntimeTable, RUNTIME_STATE_SCHEMA_VERSION,
};

fn process(profile: &str, instance: Option<&str>, pid: u32) -> ManagedModelProcess {
    ManagedModelProcess {
        pid: Some(pid),
        started_by_app: true,
        profile_id: profile.to_string(),
        base_url: "http://127.0.0.1:8080".to_string(),
        log_path: format!("/tmp/{profile}.log"),
        started_at: Some("2024-01-01T00:00:00Z".to_string()),
        identity: None,
        runtime_instance_id: instance.map(|s| s.to_string()),
        runtime_profile_fingerprint: None,
        unverified: false,
    }
}

fn table(items: Vec<ManagedModelProcess>) -> RuntimeTable {
    let mut t = RuntimeTable::new();
    for p in items {
        t.push(p);
    }
    t
}

#[test]
fn lookup_by_profile_finds_the_first_record() {
    let t = table(vec![
        process("a", Some("r1"), 10),
        process("b", Some("r2"), 20),
        process("b", Some("r3"), 30),
    ]);
    assert_eq!(t.for_profile("b").unwrap().pid, Some(20));
    assert!(t.for_profile("c").is_none());
}

#[test]
fn lookup_by_instance_finds_the_record() {
    let t = table(vec![process("a", None, 10), process("b", Some("r2"), 20)]);
    assert_eq!(t.for_instance("r2").unwrap().profile_id, "b");
    assert!(t.for_instance("r1").is_none());
}

#[test]
fn removed_profile_is_not_found_and_others_stay_in_order() {
    let mut t = table(vec![
        process("a", Some("r1"), 10),
        process("b", Some("r2"), 20),
        process("c", Some("r3"), 30),
        process("b", Some("r4"), 40),
    ]);
    t.remove_profile("b");
    assert_eq!(t.len(), 2);
    assert!(t.for_profile("b").is_none());
    assert_eq!(t.for_profile("a").unwrap().pid, Some(10));
    assert_eq!(t.for_profile("c").unwrap().pid, Some(30));
}

#[test]
fn exited_instance_is_forgotten() {
    let mut t = table(vec![process("a", Some("r1"), 10), process("b", Some("r2"), 20)]);
    t.remove_instance("r1");
    assert_eq!(t.len(), 1);
    assert!(t.for_instance("r1").is_none());
    assert!(t.for_profile("b").is_some());
}

#[test]
fn unverified_flag_is_read_back() {
    let mut t = table(vec![process("a", Some("r1"), 10), process("a", Some("r2"), 20)]);
    t.set_unverified("a", true);
    let p = t.for_profile("a").unwrap();
    assert!(p.unverified);
    assert_eq!(p.pid, Some(10));
    assert!(!t.for_instance("r2").unwrap().unverified);
    t.set_unverified("missing", true);
    assert_eq!(t.len(), 2);
}

#[test]
fn empty_table_persists_nothing() {
    assert!(RuntimeTable::new().persisted().is_none());
}

#[test]
fn persisted_table_carries_schema_and_processes() {
    let t = table(vec![process("a", Some("r1"), 10)]);
    let (version, ps) = t.persisted().unwrap();
    assert_eq!(version, RUNTIME_STATE_SCHEMA_VERSION);
    assert_eq!(version, 2);
    assert_eq!(ps.len(), 1);
    assert_eq!(ps[0].profile_id, "a");
}

#[test]
fn restore_from_newer_schema_is_empty() {
    let t = RuntimeTable::restored(3, vec![process("a", None, 1)], None);
    assert_eq!(t.len(), 0);
}

#[test]
fn restore_adds_legacy_process_only_for_unlisted_profile() {
    let t = RuntimeTable::restored(1, vec![process("a", None, 1)], Some(process("b", None, 2)));
    assert_eq!(t.len(), 2);
    assert_eq!(t.for_profile("b").unwrap().pid, Some(2));
    let t = RuntimeTable::restored(2, vec![process("a", None, 1)], Some(process("a", None, 2)));
    assert_eq!(t.len(), 1);
    assert_eq!(t.for_profile("a").unwrap().pid, Some(1));
}

#[test]
fn clone_keeps_every_field() {
    let p = process("a", Some("r1"), 10);
    let c = clone_process(&p);
    assert_eq!(c.profile_id, p.profile_id);
    assert_eq!(c.pid, p.pid);
    assert_eq!(c.runtime_instance_id, p.runtime_instance_id);
    assert_eq!(c.log_path, p.log_path);
}
