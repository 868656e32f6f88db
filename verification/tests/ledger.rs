use japonfou::ledger::SessionLedger;

#[test]
fn a_new_ledger_holds_no_session() {
    let ledger = SessionLedger::new();
    assert_eq!(ledger.check("alice"), None);
}

#[test]
fn a_created_session_is_found() {
    let mut ledger = SessionLedger::new();
    ledger.create("alice", 1_700_000_000);
    assert_eq!(ledger.check("alice"), Some(1_700_000_000));
    assert_eq!(ledger.check("bob"), None);
}

#[test]
fn a_new_login_replaces_the_session() {
    let mut ledger = SessionLedger::new();
    ledger.create("alice", 10);
    ledger.create("bob", 20);
    ledger.create("alice", 30);
    assert_eq!(ledger.check("alice"), Some(30));
    assert_eq!(ledger.check("bob"), Some(20));
}

#[test]
fn a_revoked_session_is_gone() {
    let mut ledger = SessionLedger::new();
    ledger.create("alice", 10);
    ledger.create("bob", 20);
    ledger.revoke("alice");
    assert_eq!(ledger.check("alice"), None);
    assert_eq!(ledger.check("bob"), Some(20));
}

#[test]
fn revoking_what_is_not_there_changes_nothing() {
    let mut ledger = SessionLedger::new();
    ledger.create("bob", 20);
    ledger.revoke("alice");
    ledger.revoke("alice");
    assert_eq!(ledger.check("bob"), Some(20));
    assert_eq!(ledger.check("alice"), None);
}

#[test]
fn a_session_can_be_created_again_after_it_was_revoked() {
    let mut ledger = SessionLedger::new();
    ledger.create("alice", 10);
    ledger.revoke("alice");
    ledger.create("alice", 40);
    assert_eq!(ledger.check("alice"), Some(40));
}
