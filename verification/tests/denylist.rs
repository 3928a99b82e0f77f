//! The clock, and the durable denylist.

use wyrtloom_dashboard::state::{
    ensure_collections, now_unix, now_unix_checked, prune_revocations, revocation_status, revoke,
    seconds_or_zero, unix_seconds, RevocationRecord, RevocationStatus, StoreLookup,
    REVOKED_SESSIONS,
};

fn record(id: &str, exp_unix: Option<i64>) -> RevocationRecord {
    RevocationRecord { id: id.to_string(), exp_unix }
}

#[test]
fn clock_reads_seconds_since_the_epoch() {
    let expected = std::time::SystemTime::now()
        .duration_since(std::time::UNIX_EPOCH)
        .unwrap()
        .as_secs() as i64;
    let now = now_unix_checked().unwrap();
    assert!(now >= expected && now <= expected + 5);
    assert!(now_unix() >= now && now_unix() <= now + 5);
}

#[test]
fn clock_before_the_epoch_has_no_time() {
    assert_eq!(unix_seconds(None), None);
    assert_eq!(unix_seconds(Some(1_700_000_000)), Some(1_700_000_000));
    assert_eq!(unix_seconds(Some(u64::MAX)), Some(-1));
    assert_eq!(seconds_or_zero(None), 0);
    assert_eq!(seconds_or_zero(Some(-3)), -3);
}

#[test]
fn only_a_definite_miss_is_not_revoked() {
    assert_eq!(revocation_status(StoreLookup::Found), RevocationStatus::Revoked);
    assert_eq!(revocation_status(StoreLookup::NotFound), RevocationStatus::NotRevoked);
    assert_eq!(revocation_status(StoreLookup::Failed), RevocationStatus::Unknown);
}

#[test]
fn denylist_collection_is_indexed_by_expiry() {
    let collection = ensure_collections();
    assert_eq!(collection.name, "revoked_sessions");
    assert_eq!(collection.name, REVOKED_SESSIONS);
    assert_eq!(collection.indexed_fields, vec!["exp_unix"]);
}

#[test]
fn pruning_takes_expired_records_alone() {
    let records = vec![
        record("old", Some(99)),
        record("now", Some(100)),
        record("later", Some(101)),
        record("odd", None),
        record("older", Some(i64::MIN)),
    ];
    assert_eq!(prune_revocations(&records, 100), vec!["old", "older"]);
    assert!(prune_revocations(&records, i64::MIN).is_empty());
}

#[test]
fn revoking_prunes_and_puts() {
    let records = vec![record("old", Some(1)), record("live", Some(500))];
    let plan = revoke("n", 600, Some(&records), 100);
    assert_eq!(plan.delete, vec!["old"]);
    assert_eq!(plan.put.id, "n");
    assert_eq!(plan.put.exp_unix, Some(600));
    let plan = revoke("n", 600, None, 100);
    assert!(plan.delete.is_empty());
    assert_eq!(plan.put.id, "n");
}

#[test]
fn revocation_survives_later_logouts_until_expiry() {
    let mut denylist: Vec<RevocationRecord> = Vec::new();
    let logouts: [(&str, i64, i64); 4] =
        [("first", 1000, 10), ("second", 500, 400), ("third", 2000, 900), ("fourth", 3000, 1000)];
    for (nonce, exp_unix, now) in logouts {
        let plan = revoke(nonce, exp_unix, Some(&denylist), now);
        denylist.retain(|found| !plan.delete.contains(&found.id));
        denylist.push(plan.put);
        assert!(denylist.iter().any(|found| found.id == "first"), "at {now}");
    }
    let plan = revoke("fifth", 4000, Some(&denylist), 1001);
    assert_eq!(plan.delete, vec!["first"]);
}

#[test]
fn failed_writes_leave_live_revocations() {
    let mut denylist = vec![record("live", Some(1000)), record("old", Some(5))];
    // This logout prunes, and then fails to write its own record.
    let plan = revoke("unwritten", 900, Some(&denylist), 100);
    denylist.retain(|found| !plan.delete.contains(&found.id));
    let ids: Vec<&str> = denylist.iter().map(|found| found.id.as_str()).collect();
    assert_eq!(ids, vec!["live"]);
}

#[test]
fn one_reading_is_one_time() {
    for seconds in [0u64, 1, 1_700_000_000, i64::MAX as u64] {
        assert_eq!(unix_seconds(Some(seconds)), Some(seconds as i64));
        assert_eq!(seconds_or_zero(unix_seconds(Some(seconds))), seconds as i64);
    }
    assert_eq!(seconds_or_zero(unix_seconds(None)), 0);
}
