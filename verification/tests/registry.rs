use webstreamer::registry::{plan_subscriptions, CreateRequest, SubRecord, Topic};

fn record(session: &str, topic: Topic, target: &str) -> SubRecord {
    SubRecord {
        session_id: session.to_string(),
        topic,
        target_user_id: target.to_string(),
    }
}

fn apply(calls: &[CreateRequest], session: &str) -> Vec<SubRecord> {
    let mut created = Vec::new();
    for call in calls {
        created.push(record(session, call.topic, &call.target_user_id));
    }
    created
}

#[test]
fn uncovered_target_gets_message_and_notification_pair() {
    let existing: Vec<SubRecord> = Vec::new();
    let calls = plan_subscriptions(&existing, &"S1".to_string(), &vec!["U1".to_string()]);
    assert_eq!(calls.len(), 2);
    assert!(matches!(calls[0].topic, Topic::ChatMessage));
    assert_eq!(calls[0].target_user_id, "U1".to_string());
    assert!(matches!(calls[1].topic, Topic::ChatNotification));
    assert_eq!(calls[1].target_user_id, "U1".to_string());
}

#[test]
fn resumed_session_with_enabled_pair_makes_no_calls() {
    // Session "S1" resumes with both subscriptions for "U1" still listed as
    // enabled under "S1": reconciliation must ask for nothing.
    let existing = vec![
        record("S1", Topic::ChatMessage, "U1"),
        record("S1", Topic::ChatNotification, "U1"),
    ];
    let calls = plan_subscriptions(&existing, &"S1".to_string(), &vec!["U1".to_string()]);
    assert_eq!(calls.len(), 0);
}

#[test]
fn single_enabled_entry_covers_its_target() {
    let existing = vec![record("S1", Topic::ChatMessage, "U1")];
    let calls = plan_subscriptions(&existing, &"S1".to_string(), &vec!["U1".to_string()]);
    assert_eq!(calls.len(), 0);
}

#[test]
fn entries_of_another_session_do_not_cover() {
    let existing = vec![
        record("S0", Topic::ChatMessage, "U1"),
        record("S0", Topic::ChatNotification, "U1"),
    ];
    let calls = plan_subscriptions(&existing, &"S1".to_string(), &vec!["U1".to_string()]);
    assert_eq!(calls.len(), 2);
}

#[test]
fn entries_of_another_target_do_not_cover() {
    let existing = vec![record("S1", Topic::ChatMessage, "U2")];
    let calls = plan_subscriptions(&existing, &"S1".to_string(), &vec!["U1".to_string()]);
    assert_eq!(calls.len(), 2);
}

#[test]
fn targets_are_planned_in_order() {
    let existing = vec![record("S1", Topic::ChatMessage, "U2")];
    let targets = vec!["U1".to_string(), "U2".to_string(), "U3".to_string()];
    let calls = plan_subscriptions(&existing, &"S1".to_string(), &targets);
    assert_eq!(calls.len(), 4);
    assert_eq!(calls[0].target_user_id, "U1".to_string());
    assert_eq!(calls[1].target_user_id, "U1".to_string());
    assert_eq!(calls[2].target_user_id, "U3".to_string());
    assert_eq!(calls[3].target_user_id, "U3".to_string());
}

#[test]
fn replanning_after_execution_asks_for_nothing() {
    // Idempotence on concrete values: execute the plan, list the created
    // records beside the old ones, replan the same targets.
    let existing = vec![record("S1", Topic::ChatMessage, "U2")];
    let session = "S1".to_string();
    let targets = vec!["U1".to_string(), "U2".to_string(), "U3".to_string()];
    let calls = plan_subscriptions(&existing, &session, &targets);
    let mut grown = clone_records(&existing);
    for rec in apply(&calls, "S1") {
        grown.push(rec);
    }
    let again = plan_subscriptions(&grown, &session, &targets);
    assert_eq!(again.len(), 0);
}

fn clone_records(records: &[SubRecord]) -> Vec<SubRecord> {
    let mut out = Vec::new();
    for r in records {
        out.push(record(&r.session_id, r.topic, &r.target_user_id));
    }
    out
}
