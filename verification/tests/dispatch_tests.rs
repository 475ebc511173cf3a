use catfacts::dispatch::{CycleAction, CycleReport, DispatchCycle, DispatchError};

fn expected_body(fact: &str) -> String {
    format!(
        "Hey there! You're receiving this message because you're subscribed to Cat Facts. \n\nDid you know {}?",
        fact
    )
}

/// Drives one full cycle: the fact and subscriber queries answer as
/// given, and send number `i` succeeds unless `i` is listed in
/// `failing`.  Returns the outcome and the recipients actually sent to.
fn drive(
    fact: Option<String>,
    subscribers: Option<Vec<String>>,
    failing: &[usize],
) -> (Result<CycleReport, DispatchError>, Vec<String>) {
    let mut cycle = DispatchCycle::new();
    let mut sent: Vec<String> = Vec::new();
    let mut sends: usize = 0;
    loop {
        match cycle.next_action() {
            CycleAction::FetchFact => {
                cycle = cycle.on_fact_result(fact.clone());
            }
            CycleAction::FetchSubscribers => {
                cycle = cycle.on_subscribers_result(subscribers.clone());
            }
            CycleAction::Send { recipient, body } => {
                assert_eq!(body, expected_body(fact.as_deref().unwrap()));
                sent.push(recipient);
                let ok = !failing.contains(&sends);
                sends += 1;
                cycle = cycle.on_send_result(ok);
            }
            CycleAction::Finish { report } => return (Ok(report), sent),
            CycleAction::Abort { error } => return (Err(error), sent),
        }
    }
}

fn subs(names: &[&str]) -> Option<Vec<String>> {
    Some(names.iter().map(|s| s.to_string()).collect())
}

#[test]
fn all_sends_succeed() {
    let (outcome, sent) = drive(Some("cats purr".into()), subs(&["a@x", "b@x", "c@x"]), &[]);
    assert_eq!(
        outcome,
        Ok(CycleReport { attempted: 3, succeeded: 3, failed: 0 })
    );
    assert_eq!(sent, vec!["a@x", "b@x", "c@x"]);
}

#[test]
fn failures_in_between_do_not_stop_the_batch() {
    // Five subscribers, sends 1 and 3 fail: still five attempts, in
    // order, and the three successes all happen.
    let (outcome, sent) = drive(
        Some("cats sleep a lot".into()),
        subs(&["a@x", "b@x", "c@x", "d@x", "e@x"]),
        &[1, 3],
    );
    assert_eq!(
        outcome,
        Ok(CycleReport { attempted: 5, succeeded: 3, failed: 2 })
    );
    assert_eq!(sent, vec!["a@x", "b@x", "c@x", "d@x", "e@x"]);
}

#[test]
fn every_send_failing_still_finishes() {
    let (outcome, sent) = drive(Some("f".into()), subs(&["a@x", "b@x"]), &[0, 1]);
    assert_eq!(
        outcome,
        Ok(CycleReport { attempted: 2, succeeded: 0, failed: 2 })
    );
    assert_eq!(sent.len(), 2);
}

#[test]
fn zero_subscribers_is_success_not_error() {
    let (outcome, sent) = drive(Some("cats land on their feet".into()), subs(&[]), &[]);
    assert_eq!(
        outcome,
        Ok(CycleReport { attempted: 0, succeeded: 0, failed: 0 })
    );
    assert!(sent.is_empty());
}

#[test]
fn fact_fetch_failure_aborts_with_zero_sends() {
    let (outcome, sent) = drive(None, subs(&["a@x", "b@x"]), &[]);
    assert_eq!(outcome, Err(DispatchError::DataFetchError));
    assert!(sent.is_empty());
}

#[test]
fn subscriber_fetch_failure_aborts_with_zero_sends() {
    let (outcome, sent) = drive(Some("cats dream".into()), None, &[]);
    assert_eq!(outcome, Err(DispatchError::DataFetchError));
    assert!(sent.is_empty());
}

#[test]
fn single_subscriber_single_send() {
    let (outcome, sent) = drive(Some("a cat fact".into()), subs(&["only@x"]), &[]);
    assert_eq!(
        outcome,
        Ok(CycleReport { attempted: 1, succeeded: 1, failed: 0 })
    );
    assert_eq!(sent, vec!["only@x"]);
}

#[test]
fn outcome_is_none_while_running() {
    let cycle = DispatchCycle::new();
    assert!(cycle.outcome().is_none());
    let cycle = cycle.on_fact_result(Some("f".into()));
    assert!(cycle.outcome().is_none());
}
