use ava::approver::{
    approval_prompt, callback_answer, callback_handled, conclude_wait, decision_for_action,
    decision_text, format_nonce, handle_callback, parse_callback_data, wait_outcome,
    CallbackOutcome, PendingApprovals, WaitOutcome, APPROVAL_TIMEOUT_SECS,
};
use ava::error::Error;
use ava::tool::ApprovalDecision;
use tokio::sync::oneshot;

#[test]
fn resolving_an_unknown_nonce_changes_nothing() {
    let mut pending = PendingApprovals::new();
    let (tx, mut rx) = oneshot::channel();
    pending.register("0000002a", tx, 7);
    assert!(pending.resolve("deadbeef", ApprovalDecision::AllowOnce).is_none());
    assert!(pending.contains("0000002a"));
    assert_eq!(pending.len(), 1);
    assert_eq!(rx.try_recv(), Err(oneshot::error::TryRecvError::Empty));
}

#[test]
fn a_request_is_resolved_once() {
    let mut pending = PendingApprovals::new();
    let (tx, mut rx) = oneshot::channel();
    pending.register("0000002a", tx, 7);
    let delivery = pending.resolve("0000002a", ApprovalDecision::Deny).unwrap();
    assert_eq!(delivery.decision, ApprovalDecision::Deny);
    assert_eq!(rx.try_recv(), Err(oneshot::error::TryRecvError::Empty));
    assert!(delivery.send());
    assert_eq!(rx.try_recv(), Ok(ApprovalDecision::Deny));
    assert!(pending.resolve("0000002a", ApprovalDecision::AllowOnce).is_none());
    assert!(!pending.contains("0000002a"));
    assert_eq!(pending.len(), 0);
}

#[test]
fn expired_request_takes_no_late_answer() {
    let mut pending = PendingApprovals::new();
    let (tx, mut rx) = oneshot::channel();
    pending.register("aa", tx, 1);
    let (tx2, mut rx2) = oneshot::channel();
    pending.register("bb", tx2, 2);
    assert!(pending.expire("aa"));
    assert!(!pending.expire("aa"));
    assert!(pending.resolve("aa", ApprovalDecision::AllowOnce).is_none());
    assert_eq!(rx.try_recv(), Err(oneshot::error::TryRecvError::Closed));
    assert!(pending.contains("bb"));
    assert!(pending.resolve("bb", ApprovalDecision::AllowOnce).unwrap().send());
    assert_eq!(rx2.try_recv(), Ok(ApprovalDecision::AllowOnce));
}

#[test]
fn each_decision_goes_to_the_sender_of_its_request() {
    let mut pending = PendingApprovals::new();
    let (tx, mut rx) = oneshot::channel();
    let (tx2, mut rx2) = oneshot::channel();
    pending.register("aa", tx, 1);
    pending.register("bb", tx2, 2);
    assert!(pending.resolve("bb", ApprovalDecision::Deny).unwrap().send());
    assert_eq!(rx.try_recv(), Err(oneshot::error::TryRecvError::Empty));
    assert_eq!(rx2.try_recv(), Ok(ApprovalDecision::Deny));
    assert!(pending.resolve("aa", ApprovalDecision::AllowOnce).unwrap().send());
    assert_eq!(rx.try_recv(), Ok(ApprovalDecision::AllowOnce));
}

#[test]
fn decision_for_a_wait_that_has_ended_is_not_taken() {
    let mut pending = PendingApprovals::new();
    let (tx, rx) = oneshot::channel();
    pending.register("aa", tx, 1);
    drop(rx);
    assert!(!pending.resolve("aa", ApprovalDecision::AllowOnce).unwrap().send());
}

#[test]
fn registering_a_nonce_again_replaces_the_request() {
    let mut pending = PendingApprovals::new();
    let (tx, mut rx) = oneshot::channel();
    pending.register("aa", tx, 1);
    let (tx2, mut rx2) = oneshot::channel();
    pending.register("aa", tx2, 2);
    assert_eq!(pending.len(), 1);
    assert_eq!(rx.try_recv(), Err(oneshot::error::TryRecvError::Closed));
    assert_eq!(rx2.try_recv(), Err(oneshot::error::TryRecvError::Empty));
    let entry = pending.take("aa").unwrap();
    assert_eq!(entry.message_id, 2);
    assert_eq!(entry.nonce, "aa");
    assert!(pending.take("aa").is_none());
    assert_eq!(entry.sender.send(ApprovalDecision::Deny), Ok(()));
    assert_eq!(rx2.try_recv(), Ok(ApprovalDecision::Deny));
}

#[test]
fn timed_out_wait_fails_and_clears_the_request() {
    let mut pending = PendingApprovals::new();
    let (tx, _rx) = oneshot::channel();
    pending.register("0000002a", tx, 7);
    let (tx2, mut rx2) = oneshot::channel();
    pending.register("0000002b", tx2, 8);
    assert_eq!(APPROVAL_TIMEOUT_SECS, 300);
    let result = conclude_wait(&mut pending, "0000002a", "ls -la", wait_outcome(None));
    assert_eq!(result, Err(Error::ApprovalTimeout));
    assert!(!pending.contains("0000002a"));
    assert!(pending.contains("0000002b"));
    let late = handle_callback(&mut pending, "exec:0000002a:allow_once");
    assert!(matches!(late, CallbackOutcome::Expired));
    assert_eq!(callback_answer(&late), Some("this approval request has expired"));
    assert!(pending.resolve("0000002a", ApprovalDecision::AllowOnce).is_none());
    assert!(pending.contains("0000002b"));
    assert_eq!(rx2.try_recv(), Err(oneshot::error::TryRecvError::Empty));
}

#[test]
fn waits_end_in_three_ways() {
    assert_eq!(wait_outcome(None), WaitOutcome::TimedOut);
    assert_eq!(wait_outcome(Some(None)), WaitOutcome::Dropped);
    assert_eq!(
        wait_outcome(Some(Some(ApprovalDecision::Deny))),
        WaitOutcome::Decided(ApprovalDecision::Deny)
    );
}

#[test]
fn wait_outcomes() {
    let mut pending = PendingApprovals::new();
    let (tx, _rx) = oneshot::channel();
    pending.register("aa", tx, 7);
    assert_eq!(
        conclude_wait(&mut pending, "aa", "ls", WaitOutcome::Dropped),
        Err(Error::ApprovalTimeout)
    );
    assert!(pending.contains("aa"));
    assert_eq!(
        conclude_wait(
            &mut pending,
            "aa",
            "cargo test -- --nocapture",
            WaitOutcome::Decided(ApprovalDecision::AllowAlways { pattern: "rm *".into() })
        ),
        Ok(ApprovalDecision::AllowAlways { pattern: "cargo *".into() })
    );
    assert_eq!(
        conclude_wait(&mut pending, "aa", "ls", WaitOutcome::Decided(ApprovalDecision::Deny)),
        Ok(ApprovalDecision::Deny)
    );
    assert_eq!(
        conclude_wait(&mut pending, "aa", "ls", WaitOutcome::Decided(ApprovalDecision::AllowOnce)),
        Ok(ApprovalDecision::AllowOnce)
    );
}

#[test]
fn callback_payloads() {
    assert_eq!(
        parse_callback_data("exec:0000002a:allow_once"),
        Some(("0000002a".to_string(), "allow_once".to_string()))
    );
    assert_eq!(parse_callback_data("exec:n:a:b"), Some(("n".to_string(), "a:b".to_string())));
    assert_eq!(parse_callback_data("exec::"), Some((String::new(), String::new())));
    assert_eq!(parse_callback_data("exec:n"), None);
    assert_eq!(parse_callback_data("exec"), None);
    assert_eq!(parse_callback_data(""), None);
    assert_eq!(parse_callback_data("run:n:deny"), None);
    assert_eq!(decision_for_action("allow_once"), Some(ApprovalDecision::AllowOnce));
    assert_eq!(
        decision_for_action("allow_always"),
        Some(ApprovalDecision::AllowAlways { pattern: String::new() })
    );
    assert_eq!(decision_for_action("deny"), Some(ApprovalDecision::Deny));
    assert_eq!(decision_for_action("maybe"), None);
    assert_eq!(decision_text(&ApprovalDecision::AllowOnce), "approved (once)");
    assert_eq!(
        decision_text(&ApprovalDecision::AllowAlways { pattern: "x".into() }),
        "approved (always)"
    );
    assert_eq!(decision_text(&ApprovalDecision::Deny), "denied");
    assert_eq!(decision_text(&ApprovalDecision::AutoApproved), "auto-approved");
}

#[test]
fn callbacks_find_their_request() {
    let mut pending = PendingApprovals::new();
    let (tx, mut rx) = oneshot::channel();
    pending.register("0000002a", tx, 7);
    let (tx2, mut rx2) = oneshot::channel();
    pending.register("0000002b", tx2, 8);

    let ignored = handle_callback(&mut pending, "something else");
    assert!(matches!(ignored, CallbackOutcome::Ignored));
    assert!(!callback_handled(&ignored));
    assert_eq!(callback_answer(&ignored), None);

    let stale = handle_callback(&mut pending, "exec:deadbeef:deny");
    assert!(matches!(stale, CallbackOutcome::Expired));
    assert!(callback_handled(&stale));
    assert_eq!(callback_answer(&stale), Some("this approval request has expired"));
    assert!(pending.contains("0000002a"));

    let resolved = handle_callback(&mut pending, "exec:0000002a:allow_once");
    assert!(callback_handled(&resolved));
    assert_eq!(callback_answer(&resolved), None);
    assert!(!pending.contains("0000002a"));
    assert!(pending.contains("0000002b"));
    match resolved {
        CallbackOutcome::Resolved { message_id, note, delivery } => {
            assert_eq!(message_id, 7);
            assert_eq!(note, "-> approved (once)");
            assert_eq!(delivery.decision, ApprovalDecision::AllowOnce);
            assert!(delivery.send());
        }
        other => panic!("{:?}", other),
    }
    assert_eq!(rx.try_recv(), Ok(ApprovalDecision::AllowOnce));
    assert_eq!(rx2.try_recv(), Err(oneshot::error::TryRecvError::Empty));

    let again = handle_callback(&mut pending, "exec:0000002a:allow_once");
    assert!(matches!(again, CallbackOutcome::Expired));

    match handle_callback(&mut pending, "exec:0000002b:allow_always") {
        CallbackOutcome::Resolved { message_id, note, delivery } => {
            assert_eq!(message_id, 8);
            assert_eq!(note, "-> approved (always)");
            assert!(delivery.send());
        }
        other => panic!("{:?}", other),
    }
    assert_eq!(rx2.try_recv(), Ok(ApprovalDecision::AllowAlways { pattern: String::new() }));
    assert_eq!(pending.len(), 0);
}

#[test]
fn unknown_action_leaves_the_request_waiting() {
    let mut pending = PendingApprovals::new();
    let (tx, mut rx) = oneshot::channel();
    pending.register("aa", tx, 7);
    let outcome = handle_callback(&mut pending, "exec:aa:maybe");
    assert!(matches!(outcome, CallbackOutcome::UnknownAction));
    assert!(callback_handled(&outcome));
    assert_eq!(callback_answer(&outcome), Some("unknown action"));
    assert!(pending.contains("aa"));
    assert_eq!(rx.try_recv(), Err(oneshot::error::TryRecvError::Empty));
    assert!(matches!(
        handle_callback(&mut pending, "exec:bb:maybe"),
        CallbackOutcome::Expired
    ));
    match handle_callback(&mut pending, "exec:aa:deny") {
        CallbackOutcome::Resolved { message_id, note, delivery } => {
            assert_eq!(message_id, 7);
            assert_eq!(note, "-> denied");
            assert!(delivery.send());
        }
        other => panic!("{:?}", other),
    }
    assert_eq!(rx.try_recv(), Ok(ApprovalDecision::Deny));
    assert!(!pending.contains("aa"));
}

#[test]
fn nonces_are_eight_hex_digits() {
    assert_eq!(format_nonce(0), "00000000");
    assert_eq!(format_nonce(42), "0000002a");
    assert_eq!(format_nonce(0xdead_beef), "deadbeef");
    assert_eq!(format_nonce(u32::MAX), "ffffffff");
    assert_eq!(format_nonce(0x1234_5678), format!("{:08x}", 0x1234_5678u32));
}

#[test]
fn prompt_offers_three_actions() {
    let prompt = approval_prompt("ls -la", "0000002a");
    assert_eq!(prompt.text, "command: ls -la");
    assert_eq!(prompt.keyboard.inline_keyboard.len(), 1);
    let row = &prompt.keyboard.inline_keyboard[0];
    let shown: Vec<(&str, &str)> =
        row.iter().map(|b| (b.text.as_str(), b.callback_data.as_str())).collect();
    assert_eq!(
        shown,
        vec![
            ("allow once", "exec:0000002a:allow_once"),
            ("allow always", "exec:0000002a:allow_always"),
            ("deny", "exec:0000002a:deny"),
        ]
    );
    for button in row {
        let (nonce, action) = parse_callback_data(&button.callback_data).unwrap();
        assert_eq!(nonce, "0000002a");
        assert!(decision_for_action(&action).is_some());
    }
}

#[test]
fn prompt_for_a_command_with_credentials_has_no_allow_always() {
    let prompt = approval_prompt("echo $ANTHROPIC_API_KEY", "ab");
    assert_eq!(
        prompt.text,
        "command: echo $ANTHROPIC_API_KEY\n\u{26a0} references sensitive environment variables"
    );
    let row = &prompt.keyboard.inline_keyboard[0];
    let shown: Vec<&str> = row.iter().map(|b| b.text.as_str()).collect();
    assert_eq!(shown, vec!["allow once", "deny"]);
    assert_eq!(row[1].callback_data, "exec:ab:deny");
}
