use mcp_extensions::approval::{
    approver_stamp, audit_record, derive_call_id, gate_milestones, gate_outcome, hex_string,
    record_hold, record_verdict, ChainResult, DecidedRequest, DecisionPrincipal, DecisionSubject,
    GateOutcome, HoldStage, RequestContextView, UserView, Verdict, WaitResult,
};
use mcp_extensions::approvals::{
    db_error_message, decided_summary, decision, history_summary, list_tools as approval_tools,
    pending_summary, resolve_limit as approval_limit, ApprovalDecideInput, ApprovalStatus,
};

fn decided(name: Option<&str>, note: Option<&str>) -> DecidedRequest {
    DecidedRequest {
        approver_id: Some("u-9".to_string()),
        approver_username: name.map(str::to_string),
        decided_at: Some("2025-01-01T00:00:00Z".to_string()),
        decision_note: note.map(str::to_string),
    }
}

fn ctx() -> RequestContextView {
    RequestContextView {
        user_id: "u1".to_string(),
        session_id: "s1".to_string(),
        user: Some(UserView { username: "ada".to_string(), roles: vec!["admin".to_string()] }),
        client_id: None,
        trace_id: "t1".to_string(),
        act_chain: vec![],
    }
}

#[test]
fn call_id_is_the_hex_sha256_of_the_call() {
    let id = derive_call_id("u1", "odoo", "crm_lead_search", "abc");
    assert_eq!(id, "b1e19610b6877c02e332642421fb3bb124cda03e141b527e0b1878013c06dce0");
}

#[test]
fn call_id_is_stable_across_rounds_and_moves_with_the_caller() {
    let a = derive_call_id("u1", "odoo", "crm_lead_search", "abc");
    let b = derive_call_id("u1", "odoo", "crm_lead_search", "abc");
    let c = derive_call_id("u2", "odoo", "crm_lead_search", "abc");
    assert_eq!(a, b);
    assert_ne!(a, c);
    assert_eq!(c, "d37625094995698d0a22aa1d38324abc338dc727aea8f26e1d21527c711b6c53");
    assert_eq!(a.len(), 64);
}

#[test]
fn hex_is_two_lower_case_digits_per_byte() {
    assert_eq!(hex_string(&[0x00, 0xab, 0x0f, 0xff]), "00ab0fff");
}

#[test]
fn a_call_not_held_proceeds() {
    assert!(matches!(gate_outcome("note_add", "c1", &HoldStage::NotHeld), GateOutcome::Proceed));
}

#[test]
fn an_approved_call_proceeds() {
    let stage = HoldStage::Opened(WaitResult::Approved(decided(Some("bo"), None)));
    assert!(matches!(gate_outcome("note_add", "c1", &stage), GateOutcome::Proceed));
}

#[test]
fn a_waiting_call_echoes_its_call_id() {
    let stage = HoldStage::Opened(WaitResult::StillPending);
    match gate_outcome("note_add", "c1", &stage) {
        GateOutcome::Held { request_state } => assert_eq!(request_state, "c1"),
        _ => panic!("expected a held outcome"),
    }
}

#[test]
fn a_denied_call_is_refused_naming_the_approver_and_reason() {
    let stage = HoldStage::Opened(WaitResult::Denied(decided(Some("bo"), Some("too risky"))));
    match gate_outcome("note_add", "c1", &stage) {
        GateOutcome::Refused { message } => {
            assert_eq!(message, "note_add was refused by bo. Reason: too risky")
        },
        _ => panic!("expected a refusal"),
    }
    let stage = HoldStage::Opened(WaitResult::Denied(decided(None, None)));
    match gate_outcome("note_add", "c1", &stage) {
        GateOutcome::Refused { message } => assert_eq!(message, "note_add was refused by an approver."),
        _ => panic!("expected a refusal"),
    }
}

#[test]
fn an_expired_or_unrecordable_hold_is_refused() {
    match gate_outcome("note_add", "c1", &HoldStage::Opened(WaitResult::Expired)) {
        GateOutcome::Refused { message } => {
            assert_eq!(message, "note_add required human approval and none was given in time.")
        },
        _ => panic!("expected a refusal"),
    }
    match gate_outcome("note_add", "c1", &HoldStage::StoreUnavailable) {
        GateOutcome::Refused { message } => assert_eq!(
            message,
            "This tool requires human approval, but the approval store is unavailable."
        ),
        _ => panic!("expected a refusal"),
    }
    match gate_outcome("note_add", "c1", &HoldStage::OpenFailed) {
        GateOutcome::Refused { message } => assert_eq!(
            message,
            "This tool requires human approval, but the request could not be recorded."
        ),
        _ => panic!("expected a refusal"),
    }
}

#[test]
fn an_answered_hold_leaves_two_milestones_and_a_waiting_one_leaves_one() {
    let approved = gate_milestones("r1", &HoldStage::Opened(WaitResult::Approved(decided(Some("bo"), None))));
    assert_eq!(approved.len(), 2);
    assert!(matches!(approved[0].verdict, Verdict::Pending { .. }));
    assert!(matches!(approved[1].verdict, Verdict::Allow));
    assert_eq!(approved[1].detail, "Approved by bo");
    assert!(matches!(approved[1].result, ChainResult::Pass));
    let stamp = approved[1].approver.as_ref().unwrap();
    assert_eq!(stamp.user_id, "u-9");
    assert_eq!(stamp.action, "approved");
    let denied = gate_milestones("r1", &HoldStage::Opened(WaitResult::Denied(decided(Some("cy"), None))));
    assert!(matches!(denied[0].result, ChainResult::Hold));
    assert!(matches!(denied[1].result, ChainResult::Fail));
    assert_eq!(denied[1].detail, "Refused by cy");
    match &denied[1].verdict {
        Verdict::Deny { detail } => assert_eq!(detail, "Refused by cy"),
        _ => panic!("expected a refusal"),
    }
    let waiting = gate_milestones("r1", &HoldStage::Opened(WaitResult::StillPending));
    assert_eq!(waiting.len(), 1);
    assert_eq!(waiting[0].detail, "Held for human approval by rule r1");
    assert!(gate_milestones("r1", &HoldStage::NotHeld).is_empty());
    assert!(gate_milestones("r1", &HoldStage::OpenFailed).is_empty());
}

#[test]
fn a_stamp_falls_back_to_an_approver() {
    let s = approver_stamp(&decided(None, None), "denied");
    assert_eq!(s.username, "an approver");
    assert_eq!(s.user_id, "u-9");
    assert_eq!(s.action, "denied");
    assert_eq!(s.decided_at, "2025-01-01T00:00:00Z");
    let undated = DecidedRequest { approver_id: None, approver_username: None, decided_at: None, decision_note: None };
    let s = approver_stamp(&undated, "approved");
    assert_eq!(s.user_id, "");
    assert!(s.decided_at.contains('T'));
}

#[test]
fn records_carry_the_call_the_principal_and_a_fresh_id() {
    let subject = DecisionSubject {
        call_id: "c1".to_string(),
        server_name: "odoo".to_string(),
        tool_name: "note_add".to_string(),
    };
    let hold = record_hold(&subject, DecisionPrincipal::from_request_context(&ctx()), "r1");
    assert_eq!(hold.call_id, "c1");
    assert_eq!(hold.policy_id, "require_approval");
    assert_eq!(hold.principal.roles, vec!["admin".to_string()]);
    assert!(matches!(hold.milestone.result, ChainResult::Hold));
    assert_eq!(hold.id.len(), 36);
    let stamp = approver_stamp(&decided(Some("bo"), None), "denied");
    let verdict = record_verdict(&subject, DecisionPrincipal::from_request_context(&ctx()), stamp, false);
    assert_eq!(verdict.milestone.detail, "Refused by bo");
    assert_eq!(verdict.policy_id, "require_approval");
    match &verdict.milestone.verdict {
        Verdict::Deny { detail } => assert_eq!(detail, "Refused by bo"),
        _ => panic!("expected a refusal"),
    }
    assert_ne!(hold.id, verdict.id);
    let audited = audit_record(&subject, &ctx(), mcp_extensions::approval::hold_milestone("r2"));
    assert_eq!(audited.principal.user_id, "u1");
    assert_eq!(audited.principal.trace_id.as_deref(), Some("t1"));
    let mut delegated = ctx();
    delegated.client_id = Some("cli-7".to_string());
    delegated.act_chain = vec!["agent-a".to_string(), "agent-b".to_string()];
    let audited = audit_record(&subject, &delegated, mcp_extensions::approval::hold_milestone("r2"));
    assert_eq!(audited.principal.client_id.as_deref(), Some("cli-7"));
    assert_eq!(audited.principal.act_chain, vec!["agent-a".to_string(), "agent-b".to_string()]);
}

#[test]
fn approval_page_size_is_clamped() {
    assert_eq!(approval_limit(None), 25);
    assert_eq!(approval_limit(Some(0)), 1);
    assert_eq!(approval_limit(Some(-5)), 1);
    assert_eq!(approval_limit(Some(500)), 200);
    assert_eq!(approval_limit(Some(40)), 40);
    assert_eq!(approval_limit(Some(approval_limit(Some(500)))), 200);
}

#[test]
fn approval_summaries_say_when_nothing_is_there() {
    assert_eq!(pending_summary(0), "No calls are held for approval.");
    assert_eq!(pending_summary(3), "3 call(s) held for approval");
    assert_eq!(history_summary(0), "No approval request has been decided yet.");
    assert_eq!(history_summary(2), "2 decided approval request(s)");
    assert_eq!(db_error_message("timeout"), "approval_requests query failed: timeout");
}

#[test]
fn a_decision_stamps_the_caller_and_keeps_a_real_note() {
    let input = ApprovalDecideInput { call_id: "c1".to_string(), approve: true, note: Some("  ".to_string()) };
    let d = decision(&input, "u1", &None);
    assert!(d.status == ApprovalStatus::Approved);
    assert_eq!(d.approver_username, "u1");
    assert!(d.note.is_none());
    let input = ApprovalDecideInput { call_id: "c1".to_string(), approve: false, note: Some(" no ".to_string()) };
    let d = decision(&input, "u1", &Some("ada".to_string()));
    assert!(d.status == ApprovalStatus::Denied);
    assert_eq!(d.approver_username, "ada");
    assert_eq!(d.note.as_deref(), Some("no"));
}

#[test]
fn a_decision_that_changed_nothing_says_so() {
    assert_eq!(decided_summary("c1", &Some("approved".to_string())), "c1 is now approved.");
    assert_eq!(
        decided_summary("c1", &None),
        "c1 could not be decided — it is no longer pending (already decided, expired, or unknown)."
    );
}

#[test]
fn the_systemprompt_server_lists_four_tools() {
    let tools = approval_tools("https://example.test");
    assert_eq!(tools.len(), 4);
    assert_eq!(tools[0].name, "systemprompt");
    assert!(tools[0].description.ends_with("Full documentation: https://example.test/docs"));
    assert!(tools[0].description.contains("Example: {\"command\": \"core skills list\"}"));
    assert_eq!(tools[2].name, "approval_decide");
    assert_eq!(tools[3].title, "Decided Approvals");
}
