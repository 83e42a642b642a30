use mcp_extensions::wire::field_display;
use mcp_extensions::approval::{hold_request, Held, RequestContextView};
use mcp_extensions::crm::lead_labels;
use mcp_extensions::discovery::{stage_line, stage_plan, stages_body, user_line, user_plan};
use mcp_extensions::inputs::UserListInput;
use mcp_extensions::notes::note_rows;
use mcp_extensions::notes::NoteRow;
use mcp_extensions::partner::partner_labels;
use mcp_extensions::payload::Payload;
use mcp_extensions::sales::{invoice_labels, order_labels};
use mcp_extensions::crm::require_fields;
use mcp_extensions::wire::{wire_ids, wire_many2one, wire_many2one_id, wire_text, WireItem, WireValue};

#[test]
fn odoo_false_is_absent_text() {
    assert_eq!(wire_text(WireValue::Other), None);
    assert_eq!(wire_text(WireValue::Str("  ".to_string())), None);
    assert_eq!(wire_text(WireValue::Str(" Acme ".to_string())), Some(" Acme ".to_string()));
    assert_eq!(wire_text(WireValue::Int(3)), None);
}

#[test]
fn a_many2one_is_its_display_name_and_id() {
    let pair = WireValue::List(vec![WireItem::Int(7), WireItem::Str("New".to_string())]);
    assert_eq!(wire_many2one(&pair), Some("New".to_string()));
    assert_eq!(wire_many2one_id(&pair), Some(7));
    assert_eq!(wire_many2one(&WireValue::Other), None);
    assert_eq!(wire_many2one_id(&WireValue::List(vec![])), None);
}

#[test]
fn a_many2many_is_its_ids() {
    let ids = WireValue::List(vec![WireItem::Int(3), WireItem::Other, WireItem::Int(1)]);
    assert_eq!(wire_ids(&ids), vec![3, 1]);
    assert!(wire_ids(&WireValue::Other).is_empty());
}

#[test]
fn detail_labels_are_in_display_order() {
    assert_eq!(lead_labels()[0], ("name", "Subject"));
    assert_eq!(lead_labels().len(), 10);
    assert_eq!(partner_labels()[6], ("category_id", "Tags"));
    assert_eq!(order_labels()[4], ("amount_total", "Total"));
    assert_eq!(invoice_labels()[6], ("amount_residual", "Outstanding"));
}

#[test]
fn a_hold_opens_a_request_for_the_caller() {
    let ctx = RequestContextView {
        user_id: "u1".to_string(),
        session_id: "s1".to_string(),
        user: None,
        client_id: Some("cli".to_string()),
        trace_id: "t1".to_string(),
        act_chain: vec![],
    };
    let held = Held {
        call_id: "c1".to_string(),
        rule: "r1".to_string(),
        arguments: serde_json::Value::from(1),
        expiry_seconds: 600,
        server_name: "odoo".to_string(),
        tool_name: "crm_lead_delete".to_string(),
    };
    let req = hold_request(held, &ctx);
    assert_eq!(req.requested_by, "u1");
    assert_eq!(req.session_id.as_deref(), Some("s1"));
    assert_eq!(req.trace_id.as_deref(), Some("t1"));
    assert_eq!(req.expires_in_seconds, 600);
    assert_eq!(req.tool_name, "crm_lead_delete");
}

#[test]
fn an_update_must_write_something() {
    assert!(require_fields(&Payload::new()).is_err());
}

#[test]
fn note_bodies_become_plain_text_or_absent() {
    let row = |body: Option<&str>| NoteRow {
        id: 1,
        model: Some("crm.lead".to_string()),
        res_id: Some(3),
        record_name: None,
        author_id: None,
        date: None,
        message_type: None,
        body: body.map(str::to_string),
    };
    let rows = note_rows(vec![row(Some("<p>hi <b>there</b></p>")), row(Some("<br/>")), row(None)]);
    assert_eq!(rows.len(), 3);
    assert_eq!(rows[0].body.as_deref(), Some("hi there"));
    assert_eq!(rows[1].body, None);
    assert_eq!(rows[2].body, None);
    assert_eq!(rows[0].res_id, Some(3));
}

#[test]
fn discovery_reads_and_lines() {
    let stages = stage_plan();
    assert_eq!(stages.limit, 100);
    assert_eq!(stages.order, "sequence asc, id asc");
    let users = user_plan(&UserListInput { query: Some("ada".to_string()), limit: Some(500) });
    assert_eq!(users.limit, 100);
    assert_eq!(users.domain.terms.len(), 3);
    assert_eq!(stage_line("4", "Won", true), "- **[4] Won** — counts as won\n");
    assert_eq!(stage_line("1", "New", false), "- **[1] New**\n");
    assert_eq!(
        stages_body(&vec!["a\n".to_string(), "b\n".to_string()]),
        "Pipeline stages, in order:\n\na\nb\n"
    );
    assert_eq!(user_line("2", "Ada", "ada"), "- **[2] Ada** — `ada`\n");
}

#[test]
fn the_briefing_is_dated_by_the_clock() {
    let (plan, today, since, horizon) = mcp_extensions::overview::briefing_plan_now(7);
    for d in [&today, &since, &horizon] {
        assert_eq!(d.len(), 10);
        assert_eq!(&d[4..5], "-");
    }
    assert!(since < today);
    assert!(today < horizon);
    let day = |s: &str| chrono::NaiveDate::parse_from_str(s, "%Y-%m-%d").unwrap();
    assert_eq!((day(&today) - day(&since)).num_days(), 7);
    assert_eq!((day(&horizon) - day(&today)).num_days(), 7);
    assert_eq!(plan.activities.limit, 20);
    assert_eq!(plan.new_leads.model, "crm.lead");
}

#[test]
fn fields_read_as_display_text() {
    assert_eq!(field_display(&WireValue::Str("Acme".to_string())), "Acme");
    assert_eq!(field_display(&WireValue::Str("   ".to_string())), "—");
    assert_eq!(field_display(&WireValue::Int(-42)), "-42");
    assert_eq!(
        field_display(&WireValue::List(vec![WireItem::Int(3), WireItem::Str("Won".to_string())])),
        "Won"
    );
    assert_eq!(field_display(&WireValue::List(vec![WireItem::Int(3)])), "—");
    assert_eq!(field_display(&WireValue::Other), "—");
}
