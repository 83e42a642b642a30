use mcp_extensions::crm::listing_summary;
use mcp_extensions::outcome::{list_text, nothing_found};
use mcp_extensions::report::report_total_checked;
use std::collections::HashMap;

use mcp_extensions::activity::{
    activity_completed_summary, activity_create_plan, activity_feedback, activity_fields,
    activity_list_summary, activity_row, activity_scheduled_summary, activity_values, Assignee,
};
use mcp_extensions::calendar::{
    event_create_check, event_created_summary, event_row, event_values, normalize_datetime,
    stop_for, stop_from_shift,
};
use mcp_extensions::catalog::{
    annotation_for, list_tools, work_tools, Annotation, Effect, ALL_TOOLS, TOOL_LEAD_DELETE,
};
use mcp_extensions::crm::{
    convert_partner, lead_created_body, lead_deleted, lead_detail_body, lead_fields,
    lead_update_fields, lead_values, lost_note, lead_lost_summary, matched_summary,
    update_outcome,
};
use mcp_extensions::dispatch::{route_tool, shown_as_result, unknown_tool, CredentialFailure, Handler, OdooServer};
use mcp_extensions::inputs::{
    ActivityCompleteInput, ActivityCreateInput, CalendarEventCreateInput, LeadConvertInput,
    LeadCreateInput, LeadMarkLostInput, NoteAddInput, PartnerCreateInput, SaleOrderCreateInput,
    SaleOrderLineInput, TaskCreateInput,
};
use mcp_extensions::notes::{note_body, search_row, search_summary, thread_row};
use mcp_extensions::outcome::{list_body, ListBody, ToolError};
use mcp_extensions::overview::{
    briefing_dashboard, briefing_plan, overview_summary, pipeline_card, BriefingCounts, BriefingRows, SectionData,
};
use mcp_extensions::partner::{partner_created_body, partner_values};
use mcp_extensions::payload::{FieldValue, Payload, Scalar};
use mcp_extensions::report::{group_row, report_summary, report_total};
use mcp_extensions::sales::{line_item, sale_order_values, with_lines};
use mcp_extensions::tables::{decided_table, lead_table, order_table};
use mcp_extensions::tags::{attach_tag_names, tag_ids_of, tag_names};
use mcp_extensions::tasks::{task_create_plan, task_row, task_values};

/// The payload as `key=value` text.
fn render(p: &Payload) -> Vec<String> {
    p.entries
        .iter()
        .map(|(k, v)| {
            let v = match v {
                FieldValue::One(Scalar::Text(s)) => format!("{s:?}"),
                FieldValue::One(Scalar::Int(i)) => i.to_string(),
                FieldValue::One(Scalar::Bool(b)) => b.to_string(),
                FieldValue::One(Scalar::Json(j)) => j.to_string(),
                FieldValue::ReplaceIds(ids) => format!("[[6, 0, {ids:?}]]"),
                FieldValue::CreateEach(lines) => format!("{} line(s)", lines.len()),
            };
            format!("{k}={v}")
        })
        .collect()
}

fn invalid(e: ToolError) -> String {
    match e {
        ToolError::InvalidParams(m) => m,
        ToolError::Internal(m) => panic!("expected invalid params, got internal: {m}"),
    }
}

fn activity_input(summary: &str, user: Option<&str>, note: Option<&str>) -> ActivityCreateInput {
    ActivityCreateInput {
        model: "crm.lead".to_string(),
        res_id: 12,
        summary: summary.to_string(),
        date_deadline: " 2025-03-01 ".to_string(),
        user: user.map(str::to_string),
        note: note.map(str::to_string),
    }
}

#[test]
fn an_activity_needs_a_summary() {
    let err = activity_create_plan(&activity_input("   ", None, None)).err().unwrap();
    assert_eq!(invalid(err), "An activity summary is required — say what is to be done.");
}

#[test]
fn an_activity_is_for_the_named_user_or_the_caller() {
    let plan = activity_create_plan(&activity_input(" Call back ", Some(" bob "), None)).ok().unwrap();
    assert_eq!(plan.summary, "Call back");
    assert!(matches!(plan.assignee, Assignee::Named(ref n) if n == "bob"));
    let plan = activity_create_plan(&activity_input("Call back", Some("  "), None)).ok().unwrap();
    assert!(matches!(plan.assignee, Assignee::Caller));
}

#[test]
fn activity_values_carry_the_resolved_ids() {
    let input = activity_input("Call back", None, Some(" bring coffee "));
    let plan = activity_create_plan(&input).ok().unwrap();
    assert_eq!(
        render(&activity_values(&input, &plan, 5, 2, 9)),
        vec![
            "res_model_id=9",
            "res_model=\"crm.lead\"",
            "res_id=12",
            "summary=\"Call back\"",
            "date_deadline=\"2025-03-01\"",
            "user_id=5",
            "activity_type_id=2",
            "note=\"bring coffee\"",
        ]
    );
}

#[test]
fn activity_texts() {
    assert_eq!(
        activity_scheduled_summary(44, &activity_input("x", None, None), "ada"),
        "Scheduled activity 44 on crm.lead 12 for ada, due 2025-03-01"
    );
    assert_eq!(
        activity_scheduled_summary(44, &activity_input("x", Some("bob"), None), "ada"),
        "Scheduled activity 44 on crm.lead 12 for bob, due 2025-03-01"
    );
    assert_eq!(activity_list_summary(3), "3 activity(ies) assigned to you");
    assert_eq!(
        activity_row("Call", "Phone", "Acme", "crm.lead", "2025-03-01"),
        "- **Call** — Phone on Acme (crm.lead), due 2025-03-01"
    );
    assert_eq!(activity_fields().len(), 7);
    let done = ActivityCompleteInput { activity_id: 3, feedback: Some("  ".to_string()) };
    assert_eq!(activity_feedback(&done), "Done");
    let done = ActivityCompleteInput { activity_id: 3, feedback: Some(" went well ".to_string()) };
    assert_eq!(activity_feedback(&done), "went well");
    assert_eq!(
        activity_completed_summary(3, "ada"),
        "Activity 3 marked done by ada; feedback logged to the record's chatter"
    );
}

#[test]
fn a_task_needs_a_name_and_assigns_through_a_set() {
    let input = TaskCreateInput {
        name: "  ".to_string(),
        project: "Acme".to_string(),
        description: None,
        user: None,
        date_deadline: None,
    };
    assert_eq!(invalid(task_create_plan(&input).err().unwrap()), "A task name is required.");
    let input = TaskCreateInput {
        name: " Ship it ".to_string(),
        project: " Acme ".to_string(),
        description: Some("".to_string()),
        user: Some("bob".to_string()),
        date_deadline: Some("2025-04-01".to_string()),
    };
    let plan = task_create_plan(&input).ok().unwrap();
    assert_eq!(plan.assignee.as_deref(), Some("bob"));
    assert_eq!(
        render(&task_values(&input, &plan, 3, Some(8))),
        vec!["name=\"Ship it\"", "project_id=3", "user_ids=[[6, 0, [8]]]", "date_deadline=\"2025-04-01\""]
    );
    assert_eq!(
        mcp_extensions::tasks::task_created_summary(10, &plan.name, &input.project),
        "Created task 10 \"Ship it\" in Acme"
    );
    assert_eq!(
        task_row(5, "Ship", "Acme", "Doing", "2025-04-01", 2),
        "- **[5] Ship** — Acme · Doing · due 2025-04-01 · 2 assignee(s)"
    );
}

#[test]
fn lead_creation_writes_only_what_carries_text() {
    let input = LeadCreateInput {
        name: "Big deal".to_string(),
        partner_id: Some(4),
        partner_name: Some("  ".to_string()),
        email_from: Some(" a@b.c ".to_string()),
        phone: None,
        description: None,
    };
    assert_eq!(
        render(&lead_values(&input, Some(serde_json::Value::from(1200.5)))),
        vec!["name=\"Big deal\"", "partner_id=4", "email_from=\"a@b.c\"", "expected_revenue=1200.5"]
    );
    assert_eq!(
        lead_created_body(9, "Big deal", "ada"),
        "Created lead **[9] Big deal** in Odoo, owned by `ada`."
    );
    assert_eq!(lead_fields().len(), 10);
}

fn fields(keys: &[&str]) -> Payload {
    let mut p = Payload::new();
    for k in keys {
        p.push(k, FieldValue::One(Scalar::Json(serde_json::Value::from(1))));
    }
    p
}

#[test]
fn a_lead_update_writes_the_resolved_stage_in_key_order() {
    let p = lead_update_fields(fields(&["name", "user_id"]), &Some(" Won ".to_string()), Some(7)).ok().unwrap();
    assert_eq!(p.keys(), vec!["name", "stage_id", "user_id"]);
    assert_eq!(
        update_outcome("Updated Odoo lead", "lead", 3, &p, true).ok().unwrap(),
        "Updated Odoo lead 3 (name, stage_id, user_id)"
    );
}

#[test]
fn a_lead_update_refuses_an_unknown_stage_and_an_empty_write() {
    let err = lead_update_fields(fields(&[]), &Some("Nope".to_string()), None).err().unwrap();
    assert_eq!(
        invalid(err),
        "No pipeline stage named \"Nope\". Call crm_stage_list to see the stages this Odoo defines."
    );
    let err = lead_update_fields(fields(&[]), &None, None).err().unwrap();
    assert_eq!(invalid(err), "No fields to update — pass `stage`, or at least one field/value pair.");
}

#[test]
fn an_unacknowledged_write_is_an_internal_error() {
    match update_outcome("Updated task", "task", 4, &fields(&["name"]), false) {
        Err(ToolError::Internal(m)) => assert_eq!(m, "Odoo did not acknowledge the update to task 4."),
        _ => panic!("expected an internal error"),
    }
}

#[test]
fn closing_a_lead() {
    let input = LeadMarkLostInput { id: 5, reason: Some(" too pricey ".to_string()) };
    assert_eq!(lost_note(&input).as_deref(), Some("Marked lost: too pricey"));
    let (summary, body) = lead_lost_summary(&input, "ada");
    assert_eq!(summary, "Marked Odoo lead 5 lost as ada");
    assert_eq!(body, "Lead **[5]** is now **lost**, closed by `ada`.\n\nReason: too pricey");
    let quiet = LeadMarkLostInput { id: 5, reason: None };
    assert!(lost_note(&quiet).is_none());
    assert!(matches!(convert_partner(&LeadConvertInput { id: 1, partner_id: None }), Scalar::Bool(false)));
    assert!(matches!(convert_partner(&LeadConvertInput { id: 1, partner_id: Some(3) }), Scalar::Int(3)));
}

#[test]
fn deleting_a_lead() {
    let (deleted, summary, body) = lead_deleted(8, None, true, "ada").ok().unwrap();
    assert!(deleted.deleted);
    assert_eq!(summary, "Deleted Odoo lead 8 (\"untitled\") as ada — irreversible");
    assert!(body.starts_with("Permanently deleted lead **[8] untitled** from Odoo as `ada`."));
    match lead_deleted(8, None, false, "ada") {
        Err(ToolError::Internal(m)) => assert_eq!(m, "Odoo did not acknowledge deleting lead 8."),
        _ => panic!("expected an internal error"),
    }
}

#[test]
fn detail_bodies_append_the_description() {
    assert_eq!(lead_detail_body("a", &Some("b".to_string())), "a\n\nb");
    assert_eq!(lead_detail_body("a", &None), "a");
    assert_eq!(matched_summary(2, "lead"), "2 lead(s) matched in Odoo");
}

#[test]
fn a_quotation_needs_lines() {
    let err = sale_order_values(SaleOrderCreateInput { partner_id: 3, lines: vec![], origin: None }).err().unwrap();
    assert_eq!(invalid(err), "A quotation needs at least one line — pass `lines` with a `product_id`.");
    let lines = vec![
        SaleOrderLineInput { product_id: 1, quantity: Some(serde_json::Value::from(2)), price_unit: None },
        SaleOrderLineInput { product_id: 2, quantity: None, price_unit: Some(serde_json::Value::from(9.5)) },
    ];
    let p = sale_order_values(SaleOrderCreateInput { partner_id: 3, lines, origin: Some(" S001 ".to_string()) }).ok().unwrap();
    assert_eq!(render(&p), vec!["partner_id=3", "order_line=2 line(s)", "origin=\"S001\""]);
    match &p.entries[1].1 {
        FieldValue::CreateEach(lines) => {
            assert_eq!(lines[0].len(), 2);
            assert_eq!(lines[0][1].0, "product_uom_qty");
            assert_eq!(lines[1][1].0, "price_unit");
        },
        _ => panic!("expected order lines"),
    }
    assert_eq!(line_item("Desk", "2", "10", "20"), "- Desk — qty 2 @ 10 = 20\n");
    assert_eq!(with_lines("body", &vec!["- a\n".to_string()]), "body\n\n**Lines**\n\n- a\n");
    assert_eq!(with_lines("body", &vec![]), "body");
}

#[test]
fn datetimes_are_rewritten_into_odoos_form() {
    assert_eq!(normalize_datetime("2025-03-01T10:00:00Z"), "2025-03-01 10:00:00");
    assert_eq!(normalize_datetime(" 2025-03-01T10:00:00.123Z "), "2025-03-01 10:00:00");
    assert_eq!(normalize_datetime("2025-03-01 10:00:00"), "2025-03-01 10:00:00");
    let once = normalize_datetime("\t2025-12-31 23:59:59.5 \n");
    assert_eq!(once, "2025-12-31 23:59:59");
    assert_eq!(normalize_datetime(&once), once);
}

fn event(stop: Option<&str>, minutes: Option<i64>) -> CalendarEventCreateInput {
    CalendarEventCreateInput {
        name: " Demo ".to_string(),
        start: "2025-03-01T10:00:00Z".to_string(),
        stop: stop.map(str::to_string),
        duration_minutes: minutes,
        attendee_partner_ids: Some(vec![4, 5]),
        description: None,
        model: Some("crm.lead".to_string()),
        res_id: Some(12),
    }
}

#[test]
fn an_event_without_a_stop_runs_an_hour() {
    assert_eq!(stop_for(&event(None, None), "2025-03-01 10:00:00"), "2025-03-01 11:00:00");
    assert_eq!(stop_for(&event(None, Some(90)), "2025-03-01 10:00:00"), "2025-03-01 11:30:00");
    assert_eq!(
        stop_for(&event(Some("2025-03-01T12:00:00Z"), Some(90)), "2025-03-01 10:00:00"),
        "2025-03-01 12:00:00"
    );
    assert_eq!(stop_for(&event(None, None), "tomorrow"), "tomorrow");
    assert_eq!(stop_from_shift("s", None), "s");
}

#[test]
fn event_values_and_checks() {
    assert_eq!(
        render(&event_values(&event(None, None))),
        vec![
            "name=\"Demo\"",
            "start=\"2025-03-01 10:00:00\"",
            "stop=\"2025-03-01 11:00:00\"",
            "partner_ids=[[6, 0, [4, 5]]]",
            "res_model=\"crm.lead\"",
            "res_id=12",
        ]
    );
    let mut half = event(None, None);
    half.res_id = None;
    assert_eq!(
        invalid(event_create_check(&half).err().unwrap()),
        "To link the event to a record, give both model and res_id."
    );
    let mut untitled = event(None, None);
    untitled.name = " ".to_string();
    assert_eq!(invalid(event_create_check(&untitled).err().unwrap()), "An event title is required.");
    assert!(event_create_check(&event(None, None)).is_ok());
    assert_eq!(
        event_created_summary(7, &event(None, None), "ada"),
        "Created calendar event 7 \"Demo\" starting 2025-03-01 10:00:00, organised by ada"
    );
}

#[test]
fn an_event_row_clips_a_long_description() {
    let long = format!("<p>{}</p>", "d".repeat(170));
    let row = event_row(1, "Demo", "s", "e", "Room", 2, &Some(long));
    assert!(row.starts_with("- **[1] Demo** — s → e · Room · 2 attendee(s)\n  "));
    assert!(row.ends_with(&format!("{}…", "d".repeat(160))));
    assert_eq!(event_row(1, "Demo", "s", "e", "Room", 0, &None), "- **[1] Demo** — s → e · Room · 0 attendee(s)");
}

#[test]
fn notes() {
    let add = NoteAddInput { model: "crm.lead".to_string(), res_id: 1, body: "  ".to_string() };
    assert_eq!(invalid(note_body(&add).err().unwrap()), "A note body is required.");
    assert_eq!(thread_row("d", "a", "comment", &None), "- **d** — a (comment)\n  (empty note)");
    assert_eq!(
        thread_row("d", "a", "comment", &Some("<p>hi</p>".to_string())),
        "- **d** — a (comment)\n  hi"
    );
    assert_eq!(
        search_row("crm.lead", "3", "Acme", "d", "a", &Some("<b>renewal</b> due".to_string()), "renewal"),
        "- **crm.lead 3** — Acme · d by a\n  renewal due"
    );
    assert_eq!(search_summary(2, "%"), "2 recent note(s)");
    assert_eq!(search_summary(2, "renewal"), "2 note(s) mention \"renewal\"");
}

#[test]
fn partners() {
    let input = PartnerCreateInput {
        name: " Acme ".to_string(),
        email: Some("x@acme.test".to_string()),
        phone: None,
        mobile: Some("".to_string()),
        city: None,
        is_company: Some(true),
    };
    assert_eq!(
        render(&partner_values(&input).ok().unwrap()),
        vec!["name=\"Acme\"", "email=\"x@acme.test\"", "is_company=true"]
    );
    let nameless = PartnerCreateInput { name: "".to_string(), email: None, phone: None, mobile: None, city: None, is_company: None };
    assert_eq!(invalid(partner_values(&nameless).err().unwrap()), "A customer needs a name.");
    assert!(partner_created_body(4, "Acme", "ada").ends_with("Pass `partner_id: 4` to crm_lead_create so the lead is linked to this record."));
}

#[test]
fn reports() {
    assert_eq!(report_total(&vec![Some(3), None, Some(4)]), 7);
    assert_eq!(
        report_summary(7, 2, mcp_extensions::inputs::ReportGroupBy::User),
        "7 lead(s) across 2 group(s) by user_id"
    );
    assert_eq!(group_row("New", 3, "100.00"), "- **New** — 3 lead(s), expected revenue 100.00");
}

#[test]
fn tag_ids_are_distinct_and_ascending_and_names_attach() {
    let lists = vec![vec![5, 2], vec![], vec![2, 9, 5]];
    assert_eq!(tag_ids_of(&lists), vec![2, 5, 9]);
    let names: HashMap<i64, String> = tag_names(vec![(2, "hot".to_string()), (5, "old".to_string()), (5, "vip".to_string())]);
    let tags = attach_tag_names(&lists, &names);
    assert_eq!(tags[0], vec!["vip".to_string(), "hot".to_string()]);
    assert!(tags[1].is_empty());
    assert_eq!(tags[2], vec!["hot".to_string(), "vip".to_string()]);
}

#[test]
fn the_catalogue_lists_every_tool_once() {
    let tools = list_tools();
    assert_eq!(tools.len(), 38);
    let mut names: Vec<&str> = tools.iter().map(|t| t.name).collect();
    names.sort();
    let mut all: Vec<&str> = ALL_TOOLS.to_vec();
    all.sort();
    assert_eq!(names, all);
    assert_eq!(tools[0].name, "crm_lead_search");
    assert_eq!(work_tools().len(), 9);
    let delete = tools.iter().find(|t| t.name == TOOL_LEAD_DELETE).unwrap();
    assert!(delete.effect == Effect::Destructive);
    assert!(annotation_for(Effect::Destructive) == Some(Annotation::Destructive));
    assert!(annotation_for(Effect::ReadOnly) == Some(Annotation::ReadOnly));
    assert!(annotation_for(Effect::Write).is_none());
}

#[test]
fn routing_and_unknown_tools() {
    assert!(route_tool("note_add") == Some(Handler::NoteAdd));
    assert!(route_tool("crm_lead_delete") == Some(Handler::LeadDelete));
    assert!(route_tool("crm_lead_convert_to_opportunity") == Some(Handler::LeadConvert));
    assert!(route_tool("invoice_get") == Some(Handler::InvoiceGet));
    for name in ALL_TOOLS.iter() {
        assert!(route_tool(name).is_some(), "{} is not routed", name);
    }
    assert!(route_tool("nope").is_none());
    match unknown_tool("nope") {
        ToolError::InvalidParams(m) => {
            assert!(m.starts_with("Unknown tool: 'nope'. Available tools: crm_lead_search, crm_lead_get,"));
            assert!(m.ends_with("invoice_list, invoice_get."));
        },
        _ => panic!("expected invalid params"),
    }
    assert!(shown_as_result(CredentialFailure::NotLinked));
    assert!(!shown_as_result(CredentialFailure::Other));
    let server = OdooServer::new("svc-1");
    assert_eq!(server.display_name(), "Odoo (svc-1)");
}

#[test]
fn the_briefing_reads_and_dashboard() {
    let plan = briefing_plan(7, "2025-03-01", "2025-02-22", "2025-03-08");
    assert_eq!(plan.new_leads.limit, 25);
    assert_eq!(plan.tasks.order, "date_deadline asc");
    assert_eq!(plan.events.fields.len(), 6);
    let card = pipeline_card(None, None, "0.00");
    assert_eq!(card.title, "Unstaged");
    assert_eq!(card.value, "0 lead(s)");
    assert_eq!(card.subtitle, "Expected revenue 0.00");
    let counts = BriefingCounts { new_leads: 2, activities: 0, events: 0, tasks: 1, notes: 0 };
    let rows = BriefingRows {
        new_leads: vec!["lead 1", "lead 2"],
        activities: vec![],
        events: vec![],
        tasks: vec!["task 9"],
        notes: vec![],
    };
    let d = briefing_dashboard(vec![], rows);
    assert_eq!(d.title, "Odoo Business Overview");
    assert_eq!(d.sections.len(), 6);
    assert!(matches!(d.sections[0].data, SectionData::Text(ref t) if t == "No leads in the pipeline."));
    match &d.sections[1].data {
        SectionData::Table(columns, rows) => {
            assert_eq!(columns[0], "id");
            assert_eq!(columns.len(), 6);
            assert_eq!(rows, &vec!["lead 1", "lead 2"]);
        },
        _ => panic!("expected the new leads as a table"),
    }
    match &d.sections[4].data {
        SectionData::Table(_, rows) => assert_eq!(rows, &vec!["task 9"]),
        _ => panic!("expected the tasks as a table"),
    }
    assert_eq!(d.sections[1].title, "Leads created in the last 7 days");
    assert!(matches!(d.sections[2].data, SectionData::Text(ref t) if t == "Nothing due — your activity list is clear."));
    assert_eq!(d.sections[4].title, "Open tasks due in the next 7 days");
    assert_eq!(d.sections[5].order, 5);
    assert_eq!(
        overview_summary("ada", 4, &counts),
        "Odoo overview for ada: 4 stage(s), 2 new lead(s), 0 activity(ies) due, 0 event(s) today, 1 task(s) due this week, 0 recent note(s)"
    );
}

#[test]
fn tables_and_bodies() {
    let t = lead_table(vec![1, 2, 3]);
    assert_eq!(t.spec.title, "CRM Leads");
    assert_eq!(t.spec.columns.len(), 6);
    assert_eq!(t.rows, vec![1, 2, 3]);
    assert_eq!(t.spec.hints.as_ref().unwrap().page_size, 8);
    assert!(order_table(Vec::<u8>::new()).spec.hints.is_none());
    assert_eq!(decided_table(Vec::<u8>::new(), "Decided Approvals").spec.title, "Decided Approvals");
    assert!(matches!(list_body(&vec![], "leads"), ListBody::Nothing(ref w) if w == "leads"));
    assert!(matches!(list_body(&vec!["a".to_string(), "b".to_string()], "leads"), ListBody::Rows(ref r) if r == "a\nb"));
}

#[test]
fn empty_listings_say_so() {
    assert_eq!(nothing_found("channels"), "No channels found.");
    assert_eq!(list_text(&vec![], "notes"), "No notes found.");
    assert_eq!(list_text(&vec!["a".to_string(), "b".to_string()], "notes"), "a\nb");
    assert_eq!(listing_summary(0, "leads", "lead"), "No leads found.");
    assert_eq!(listing_summary(3, "quotations or orders", "order"), "3 order(s) matched in Odoo");
}

#[test]
fn report_totals_are_checked() {
    assert_eq!(report_total_checked(&vec![Some(2), None, Some(5)]), Some(7));
    assert_eq!(report_total_checked(&vec![]), Some(0));
    assert_eq!(report_total_checked(&vec![Some(i64::MAX), Some(1), Some(-5)]), None);
}
