use mcp_extensions::domain::{
    activity_domain, invoice_domain, is_match_all, lead_domain, lead_order, order_domain,
    partner_domain, search_domain, task_domain, thread_domain, Domain, Operand, Term,
};
use mcp_extensions::inputs::{
    resolve_limit, ActivityListInput, InvoiceListInput, LeadSearchInput, LeadSort, NoteSearchInput,
    SaleOrderListInput, TaskListInput, DEFAULT_LIMIT, MAX_LIMIT,
};

/// A domain written out as text, one term per entry.
fn render(d: &Domain) -> Vec<String> {
    d.terms
        .iter()
        .map(|t| match t {
            Term::Or => "|".to_string(),
            Term::Cond { field, op, value } => {
                let v = match value {
                    Operand::Text(s) => format!("{s:?}"),
                    Operand::Int(i) => i.to_string(),
                    Operand::Bool(b) => b.to_string(),
                };
                format!("{field} {op} {v}")
            },
        })
        .collect()
}

fn lead_input() -> LeadSearchInput {
    LeadSearchInput { query: None, stage: None, user: None, limit: None, open_only: None, tag: None, sort: None }
}

#[test]
fn limit_defaults_and_caps() {
    assert_eq!(resolve_limit(None), DEFAULT_LIMIT);
    assert_eq!(resolve_limit(Some(0)), 1);
    assert_eq!(resolve_limit(Some(5000)), MAX_LIMIT);
    assert_eq!(resolve_limit(Some(7)), 7);
    assert_eq!(resolve_limit(Some(resolve_limit(Some(5000)))), MAX_LIMIT);
}

#[test]
fn an_empty_lead_search_has_no_conditions() {
    assert!(lead_domain(&lead_input()).terms.is_empty());
}

#[test]
fn a_lead_search_ors_the_text_fields_and_ands_the_rest() {
    let mut input = lead_input();
    input.query = Some("  acme ".to_string());
    input.stage = Some("Won".to_string());
    input.open_only = Some(true);
    input.tag = Some("   ".to_string());
    assert_eq!(
        render(&lead_domain(&input)),
        vec![
            "|",
            "|",
            "name ilike \"acme\"",
            "partner_name ilike \"acme\"",
            "email_from ilike \"acme\"",
            "stage_id.name ilike \"Won\"",
            "active = true",
            "stage_id.is_won = false",
        ]
    );
}

#[test]
fn lead_order_follows_the_sort() {
    let mut input = lead_input();
    assert_eq!(lead_order(&input), "create_date desc");
    input.sort = Some(LeadSort::Deadline);
    assert_eq!(lead_order(&input), "date_deadline asc, create_date desc");
}

#[test]
fn partner_search_matches_name_email_or_phone() {
    assert_eq!(
        render(&partner_domain("bob")),
        vec!["|", "|", "name ilike \"bob\"", "email ilike \"bob\"", "phone ilike \"bob\""]
    );
}

#[test]
fn activities_are_always_the_callers() {
    let input = ActivityListInput { model: Some(" crm.lead ".to_string()), overdue_only: Some(true), limit: None };
    assert_eq!(
        render(&activity_domain(7, &input, "2025-03-01")),
        vec!["user_id = 7", "res_model = \"crm.lead\"", "date_deadline < \"2025-03-01\""]
    );
    let bare = ActivityListInput { model: None, overdue_only: None, limit: None };
    assert_eq!(render(&activity_domain(7, &bare, "2025-03-01")), vec!["user_id = 7"]);
}

#[test]
fn invoices_are_always_customer_invoices() {
    let input = InvoiceListInput { partner_id: Some(4), unpaid_only: Some(true), date_from: None, date_to: Some("2025-12-31".to_string()), limit: None };
    assert_eq!(
        render(&invoice_domain(&input)),
        vec![
            "move_type = \"out_invoice\"",
            "partner_id = 4",
            "amount_residual > 0",
            "invoice_date <= \"2025-12-31\"",
        ]
    );
    let bare = InvoiceListInput { partner_id: None, unpaid_only: None, date_from: None, date_to: None, limit: None };
    assert_eq!(render(&invoice_domain(&bare)), vec!["move_type = \"out_invoice\""]);
}

#[test]
fn orders_filter_by_partner_state_and_dates() {
    let input = SaleOrderListInput { partner_id: None, state: Some("sale".to_string()), date_from: Some("2025-01-01".to_string()), date_to: None, limit: None };
    assert_eq!(
        render(&order_domain(&input)),
        vec!["state = \"sale\"", "date_order >= \"2025-01-01\""]
    );
}

#[test]
fn tasks_are_open_unless_asked_otherwise() {
    let input = TaskListInput { project: None, query: Some("deploy".to_string()), open_only: None, limit: None };
    assert_eq!(
        render(&task_domain(&input, Some(3))),
        vec!["project_id = 3", "name ilike \"%deploy%\"", "stage_id.fold = false"]
    );
    let all = TaskListInput { project: None, query: None, open_only: Some(false), limit: None };
    assert!(task_domain(&all, None).terms.is_empty());
}

#[test]
fn a_thread_is_one_records_messages() {
    assert_eq!(render(&thread_domain("crm.lead", 12)), vec!["model = \"crm.lead\"", "res_id = 12"]);
}

#[test]
fn a_match_all_query_reads_recent_comments() {
    assert!(is_match_all(" %% "));
    assert!(!is_match_all("%a%"));
    assert!(!is_match_all("   "));
    let input = NoteSearchInput { query: "%".to_string(), model: Some("crm.lead".to_string()), date_from: None, date_to: None, limit: None };
    assert_eq!(
        render(&search_domain(&input)),
        vec!["message_type = \"comment\"", "model = \"crm.lead\""]
    );
    let input = NoteSearchInput { query: " renewal ".to_string(), model: None, date_from: None, date_to: None, limit: None };
    assert_eq!(
        render(&search_domain(&input)),
        vec!["|", "body ilike \"%renewal%\"", "subject ilike \"%renewal%\""]
    );
}
