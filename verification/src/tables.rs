//! The layout of every table the tools return: which columns, in what
//! order, under which headers, and how the table opens.

use vstd::prelude::*;

use crate::fmt::owned;
use crate::table::{
    col, col_h, column, column_h, Column, ColumnType, SortOrder, Table, TableHints, TableHintsV,
    TableSpec, TableSpecV,
};

verus! {

/// The layout of `lead_table`.
pub open spec fn lead_table_spec() -> TableSpecV {
    TableSpecV {
        title: "CRM Leads"@,
        columns: seq![
            col("id"@, ColumnType::Integer),
            col_h("name"@, ColumnType::String, "Subject"@),
            col_h("stage_id"@, ColumnType::String, "Stage"@),
            col_h("user_id"@, ColumnType::String, "Salesperson"@),
            col_h("partner_name"@, ColumnType::String, "Contact"@),
            col_h("expected_revenue"@, ColumnType::Currency, "Expected revenue"@),
        ],
        hints: Some(TableHintsV { page_size: 8, filterable: true, sortable: seq!["id"@, "name"@, "stage_id"@, "user_id"@, "expected_revenue"@], default_sort: None }),
    }
}

pub fn lead_table<R>(rows: Vec<R>) -> (t: Table<R>)
    ensures
        t.spec@ == lead_table_spec(),
        t.rows@ == rows@,
{
    let mut columns: Vec<Column> = Vec::new();
    columns.push(column("id", ColumnType::Integer));
    columns.push(column_h("name", ColumnType::String, "Subject"));
    columns.push(column_h("stage_id", ColumnType::String, "Stage"));
    columns.push(column_h("user_id", ColumnType::String, "Salesperson"));
    columns.push(column_h("partner_name", ColumnType::String, "Contact"));
    columns.push(column_h("expected_revenue", ColumnType::Currency, "Expected revenue"));
    let mut sortable: Vec<String> = Vec::new();
    sortable.push(owned("id"));
    sortable.push(owned("name"));
    sortable.push(owned("stage_id"));
    sortable.push(owned("user_id"));
    sortable.push(owned("expected_revenue"));
    let hints = TableHints { page_size: 8, filterable: true, sortable, default_sort: None };
    let spec = TableSpec { title: owned("CRM Leads"), columns, hints: Some(hints) };
    proof {
        assert(spec@.columns =~= lead_table_spec().columns);
        assert(spec@.hints.unwrap().sortable =~= lead_table_spec().hints.unwrap().sortable);
    }
    Table { spec, rows }
}

/// The layout of `order_table`.
pub open spec fn order_table_spec() -> TableSpecV {
    TableSpecV {
        title: "Quotations & Orders"@,
        columns: seq![
            col("id"@, ColumnType::Integer),
            col_h("name"@, ColumnType::String, "Reference"@),
            col_h("partner_id"@, ColumnType::String, "Customer"@),
            col_h("state"@, ColumnType::String, "State"@),
            col_h("date_order"@, ColumnType::Date, "Ordered"@),
            col_h("amount_total"@, ColumnType::Currency, "Total"@),
            col_h("origin"@, ColumnType::String, "Source"@),
        ],
        hints: None,
    }
}

pub fn order_table<R>(rows: Vec<R>) -> (t: Table<R>)
    ensures
        t.spec@ == order_table_spec(),
        t.rows@ == rows@,
{
    let mut columns: Vec<Column> = Vec::new();
    columns.push(column("id", ColumnType::Integer));
    columns.push(column_h("name", ColumnType::String, "Reference"));
    columns.push(column_h("partner_id", ColumnType::String, "Customer"));
    columns.push(column_h("state", ColumnType::String, "State"));
    columns.push(column_h("date_order", ColumnType::Date, "Ordered"));
    columns.push(column_h("amount_total", ColumnType::Currency, "Total"));
    columns.push(column_h("origin", ColumnType::String, "Source"));
    let spec = TableSpec { title: owned("Quotations & Orders"), columns, hints: None };
    proof {
        assert(spec@.columns =~= order_table_spec().columns);
    }
    Table { spec, rows }
}

/// The layout of `invoice_table`.
pub open spec fn invoice_table_spec() -> TableSpecV {
    TableSpecV {
        title: "Customer Invoices"@,
        columns: seq![
            col("id"@, ColumnType::Integer),
            col_h("name"@, ColumnType::String, "Invoice"@),
            col_h("partner_id"@, ColumnType::String, "Customer"@),
            col_h("invoice_date"@, ColumnType::Date, "Invoiced"@),
            col_h("invoice_date_due"@, ColumnType::Date, "Due"@),
            col_h("payment_state"@, ColumnType::String, "Payment"@),
            col_h("amount_total"@, ColumnType::Currency, "Total"@),
            col_h("amount_residual"@, ColumnType::Currency, "Outstanding"@),
        ],
        hints: None,
    }
}

pub fn invoice_table<R>(rows: Vec<R>) -> (t: Table<R>)
    ensures
        t.spec@ == invoice_table_spec(),
        t.rows@ == rows@,
{
    let mut columns: Vec<Column> = Vec::new();
    columns.push(column("id", ColumnType::Integer));
    columns.push(column_h("name", ColumnType::String, "Invoice"));
    columns.push(column_h("partner_id", ColumnType::String, "Customer"));
    columns.push(column_h("invoice_date", ColumnType::Date, "Invoiced"));
    columns.push(column_h("invoice_date_due", ColumnType::Date, "Due"));
    columns.push(column_h("payment_state", ColumnType::String, "Payment"));
    columns.push(column_h("amount_total", ColumnType::Currency, "Total"));
    columns.push(column_h("amount_residual", ColumnType::Currency, "Outstanding"));
    let spec = TableSpec { title: owned("Customer Invoices"), columns, hints: None };
    proof {
        assert(spec@.columns =~= invoice_table_spec().columns);
    }
    Table { spec, rows }
}

/// The layout of `activity_table`.
pub open spec fn activity_table_spec() -> TableSpecV {
    TableSpecV {
        title: "Odoo Activities"@,
        columns: seq![
            col("id"@, ColumnType::Integer),
            col_h("summary"@, ColumnType::String, "Activity"@),
            col_h("activity_type_id"@, ColumnType::String, "Type"@),
            col_h("res_name"@, ColumnType::String, "On record"@),
            col_h("date_deadline"@, ColumnType::Date, "Due"@),
        ],
        hints: Some(TableHintsV { page_size: 8, filterable: true, sortable: seq!["date_deadline"@, "summary"@], default_sort: Some(("date_deadline"@, SortOrder::Asc)) }),
    }
}

pub fn activity_table<R>(rows: Vec<R>) -> (t: Table<R>)
    ensures
        t.spec@ == activity_table_spec(),
        t.rows@ == rows@,
{
    let mut columns: Vec<Column> = Vec::new();
    columns.push(column("id", ColumnType::Integer));
    columns.push(column_h("summary", ColumnType::String, "Activity"));
    columns.push(column_h("activity_type_id", ColumnType::String, "Type"));
    columns.push(column_h("res_name", ColumnType::String, "On record"));
    columns.push(column_h("date_deadline", ColumnType::Date, "Due"));
    let mut sortable: Vec<String> = Vec::new();
    sortable.push(owned("date_deadline"));
    sortable.push(owned("summary"));
    let hints = TableHints { page_size: 8, filterable: true, sortable, default_sort: Some((owned("date_deadline"), SortOrder::Asc)) };
    let spec = TableSpec { title: owned("Odoo Activities"), columns, hints: Some(hints) };
    proof {
        assert(spec@.columns =~= activity_table_spec().columns);
        assert(spec@.hints.unwrap().sortable =~= activity_table_spec().hints.unwrap().sortable);
    }
    Table { spec, rows }
}

/// The layout of `task_table`.
pub open spec fn task_table_spec() -> TableSpecV {
    TableSpecV {
        title: "Odoo Tasks"@,
        columns: seq![
            col("id"@, ColumnType::Integer),
            col_h("name"@, ColumnType::String, "Task"@),
            col_h("project_id"@, ColumnType::String, "Project"@),
            col_h("stage_id"@, ColumnType::String, "Stage"@),
            col_h("date_deadline"@, ColumnType::Date, "Due"@),
        ],
        hints: Some(TableHintsV { page_size: 8, filterable: true, sortable: seq!["date_deadline"@, "name"@], default_sort: Some(("date_deadline"@, SortOrder::Asc)) }),
    }
}

pub fn task_table<R>(rows: Vec<R>) -> (t: Table<R>)
    ensures
        t.spec@ == task_table_spec(),
        t.rows@ == rows@,
{
    let mut columns: Vec<Column> = Vec::new();
    columns.push(column("id", ColumnType::Integer));
    columns.push(column_h("name", ColumnType::String, "Task"));
    columns.push(column_h("project_id", ColumnType::String, "Project"));
    columns.push(column_h("stage_id", ColumnType::String, "Stage"));
    columns.push(column_h("date_deadline", ColumnType::Date, "Due"));
    let mut sortable: Vec<String> = Vec::new();
    sortable.push(owned("date_deadline"));
    sortable.push(owned("name"));
    let hints = TableHints { page_size: 8, filterable: true, sortable, default_sort: Some((owned("date_deadline"), SortOrder::Asc)) };
    let spec = TableSpec { title: owned("Odoo Tasks"), columns, hints: Some(hints) };
    proof {
        assert(spec@.columns =~= task_table_spec().columns);
        assert(spec@.hints.unwrap().sortable =~= task_table_spec().hints.unwrap().sortable);
    }
    Table { spec, rows }
}

/// The layout of `event_table`.
pub open spec fn event_table_spec() -> TableSpecV {
    TableSpecV {
        title: "Odoo Calendar"@,
        columns: seq![
            col("id"@, ColumnType::Integer),
            col_h("name"@, ColumnType::String, "Event"@),
            col_h("start"@, ColumnType::String, "Starts"@),
            col_h("location"@, ColumnType::String, "Where"@),
        ],
        hints: Some(TableHintsV { page_size: 8, filterable: false, sortable: seq!["start"@], default_sort: Some(("start"@, SortOrder::Asc)) }),
    }
}

pub fn event_table<R>(rows: Vec<R>) -> (t: Table<R>)
    ensures
        t.spec@ == event_table_spec(),
        t.rows@ == rows@,
{
    let mut columns: Vec<Column> = Vec::new();
    columns.push(column("id", ColumnType::Integer));
    columns.push(column_h("name", ColumnType::String, "Event"));
    columns.push(column_h("start", ColumnType::String, "Starts"));
    columns.push(column_h("location", ColumnType::String, "Where"));
    let mut sortable: Vec<String> = Vec::new();
    sortable.push(owned("start"));
    let hints = TableHints { page_size: 8, filterable: false, sortable, default_sort: Some((owned("start"), SortOrder::Asc)) };
    let spec = TableSpec { title: owned("Odoo Calendar"), columns, hints: Some(hints) };
    proof {
        assert(spec@.columns =~= event_table_spec().columns);
        assert(spec@.hints.unwrap().sortable =~= event_table_spec().hints.unwrap().sortable);
    }
    Table { spec, rows }
}

/// The layout of `note_search_table`.
pub open spec fn note_search_table_spec() -> TableSpecV {
    TableSpecV {
        title: "Odoo Chatter"@,
        columns: seq![
            col_h("record_name"@, ColumnType::String, "Record"@),
            col_h("model"@, ColumnType::String, "Model"@),
            col_h("author_id"@, ColumnType::String, "Author"@),
            col_h("date"@, ColumnType::String, "When"@),
            col_h("body"@, ColumnType::String, "Note"@),
        ],
        hints: Some(TableHintsV { page_size: 8, filterable: true, sortable: seq!["date"@, "record_name"@], default_sort: Some(("date"@, SortOrder::Desc)) }),
    }
}

pub fn note_search_table<R>(rows: Vec<R>) -> (t: Table<R>)
    ensures
        t.spec@ == note_search_table_spec(),
        t.rows@ == rows@,
{
    let mut columns: Vec<Column> = Vec::new();
    columns.push(column_h("record_name", ColumnType::String, "Record"));
    columns.push(column_h("model", ColumnType::String, "Model"));
    columns.push(column_h("author_id", ColumnType::String, "Author"));
    columns.push(column_h("date", ColumnType::String, "When"));
    columns.push(column_h("body", ColumnType::String, "Note"));
    let mut sortable: Vec<String> = Vec::new();
    sortable.push(owned("date"));
    sortable.push(owned("record_name"));
    let hints = TableHints { page_size: 8, filterable: true, sortable, default_sort: Some((owned("date"), SortOrder::Desc)) };
    let spec = TableSpec { title: owned("Odoo Chatter"), columns, hints: Some(hints) };
    proof {
        assert(spec@.columns =~= note_search_table_spec().columns);
        assert(spec@.hints.unwrap().sortable =~= note_search_table_spec().hints.unwrap().sortable);
    }
    Table { spec, rows }
}

/// The layout of `note_thread_table`.
pub open spec fn note_thread_table_spec() -> TableSpecV {
    TableSpecV {
        title: "Odoo Chatter"@,
        columns: seq![
            col_h("date"@, ColumnType::String, "When"@),
            col_h("author_id"@, ColumnType::String, "Author"@),
            col_h("message_type"@, ColumnType::String, "Kind"@),
            col_h("body"@, ColumnType::String, "Note"@),
        ],
        hints: Some(TableHintsV { page_size: 8, filterable: false, sortable: seq!["date"@], default_sort: Some(("date"@, SortOrder::Desc)) }),
    }
}

pub fn note_thread_table<R>(rows: Vec<R>) -> (t: Table<R>)
    ensures
        t.spec@ == note_thread_table_spec(),
        t.rows@ == rows@,
{
    let mut columns: Vec<Column> = Vec::new();
    columns.push(column_h("date", ColumnType::String, "When"));
    columns.push(column_h("author_id", ColumnType::String, "Author"));
    columns.push(column_h("message_type", ColumnType::String, "Kind"));
    columns.push(column_h("body", ColumnType::String, "Note"));
    let mut sortable: Vec<String> = Vec::new();
    sortable.push(owned("date"));
    let hints = TableHints { page_size: 8, filterable: false, sortable, default_sort: Some((owned("date"), SortOrder::Desc)) };
    let spec = TableSpec { title: owned("Odoo Chatter"), columns, hints: Some(hints) };
    proof {
        assert(spec@.columns =~= note_thread_table_spec().columns);
        assert(spec@.hints.unwrap().sortable =~= note_thread_table_spec().hints.unwrap().sortable);
    }
    Table { spec, rows }
}

/// The layout of `stage_table`.
pub open spec fn stage_table_spec() -> TableSpecV {
    TableSpecV {
        title: "Pipeline Stages"@,
        columns: seq![
            col("id"@, ColumnType::Integer),
            col_h("name"@, ColumnType::String, "Stage"@),
            col_h("is_won"@, ColumnType::Boolean, "Counts as won"@),
        ],
        hints: None,
    }
}

pub fn stage_table<R>(rows: Vec<R>) -> (t: Table<R>)
    ensures
        t.spec@ == stage_table_spec(),
        t.rows@ == rows@,
{
    let mut columns: Vec<Column> = Vec::new();
    columns.push(column("id", ColumnType::Integer));
    columns.push(column_h("name", ColumnType::String, "Stage"));
    columns.push(column_h("is_won", ColumnType::Boolean, "Counts as won"));
    let spec = TableSpec { title: owned("Pipeline Stages"), columns, hints: None };
    proof {
        assert(spec@.columns =~= stage_table_spec().columns);
    }
    Table { spec, rows }
}

/// The layout of `pending_table`.
pub open spec fn pending_table_spec() -> TableSpecV {
    TableSpecV {
        title: "Held Calls"@,
        columns: seq![
            col_h("call_id"@, ColumnType::String, "Call"@),
            col_h("tool_name"@, ColumnType::String, "Tool"@),
            col_h("server_name"@, ColumnType::String, "Server"@),
            col_h("requested_by"@, ColumnType::String, "Requested by"@),
            col_h("rule"@, ColumnType::String, "Rule"@),
            col_h("created_at"@, ColumnType::String, "Held since"@),
            col_h("expires_at"@, ColumnType::String, "Expires"@),
        ],
        hints: Some(TableHintsV { page_size: 10, filterable: true, sortable: seq!["created_at"@, "tool_name"@], default_sort: Some(("created_at"@, SortOrder::Desc)) }),
    }
}

pub fn pending_table<R>(rows: Vec<R>) -> (t: Table<R>)
    ensures
        t.spec@ == pending_table_spec(),
        t.rows@ == rows@,
{
    let mut columns: Vec<Column> = Vec::new();
    columns.push(column_h("call_id", ColumnType::String, "Call"));
    columns.push(column_h("tool_name", ColumnType::String, "Tool"));
    columns.push(column_h("server_name", ColumnType::String, "Server"));
    columns.push(column_h("requested_by", ColumnType::String, "Requested by"));
    columns.push(column_h("rule", ColumnType::String, "Rule"));
    columns.push(column_h("created_at", ColumnType::String, "Held since"));
    columns.push(column_h("expires_at", ColumnType::String, "Expires"));
    let mut sortable: Vec<String> = Vec::new();
    sortable.push(owned("created_at"));
    sortable.push(owned("tool_name"));
    let hints = TableHints { page_size: 10, filterable: true, sortable, default_sort: Some((owned("created_at"), SortOrder::Desc)) };
    let spec = TableSpec { title: owned("Held Calls"), columns, hints: Some(hints) };
    proof {
        assert(spec@.columns =~= pending_table_spec().columns);
        assert(spec@.hints.unwrap().sortable =~= pending_table_spec().hints.unwrap().sortable);
    }
    Table { spec, rows }
}

/// The layout of `decided_table`.
pub open spec fn decided_table_spec(title: Seq<char>) -> TableSpecV {
    TableSpecV {
        title: title,
        columns: seq![
            col_h("call_id"@, ColumnType::String, "Call"@),
            col_h("tool_name"@, ColumnType::String, "Tool"@),
            col_h("status"@, ColumnType::String, "Decision"@),
            col_h("approver_username"@, ColumnType::String, "Approver"@),
            col_h("decided_at"@, ColumnType::String, "Decided"@),
            col_h("decision_note"@, ColumnType::String, "Note"@),
            col_h("requested_by"@, ColumnType::String, "Requested by"@),
        ],
        hints: Some(TableHintsV { page_size: 10, filterable: true, sortable: seq!["decided_at"@, "tool_name"@], default_sort: Some(("decided_at"@, SortOrder::Desc)) }),
    }
}

pub fn decided_table<R>(rows: Vec<R>, title: &str) -> (t: Table<R>)
    ensures
        t.spec@ == decided_table_spec(title@),
        t.rows@ == rows@,
{
    let mut columns: Vec<Column> = Vec::new();
    columns.push(column_h("call_id", ColumnType::String, "Call"));
    columns.push(column_h("tool_name", ColumnType::String, "Tool"));
    columns.push(column_h("status", ColumnType::String, "Decision"));
    columns.push(column_h("approver_username", ColumnType::String, "Approver"));
    columns.push(column_h("decided_at", ColumnType::String, "Decided"));
    columns.push(column_h("decision_note", ColumnType::String, "Note"));
    columns.push(column_h("requested_by", ColumnType::String, "Requested by"));
    let mut sortable: Vec<String> = Vec::new();
    sortable.push(owned("decided_at"));
    sortable.push(owned("tool_name"));
    let hints = TableHints { page_size: 10, filterable: true, sortable, default_sort: Some((owned("decided_at"), SortOrder::Desc)) };
    let spec = TableSpec { title: owned(title), columns, hints: Some(hints) };
    proof {
        assert(spec@.columns =~= decided_table_spec(title@).columns);
        assert(spec@.hints.unwrap().sortable =~= decided_table_spec(title@).hints.unwrap().sortable);
    }
    Table { spec, rows }
}

} // verus!
