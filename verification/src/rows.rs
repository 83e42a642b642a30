//! Typed rows of the reads that carry no amounts: what the tables and the
//! briefing show for an activity, a task, an event, a stage and a tag.
//! Odoo's `false` arrives as an absent value, and a many2one as its display
//! name.

use vstd::prelude::*;

verus! {

/// One `mail.activity`.
pub struct ActivityRow {
    pub id: i64,
    pub summary: Option<String>,
    pub activity_type_id: Option<String>,
    pub res_model: Option<String>,
    pub res_name: Option<String>,
    pub date_deadline: Option<String>,
    pub assignee: Option<String>,
}

/// One `project.task`.
pub struct TaskRow {
    pub id: i64,
    pub name: Option<String>,
    pub project_id: Option<String>,
    pub stage_id: Option<String>,
    pub date_deadline: Option<String>,
    pub priority: Option<String>,
    pub assignee_ids: Vec<i64>,
}

/// One `calendar.event`.
pub struct EventRow {
    pub id: i64,
    pub name: Option<String>,
    pub start: Option<String>,
    pub stop: Option<String>,
    pub location: Option<String>,
    pub description: Option<String>,
    pub attendee_ids: Vec<i64>,
}

/// One `crm.stage`; `is_won` is Odoo's flag, not a guess from the name.
pub struct StageRow {
    pub id: i64,
    pub name: Option<String>,
    pub sequence: Option<i64>,
    pub is_won: bool,
    pub fold: bool,
}

/// One `crm.tag`, as the tag read returns it.
pub struct TagRow {
    pub id: i64,
    pub name: String,
}

} // verus!
