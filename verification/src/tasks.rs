//! Project tasks: listing, creating in an existing project, updating.

use vstd::prelude::*;

use crate::fmt::{decimal, decimal_string, owned, owned_all, push_str, str_views, usize_string, views};
use crate::inputs::TaskCreateInput;
use crate::outcome::{ToolError, ToolErrorV};
use crate::payload::{int_e, opt_text_e, text_e, FieldValue, FieldValueV, Payload};
use crate::strings::{non_blank, non_blank_opt, opt_view, trim_seq, trimmed};

verus! {

/// The `project.task` fields a row is read with.
pub open spec fn task_fields_spec() -> Seq<Seq<char>> {
    seq![
        "id"@,
        "name"@,
        "project_id"@,
        "stage_id"@,
        "user_ids"@,
        "date_deadline"@,
        "priority"@,
    ]
}

pub fn task_fields() -> (r: Vec<String>)
    ensures
        views(r@) == task_fields_spec(),
{
    let a: [&str; 7] = [
        "id",
        "name",
        "project_id",
        "stage_id",
        "user_ids",
        "date_deadline",
        "priority",
    ];
    let r = owned_all(&a);
    assert(str_views(a@) =~= task_fields_spec());
    r
}

/// `- **[id] name** — project · stage · due deadline · n assignee(s)`.
pub open spec fn task_row_spec(
    id: int,
    name: Seq<char>,
    project: Seq<char>,
    stage: Seq<char>,
    deadline: Seq<char>,
    assignees: int,
) -> Seq<char> {
    "- **["@ + decimal(id) + "] "@ + name + "** — "@ + project + " · "@ + stage + " · due "@
        + deadline + " · "@ + decimal(assignees) + " assignee(s)"@
}

/// One task as a list line, from its id, rendered fields and number of
/// assignees.
pub fn task_row(
    id: i64,
    name: &str,
    project: &str,
    stage: &str,
    deadline: &str,
    assignees: usize,
) -> (r: String)
    ensures
        r@ == task_row_spec(id as int, name@, project@, stage@, deadline@, assignees as int),
{
    let mut r = owned("- **[");
    push_str(&mut r, decimal_string(id).as_str());
    push_str(&mut r, "] ");
    push_str(&mut r, name);
    push_str(&mut r, "** — ");
    push_str(&mut r, project);
    push_str(&mut r, " · ");
    push_str(&mut r, stage);
    push_str(&mut r, " · due ");
    push_str(&mut r, deadline);
    push_str(&mut r, " · ");
    push_str(&mut r, usize_string(assignees).as_str());
    push_str(&mut r, " assignee(s)");
    r
}

pub fn task_list_summary(n: usize) -> (r: String)
    ensures
        r@ == decimal(n as int) + " task(s) matched"@,
{
    let mut r = usize_string(n);
    push_str(&mut r, " task(s) matched");
    r
}

/// A validated `task_create`: the trimmed name, and the assignee to resolve
/// when one is named.
pub struct TaskPlan {
    pub name: String,
    pub assignee: Option<String>,
}

pub fn task_create_plan(input: &TaskCreateInput) -> (r: Result<TaskPlan, ToolError>)
    ensures
        match r {
            Ok(plan) => {
                &&& trim_seq(input.name@).len() > 0
                &&& plan.name@ == trim_seq(input.name@)
                &&& opt_view(plan.assignee) == non_blank(opt_view(input.user))
            },
            Err(e) => trim_seq(input.name@).len() == 0 && e@ == ToolErrorV::InvalidParams(
                "A task name is required."@,
            ),
        },
{
    let name = trimmed(input.name.as_str());
    if name.as_str().is_empty() {
        return Err(ToolError::InvalidParams(owned("A task name is required.")));
    }
    Ok(TaskPlan { name, assignee: non_blank_opt(&input.user) })
}

/// The task record: the name and project, the assignee as a many2many
/// set-replacement, and the optional texts when they carry text.
pub open spec fn task_values_spec(
    name: Seq<char>,
    project_id: int,
    user_id: Option<i64>,
    description: Option<Seq<char>>,
    deadline: Option<Seq<char>>,
) -> Seq<(Seq<char>, FieldValueV)> {
    seq![text_e("name"@, name), int_e("project_id"@, project_id)] + match user_id {
        Some(u) => seq![("user_ids"@, FieldValueV::ReplaceIds(seq![u]))],
        None => Seq::empty(),
    } + opt_text_e("description"@, description) + opt_text_e("date_deadline"@, deadline)
}

pub fn task_values(input: &TaskCreateInput, plan: &TaskPlan, project_id: i64, user_id: Option<i64>) -> (p:
    Payload)
    ensures
        p@ == task_values_spec(
            plan.name@,
            project_id as int,
            user_id,
            opt_view(input.description),
            opt_view(input.date_deadline),
        ),
{
    let mut p = Payload::new();
    p.push_text("name", plan.name.as_str());
    p.push_int("project_id", project_id);
    let ghost a = p@;
    match user_id {
        Some(u) => {
            let mut ids: Vec<i64> = Vec::new();
            ids.push(u);
            assert(ids@ =~= seq![u]);
            p.push("user_ids", FieldValue::ReplaceIds(ids));
        },
        None => {},
    }
    let ghost b = p@;
    p.push_opt_text("description", &input.description);
    p.push_opt_text("date_deadline", &input.date_deadline);
    proof {
        let us: Seq<(Seq<char>, FieldValueV)> = match user_id {
            Some(u) => seq![("user_ids"@, FieldValueV::ReplaceIds(seq![u]))],
            None => Seq::empty(),
        };
        assert(b =~= a + us);
        assert(p@ =~= task_values_spec(
            plan.name@,
            project_id as int,
            user_id,
            opt_view(input.description),
            opt_view(input.date_deadline),
        ));
    }
    p
}

pub fn task_created_summary(id: i64, name: &str, project: &str) -> (r: String)
    ensures
        r@ == "Created task "@ + decimal(id as int) + " \""@ + name@ + "\" in "@ + trim_seq(project@),
{
    let mut r = owned("Created task ");
    push_str(&mut r, decimal_string(id).as_str());
    push_str(&mut r, " \"");
    push_str(&mut r, name);
    push_str(&mut r, "\" in ");
    push_str(&mut r, trimmed(project).as_str());
    r
}

} // verus!
