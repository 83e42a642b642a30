//! Activities: listing the caller's, scheduling one on a record, and
//! marking one done with feedback that is logged to the record's chatter.

use vstd::prelude::*;

use crate::fmt::{decimal, owned, owned_all, push_str, str_views, usize_string, decimal_string, views};
use crate::inputs::{ActivityCompleteInput, ActivityCreateInput};
use crate::outcome::{ToolError, ToolErrorV};
use crate::payload::{int_e, opt_text_e, text_e, FieldValueV, Payload};
use crate::strings::{non_blank, non_blank_opt, opt_view, trim_seq, trimmed};

verus! {

/// The `mail.activity` fields a row is read with.
pub open spec fn activity_fields_spec() -> Seq<Seq<char>> {
    seq![
        "id"@,
        "res_model"@,
        "res_name"@,
        "activity_type_id"@,
        "summary"@,
        "date_deadline"@,
        "user_id"@,
    ]
}

pub fn activity_fields() -> (r: Vec<String>)
    ensures
        views(r@) == activity_fields_spec(),
{
    let a: [&str; 7] = [
        "id",
        "res_model",
        "res_name",
        "activity_type_id",
        "summary",
        "date_deadline",
        "user_id",
    ];
    let r = owned_all(&a);
    assert(str_views(a@) =~= activity_fields_spec());
    r
}

/// `- **summary** — type on record (model), due deadline`.
pub open spec fn activity_row_spec(
    summary: Seq<char>,
    kind: Seq<char>,
    res_name: Seq<char>,
    res_model: Seq<char>,
    deadline: Seq<char>,
) -> Seq<char> {
    "- **"@ + summary + "** — "@ + kind + " on "@ + res_name + " ("@ + res_model + "), due "@
        + deadline
}

/// One activity as a list line, from its rendered fields.
pub fn activity_row(summary: &str, kind: &str, res_name: &str, res_model: &str, deadline: &str) -> (r:
    String)
    ensures
        r@ == activity_row_spec(summary@, kind@, res_name@, res_model@, deadline@),
{
    let mut r = owned("- **");
    push_str(&mut r, summary);
    push_str(&mut r, "** — ");
    push_str(&mut r, kind);
    push_str(&mut r, " on ");
    push_str(&mut r, res_name);
    push_str(&mut r, " (");
    push_str(&mut r, res_model);
    push_str(&mut r, "), due ");
    push_str(&mut r, deadline);
    r
}

/// The summary of a listing of `n` activities.
pub fn activity_list_summary(n: usize) -> (r: String)
    ensures
        r@ == decimal(n as int) + " activity(ies) assigned to you"@,
{
    let mut r = usize_string(n);
    push_str(&mut r, " activity(ies) assigned to you");
    r
}

/// Who a new activity is for.
pub enum Assignee {
    /// The acting user.
    Caller,
    /// The user by this name or login, to be resolved.
    Named(String),
}

/// A validated `activity_create`: the trimmed summary and the assignee.
pub struct ActivityPlan {
    pub summary: String,
    pub assignee: Assignee,
}

pub open spec fn assignee_of(user: Option<Seq<char>>) -> Option<Seq<char>> {
    non_blank(user)
}

pub open spec fn activity_summary_required() -> Seq<char> {
    "An activity summary is required — say what is to be done."@
}

/// Refuses a blank summary; otherwise fixes the summary and who the activity
/// is for — the named user, or the caller when none is named, so a new
/// activity always lands on somebody's list.
pub fn activity_create_plan(input: &ActivityCreateInput) -> (r: Result<ActivityPlan, ToolError>)
    ensures
        match r {
            Ok(plan) => {
                &&& trim_seq(input.summary@).len() > 0
                &&& plan.summary@ == trim_seq(input.summary@)
                &&& match assignee_of(opt_view(input.user)) {
                    Some(u) => plan.assignee matches Assignee::Named(n) && n@ == u,
                    None => plan.assignee is Caller,
                }
            },
            Err(e) => trim_seq(input.summary@).len() == 0 && e@ == ToolErrorV::InvalidParams(
                activity_summary_required(),
            ),
        },
{
    let summary = trimmed(input.summary.as_str());
    if summary.as_str().is_empty() {
        return Err(
            ToolError::InvalidParams(
                owned("An activity summary is required — say what is to be done."),
            ),
        );
    }
    let assignee = match non_blank_opt(&input.user) {
        Some(u) => Assignee::Named(u),
        None => Assignee::Caller,
    };
    Ok(ActivityPlan { summary, assignee })
}

/// The `mail.activity` record an `activity_create` writes.
pub open spec fn activity_values_spec(
    model: Seq<char>,
    res_id: int,
    summary: Seq<char>,
    deadline: Seq<char>,
    note: Option<Seq<char>>,
    user_id: int,
    type_id: int,
    res_model_id: int,
) -> Seq<(Seq<char>, FieldValueV)> {
    seq![
        int_e("res_model_id"@, res_model_id),
        text_e("res_model"@, model),
        int_e("res_id"@, res_id),
        text_e("summary"@, summary),
        text_e("date_deadline"@, trim_seq(deadline)),
        int_e("user_id"@, user_id),
        int_e("activity_type_id"@, type_id),
    ] + opt_text_e("note"@, note)
}

/// The values of the new activity, once the assignee, the activity type and
/// the record's model have been resolved to ids.
pub fn activity_values(
    input: &ActivityCreateInput,
    plan: &ActivityPlan,
    user_id: i64,
    type_id: i64,
    res_model_id: i64,
) -> (p: Payload)
    ensures
        p@ == activity_values_spec(
            input.model@,
            input.res_id as int,
            plan.summary@,
            input.date_deadline@,
            opt_view(input.note),
            user_id as int,
            type_id as int,
            res_model_id as int,
        ),
{
    let mut p = Payload::new();
    p.push_int("res_model_id", res_model_id);
    p.push_text("res_model", input.model.as_str());
    p.push_int("res_id", input.res_id);
    p.push_text("summary", plan.summary.as_str());
    let deadline = trimmed(input.date_deadline.as_str());
    p.push_text("date_deadline", deadline.as_str());
    p.push_int("user_id", user_id);
    p.push_int("activity_type_id", type_id);
    p.push_opt_text("note", &input.note);
    p
}

pub open spec fn scheduled_summary_spec(
    id: int,
    model: Seq<char>,
    res_id: int,
    user: Option<Seq<char>>,
    login: Seq<char>,
    deadline: Seq<char>,
) -> Seq<char> {
    let who = match user {
        Some(u) => u,
        None => login,
    };
    "Scheduled activity "@ + decimal(id) + " on "@ + model + " "@ + decimal(res_id) + " for "@ + who
        + ", due "@ + trim_seq(deadline)
}

/// The confirmation of a scheduled activity: the user as the caller named
/// them, or the acting login when nobody was named.
pub fn activity_scheduled_summary(id: i64, input: &ActivityCreateInput, login: &str) -> (r: String)
    ensures
        r@ == scheduled_summary_spec(
            id as int,
            input.model@,
            input.res_id as int,
            opt_view(input.user),
            login@,
            input.date_deadline@,
        ),
{
    let mut r = owned("Scheduled activity ");
    push_str(&mut r, decimal_string(id).as_str());
    push_str(&mut r, " on ");
    push_str(&mut r, input.model.as_str());
    push_str(&mut r, " ");
    push_str(&mut r, decimal_string(input.res_id).as_str());
    push_str(&mut r, " for ");
    match &input.user {
        Some(u) => push_str(&mut r, u.as_str()),
        None => push_str(&mut r, login),
    }
    push_str(&mut r, ", due ");
    push_str(&mut r, trimmed(input.date_deadline.as_str()).as_str());
    r
}

/// The feedback logged when an activity is marked done: the caller's, or
/// `Done`.
pub open spec fn feedback_spec(feedback: Option<Seq<char>>) -> Seq<char> {
    match non_blank(feedback) {
        Some(f) => f,
        None => "Done"@,
    }
}

pub fn activity_feedback(input: &ActivityCompleteInput) -> (r: String)
    ensures
        r@ == feedback_spec(opt_view(input.feedback)),
{
    match non_blank_opt(&input.feedback) {
        Some(f) => f,
        None => owned("Done"),
    }
}

pub fn activity_completed_summary(activity_id: i64, login: &str) -> (r: String)
    ensures
        r@ == "Activity "@ + decimal(activity_id as int) + " marked done by "@ + login@
            + "; feedback logged to the record's chatter"@,
{
    let mut r = owned("Activity ");
    push_str(&mut r, decimal_string(activity_id).as_str());
    push_str(&mut r, " marked done by ");
    push_str(&mut r, login);
    push_str(&mut r, "; feedback logged to the record's chatter");
    r
}

} // verus!
