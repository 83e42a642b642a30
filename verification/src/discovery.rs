//! The small reference reads a caller makes before a write: the pipeline's
//! stages, the users work can be assigned to, and the activity types.

use vstd::prelude::*;

use crate::domain::{contains_pattern, text_c, user_domain, when_text, Domain, TermV};
use crate::strings::opt_view;
use crate::fmt::{decimal, join, join_sep, owned, owned_all, push_str, str_views, usize_string, views};
use crate::inputs::{resolve_limit, resolve_limit_spec, UserListInput};
use crate::overview::{SearchPlan, SearchPlanV};

verus! {

/// Stages and activity types are short lists: at most this many are read.
pub const REFERENCE_LIMIT: u32 = 100;

fn plan(model: &str, domain: Domain, names: &[&str], limit: u32, order: &str) -> (p: SearchPlan)
    ensures
        p@ == (SearchPlanV {
            model: model@,
            domain: domain@,
            fields: str_views(names@),
            limit,
            order: order@,
        }),
{
    SearchPlan { model: owned(model), domain, fields: owned_all(names), limit, order: owned(order) }
}

/// Every stage, in pipeline order.
pub fn stage_plan() -> (p: SearchPlan)
    ensures
        p@ == (SearchPlanV {
            model: "crm.stage"@,
            domain: Seq::empty(),
            fields: seq!["id"@, "name"@, "sequence"@, "is_won"@, "fold"@],
            limit: REFERENCE_LIMIT,
            order: "sequence asc, id asc"@,
        }),
{
    let a: [&str; 5] = ["id", "name", "sequence", "is_won", "fold"];
    assert(str_views(a@) =~= seq!["id"@, "name"@, "sequence"@, "is_won"@, "fold"@]);
    plan("crm.stage", Domain::new(), &a, REFERENCE_LIMIT, "sequence asc, id asc")
}

/// Users matching the query by login or name, or every user.
pub fn user_plan(input: &UserListInput) -> (p: SearchPlan)
    ensures
        p@.model == "res.users"@,
        p@.domain == when_text(
            opt_view(input.query),
            |q: Seq<char>|
                seq![
                    TermV::Or,
                    text_c("login"@, "ilike"@, contains_pattern(q)),
                    text_c("name"@, "ilike"@, contains_pattern(q)),
                ],
        ),
        p@.fields == seq!["id"@, "name"@, "login"@],
        p@.limit == resolve_limit_spec(input.limit),
        p@.order == "name asc"@,
{
    let a: [&str; 3] = ["id", "name", "login"];
    assert(str_views(a@) =~= seq!["id"@, "name"@, "login"@]);
    plan("res.users", user_domain(&input.query), &a, resolve_limit(input.limit), "name asc")
}

/// Every activity type, in their configured order.
pub fn activity_type_plan() -> (p: SearchPlan)
    ensures
        p@ == (SearchPlanV {
            model: "mail.activity.type"@,
            domain: Seq::empty(),
            fields: seq!["id"@, "name"@],
            limit: REFERENCE_LIMIT,
            order: "sequence asc, id asc"@,
        }),
{
    let a: [&str; 2] = ["id", "name"];
    assert(str_views(a@) =~= seq!["id"@, "name"@]);
    plan("mail.activity.type", Domain::new(), &a, REFERENCE_LIMIT, "sequence asc, id asc")
}

/// `- **[id] name**`, flagged when the stage counts as won.
pub open spec fn stage_line_spec(id: Seq<char>, name: Seq<char>, won: bool) -> Seq<char> {
    "- **["@ + id + "] "@ + name + "**"@ + (if won {
        " — counts as won"@
    } else {
        Seq::empty()
    }) + "\n"@
}

pub fn stage_line(id: &str, name: &str, won: bool) -> (r: String)
    ensures
        r@ == stage_line_spec(id@, name@, won),
{
    let mut r = owned("- **[");
    push_str(&mut r, id);
    push_str(&mut r, "] ");
    push_str(&mut r, name);
    push_str(&mut r, "**");
    let ghost head = r@;
    if won {
        push_str(&mut r, " — counts as won");
    }
    push_str(&mut r, "\n");
    assert(r@ =~= stage_line_spec(id@, name@, won));
    r
}

/// The stage listing: a heading, then one line per stage.
pub fn stages_body(lines: &Vec<String>) -> (r: String)
    ensures
        r@ == "Pipeline stages, in order:\n\n"@ + join_sep(views(lines@), ""@),
{
    let mut r = owned("Pipeline stages, in order:\n\n");
    push_str(&mut r, join(lines, "").as_str());
    r
}

pub fn stages_summary(n: usize) -> (r: String)
    ensures
        r@ == decimal(n as int) + " pipeline stage(s)"@,
{
    let mut r = usize_string(n);
    push_str(&mut r, " pipeline stage(s)");
    r
}

/// `- **[id] name** — `login``.
pub fn user_line(id: &str, name: &str, login: &str) -> (r: String)
    ensures
        r@ == "- **["@ + id@ + "] "@ + name@ + "** — `"@ + login@ + "`\n"@,
{
    let mut r = owned("- **[");
    push_str(&mut r, id);
    push_str(&mut r, "] ");
    push_str(&mut r, name);
    push_str(&mut r, "** — `");
    push_str(&mut r, login);
    push_str(&mut r, "`\n");
    r
}

pub fn users_summary(n: usize) -> (r: String)
    ensures
        r@ == decimal(n as int) + " Odoo user(s)"@,
{
    let mut r = usize_string(n);
    push_str(&mut r, " Odoo user(s)");
    r
}

/// `- **[id] name**`.
pub fn activity_type_line(id: &str, name: &str) -> (r: String)
    ensures
        r@ == "- **["@ + id@ + "] "@ + name@ + "**\n"@,
{
    let mut r = owned("- **[");
    push_str(&mut r, id);
    push_str(&mut r, "] ");
    push_str(&mut r, name);
    push_str(&mut r, "**\n");
    r
}

pub fn activity_types_summary(n: usize) -> (r: String)
    ensures
        r@ == decimal(n as int) + " activity type(s)"@,
{
    let mut r = usize_string(n);
    push_str(&mut r, " activity type(s)");
    r
}

} // verus!
