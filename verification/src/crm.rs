//! `crm.lead` record tools: what they read, what they write, and what they
//! answer — search, get, create, update, the closing actions (won, lost,
//! convert).

use vstd::prelude::*;

use crate::fmt::{
    debug_quoted, debug_str, decimal, decimal_string, join, join_sep, owned, owned_all, push_str,
    str_views, usize_string, views,
};
use crate::inputs::{LeadConvertInput, LeadCreateInput, LeadMarkLostInput};
use crate::outcome::{ToolError, ToolErrorV};
use crate::payload::{
    int_e, keys_of, opt_text_e, put_ordered, text_e, FieldValue, FieldValueV, Payload, Scalar, ScalarV,
};
use crate::strings::{non_blank, non_blank_opt, opt_view};

verus! {

/// Fields read for every lead, in search and in detail alike.
pub open spec fn lead_fields_spec() -> Seq<Seq<char>> {
    seq![
        "id"@,
        "name"@,
        "partner_name"@,
        "email_from"@,
        "phone"@,
        "stage_id"@,
        "user_id"@,
        "expected_revenue"@,
        "probability"@,
        "create_date"@,
    ]
}

pub fn lead_fields() -> (r: Vec<String>)
    ensures
        views(r@) == lead_fields_spec(),
{
    let a: [&str; 10] = [
        "id",
        "name",
        "partner_name",
        "email_from",
        "phone",
        "stage_id",
        "user_id",
        "expected_revenue",
        "probability",
        "create_date",
    ];
    let r = owned_all(&a);
    assert(str_views(a@) =~= lead_fields_spec());
    r
}

/// The detail view reads the list fields and the free-text description.
pub fn lead_detail_fields() -> (r: Vec<String>)
    ensures
        views(r@) == lead_fields_spec().push("description"@),
{
    let mut r = lead_fields();
    r.push(owned("description"));
    assert(views(r@) =~= lead_fields_spec().push("description"@));
    r
}

/// Fields read for every partner.
pub open spec fn partner_fields_spec() -> Seq<Seq<char>> {
    seq![
        "id"@,
        "name"@,
        "email"@,
        "phone"@,
        "mobile"@,
        "city"@,
        "country_id"@,
        "is_company"@,
        "category_id"@,
    ]
}

pub fn partner_fields() -> (r: Vec<String>)
    ensures
        views(r@) == partner_fields_spec(),
{
    let a: [&str; 9] = [
        "id",
        "name",
        "email",
        "phone",
        "mobile",
        "city",
        "country_id",
        "is_company",
        "category_id",
    ];
    let r = owned_all(&a);
    assert(str_views(a@) =~= partner_fields_spec());
    r
}

/// The summary of a search that matched `n` records of `noun` (`lead`,
/// `order`, ...): `n noun(s) matched in Odoo`.
pub open spec fn matched_spec(n: int, noun: Seq<char>) -> Seq<char> {
    decimal(n) + " "@ + noun + "(s) matched in Odoo"@
}

pub fn matched_summary(n: usize, noun: &str) -> (r: String)
    ensures
        r@ == matched_spec(n as int, noun@),
{
    let mut r = usize_string(n);
    push_str(&mut r, " ");
    push_str(&mut r, noun);
    push_str(&mut r, "(s) matched in Odoo");
    r
}

/// The summary of a search for `noun` records: `No what found.` when none
/// matched, else how many did.
pub fn listing_summary(n: usize, what: &str, noun: &str) -> (r: String)
    ensures
        r@ == (if n == 0 {
            crate::outcome::nothing_found_spec(what@)
        } else {
            matched_spec(n as int, noun@)
        }),
{
    if n == 0 {
        crate::outcome::nothing_found(what)
    } else {
        matched_summary(n, noun)
    }
}

pub fn lead_not_visible(id: i64) -> (e: ToolError)
    ensures
        e@ == ToolErrorV::InvalidParams(
            "No lead with id "@ + decimal(id as int) + " is visible to your Odoo account."@,
        ),
{
    let mut m = owned("No lead with id ");
    push_str(&mut m, decimal_string(id).as_str());
    push_str(&mut m, " is visible to your Odoo account.");
    ToolError::InvalidParams(m)
}

pub fn lead_read_summary(id: i64) -> (r: String)
    ensures
        r@ == "Lead "@ + decimal(id as int) + " read from Odoo"@,
{
    let mut r = owned("Lead ");
    push_str(&mut r, decimal_string(id).as_str());
    push_str(&mut r, " read from Odoo");
    r
}

/// The detail body: the labelled fields, then the description, when there
/// is one, after a blank line.
pub fn lead_detail_body(lines: &str, description: &Option<String>) -> (r: String)
    ensures
        r@ == match *description {
            Some(d) => lines@ + "\n\n"@ + d@,
            None => lines@,
        },
{
    let mut r = owned(lines);
    match description {
        Some(d) => {
            push_str(&mut r, "\n\n");
            push_str(&mut r, d.as_str());
        },
        None => {},
    }
    r
}

/// The record a `crm_lead_create` writes. The name goes in as given; the
/// optional texts only when they carry text, trimmed; the expected revenue,
/// a number the caller supplied, as it came.
pub open spec fn lead_values_spec(input: LeadCreateInput, revenue: Option<serde_json::Value>) -> Seq<
    (Seq<char>, FieldValueV),
> {
    seq![text_e("name"@, input.name@)] + match input.partner_id {
        Some(p) => seq![int_e("partner_id"@, p as int)],
        None => Seq::empty(),
    } + opt_text_e("partner_name"@, opt_view(input.partner_name)) + opt_text_e(
        "email_from"@,
        opt_view(input.email_from),
    ) + opt_text_e("phone"@, opt_view(input.phone)) + opt_text_e(
        "description"@,
        opt_view(input.description),
    ) + match revenue {
        Some(v) => seq![("expected_revenue"@, FieldValueV::One(ScalarV::Json(v)))],
        None => Seq::empty(),
    }
}

pub fn lead_values(input: &LeadCreateInput, revenue: Option<serde_json::Value>) -> (p: Payload)
    ensures
        p@ == lead_values_spec(*input, revenue),
{
    let mut p = Payload::new();
    p.push_text("name", input.name.as_str());
    let ghost a = p@;
    match input.partner_id {
        Some(id) => p.push_int("partner_id", id),
        None => {},
    }
    let ghost b = p@;
    p.push_opt_text("partner_name", &input.partner_name);
    p.push_opt_text("email_from", &input.email_from);
    p.push_opt_text("phone", &input.phone);
    p.push_opt_text("description", &input.description);
    let ghost c = p@;
    match revenue {
        Some(v) => p.push("expected_revenue", FieldValue::One(Scalar::Json(v))),
        None => {},
    }
    proof {
        let pid: Seq<(Seq<char>, FieldValueV)> = match input.partner_id {
            Some(x) => seq![int_e("partner_id"@, x as int)],
            None => Seq::empty(),
        };
        assert(b =~= a + pid);
        assert(p@ =~= lead_values_spec(*input, revenue));
    }
    p
}

pub fn lead_created_summary(id: i64, login: &str) -> (r: String)
    ensures
        r@ == "Created Odoo lead "@ + decimal(id as int) + " as "@ + login@,
{
    let mut r = owned("Created Odoo lead ");
    push_str(&mut r, decimal_string(id).as_str());
    push_str(&mut r, " as ");
    push_str(&mut r, login);
    r
}

pub fn lead_created_body(id: i64, name: &str, login: &str) -> (r: String)
    ensures
        r@ == "Created lead **["@ + decimal(id as int) + "] "@ + name@ + "** in Odoo, owned by `"@
            + login@ + "`."@,
{
    let mut r = owned("Created lead **[");
    push_str(&mut r, decimal_string(id).as_str());
    push_str(&mut r, "] ");
    push_str(&mut r, name);
    push_str(&mut r, "** in Odoo, owned by `");
    push_str(&mut r, login);
    push_str(&mut r, "`.");
    r
}

pub open spec fn no_stage_message(stage: Seq<char>) -> Seq<char> {
    "No pipeline stage named "@ + debug_quoted(stage)
        + ". Call crm_stage_list to see the stages this Odoo defines."@
}

pub open spec fn lead_nothing_to_update() -> Seq<char> {
    "No fields to update — pass `stage`, or at least one field/value pair."@
}

/// The stage a `crm_lead_update` names, trimmed, when it names one.
pub fn lead_update_stage(stage: &Option<String>) -> (r: Option<String>)
    ensures
        opt_view(r) == non_blank(opt_view(*stage)),
{
    non_blank_opt(stage)
}

/// What `crm_lead_update` writes: the caller's fields (in key order, as the
/// JSON object they arrive in keeps them), with `stage_id` set in its place
/// when a stage was named and resolved. A named stage that matched nothing
/// is refused, and so is an update that would write nothing.
pub open spec fn lead_update_spec(
    fields: Seq<(Seq<char>, FieldValueV)>,
    stage: Option<Seq<char>>,
    stage_id: Option<i64>,
) -> Result<Seq<(Seq<char>, FieldValueV)>, ToolErrorV> {
    match stage {
        Some(name) => match stage_id {
            None => Err(ToolErrorV::InvalidParams(no_stage_message(name))),
            Some(id) => Ok(put_ordered(fields, "stage_id"@, FieldValueV::One(ScalarV::Int(id as int)))),
        },
        None => if fields.len() == 0 {
            Err(ToolErrorV::InvalidParams(lead_nothing_to_update()))
        } else {
            Ok(fields)
        },
    }
}

pub fn lead_update_fields(fields: Payload, stage: &Option<String>, stage_id: Option<i64>) -> (r:
    Result<Payload, ToolError>)
    ensures
        match (r, lead_update_spec(fields@, opt_view(*stage), stage_id)) {
            (Ok(p), Ok(q)) => p@ == q,
            (Err(e), Err(f)) => e@ == f,
            _ => false,
        },
{
    let mut fields = fields;
    match stage {
        Some(name) => match stage_id {
            None => {
                let mut m = owned("No pipeline stage named ");
                push_str(&mut m, debug_str(name.as_str()).as_str());
                push_str(&mut m, ". Call crm_stage_list to see the stages this Odoo defines.");
                return Err(ToolError::InvalidParams(m));
            },
            Some(id) => {
                proof {
                    crate::payload::lemma_key_index(fields@, "stage_id"@);
                }
                fields.put_ordered("stage_id", FieldValue::One(Scalar::Int(id)));
            },
        },
        None => {},
    }
    if fields.is_empty() {
        return Err(
            ToolError::InvalidParams(
                owned("No fields to update — pass `stage`, or at least one field/value pair."),
            ),
        );
    }
    Ok(fields)
}

/// An update of a task or a customer must write at least one field.
pub fn require_fields(fields: &Payload) -> (r: Result<(), ToolError>)
    ensures
        r is Ok <==> fields@.len() > 0,
        r matches Err(e) ==> e@ == ToolErrorV::InvalidParams(
            "No fields to update — pass at least one field/value pair."@,
        ),
{
    if fields.is_empty() {
        Err(ToolError::InvalidParams(owned("No fields to update — pass at least one field/value pair.")))
    } else {
        Ok(())
    }
}

/// `{what} {id} ({keys, comma separated})`, the summary of an update.
pub open spec fn updated_spec(what: Seq<char>, id: int, keys: Seq<Seq<char>>) -> Seq<char> {
    what + " "@ + decimal(id) + " ("@ + join_sep(keys, ", "@) + ")"@
}

/// Settles a `write`: Odoo's acknowledgement gives the summary naming the
/// fields written; a refusal to acknowledge is an error.
pub fn update_outcome(what: &str, record: &str, id: i64, fields: &Payload, written: bool) -> (r:
    Result<String, ToolError>)
    ensures
        written ==> (r matches Ok(s) && s@ == updated_spec(what@, id as int, keys_of(fields@))),
        !written ==> (r matches Err(e) && e@ == ToolErrorV::Internal(
            "Odoo did not acknowledge the update to "@ + record@ + " "@ + decimal(id as int)
                + "."@,
        )),
{
    if !written {
        let mut m = owned("Odoo did not acknowledge the update to ");
        push_str(&mut m, record);
        push_str(&mut m, " ");
        push_str(&mut m, decimal_string(id).as_str());
        push_str(&mut m, ".");
        return Err(ToolError::Internal(m));
    }
    let keys = fields.keys();
    assert(views(keys@) =~= keys_of(fields@));
    let mut r = owned(what);
    push_str(&mut r, " ");
    push_str(&mut r, decimal_string(id).as_str());
    push_str(&mut r, " (");
    push_str(&mut r, join(&keys, ", ").as_str());
    push_str(&mut r, ")");
    Ok(r)
}

/// Odoo's own closing actions on a lead.
pub const ACTION_WON: &'static str = "action_set_won_rainbowman";

pub const ACTION_LOST: &'static str = "action_set_lost";

pub const ACTION_CONVERT: &'static str = "convert_opportunity";

pub fn lead_won_summary(id: i64, login: &str) -> (r: (String, String))
    ensures
        r.0@ == "Marked Odoo lead "@ + decimal(id as int) + " won as "@ + login@,
        r.1@ == "Lead **["@ + decimal(id as int) + "]** is now **won**, closed by `"@ + login@
            + "`."@,
{
    let mut s = owned("Marked Odoo lead ");
    push_str(&mut s, decimal_string(id).as_str());
    push_str(&mut s, " won as ");
    push_str(&mut s, login);
    let mut b = owned("Lead **[");
    push_str(&mut b, decimal_string(id).as_str());
    push_str(&mut b, "]** is now **won**, closed by `");
    push_str(&mut b, login);
    push_str(&mut b, "`.");
    (s, b)
}

/// The chatter note a lost reason is posted as, when there is a reason.
pub fn lost_note(input: &LeadMarkLostInput) -> (r: Option<String>)
    ensures
        match non_blank(opt_view(input.reason)) {
            Some(t) => r matches Some(n) && n@ == "Marked lost: "@ + t,
            None => r is None,
        },
{
    match non_blank_opt(&input.reason) {
        Some(t) => {
            let mut n = owned("Marked lost: ");
            push_str(&mut n, t.as_str());
            Some(n)
        },
        None => None,
    }
}

pub open spec fn lost_body_spec(id: int, login: Seq<char>, reason: Option<Seq<char>>) -> Seq<char> {
    let head = "Lead **["@ + decimal(id) + "]** is now **lost**, closed by `"@ + login + "`."@;
    match non_blank(reason) {
        Some(t) => head + "\n\nReason: "@ + t,
        None => head,
    }
}

pub fn lead_lost_summary(input: &LeadMarkLostInput, login: &str) -> (r: (String, String))
    ensures
        r.0@ == "Marked Odoo lead "@ + decimal(input.id as int) + " lost as "@ + login@,
        r.1@ == lost_body_spec(input.id as int, login@, opt_view(input.reason)),
{
    let mut s = owned("Marked Odoo lead ");
    push_str(&mut s, decimal_string(input.id).as_str());
    push_str(&mut s, " lost as ");
    push_str(&mut s, login);
    let mut b = owned("Lead **[");
    push_str(&mut b, decimal_string(input.id).as_str());
    push_str(&mut b, "]** is now **lost**, closed by `");
    push_str(&mut b, login);
    push_str(&mut b, "`.");
    match non_blank_opt(&input.reason) {
        Some(t) => {
            push_str(&mut b, "\n\nReason: ");
            push_str(&mut b, t.as_str());
        },
        None => {},
    }
    (s, b)
}

/// The partner argument of `convert_opportunity`: the given partner, or
/// `false` to let Odoo match or create one from the lead's contact fields.
pub fn convert_partner(input: &LeadConvertInput) -> (r: Scalar)
    ensures
        r@ == match input.partner_id {
            Some(p) => ScalarV::Int(p as int),
            None => ScalarV::Bool(false),
        },
{
    match input.partner_id {
        Some(p) => Scalar::Int(p),
        None => Scalar::Bool(false),
    }
}

pub fn lead_converted_summary(id: i64) -> (r: String)
    ensures
        r@ == "Converted Odoo lead "@ + decimal(id as int) + " to an opportunity"@,
{
    let mut r = owned("Converted Odoo lead ");
    push_str(&mut r, decimal_string(id).as_str());
    push_str(&mut r, " to an opportunity");
    r
}


// ---------------------------------------------------------------------------
// Deleting a lead
// ---------------------------------------------------------------------------

/// What a delete reports: the lead, by id and name, is gone.
pub struct LeadDeleted {
    pub id: i64,
    pub name: Option<String>,
    pub deleted: bool,
}

pub fn lead_delete_not_visible(id: i64) -> (e: ToolError)
    ensures
        e@ == ToolErrorV::InvalidParams(
            "No lead with id "@ + decimal(id as int)
                + " is visible to your Odoo account, so there is nothing to delete."@,
        ),
{
    let mut m = owned("No lead with id ");
    push_str(&mut m, decimal_string(id).as_str());
    push_str(&mut m, " is visible to your Odoo account, so there is nothing to delete.");
    ToolError::InvalidParams(m)
}

pub open spec fn deleted_name(name: Option<Seq<char>>) -> Seq<char> {
    match name {
        Some(n) => n,
        None => "untitled"@,
    }
}

/// Settles an `unlink`: Odoo's acknowledgement gives the record of what was
/// deleted with its summary and body; a refusal to acknowledge is an error.
pub fn lead_deleted(id: i64, name: Option<String>, acknowledged: bool, login: &str) -> (r: Result<
    (LeadDeleted, String, String),
    ToolError,
>)
    ensures
        !acknowledged ==> (r matches Err(e) && e@ == ToolErrorV::Internal(
            "Odoo did not acknowledge deleting lead "@ + decimal(id as int) + "."@,
        )),
        acknowledged ==> (r matches Ok((d, s, b)) && {
            let n = deleted_name(opt_view(name));
            &&& d.id == id && d.deleted && opt_view(d.name) == opt_view(name)
            &&& s@ == "Deleted Odoo lead "@ + decimal(id as int) + " (\""@ + n + "\") as "@ + login@
                + " — irreversible"@
            &&& b@ == "Permanently deleted lead **["@ + decimal(id as int) + "] "@ + n
                + "** from Odoo as `"@ + login@
                + "`. This was an `unlink`: the record, its chatter and its activities cannot be recovered."@
        }),
{
    if !acknowledged {
        let mut m = owned("Odoo did not acknowledge deleting lead ");
        push_str(&mut m, decimal_string(id).as_str());
        push_str(&mut m, ".");
        return Err(ToolError::Internal(m));
    }
    let n = match &name {
        Some(x) => owned(x.as_str()),
        None => owned("untitled"),
    };
    let mut s = owned("Deleted Odoo lead ");
    push_str(&mut s, decimal_string(id).as_str());
    push_str(&mut s, " (\"");
    push_str(&mut s, n.as_str());
    push_str(&mut s, "\") as ");
    push_str(&mut s, login);
    push_str(&mut s, " — irreversible");
    let mut b = owned("Permanently deleted lead **[");
    push_str(&mut b, decimal_string(id).as_str());
    push_str(&mut b, "] ");
    push_str(&mut b, n.as_str());
    push_str(&mut b, "** from Odoo as `");
    push_str(&mut b, login);
    push_str(
        &mut b,
        "`. This was an `unlink`: the record, its chatter and its activities cannot be recovered.",
    );
    Ok((LeadDeleted { id, name, deleted: true }, s, b))
}


pub open spec fn lead_labels_spec() -> Seq<(Seq<char>, Seq<char>)> {
    seq![
        ("name"@, "Subject"@),
        ("partner_name"@, "Contact"@),
        ("email_from"@, "Email"@),
        ("phone"@, "Phone"@),
        ("stage_id"@, "Stage"@),
        ("user_id"@, "Salesperson"@),
        ("expected_revenue"@, "Expected revenue"@),
        ("probability"@, "Probability"@),
        ("create_date"@, "Created"@),
        ("date_deadline"@, "Expected close"@),
    ]
}

/// The lead detail view's field labels, in display order.
pub fn lead_labels() -> (r: Vec<(&'static str, &'static str)>)
    ensures
        crate::partner::labels_view(r@) == lead_labels_spec(),
{
    let mut r: Vec<(&'static str, &'static str)> = Vec::new();
    r.push(("name", "Subject"));
    r.push(("partner_name", "Contact"));
    r.push(("email_from", "Email"));
    r.push(("phone", "Phone"));
    r.push(("stage_id", "Stage"));
    r.push(("user_id", "Salesperson"));
    r.push(("expected_revenue", "Expected revenue"));
    r.push(("probability", "Probability"));
    r.push(("create_date", "Created"));
    r.push(("date_deadline", "Expected close"));
    assert(crate::partner::labels_view(r@) =~= lead_labels_spec());
    r
}

} // verus!
