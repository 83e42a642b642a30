//! `res.partner`: searching and reading customers and contacts, creating
//! one, and updating one.

use vstd::prelude::*;

use crate::fmt::{decimal, decimal_string, owned, push_str, usize_string};
use crate::inputs::PartnerCreateInput;
use crate::outcome::{ToolError, ToolErrorV};
use crate::payload::{bool_e, opt_text_e, text_e, FieldValueV, Payload};
use crate::strings::{opt_view, trim_seq, trimmed};

verus! {

/// Field labels of the detail view, in display order.
pub open spec fn labels_view(ls: Seq<(&str, &str)>) -> Seq<(Seq<char>, Seq<char>)> {
    Seq::new(ls.len(), |i: int| (ls[i].0@, ls[i].1@))
}

pub open spec fn partner_labels_spec() -> Seq<(Seq<char>, Seq<char>)> {
    seq![
        ("name"@, "Name"@),
        ("email"@, "Email"@),
        ("phone"@, "Phone"@),
        ("mobile"@, "Mobile"@),
        ("city"@, "City"@),
        ("country_id"@, "Country"@),
        ("category_id"@, "Tags"@),
    ]
}

pub fn partner_labels() -> (r: Vec<(&'static str, &'static str)>)
    ensures
        labels_view(r@) == partner_labels_spec(),
{
    let mut r: Vec<(&'static str, &'static str)> = Vec::new();
    r.push(("name", "Name"));
    r.push(("email", "Email"));
    r.push(("phone", "Phone"));
    r.push(("mobile", "Mobile"));
    r.push(("city", "City"));
    r.push(("country_id", "Country"));
    r.push(("category_id", "Tags"));
    assert(labels_view(r@) =~= partner_labels_spec());
    r
}

pub open spec fn partner_query_required() -> Seq<char> {
    "A search query is required — pass a name, email or phone fragment."@
}

/// A partner search needs a query; the trimmed query is what is matched.
pub fn partner_query(query: &str) -> (r: Result<String, ToolError>)
    ensures
        match r {
            Ok(q) => trim_seq(query@).len() > 0 && q@ == trim_seq(query@),
            Err(e) => trim_seq(query@).len() == 0 && e@ == ToolErrorV::InvalidParams(
                partner_query_required(),
            ),
        },
{
    let q = trimmed(query);
    if q.as_str().is_empty() {
        Err(
            ToolError::InvalidParams(
                owned("A search query is required — pass a name, email or phone fragment."),
            ),
        )
    } else {
        Ok(q)
    }
}

/// `- **[id] name** — email · phone`.
pub fn partner_row(id: i64, name: &str, email: &str, phone: &str) -> (r: String)
    ensures
        r@ == "- **["@ + decimal(id as int) + "] "@ + name@ + "** — "@ + email@ + " · "@ + phone@,
{
    let mut r = owned("- **[");
    push_str(&mut r, decimal_string(id).as_str());
    push_str(&mut r, "] ");
    push_str(&mut r, name);
    push_str(&mut r, "** — ");
    push_str(&mut r, email);
    push_str(&mut r, " · ");
    push_str(&mut r, phone);
    r
}

pub fn partner_search_summary(n: usize, query: &str) -> (r: String)
    ensures
        r@ == decimal(n as int) + " partner(s) matched \""@ + query@ + "\""@,
{
    let mut r = usize_string(n);
    push_str(&mut r, " partner(s) matched \"");
    push_str(&mut r, query);
    push_str(&mut r, "\"");
    r
}

pub fn partner_not_visible(id: i64) -> (e: ToolError)
    ensures
        e@ == ToolErrorV::InvalidParams(
            "No partner with id "@ + decimal(id as int) + " is visible to your Odoo account."@,
        ),
{
    let mut m = owned("No partner with id ");
    push_str(&mut m, decimal_string(id).as_str());
    push_str(&mut m, " is visible to your Odoo account.");
    ToolError::InvalidParams(m)
}

pub fn partner_read_summary(id: i64) -> (r: String)
    ensures
        r@ == "Partner "@ + decimal(id as int) + " read from Odoo"@,
{
    let mut r = owned("Partner ");
    push_str(&mut r, decimal_string(id).as_str());
    push_str(&mut r, " read from Odoo");
    r
}

/// The record a `partner_create` writes: the trimmed name, the contact
/// texts that carry text, and the company flag when given.
pub open spec fn partner_values_spec(input: PartnerCreateInput) -> Seq<(Seq<char>, FieldValueV)> {
    seq![text_e("name"@, trim_seq(input.name@))] + opt_text_e("email"@, opt_view(input.email))
        + opt_text_e("phone"@, opt_view(input.phone)) + opt_text_e("mobile"@, opt_view(input.mobile))
        + opt_text_e("city"@, opt_view(input.city)) + match input.is_company {
        Some(b) => seq![bool_e("is_company"@, b)],
        None => Seq::empty(),
    }
}

/// A customer needs a name.
pub fn partner_values(input: &PartnerCreateInput) -> (r: Result<Payload, ToolError>)
    ensures
        match r {
            Ok(p) => trim_seq(input.name@).len() > 0 && p@ == partner_values_spec(*input),
            Err(e) => trim_seq(input.name@).len() == 0 && e@ == ToolErrorV::InvalidParams(
                "A customer needs a name."@,
            ),
        },
{
    let name = trimmed(input.name.as_str());
    if name.as_str().is_empty() {
        return Err(ToolError::InvalidParams(owned("A customer needs a name.")));
    }
    let mut p = Payload::new();
    p.push_text("name", name.as_str());
    p.push_opt_text("email", &input.email);
    p.push_opt_text("phone", &input.phone);
    p.push_opt_text("mobile", &input.mobile);
    p.push_opt_text("city", &input.city);
    let ghost a = p@;
    match input.is_company {
        Some(b) => p.push_bool("is_company", b),
        None => {},
    }
    proof {
        let c: Seq<(Seq<char>, FieldValueV)> = match input.is_company {
            Some(b) => seq![bool_e("is_company"@, b)],
            None => Seq::empty(),
        };
        assert(p@ =~= a + c);
        assert(p@ =~= partner_values_spec(*input));
    }
    Ok(p)
}

pub fn partner_created_summary(id: i64, name: &str) -> (r: String)
    ensures
        r@ == "Created Odoo customer "@ + decimal(id as int) + " ("@ + name@ + ")"@,
{
    let mut r = owned("Created Odoo customer ");
    push_str(&mut r, decimal_string(id).as_str());
    push_str(&mut r, " (");
    push_str(&mut r, name);
    push_str(&mut r, ")");
    r
}

/// The confirmation, which tells the caller how to link a lead to the new
/// customer.
pub fn partner_created_body(id: i64, name: &str, login: &str) -> (r: String)
    ensures
        r@ == "Created customer **["@ + decimal(id as int) + "] "@ + name@ + "** in Odoo, by `"@
            + login@ + "`.\n\nPass `partner_id: "@ + decimal(id as int)
            + "` to crm_lead_create so the lead is linked to this record."@,
{
    let mut r = owned("Created customer **[");
    push_str(&mut r, decimal_string(id).as_str());
    push_str(&mut r, "] ");
    push_str(&mut r, name);
    push_str(&mut r, "** in Odoo, by `");
    push_str(&mut r, login);
    push_str(&mut r, "`.\n\nPass `partner_id: ");
    push_str(&mut r, decimal_string(id).as_str());
    push_str(&mut r, "` to crm_lead_create so the lead is linked to this record.");
    r
}

} // verus!
