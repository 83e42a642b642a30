//! Quote-to-cash: sales orders, which can be read and drafted, and customer
//! invoices, which can only be read.

use vstd::prelude::*;

use crate::fmt::{decimal, decimal_string, owned, owned_all, push_str, str_views, usize_string, views};
use crate::inputs::{SaleOrderCreateInput, SaleOrderLineInput};
use crate::outcome::{ToolError, ToolErrorV};
use crate::payload::{
    int_e, line_view, opt_text_e, FieldValue, FieldValueV, Payload, Scalar, ScalarV,
};
use crate::strings::opt_view;

verus! {

pub open spec fn order_fields_spec() -> Seq<Seq<char>> {
    seq!["id"@, "name"@, "partner_id"@, "state"@, "date_order"@, "amount_total"@, "origin"@]
}

pub open spec fn invoice_fields_spec() -> Seq<Seq<char>> {
    seq![
        "id"@,
        "name"@,
        "partner_id"@,
        "invoice_date"@,
        "invoice_date_due"@,
        "payment_state"@,
        "amount_total"@,
        "amount_residual"@,
    ]
}

/// The `sale.order` fields a row is read with: the id, then the order's own.
pub fn order_fields() -> (r: Vec<String>)
    ensures
        views(r@) == order_fields_spec(),
{
    let a: [&str; 7] = ["id", "name", "partner_id", "state", "date_order", "amount_total", "origin"];
    let r = owned_all(&a);
    assert(str_views(a@) =~= order_fields_spec());
    r
}

/// The `account.move` fields a row is read with.
pub fn invoice_fields() -> (r: Vec<String>)
    ensures
        views(r@) == invoice_fields_spec(),
{
    let a: [&str; 8] = [
        "id",
        "name",
        "partner_id",
        "invoice_date",
        "invoice_date_due",
        "payment_state",
        "amount_total",
        "amount_residual",
    ];
    let r = owned_all(&a);
    assert(str_views(a@) =~= invoice_fields_spec());
    r
}

/// The detail read of an order adds its line ids.
pub fn order_detail_fields() -> (r: Vec<String>)
    ensures
        views(r@) == order_fields_spec().push("order_line"@),
{
    let mut r = order_fields();
    r.push(owned("order_line"));
    assert(views(r@) =~= order_fields_spec().push("order_line"@));
    r
}

/// The detail read of an invoice adds its line ids.
pub fn invoice_detail_fields() -> (r: Vec<String>)
    ensures
        views(r@) == invoice_fields_spec().push("invoice_line_ids"@),
{
    let mut r = invoice_fields();
    r.push(owned("invoice_line_ids"));
    assert(views(r@) =~= invoice_fields_spec().push("invoice_line_ids"@));
    r
}

/// One order or invoice line: `- name — qty q @ price = subtotal`.
pub open spec fn line_item_spec(name: Seq<char>, qty: Seq<char>, price: Seq<char>, subtotal: Seq<char>) -> Seq<char> {
    "- "@ + name + " — qty "@ + qty + " @ "@ + price + " = "@ + subtotal + "\n"@
}

pub fn line_item(name: &str, qty: &str, price: &str, subtotal: &str) -> (r: String)
    ensures
        r@ == line_item_spec(name@, qty@, price@, subtotal@),
{
    let mut r = owned("- ");
    push_str(&mut r, name);
    push_str(&mut r, " — qty ");
    push_str(&mut r, qty);
    push_str(&mut r, " @ ");
    push_str(&mut r, price);
    push_str(&mut r, " = ");
    push_str(&mut r, subtotal);
    push_str(&mut r, "\n");
    r
}

/// The concatenation of the pieces.
pub open spec fn concat_all(ws: Seq<Seq<char>>) -> Seq<char>
    decreases ws.len(),
{
    if ws.len() == 0 {
        Seq::empty()
    } else {
        concat_all(ws.drop_last()) + ws.last()
    }
}

/// A detail body with its lines appended under a `Lines` heading, when the
/// record has lines.
pub fn with_lines(body: &str, lines: &Vec<String>) -> (r: String)
    ensures
        r@ == if lines@.len() == 0 {
            body@
        } else {
            body@ + "\n\n**Lines**\n\n"@ + concat_all(views(lines@))
        },
{
    let mut r = owned(body);
    if lines.len() == 0 {
        return r;
    }
    push_str(&mut r, "\n\n**Lines**\n\n");
    let ghost head = r@;
    let mut i: usize = 0;
    while i < lines.len()
        invariant
            i <= lines.len(),
            r@ == head + concat_all(views(lines@).take(i as int)),
        decreases lines.len() - i,
    {
        push_str(&mut r, lines[i].as_str());
        i += 1;
        assert(views(lines@).take(i as int).drop_last() =~= views(lines@).take(i - 1));
    }
    assert(views(lines@).take(lines@.len() as int) =~= views(lines@));
    r
}

pub fn order_not_found(id: i64) -> (e: ToolError)
    ensures
        e@ == ToolErrorV::InvalidParams("No Odoo sales order with id "@ + decimal(id as int) + "."@),
{
    let mut m = owned("No Odoo sales order with id ");
    push_str(&mut m, decimal_string(id).as_str());
    push_str(&mut m, ".");
    ToolError::InvalidParams(m)
}

pub fn invoice_not_found(id: i64) -> (e: ToolError)
    ensures
        e@ == ToolErrorV::InvalidParams(
            "No Odoo customer invoice with id "@ + decimal(id as int) + "."@,
        ),
{
    let mut m = owned("No Odoo customer invoice with id ");
    push_str(&mut m, decimal_string(id).as_str());
    push_str(&mut m, ".");
    ToolError::InvalidParams(m)
}

pub fn order_read_summary(id: i64) -> (r: String)
    ensures
        r@ == "Odoo sales order "@ + decimal(id as int),
{
    crate::fmt::cat2("Odoo sales order ", decimal_string(id).as_str())
}

pub fn invoice_read_summary(id: i64) -> (r: String)
    ensures
        r@ == "Odoo customer invoice "@ + decimal(id as int),
{
    crate::fmt::cat2("Odoo customer invoice ", decimal_string(id).as_str())
}

pub open spec fn order_line_spec(l: SaleOrderLineInput) -> Seq<(Seq<char>, ScalarV)> {
    seq![("product_id"@, ScalarV::Int(l.product_id as int))] + match l.quantity {
        Some(q) => seq![("product_uom_qty"@, ScalarV::Json(q))],
        None => Seq::empty(),
    } + match l.price_unit {
        Some(p) => seq![("price_unit"@, ScalarV::Json(p))],
        None => Seq::empty(),
    }
}

pub open spec fn sale_order_values_spec(partner_id: int, lines: Seq<SaleOrderLineInput>, origin: Option<Seq<char>>) -> Seq<
    (Seq<char>, FieldValueV),
> {
    seq![
        int_e("partner_id"@, partner_id),
        ("order_line"@, FieldValueV::CreateEach(Seq::new(lines.len(), |i: int| order_line_spec(lines[i])))),
    ] + opt_text_e("origin"@, origin)
}

pub open spec fn no_lines_message() -> Seq<char> {
    "A quotation needs at least one line — pass `lines` with a `product_id`."@
}

fn line_values(l: SaleOrderLineInput) -> (r: Vec<(String, Scalar)>)
    ensures
        line_view(r@) == order_line_spec(l),
{
    let ghost lv = l;
    let mut r: Vec<(String, Scalar)> = Vec::new();
    r.push((owned("product_id"), Scalar::Int(l.product_id)));
    match l.quantity {
        Some(q) => r.push((owned("product_uom_qty"), Scalar::Json(q))),
        None => {},
    }
    match l.price_unit {
        Some(p) => r.push((owned("price_unit"), Scalar::Json(p))),
        None => {},
    }
    assert(line_view(r@) =~= order_line_spec(lv));
    r
}

/// The draft quotation a `sale_order_create` writes: the partner, one new
/// line per requested line, and the source document when given. A request
/// with no lines is refused.
pub fn sale_order_values(input: SaleOrderCreateInput) -> (r: Result<Payload, ToolError>)
    ensures
        input.lines@.len() == 0 ==> (r matches Err(e) && e@ == ToolErrorV::InvalidParams(no_lines_message())),
        input.lines@.len() > 0 ==> (r matches Ok(p) && p@ == sale_order_values_spec(
            input.partner_id as int,
            input.lines@,
            opt_view(input.origin),
        )),
{
    let SaleOrderCreateInput { partner_id, lines, origin } = input;
    let origin = &origin;
    if lines.len() == 0 {
        return Err(
            ToolError::InvalidParams(
                owned("A quotation needs at least one line — pass `lines` with a `product_id`."),
            ),
        );
    }
    let ghost ls = lines@;
    let mut lines = lines;
    let mut made: Vec<Vec<(String, Scalar)>> = Vec::new();
    let mut rest: Vec<SaleOrderLineInput> = Vec::new();
    // Lines are taken from the back; reverse first so they keep their order.
    while lines.len() > 0
        invariant
            rest@.len() + lines@.len() == ls.len(),
            lines@ == ls.take(lines@.len() as int),
            forall|k: int| 0 <= k < rest@.len() ==> rest@[k] == ls[ls.len() - 1 - k],
        decreases lines.len(),
    {
        let l = lines.pop().unwrap();
        rest.push(l);
    }
    while rest.len() > 0
        invariant
            made@.len() + rest@.len() == ls.len(),
            forall|k: int| 0 <= k < rest@.len() ==> rest@[k] == ls[ls.len() - 1 - k],
            forall|k: int| 0 <= k < made@.len() ==> line_view(#[trigger] made@[k]@) == order_line_spec(ls[k]),
        decreases rest.len(),
    {
        let l = rest.pop().unwrap();
        let v = line_values(l);
        made.push(v);
    }
    let mut p = Payload::new();
    p.push_int("partner_id", partner_id);
    let ghost before = p@;
    p.push("order_line", FieldValue::CreateEach(made));
    proof {
        let lv = Seq::new(made@.len(), |i: int| line_view(made@[i]@));
        assert(lv =~= Seq::new(ls.len(), |i: int| order_line_spec(ls[i])));
    }
    p.push_opt_text("origin", origin);
    assert(p@ =~= sale_order_values_spec(partner_id as int, ls, opt_view(*origin)));
    Ok(p)
}

pub fn order_created_summary(id: i64, login: &str) -> (r: String)
    ensures
        r@ == "Created Odoo quotation "@ + decimal(id as int) + " as "@ + login@,
{
    let mut r = owned("Created Odoo quotation ");
    push_str(&mut r, decimal_string(id).as_str());
    push_str(&mut r, " as ");
    push_str(&mut r, login);
    r
}

pub fn order_created_body(id: i64, partner_id: i64, lines: usize, login: &str) -> (r: String)
    ensures
        r@ == "Created **draft quotation ["@ + decimal(id as int) + "]** for partner "@ + decimal(
            partner_id as int,
        ) + " with "@ + decimal(lines as int) + " line(s), by `"@ + login@
            + "`.\n\nIt is a draft: nobody has sent or confirmed it."@,
{
    let mut r = owned("Created **draft quotation [");
    push_str(&mut r, decimal_string(id).as_str());
    push_str(&mut r, "]** for partner ");
    push_str(&mut r, decimal_string(partner_id).as_str());
    push_str(&mut r, " with ");
    push_str(&mut r, usize_string(lines).as_str());
    push_str(&mut r, " line(s), by `");
    push_str(&mut r, login);
    push_str(&mut r, "`.\n\nIt is a draft: nobody has sent or confirmed it.");
    r
}


pub open spec fn order_labels_spec() -> Seq<(Seq<char>, Seq<char>)> {
    seq![
        ("name"@, "Reference"@),
        ("partner_id"@, "Customer"@),
        ("state"@, "State"@),
        ("date_order"@, "Ordered"@),
        ("amount_total"@, "Total"@),
        ("origin"@, "Source"@),
    ]
}

/// The order detail view's field labels, in display order.
pub fn order_labels() -> (r: Vec<(&'static str, &'static str)>)
    ensures
        crate::partner::labels_view(r@) == order_labels_spec(),
{
    let mut r: Vec<(&'static str, &'static str)> = Vec::new();
    r.push(("name", "Reference"));
    r.push(("partner_id", "Customer"));
    r.push(("state", "State"));
    r.push(("date_order", "Ordered"));
    r.push(("amount_total", "Total"));
    r.push(("origin", "Source"));
    assert(crate::partner::labels_view(r@) =~= order_labels_spec());
    r
}

pub open spec fn invoice_labels_spec() -> Seq<(Seq<char>, Seq<char>)> {
    seq![
        ("name"@, "Invoice"@),
        ("partner_id"@, "Customer"@),
        ("invoice_date"@, "Invoiced"@),
        ("invoice_date_due"@, "Due"@),
        ("payment_state"@, "Payment"@),
        ("amount_total"@, "Total"@),
        ("amount_residual"@, "Outstanding"@),
    ]
}

/// The invoice detail view's field labels, in display order.
pub fn invoice_labels() -> (r: Vec<(&'static str, &'static str)>)
    ensures
        crate::partner::labels_view(r@) == invoice_labels_spec(),
{
    let mut r: Vec<(&'static str, &'static str)> = Vec::new();
    r.push(("name", "Invoice"));
    r.push(("partner_id", "Customer"));
    r.push(("invoice_date", "Invoiced"));
    r.push(("invoice_date_due", "Due"));
    r.push(("payment_state", "Payment"));
    r.push(("amount_total", "Total"));
    r.push(("amount_residual", "Outstanding"));
    assert(crate::partner::labels_view(r@) =~= invoice_labels_spec());
    r
}

} // verus!
