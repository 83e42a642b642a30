//! Odoo's wire idioms: `false` where a field is empty, a many2one as
//! `[id, "Display Name"]`, a many2many as a bare list of ids. Record rows are
//! typed through these rules.

use vstd::prelude::*;

use crate::fmt::{decimal, decimal_string, owned};
use crate::strings::{non_blank_str, trim_seq};

verus! {

/// One element of a JSON list, as far as the rules read it.
pub enum WireItem {
    Str(String),
    Int(i64),
    Other,
}

/// A JSON field value, as far as the rules read it: a string, an integer, a
/// list, or anything else (`false` among them).
pub enum WireValue {
    Str(String),
    Int(i64),
    List(Vec<WireItem>),
    Other,
}

/// A text field: a string that says something, as it came; `false`, an
/// empty or blank string, or anything else is absent.
pub fn wire_text(v: WireValue) -> (r: Option<String>)
    ensures
        match v {
            WireValue::Str(s) => if trim_seq(s@).len() > 0 {
                r == Some(s)
            } else {
                r is None
            },
            _ => r is None,
        },
{
    match v {
        WireValue::Str(s) => {
            if non_blank_str(s.as_str()).is_some() {
                Some(s)
            } else {
                None
            }
        },
        _ => None,
    }
}

/// A many2one's display name: the string second in `[id, "Name"]`.
pub fn wire_many2one(v: &WireValue) -> (r: Option<String>)
    ensures
        match *v {
            WireValue::List(items) => if items@.len() > 1 && items@[1] is Str {
                r matches Some(n) && items@[1] matches WireItem::Str(s) && n@ == s@
            } else {
                r is None
            },
            _ => r is None,
        },
{
    match v {
        WireValue::List(items) => {
            if items.len() > 1 {
                match &items[1] {
                    WireItem::Str(s) => Some(crate::fmt::owned(s.as_str())),
                    _ => None,
                }
            } else {
                None
            }
        },
        _ => None,
    }
}

/// A many2one's id: the integer first in `[id, "Name"]`.
pub fn wire_many2one_id(v: &WireValue) -> (r: Option<i64>)
    ensures
        match *v {
            WireValue::List(items) => if items@.len() > 0 && items@[0] is Int {
                items@[0] matches WireItem::Int(i) && r == Some(i)
            } else {
                r is None
            },
            _ => r is None,
        },
{
    match v {
        WireValue::List(items) => {
            if items.len() > 0 {
                match &items[0] {
                    WireItem::Int(i) => Some(*i),
                    _ => None,
                }
            } else {
                None
            }
        },
        _ => None,
    }
}

/// The integers of a list, in order.
pub open spec fn ints_of(items: Seq<WireItem>) -> Seq<i64>
    decreases items.len(),
{
    if items.len() == 0 {
        Seq::empty()
    } else {
        let rest = ints_of(items.drop_last());
        match items.last() {
            WireItem::Int(i) => rest.push(i),
            _ => rest,
        }
    }
}

/// A many2many's ids: the integers of the list; none for `false`.
pub fn wire_ids(v: &WireValue) -> (r: Vec<i64>)
    ensures
        r@ == match *v {
            WireValue::List(items) => ints_of(items@),
            _ => Seq::empty(),
        },
{
    let mut r: Vec<i64> = Vec::new();
    match v {
        WireValue::List(items) => {
            let mut i: usize = 0;
            assert(items@.take(0) =~= Seq::<WireItem>::empty());
            while i < items.len()
                invariant
                    i <= items@.len(),
                    r@ == ints_of(items@.take(i as int)),
                decreases items.len() - i,
            {
                assert(items@.take(i + 1).drop_last() =~= items@.take(i as int));
                match &items[i] {
                    WireItem::Int(x) => r.push(*x),
                    _ => {},
                }
                i += 1;
            }
            assert(items@.take(items@.len() as int) =~= items@);
        },
        _ => {},
    }
    r
}

/// What stands for a field Odoo sent nothing usable for.
pub open spec fn dash() -> Seq<char> {
    "—"@
}

/// A record field as it reads in a line of text: a string that says
/// something, as it came; an integer in decimal; a many2one's display name;
/// [`dash`] for anything else.
pub open spec fn field_display_spec(v: WireValue) -> Seq<char> {
    match v {
        WireValue::Str(s) => if trim_seq(s@).len() > 0 {
            s@
        } else {
            dash()
        },
        WireValue::Int(i) => decimal(i as int),
        WireValue::List(items) => if items@.len() > 1 {
            match items@[1] {
                WireItem::Str(n) => n@,
                _ => dash(),
            }
        } else {
            dash()
        },
        WireValue::Other => dash(),
    }
}

pub fn field_display(v: &WireValue) -> (r: String)
    ensures
        r@ == field_display_spec(*v),
{
    match v {
        WireValue::Str(s) => {
            if non_blank_str(s.as_str()).is_some() {
                owned(s.as_str())
            } else {
                owned("—")
            }
        },
        WireValue::Int(i) => decimal_string(*i),
        WireValue::List(items) => {
            if items.len() > 1 {
                match &items[1] {
                    WireItem::Str(n) => owned(n.as_str()),
                    _ => owned("—"),
                }
            } else {
                owned("—")
            }
        },
        WireValue::Other => owned("—"),
    }
}

} // verus!
