//! What a tool answers besides its data: the error it refuses a call with,
//! and the body of a list that may have come back empty.

use vstd::prelude::*;

verus! {

/// Why a tool call did not go through.
pub enum ToolError {
    /// The input cannot be acted on; the message says what to change.
    InvalidParams(String),
    /// Odoo accepted the call but did not do what was asked.
    Internal(String),
}

pub enum ToolErrorV {
    InvalidParams(Seq<char>),
    Internal(Seq<char>),
}

impl View for ToolError {
    type V = ToolErrorV;

    open spec fn view(&self) -> ToolErrorV {
        match self {
            ToolError::InvalidParams(m) => ToolErrorV::InvalidParams(m@),
            ToolError::Internal(m) => ToolErrorV::Internal(m@),
        }
    }
}

/// The body of a listing: either the rows, or the note that there were none
/// of `what` (the caller words that note).
pub enum ListBody {
    Nothing(String),
    Rows(String),
}

pub enum ListBodyV {
    Nothing(Seq<char>),
    Rows(Seq<char>),
}

impl View for ListBody {
    type V = ListBodyV;

    open spec fn view(&self) -> ListBodyV {
        match self {
            ListBody::Nothing(w) => ListBodyV::Nothing(w@),
            ListBody::Rows(r) => ListBodyV::Rows(r@),
        }
    }
}

/// The rows one per line, or the empty note for `what`.
pub open spec fn list_body_spec(rows: Seq<Seq<char>>, what: Seq<char>) -> ListBodyV {
    if rows.len() == 0 {
        ListBodyV::Nothing(what)
    } else {
        ListBodyV::Rows(crate::fmt::join_sep(rows, "\n"@))
    }
}

pub fn list_body(rows: &Vec<String>, what: &str) -> (b: ListBody)
    ensures
        b@ == list_body_spec(crate::fmt::views(rows@), what@),
{
    if rows.len() == 0 {
        ListBody::Nothing(crate::fmt::owned(what))
    } else {
        ListBody::Rows(crate::fmt::join(rows, "\n"))
    }
}

/// The note a listing with no rows gives: `No what found.`
pub open spec fn nothing_found_spec(what: Seq<char>) -> Seq<char> {
    "No "@ + what + " found."@
}

pub fn nothing_found(what: &str) -> (r: String)
    ensures
        r@ == nothing_found_spec(what@),
{
    let mut r = crate::fmt::owned("No ");
    crate::fmt::push_str(&mut r, what);
    crate::fmt::push_str(&mut r, " found.");
    r
}

/// A listing's text: the rows one per line, or `No what found.`.
pub open spec fn list_text_spec(rows: Seq<Seq<char>>, what: Seq<char>) -> Seq<char> {
    match list_body_spec(rows, what) {
        ListBodyV::Rows(r) => r,
        ListBodyV::Nothing(w) => nothing_found_spec(w),
    }
}

pub fn list_text(rows: &Vec<String>, what: &str) -> (r: String)
    ensures
        r@ == list_text_spec(crate::fmt::views(rows@), what@),
{
    match list_body(rows, what) {
        ListBody::Rows(r) => r,
        ListBody::Nothing(w) => nothing_found(w.as_str()),
    }
}

} // verus!
