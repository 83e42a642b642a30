//! The chatter tools: posting a note on a record, reading a record's thread,
//! and searching every note for a subject. Bodies arrive as HTML and leave
//! as plain text.

use vstd::prelude::*;

use crate::domain::{is_match_all, match_all_spec};
use crate::fmt::{decimal, decimal_string, owned, owned_all, push_str, str_views, usize_string, views};
use crate::inputs::{NoteAddInput, NoteListInput};
use crate::outcome::{ToolError, ToolErrorV};
use crate::strings::{opt_view, trim_seq, trimmed};
use crate::text::{html_text, html_to_text, snippet_around, snippet_spec};

verus! {

/// Owned copies of the field names a read asks for.
pub fn fields(names: &[&str]) -> (r: Vec<String>)
    ensures
        views(r@) == str_views(names@),
{
    owned_all(names)
}

pub open spec fn thread_fields_spec() -> Seq<Seq<char>> {
    seq!["id"@, "author_id"@, "body"@, "date"@, "message_type"@]
}

pub open spec fn search_fields_spec() -> Seq<Seq<char>> {
    seq!["id"@, "model"@, "res_id"@, "record_name"@, "author_id"@, "date"@, "body"@]
}

/// The fields a record's thread is read with.
pub fn thread_fields() -> (r: Vec<String>)
    ensures
        views(r@) == thread_fields_spec(),
{
    let a: [&str; 5] = ["id", "author_id", "body", "date", "message_type"];
    assert(str_views(a@) =~= thread_fields_spec());
    fields(&a)
}

/// The fields a note search reads: each hit carries its anchor.
pub fn search_fields() -> (r: Vec<String>)
    ensures
        views(r@) == search_fields_spec(),
{
    let a: [&str; 7] = ["id", "model", "res_id", "record_name", "author_id", "date", "body"];
    assert(str_views(a@) =~= search_fields_spec());
    fields(&a)
}

/// A note's body as text: its plain text, or `(empty note)` when it has no
/// body field.
pub open spec fn body_text_spec(body: Option<Seq<char>>) -> Seq<char> {
    match body {
        Some(h) => html_text(h),
        None => "(empty note)"@,
    }
}

pub open spec fn thread_row_spec(date: Seq<char>, author: Seq<char>, kind: Seq<char>, body: Option<Seq<char>>) -> Seq<char> {
    "- **"@ + date + "** — "@ + author + " ("@ + kind + ")\n  "@ + body_text_spec(body)
}

/// One message of a thread, from its rendered fields and raw body.
pub fn thread_row(date: &str, author: &str, kind: &str, body: &Option<String>) -> (r: String)
    ensures
        r@ == thread_row_spec(date@, author@, kind@, opt_view(*body)),
{
    let text = match body {
        Some(h) => html_to_text(h.as_str()),
        None => owned("(empty note)"),
    };
    let mut r = owned("- **");
    push_str(&mut r, date);
    push_str(&mut r, "** — ");
    push_str(&mut r, author);
    push_str(&mut r, " (");
    push_str(&mut r, kind);
    push_str(&mut r, ")\n  ");
    push_str(&mut r, text.as_str());
    r
}

/// The snippet a search hit shows: the window of the note's text around the
/// query — its start, for a match-all query — or `(empty note)`.
pub open spec fn hit_snippet_spec(body: Option<Seq<char>>, query: Seq<char>) -> Seq<char> {
    match body {
        Some(h) => if match_all_spec(query) {
            snippet_spec(html_text(h), ""@)
        } else {
            snippet_spec(html_text(h), query)
        },
        None => "(empty note)"@,
    }
}

pub open spec fn search_row_spec(
    model: Seq<char>,
    res_id: Seq<char>,
    record_name: Seq<char>,
    date: Seq<char>,
    author: Seq<char>,
    body: Option<Seq<char>>,
    query: Seq<char>,
) -> Seq<char> {
    "- **"@ + model + " "@ + res_id + "** — "@ + record_name + " · "@ + date + " by "@ + author
        + "\n  "@ + hit_snippet_spec(body, query)
}

/// One search hit, anchored by model and id so it can be replied to.
pub fn search_row(
    model: &str,
    res_id: &str,
    record_name: &str,
    date: &str,
    author: &str,
    body: &Option<String>,
    query: &str,
) -> (r: String)
    ensures
        r@ == search_row_spec(model@, res_id@, record_name@, date@, author@, opt_view(*body), query@),
{
    let snippet = match body {
        Some(h) => {
            let text = html_to_text(h.as_str());
            if is_match_all(query) {
                snippet_around(text.as_str(), "")
            } else {
                snippet_around(text.as_str(), query)
            }
        },
        None => owned("(empty note)"),
    };
    let mut r = owned("- **");
    push_str(&mut r, model);
    push_str(&mut r, " ");
    push_str(&mut r, res_id);
    push_str(&mut r, "** — ");
    push_str(&mut r, record_name);
    push_str(&mut r, " · ");
    push_str(&mut r, date);
    push_str(&mut r, " by ");
    push_str(&mut r, author);
    push_str(&mut r, "\n  ");
    push_str(&mut r, snippet.as_str());
    r
}

/// A note needs a body; what is posted is the trimmed body.
pub fn note_body(input: &NoteAddInput) -> (r: Result<String, ToolError>)
    ensures
        match r {
            Ok(b) => trim_seq(input.body@).len() > 0 && b@ == trim_seq(input.body@),
            Err(e) => trim_seq(input.body@).len() == 0 && e@ == ToolErrorV::InvalidParams(
                "A note body is required."@,
            ),
        },
{
    let b = trimmed(input.body.as_str());
    if b.as_str().is_empty() {
        Err(ToolError::InvalidParams(owned("A note body is required.")))
    } else {
        Ok(b)
    }
}

pub fn note_posted_summary(input: &NoteAddInput, login: &str, message_id: i64) -> (r: String)
    ensures
        r@ == "Note posted on "@ + input.model@ + " "@ + decimal(input.res_id as int) + " as "@
            + login@ + " (message "@ + decimal(message_id as int) + ")"@,
{
    let mut r = owned("Note posted on ");
    push_str(&mut r, input.model.as_str());
    push_str(&mut r, " ");
    push_str(&mut r, decimal_string(input.res_id).as_str());
    push_str(&mut r, " as ");
    push_str(&mut r, login);
    push_str(&mut r, " (message ");
    push_str(&mut r, decimal_string(message_id).as_str());
    push_str(&mut r, ")");
    r
}

pub fn thread_summary(n: usize, input: &NoteListInput) -> (r: String)
    ensures
        r@ == decimal(n as int) + " message(s) on "@ + input.model@ + " "@ + decimal(
            input.res_id as int,
        ),
{
    let mut r = usize_string(n);
    push_str(&mut r, " message(s) on ");
    push_str(&mut r, input.model.as_str());
    push_str(&mut r, " ");
    push_str(&mut r, decimal_string(input.res_id).as_str());
    r
}

pub open spec fn query_required() -> Seq<char> {
    "A search query is required — pass the subject you are looking for."@
}

/// A search needs a query; the trimmed query is what hits are shown around.
pub fn search_query(query: &str) -> (r: Result<String, ToolError>)
    ensures
        match r {
            Ok(q) => trim_seq(query@).len() > 0 && q@ == trim_seq(query@),
            Err(e) => trim_seq(query@).len() == 0 && e@ == ToolErrorV::InvalidParams(query_required()),
        },
{
    let q = trimmed(query);
    if q.as_str().is_empty() {
        Err(
            ToolError::InvalidParams(
                owned("A search query is required — pass the subject you are looking for."),
            ),
        )
    } else {
        Ok(q)
    }
}

/// `n recent note(s)` for a match-all query, `n note(s) mention "query"`
/// otherwise.
pub fn search_summary(n: usize, query: &str) -> (r: String)
    ensures
        r@ == if match_all_spec(query@) {
            decimal(n as int) + " recent note(s)"@
        } else {
            decimal(n as int) + " note(s) mention \""@ + query@ + "\""@
        },
{
    let mut r = usize_string(n);
    if is_match_all(query) {
        push_str(&mut r, " recent note(s)");
    } else {
        push_str(&mut r, " note(s) mention \"");
        push_str(&mut r, query);
        push_str(&mut r, "\"");
    }
    r
}

/// One `mail.message` as the chatter tables carry it. `model` and `res_id`
/// anchor it to its record.
pub struct NoteRow {
    pub id: i64,
    pub model: Option<String>,
    pub res_id: Option<i64>,
    pub record_name: Option<String>,
    pub author_id: Option<String>,
    pub date: Option<String>,
    pub message_type: Option<String>,
    pub body: Option<String>,
}

/// A body as the rows carry it: plain text, and absent when none is left.
pub open spec fn clean_body_spec(body: Option<Seq<char>>) -> Option<Seq<char>> {
    match body {
        Some(h) => if html_text(h).len() > 0 {
            Some(html_text(h))
        } else {
            None
        },
        None => None,
    }
}

pub fn clean_body(body: Option<String>) -> (r: Option<String>)
    ensures
        opt_view(r) == clean_body_spec(opt_view(body)),
{
    match body {
        Some(h) => {
            let t = html_to_text(h.as_str());
            if t.as_str().is_empty() {
                None
            } else {
                Some(t)
            }
        },
        None => None,
    }
}

/// The rows with their bodies turned to plain text; everything else kept.
pub fn note_rows(rows: Vec<NoteRow>) -> (r: Vec<NoteRow>)
    ensures
        r@.len() == rows@.len(),
        forall|i: int|
            0 <= i < rows@.len() ==> {
                &&& #[trigger] r@[i].id == rows@[i].id
                &&& r@[i].model == rows@[i].model
                &&& r@[i].res_id == rows@[i].res_id
                &&& r@[i].record_name == rows@[i].record_name
                &&& r@[i].author_id == rows@[i].author_id
                &&& r@[i].date == rows@[i].date
                &&& r@[i].message_type == rows@[i].message_type
                &&& opt_view(r@[i].body) == clean_body_spec(opt_view(rows@[i].body))
            },
{
    let ghost orig = rows@;
    let mut pending = rows;
    let mut back: Vec<NoteRow> = Vec::new();
    while pending.len() > 0
        invariant
            back@.len() + pending@.len() == orig.len(),
            pending@ == orig.take(pending@.len() as int),
            forall|k: int| 0 <= k < back@.len() ==> back@[k] == orig[orig.len() - 1 - k],
        decreases pending.len(),
    {
        let row = pending.pop().unwrap();
        back.push(row);
    }
    let mut out: Vec<NoteRow> = Vec::new();
    while back.len() > 0
        invariant
            out@.len() + back@.len() == orig.len(),
            forall|k: int| 0 <= k < back@.len() ==> back@[k] == orig[orig.len() - 1 - k],
            forall|i: int|
                0 <= i < out@.len() ==> {
                    &&& #[trigger] out@[i].id == orig[i].id
                    &&& out@[i].model == orig[i].model
                    &&& out@[i].res_id == orig[i].res_id
                    &&& out@[i].record_name == orig[i].record_name
                    &&& out@[i].author_id == orig[i].author_id
                    &&& out@[i].date == orig[i].date
                    &&& out@[i].message_type == orig[i].message_type
                    &&& opt_view(out@[i].body) == clean_body_spec(opt_view(orig[i].body))
                },
        decreases back.len(),
    {
        let row = back.pop().unwrap();
        let NoteRow { id, model, res_id, record_name, author_id, date, message_type, body } = row;
        out.push(
            NoteRow { id, model, res_id, record_name, author_id, date, message_type, body: clean_body(body) },
        );
    }
    assert(orig == rows@);
    out
}

} // verus!
