//! `ir.attachment`: attaching a file to a record, listing attachments, and
//! reading one — with its content only when the file is small.

use vstd::prelude::*;

use crate::fmt::{decimal, decimal_string, owned, push_str, usize_string};
use crate::inputs::AttachmentAddInput;
use crate::outcome::{ToolError, ToolErrorV};
use crate::payload::{int_e, opt_text_e, text_e, FieldValueV, Payload};
use crate::strings::{opt_view, trim_seq, trimmed};

verus! {

/// An attachment needs a filename; the trimmed one is what is stored.
pub fn attachment_filename(input: &AttachmentAddInput) -> (r: Result<String, ToolError>)
    ensures
        match r {
            Ok(f) => trim_seq(input.filename@).len() > 0 && f@ == trim_seq(input.filename@),
            Err(e) => trim_seq(input.filename@).len() == 0 && e@ == ToolErrorV::InvalidParams(
                "A filename is required."@,
            ),
        },
{
    let f = trimmed(input.filename.as_str());
    if f.as_str().is_empty() {
        Err(ToolError::InvalidParams(owned("A filename is required.")))
    } else {
        Ok(f)
    }
}

/// The record an `attachment_add` writes: the file name, the record it hangs
/// off, the trimmed base64 content, and the mimetype when given.
pub open spec fn attachment_values_spec(
    filename: Seq<char>,
    model: Seq<char>,
    res_id: int,
    content: Seq<char>,
    mimetype: Option<Seq<char>>,
) -> Seq<(Seq<char>, FieldValueV)> {
    seq![
        text_e("name"@, filename),
        text_e("res_model"@, model),
        int_e("res_id"@, res_id),
        text_e("datas"@, trim_seq(content)),
    ] + opt_text_e("mimetype"@, mimetype)
}

pub fn attachment_values(input: &AttachmentAddInput, filename: &str, content: &str) -> (p: Payload)
    ensures
        p@ == attachment_values_spec(
            filename@,
            input.model@,
            input.res_id as int,
            content@,
            opt_view(input.mimetype),
        ),
{
    let mut p = Payload::new();
    p.push_text("name", filename);
    p.push_text("res_model", input.model.as_str());
    p.push_int("res_id", input.res_id);
    p.push_text("datas", trimmed(content).as_str());
    p.push_opt_text("mimetype", &input.mimetype);
    p
}

pub fn attached_summary(filename: &str, size: i64, input: &AttachmentAddInput, id: i64) -> (r: String)
    ensures
        r@ == "Attached "@ + filename@ + " ("@ + decimal(size as int) + " bytes) to "@ + input.model@
            + " "@ + decimal(input.res_id as int) + " as attachment "@ + decimal(id as int),
{
    let mut r = owned("Attached ");
    push_str(&mut r, filename);
    push_str(&mut r, " (");
    push_str(&mut r, decimal_string(size).as_str());
    push_str(&mut r, " bytes) to ");
    push_str(&mut r, input.model.as_str());
    push_str(&mut r, " ");
    push_str(&mut r, decimal_string(input.res_id).as_str());
    push_str(&mut r, " as attachment ");
    push_str(&mut r, decimal_string(id).as_str());
    r
}

pub fn attachment_list_summary(n: usize) -> (r: String)
    ensures
        r@ == decimal(n as int) + " attachment(s) matched"@,
{
    let mut r = usize_string(n);
    push_str(&mut r, " attachment(s) matched");
    r
}

pub fn attachment_not_visible(id: i64) -> (e: ToolError)
    ensures
        e@ == ToolErrorV::InvalidParams(
            "No attachment with id "@ + decimal(id as int) + " is visible to your Odoo account."@,
        ),
{
    let mut m = owned("No attachment with id ");
    push_str(&mut m, decimal_string(id).as_str());
    push_str(&mut m, " is visible to your Odoo account.");
    ToolError::InvalidParams(m)
}

/// Whether an attachment's content is read inline: only when it is no
/// larger than `max_inline` bytes.
pub fn content_inline(file_size: i64, max_inline: i64) -> (r: bool)
    ensures
        r == (file_size <= max_inline),
{
    file_size <= max_inline
}

/// The summary of a read whose content was withheld.
pub fn withheld_summary(id: i64) -> (r: String)
    ensures
        r@ == "Attachment "@ + decimal(id as int) + " metadata read; content withheld"@,
{
    let mut r = owned("Attachment ");
    push_str(&mut r, decimal_string(id).as_str());
    push_str(&mut r, " metadata read; content withheld");
    r
}

/// The body and summary of a read that carries the content, fenced as
/// base64.
pub fn inline_read(body: &str, id: i64, file_size: i64, content: &str) -> (r: (String, String))
    ensures
        r.0@ == body@ + "\n\n```base64\n"@ + content@ + "\n```"@,
        r.1@ == "Attachment "@ + decimal(id as int) + " read ("@ + decimal(file_size as int)
            + " bytes)"@,
{
    let mut b = owned(body);
    push_str(&mut b, "\n\n```base64\n");
    push_str(&mut b, content);
    push_str(&mut b, "\n```");
    let mut s = owned("Attachment ");
    push_str(&mut s, decimal_string(id).as_str());
    push_str(&mut s, " read (");
    push_str(&mut s, decimal_string(file_size).as_str());
    push_str(&mut s, " bytes)");
    (b, s)
}

} // verus!
