//! Discuss channels: listing the ones the caller can see, and posting to
//! one.

use vstd::prelude::*;

use crate::fmt::{decimal, decimal_string, owned, owned_all, push_str, str_views, usize_string, views};
use crate::inputs::ChannelPostInput;
use crate::outcome::{ToolError, ToolErrorV};
use crate::strings::{trim_seq, trimmed};

verus! {

pub const CHANNEL_MODEL: &'static str = "discuss.channel";

pub open spec fn channel_fields_spec() -> Seq<Seq<char>> {
    seq!["id"@, "name"@, "channel_type"@, "member_count"@]
}

pub fn channel_fields() -> (r: Vec<String>)
    ensures
        views(r@) == channel_fields_spec(),
{
    let a: [&str; 4] = ["id", "name", "channel_type", "member_count"];
    assert(str_views(a@) =~= channel_fields_spec());
    owned_all(&a)
}

/// `- **[id] name** — type · n member(s)`.
pub fn channel_row(id: i64, name: &str, kind: &str, members: &str) -> (r: String)
    ensures
        r@ == "- **["@ + decimal(id as int) + "] "@ + name@ + "** — "@ + kind@ + " · "@ + members@
            + " member(s)"@,
{
    let mut r = owned("- **[");
    push_str(&mut r, decimal_string(id).as_str());
    push_str(&mut r, "] ");
    push_str(&mut r, name);
    push_str(&mut r, "** — ");
    push_str(&mut r, kind);
    push_str(&mut r, " · ");
    push_str(&mut r, members);
    push_str(&mut r, " member(s)");
    r
}

pub fn channel_list_summary(n: usize) -> (r: String)
    ensures
        r@ == decimal(n as int) + " channel(s) visible"@,
{
    let mut r = usize_string(n);
    push_str(&mut r, " channel(s) visible");
    r
}

/// A post needs a body; the trimmed body is what is posted.
pub fn channel_message(input: &ChannelPostInput) -> (r: Result<String, ToolError>)
    ensures
        match r {
            Ok(b) => trim_seq(input.body@).len() > 0 && b@ == trim_seq(input.body@),
            Err(e) => trim_seq(input.body@).len() == 0 && e@ == ToolErrorV::InvalidParams(
                "A message body is required."@,
            ),
        },
{
    let b = trimmed(input.body.as_str());
    if b.as_str().is_empty() {
        Err(ToolError::InvalidParams(owned("A message body is required.")))
    } else {
        Ok(b)
    }
}

pub fn channel_posted_summary(channel_id: i64, login: &str, message_id: i64) -> (r: String)
    ensures
        r@ == "Posted to channel "@ + decimal(channel_id as int) + " as "@ + login@ + " (message "@
            + decimal(message_id as int) + ")"@,
{
    let mut r = owned("Posted to channel ");
    push_str(&mut r, decimal_string(channel_id).as_str());
    push_str(&mut r, " as ");
    push_str(&mut r, login);
    push_str(&mut r, " (message ");
    push_str(&mut r, decimal_string(message_id).as_str());
    push_str(&mut r, ")");
    r
}

} // verus!
