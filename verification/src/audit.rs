//! The shared audit helpers: what an MCP access row says, how a rejection
//! reason is cut to size, and how a tool result is reduced to the plain wire
//! shape strict clients accept.
//!
//! Writing the rows is the caller's job; everything here decides what goes in
//! them.

use vstd::prelude::*;
use vstd::utf8::{encode_scalar, encode_utf8};

use crate::fmt::{owned, push_str, str_eq};
use crate::strings::{chars_of, string_from_chars, trim_seq, trimmed};

verus! {

/// Maximum length (in bytes) of the reason text kept in a rejection
/// description before it is truncated. Truncated text gains a "..." suffix, so
/// the reason portion never exceeds `MAX_REASON_LEN + 3` bytes.
pub const MAX_REASON_LEN: usize = 117;

/// The number of bytes `c` takes in UTF-8.
pub open spec fn utf8_width(c: char) -> nat {
    encode_scalar(c as u32).len()
}

/// The number of bytes `s` takes in UTF-8.
pub open spec fn byte_len(s: Seq<char>) -> nat {
    encode_utf8(s).len()
}

/// How many leading characters of `s` fit in `budget` bytes.
pub open spec fn fit_count(s: Seq<char>, budget: int) -> nat
    decreases s.len(),
{
    if s.len() == 0 || utf8_width(s[0]) > budget {
        0
    } else {
        1 + fit_count(s.drop_first(), budget - utf8_width(s[0]))
    }
}

/// `s` cut to at most `max_bytes`, on a character boundary, with "..."
/// appended when anything was cut.
pub open spec fn truncated(s: Seq<char>, max_bytes: int) -> Seq<char> {
    if byte_len(s) <= max_bytes {
        s
    } else {
        s.take(fit_count(s, max_bytes) as int) + seq!['.', '.', '.']
    }
}

fn char_width(c: char) -> (w: usize)
    ensures
        w == utf8_width(c),
        1 <= w <= 4,
{
    proof {
        vstd::utf8::char_is_scalar(c);
    }
    let u = c as u32;
    if u <= 0x7F {
        1
    } else if u <= 0x7FF {
        2
    } else if u <= 0xFFFF {
        3
    } else {
        4
    }
}

proof fn lemma_byte_len_prefix(s: Seq<char>, k: int)
    requires
        0 <= k < s.len(),
    ensures
        byte_len(s.take(k + 1)) == byte_len(s.take(k)) + utf8_width(s[k]),
    decreases k,
{
    if k == 0 {
        assert(s.take(1).drop_first() =~= Seq::<char>::empty());
        assert(s.take(0) =~= Seq::<char>::empty());
    } else {
        lemma_byte_len_prefix(s.drop_first(), k - 1);
        assert(s.take(k + 1).drop_first() =~= s.drop_first().take(k));
        assert(s.take(k).drop_first() =~= s.drop_first().take(k - 1));
    }
}

proof fn lemma_encode_concat(a: Seq<char>, b: Seq<char>)
    ensures
        encode_utf8(a + b) == encode_utf8(a) + encode_utf8(b),
    decreases a.len(),
{
    if a.len() == 0 {
        assert(a + b =~= b);
        assert(encode_utf8(a) + encode_utf8(b) =~= encode_utf8(b));
    } else {
        lemma_encode_concat(a.drop_first(), b);
        assert((a + b).drop_first() =~= a.drop_first() + b);
        assert((a + b)[0] == a[0]);
        let e0 = encode_scalar(a[0] as u32);
        assert(e0 + (encode_utf8(a.drop_first()) + encode_utf8(b)) =~= (e0 + encode_utf8(
            a.drop_first(),
        )) + encode_utf8(b));
    }
}

proof fn lemma_byte_len_split(s: Seq<char>, j: int)
    requires
        0 <= j <= s.len(),
    ensures
        byte_len(s) == byte_len(s.take(j)) + byte_len(s.skip(j)),
{
    lemma_encode_concat(s.take(j), s.skip(j));
    assert(s.take(j) + s.skip(j) =~= s);
}

/// Truncate `s` to at most `max_bytes`, appending "..." when truncation
/// occurred. The cut is snapped down to a UTF-8 character boundary so it can
/// never split a multi-byte code point.
pub fn truncate_on_char_boundary(s: &str, max_bytes: usize) -> (r: String)
    ensures
        r@ == truncated(s@, max_bytes as int),
        byte_len(s@) > max_bytes ==> byte_len(s@.take(fit_count(s@, max_bytes as int) as int))
            <= max_bytes,
{
    let v = chars_of(s);
    let mut used: usize = 0;
    let mut k: usize = 0;
    assert(v@.skip(0) =~= v@);
    assert(v@.take(0) =~= Seq::<char>::empty());
    while k < v.len() && char_width(v[k]) <= max_bytes - used
        invariant
            k <= v.len(),
            used <= max_bytes,
            used == byte_len(v@.take(k as int)),
            fit_count(v@, max_bytes as int) == k + fit_count(v@.skip(k as int), max_bytes - used),
        decreases v.len() - k,
    {
        let w = char_width(v[k]);
        proof {
            let t = v@.skip(k as int);
            assert(t[0] == v@[k as int]);
            assert(t.drop_first() =~= v@.skip(k + 1));
            lemma_byte_len_prefix(v@, k as int);
        }
        used += w;
        k += 1;
    }
    proof {
        if k < v.len() {
            assert(v@.skip(k as int)[0] == v@[k as int]);
            lemma_byte_len_prefix(v@, k as int);
            lemma_byte_len_split(v@, k + 1);
        } else {
            assert(v@.skip(k as int) =~= Seq::<char>::empty());
            assert(v@.take(k as int) =~= v@);
        }
    }
    if k == v.len() {
        return owned(s);
    }
    let mut out: Vec<char> = Vec::new();
    let mut i: usize = 0;
    while i < k
        invariant
            i <= k <= v.len(),
            out@ == v@.take(i as int),
        decreases k - i,
    {
        out.push(v[i]);
        i += 1;
        assert(out@ =~= v@.take(i as int));
    }
    out.push('.');
    out.push('.');
    out.push('.');
    assert(out@ =~= v@.take(k as int) + seq!['.', '.', '.']);
    string_from_chars(out.as_slice())
}

/// Audit-row metadata persisted for every MCP access event. `reason` is
/// present only on rejections.
pub struct AuditMetadata {
    pub tool_name: String,
    pub server: String,
    pub reason: Option<String>,
}

/// Everything an MCP access row records besides who made it.
pub struct AccessEntry {
    pub action: String,
    pub entity_type: String,
    pub entity_name: String,
    pub description: String,
    pub metadata: AuditMetadata,
}

/// The action a tool execution is recorded under.
pub const ACTION_USED: &'static str = "used";

/// The description an access row carries for `action`.
pub open spec fn access_description_spec(server: Seq<char>, tool: Seq<char>, action: Seq<char>) -> Seq<
    char,
> {
    if action == "authenticated"@ {
        "Authenticated to "@ + server + " for '"@ + tool + "'"@
    } else if action == "used"@ {
        "Executed '"@ + tool + "' on "@ + server
    } else {
        action + " on "@ + server
    }
}

/// The access row for `action` on `tool` of `server`: a tool execution is
/// recorded against the tool, everything else against the server.
pub fn access_entry(server: &str, tool: &str, action: &str) -> (e: AccessEntry)
    ensures
        e.action@ == action@,
        e.description@ == access_description_spec(server@, tool@, action@),
        e.entity_type@ == (if action@ == "used"@ {
            "tool"@
        } else {
            "mcp_server"@
        }),
        e.entity_name@ == (if action@ == "used"@ {
            tool@
        } else {
            server@
        }),
        e.metadata.tool_name@ == tool@,
        e.metadata.server@ == server@,
        e.metadata.reason is None,
{
    let used = str_eq(action, "used");
    let description = if str_eq(action, "authenticated") {
        let mut d = owned("Authenticated to ");
        push_str(&mut d, server);
        push_str(&mut d, " for '");
        push_str(&mut d, tool);
        push_str(&mut d, "'");
        d
    } else if used {
        let mut d = owned("Executed '");
        push_str(&mut d, tool);
        push_str(&mut d, "' on ");
        push_str(&mut d, server);
        d
    } else {
        let mut d = owned(action);
        push_str(&mut d, " on ");
        push_str(&mut d, server);
        d
    };
    AccessEntry {
        action: owned(action),
        entity_type: if used {
            owned("tool")
        } else {
            owned("mcp_server")
        },
        entity_name: if used {
            owned(tool)
        } else {
            owned(server)
        },
        description,
        metadata: AuditMetadata { tool_name: owned(tool), server: owned(server), reason: None },
    }
}

/// The description and metadata of a rejection row. The description carries
/// the reason cut to [`MAX_REASON_LEN`] bytes; the metadata keeps it whole.
pub fn rejection_entry(server: &str, tool: &str, reason: &str) -> (e: (String, AuditMetadata))
    ensures
        e.0@ == "Access rejected on "@ + server@ + ": "@ + truncated(
            reason@,
            MAX_REASON_LEN as int,
        ),
        e.1.tool_name@ == tool@,
        e.1.server@ == server@,
        e.1.reason matches Some(r) && r@ == reason@,
{
    let reason_text = truncate_on_char_boundary(reason, MAX_REASON_LEN);
    let mut d = owned("Access rejected on ");
    push_str(&mut d, server);
    push_str(&mut d, ": ");
    push_str(&mut d, reason_text.as_str());
    (d, AuditMetadata { tool_name: owned(tool), server: owned(server), reason: Some(owned(reason)) })
}

/// Whether the `MCP_PLAIN_RESULTS` setting asks for the plain wire shape: it
/// does unless it is set to `0`, `false` or `off` (surrounding whitespace
/// ignored).
pub open spec fn plain_enabled_spec(setting: Option<Seq<char>>) -> bool {
    match setting {
        None => true,
        Some(v) => {
            let t = trim_seq(v);
            !(t == "0"@ || t == "false"@ || t == "off"@)
        },
    }
}

pub fn plain_results_enabled(setting: Option<&str>) -> (r: bool)
    ensures
        r == plain_enabled_spec(
            match setting {
                Some(v) => Some(v@),
                None => None,
            },
        ),
{
    match setting {
        None => true,
        Some(v) => {
            let t = trimmed(v);
            !(str_eq(t.as_str(), "0") || str_eq(t.as_str(), "false") || str_eq(t.as_str(), "off"))
        },
    }
}

/// The first text block of a result's content, if any.
pub open spec fn first_text(blocks: Seq<Option<String>>) -> Option<Seq<char>>
    decreases blocks.len(),
{
    if blocks.len() == 0 {
        None
    } else {
        match blocks[0] {
            Some(t) => Some(t@),
            None => first_text(blocks.drop_first()),
        }
    }
}

/// The single text block of the plain shape: the summary and the artifact's
/// markdown body, each once.
pub open spec fn plain_text_spec(summary: Option<Seq<char>>, body: Option<Seq<char>>) -> Seq<char> {
    match (summary, body) {
        (Some(s), Some(b)) => if s != b {
            s + "\n\n"@ + b
        } else {
            b
        },
        (None, Some(b)) => b,
        (Some(s), None) => s,
        (None, None) => Seq::empty(),
    }
}

/// The text of the plain wire result. `blocks` holds, per content block, its
/// text when it is a text block; `body` is the artifact's markdown body when
/// the structured content carries one.
pub fn plain_result_text(blocks: &Vec<Option<String>>, body: Option<String>) -> (r: String)
    ensures
        r@ == plain_text_spec(
            first_text(blocks@),
            match body {
                Some(b) => Some(b@),
                None => None,
            },
        ),
{
    let mut i: usize = 0;
    assert(blocks@.skip(0) =~= blocks@);
    while i < blocks.len() && blocks[i].is_none()
        invariant
            i <= blocks.len(),
            first_text(blocks@) == first_text(blocks@.skip(i as int)),
        decreases blocks.len() - i,
    {
        proof {
            assert(blocks@.skip(i as int)[0] == blocks@[i as int]);
            assert(blocks@.skip(i as int).drop_first() =~= blocks@.skip(i + 1));
        }
        i += 1;
    }
    let summary: Option<String> = if i < blocks.len() {
        proof {
            assert(blocks@.skip(i as int)[0] == blocks@[i as int]);
        }
        match &blocks[i] {
            Some(t) => Some(owned(t.as_str())),
            None => None,
        }
    } else {
        assert(blocks@.skip(i as int) =~= Seq::<Option<String>>::empty());
        None
    };
    match (summary, body) {
        (Some(s), Some(b)) => {
            if !str_eq(s.as_str(), b.as_str()) {
                let mut t = s;
                push_str(&mut t, "\n\n");
                push_str(&mut t, b.as_str());
                t
            } else {
                b
            }
        },
        (None, Some(b)) => b,
        (Some(s), None) => s,
        (None, None) => String::new(),
    }
}


proof fn lemma_fit_prefix_bytes(s: Seq<char>, budget: int)
    requires
        budget >= 0,
    ensures
        fit_count(s, budget) <= s.len(),
        byte_len(s.take(fit_count(s, budget) as int)) <= budget,
    decreases s.len(),
{
    if s.len() == 0 || utf8_width(s[0]) > budget {
        assert(s.take(0) =~= Seq::<char>::empty());
    } else {
        let rest = s.drop_first();
        let b = budget - utf8_width(s[0]);
        lemma_fit_prefix_bytes(rest, b);
        let k = fit_count(rest, b) as int;
        assert(s.take(k + 1) =~= seq![s[0]] + rest.take(k));
        lemma_encode_concat(seq![s[0]], rest.take(k));
        assert(seq![s[0]].drop_first() =~= Seq::<char>::empty());
        assert(encode_utf8(seq![s[0]]) == encode_scalar(s[0] as u32) + encode_utf8(Seq::<char>::empty()));
    }
}

/// A truncated reason never takes more than `max_bytes` bytes plus the
/// three of its `...`, and what it keeps is the reason's own beginning, cut
/// between characters.
pub proof fn law_truncation_fits(s: Seq<char>, max_bytes: int)
    requires
        max_bytes >= 0,
    ensures
        byte_len(truncated(s, max_bytes)) <= max_bytes + 3,
        byte_len(s) <= max_bytes ==> truncated(s, max_bytes) == s,
        byte_len(s) > max_bytes ==> exists|k: int|
            0 <= k <= s.len() && truncated(s, max_bytes) == s.take(k) + seq!['.', '.', '.'],
{
    if byte_len(s) > max_bytes {
        lemma_fit_prefix_bytes(s, max_bytes);
        let k = fit_count(s, max_bytes) as int;
        let dots = seq!['.', '.', '.'];
        lemma_encode_concat(s.take(k), dots);
        assert(encode_utf8(dots).len() == 3) by {
            reveal_with_fuel(encode_utf8, 4);
        }
        assert(truncated(s, max_bytes) == s.take(k) + dots);
    }
}

} // verus!
