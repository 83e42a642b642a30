//! Character-level building blocks shared by every text function: Unicode
//! whitespace, trimming, and moving between `&str`, `String` and `Vec<char>`.

use vstd::prelude::*;

verus! {

/// Rust's `char::is_whitespace`: the Unicode `White_Space` property.
pub open spec fn is_ws(c: char) -> bool {
    let u = c as u32;
    ||| 0x09 <= u <= 0x0D
    ||| u == 0x20
    ||| u == 0x85
    ||| u == 0xA0
    ||| u == 0x1680
    ||| 0x2000 <= u <= 0x200A
    ||| u == 0x2028
    ||| u == 0x2029
    ||| u == 0x202F
    ||| u == 0x205F
    ||| u == 0x3000
}

/// `s` without its leading whitespace.
pub open spec fn trim_start_seq(s: Seq<char>) -> Seq<char>
    decreases s.len(),
{
    if s.len() > 0 && is_ws(s[0]) {
        trim_start_seq(s.drop_first())
    } else {
        s
    }
}

/// `s` without its trailing whitespace.
pub open spec fn trim_end_seq(s: Seq<char>) -> Seq<char>
    decreases s.len(),
{
    if s.len() > 0 && is_ws(s.last()) {
        trim_end_seq(s.drop_last())
    } else {
        s
    }
}

/// `str::trim`: whitespace removed from both ends.
pub open spec fn trim_seq(s: Seq<char>) -> Seq<char> {
    trim_end_seq(trim_start_seq(s))
}

/// A string that still says something once trimmed.
pub open spec fn has_text(s: Seq<char>) -> bool {
    trim_seq(s).len() > 0
}

/// The optional-text idiom used throughout: trim, and treat what is left
/// empty as absent.
pub open spec fn non_blank(s: Option<Seq<char>>) -> Option<Seq<char>> {
    match s {
        Some(t) => if has_text(t) {
            Some(trim_seq(t))
        } else {
            None
        },
        None => None,
    }
}

pub open spec fn opt_view(s: Option<String>) -> Option<Seq<char>> {
    match s {
        Some(t) => Some(t@),
        None => None,
    }
}

pub exec fn is_whitespace(c: char) -> (r: bool)
    ensures
        r == is_ws(c),
{
    let u = c as u32;
    (0x09 <= u && u <= 0x0D) || u == 0x20 || u == 0x85 || u == 0xA0 || u == 0x1680 || (0x2000
        <= u && u <= 0x200A) || u == 0x2028 || u == 0x2029 || u == 0x202F || u == 0x205F || u
        == 0x3000
}

/// The characters of `s`, in order.
pub fn chars_of(s: &str) -> (r: Vec<char>)
    ensures
        r@ == s@,
{
    let mut r: Vec<char> = Vec::new();
    for c in it: s.chars()
        invariant
            it.seq() == s@,
            r@ == it.seq().take(it.index() as int),
    {
        r.push(c);
    }
    proof {
        assert(r@ =~= s@);
    }
    r
}

/// `std`'s `FromIterator<char> for String`: the string made of `v`, in order.
#[verifier::external_body]
pub(crate) fn string_from_chars(v: &[char]) -> (r: String)
    ensures
        r@ == v@,
{
    v.iter().collect()
}

/// The index of the first non-whitespace character at or after `i`, or
/// `v.len()`.
fn skip_ws_from(v: &Vec<char>, i: usize) -> (j: usize)
    requires
        i <= v.len(),
    ensures
        i <= j <= v.len(),
        trim_start_seq(v@.skip(i as int)) == v@.skip(j as int),
{
    let mut j = i;
    while j < v.len() && is_whitespace(v[j])
        invariant
            i <= j <= v.len(),
            trim_start_seq(v@.skip(i as int)) == trim_start_seq(v@.skip(j as int)),
        decreases v.len() - j,
    {
        assert(v@.skip(j as int).drop_first() =~= v@.skip(j + 1));
        j += 1;
    }
    j
}

proof fn lemma_trim_end_prefix(s: Seq<char>, k: int)
    requires
        0 <= k <= s.len(),
        forall|m: int| k <= m < s.len() ==> is_ws(#[trigger] s[m]),
    ensures
        trim_end_seq(s) == trim_end_seq(s.take(k)),
    decreases s.len() - k,
{
    if k < s.len() {
        assert(s.drop_last() =~= s.drop_last().take(s.len() - 1));
        lemma_trim_end_prefix(s.drop_last(), k);
        assert(s.drop_last().take(k) =~= s.take(k));
    } else {
        assert(s.take(k) =~= s);
    }
}

/// `str::trim`, as a fresh `String`.
pub fn trimmed(s: &str) -> (r: String)
    ensures
        r@ == trim_seq(s@),
{
    let v = chars_of(s);
    let start = skip_ws_from(&v, 0);
    assert(v@.skip(0) =~= v@);
    let mut end = v.len();
    while end > start && is_whitespace(v[end - 1])
        invariant
            start <= end <= v.len(),
            forall|m: int| end <= m < v.len() ==> is_ws(#[trigger] v@[m]),
        decreases end,
    {
        end -= 1;
    }
    let ghost rest = v@.skip(start as int);
    proof {
        assert forall|m: int| end - start <= m < rest.len() implies is_ws(#[trigger] rest[m]) by {
            assert(rest[m] == v@[m + start]);
        }
        lemma_trim_end_prefix(rest, end - start);
        let kept = rest.take(end - start);
        if end > start {
            assert(kept.last() == v@[end - 1]);
        }
        assert(trim_end_seq(kept) == kept);
        assert(kept =~= v@.subrange(start as int, end as int));
    }
    string_from_chars(&v.as_slice()[start..end])
}

/// `Some(trimmed)` when `s` holds any non-whitespace, `None` otherwise.
pub fn non_blank_str(s: &str) -> (r: Option<String>)
    ensures
        opt_view(r) == non_blank(Some(s@)),
{
    let t = trimmed(s);
    if t.as_str().is_empty() {
        None
    } else {
        Some(t)
    }
}

/// [`non_blank`] of an optional owned string.
pub fn non_blank_opt(o: &Option<String>) -> (r: Option<String>)
    ensures
        opt_view(r) == non_blank(opt_view(*o)),
{
    match o {
        Some(s) => non_blank_str(s.as_str()),
        None => None,
    }
}

} // verus!
