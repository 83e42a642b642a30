//! Turning Odoo chatter into text a model can read.
//!
//! `mail.message.body` is HTML written by Odoo's web editor. [`html_to_text`]
//! is the smallest transformation that makes it legible: tags are dropped,
//! block-level tags become a space, the handful of entities the editor emits
//! are decoded, and runs of whitespace collapse to one space.
//! [`snippet_around`] then cuts an excerpt centred on a search hit.

use vstd::prelude::*;

use crate::strings::{chars_of, is_whitespace, is_ws, string_from_chars, trim_seq, trimmed};

verus! {

// ---------------------------------------------------------------------------
// Tag names
// ---------------------------------------------------------------------------

/// `char::to_ascii_lowercase`.
pub open spec fn ascii_lower(c: char) -> char {
    if 'A' <= c && c <= 'Z' {
        ((c as u32) + 32) as char
    } else {
        c
    }
}

pub open spec fn ascii_lower_seq(s: Seq<char>) -> Seq<char> {
    Seq::new(s.len(), |i: int| ascii_lower(s[i]))
}

/// `str::trim_start_matches('/')`.
pub open spec fn strip_slashes(s: Seq<char>) -> Seq<char>
    decreases s.len(),
{
    if s.len() > 0 && s[0] == '/' {
        strip_slashes(s.drop_first())
    } else {
        s
    }
}

/// A character that ends a tag's name: whitespace, `>` or `/`.
pub open spec fn ends_name(c: char) -> bool {
    is_ws(c) || c == '>' || c == '/'
}

/// The number of leading characters of `s` that do not end a name.
pub open spec fn name_len(s: Seq<char>) -> nat
    decreases s.len(),
{
    if s.len() == 0 || ends_name(s[0]) {
        0
    } else {
        1 + name_len(s.drop_first())
    }
}

/// The element name of a tag body such as `/p` or `div class="x"`,
/// lower-cased.
pub open spec fn tag_name(tag: Seq<char>) -> Seq<char> {
    let t = strip_slashes(tag);
    ascii_lower_seq(t.take(name_len(t) as int))
}

/// The block-level elements whose tags read as a space.
pub open spec fn is_block_name(n: Seq<char>) -> bool {
    ||| n == seq!['p']
    ||| n == seq!['b', 'r']
    ||| n == seq!['d', 'i', 'v']
    ||| n == seq!['l', 'i']
    ||| n == seq!['t', 'r']
    ||| n == seq!['t', 'd']
    ||| n == seq!['h', '1']
    ||| n == seq!['h', '2']
    ||| n == seq!['h', '3']
    ||| n == seq!['h', '4']
    ||| n == seq!['h', '5']
    ||| n == seq!['h', '6']
}

pub open spec fn is_block_tag(tag: Seq<char>) -> bool {
    is_block_name(tag_name(tag))
}

fn to_ascii_lower(c: char) -> (r: char)
    ensures
        r == ascii_lower(c),
{
    if 'A' <= c && c <= 'Z' {
        let u = (c as u8) + 32;
        u as char
    } else {
        c
    }
}

fn chars_eq(a: &[char], b: &[char]) -> (r: bool)
    ensures
        r == (a@ == b@),
{
    if a.len() != b.len() {
        return false;
    }
    let mut i: usize = 0;
    while i < a.len()
        invariant
            a@.len() == b@.len(),
            i <= a.len(),
            forall|k: int| 0 <= k < i ==> a@[k] == b@[k],
        decreases a.len() - i,
    {
        if a[i] != b[i] {
            return false;
        }
        i += 1;
    }
    assert(a@ =~= b@);
    true
}

proof fn lemma_name_len_bound(s: Seq<char>)
    ensures
        name_len(s) <= s.len(),
        forall|k: int| 0 <= k < name_len(s) ==> !ends_name(#[trigger] s[k]),
        name_len(s) < s.len() ==> ends_name(s[name_len(s) as int]),
    decreases s.len(),
{
    if s.len() > 0 && !ends_name(s[0]) {
        lemma_name_len_bound(s.drop_first());
        assert forall|k: int| 0 <= k < name_len(s) implies !ends_name(#[trigger] s[k]) by {
            if k > 0 {
                assert(s[k] == s.drop_first()[k - 1]);
            }
        }
    }
}

proof fn lemma_name_len_step(s: Seq<char>, k: int)
    requires
        0 <= k <= s.len(),
        forall|m: int| 0 <= m < k ==> !ends_name(#[trigger] s[m]),
    ensures
        name_len(s) == k + name_len(s.skip(k)),
    decreases k,
{
    if k > 0 {
        assert(!ends_name(s[0]));
        lemma_name_len_step(s.drop_first(), k - 1);
        assert(s.drop_first().skip(k - 1) =~= s.skip(k));
    } else {
        assert(s.skip(0) =~= s);
    }
}

fn block_break_chars(tag: &[char]) -> (r: bool)
    ensures
        r == is_block_tag(tag@),
{
    let mut i: usize = 0;
    assert(tag@.skip(0) =~= tag@);
    while i < tag.len() && tag[i] == '/'
        invariant
            i <= tag.len(),
            strip_slashes(tag@) == strip_slashes(tag@.skip(i as int)),
        decreases tag.len() - i,
    {
        assert(tag@.skip(i as int).drop_first() =~= tag@.skip(i + 1));
        i += 1;
    }
    let ghost t = tag@.skip(i as int);
    assert(strip_slashes(t) == t);
    let mut j = i;
    while j < tag.len() && !(is_whitespace(tag[j]) || tag[j] == '>' || tag[j] == '/')
        invariant
            i <= j <= tag.len(),
            t == tag@.skip(i as int),
            forall|m: int| i <= m < j ==> !ends_name(#[trigger] tag@[m]),
        decreases tag.len() - j,
    {
        j += 1;
    }
    let mut name: Vec<char> = Vec::new();
    let mut k = i;
    while k < j
        invariant
            i <= k <= j <= tag.len(),
            name@ == ascii_lower_seq(tag@.subrange(i as int, k as int)),
        decreases j - k,
    {
        let c = to_ascii_lower(tag[k]);
        name.push(c);
        k += 1;
        assert(name@ =~= ascii_lower_seq(tag@.subrange(i as int, k as int)));
    }
    proof {
        assert forall|m: int| 0 <= m < j - i implies !ends_name(#[trigger] t[m]) by {
            assert(t[m] == tag@[m + i]);
        }
        lemma_name_len_step(t, j - i);
        if j < tag.len() {
            assert(t.skip(j - i)[0] == tag@[j as int]);
        }
        assert(name_len(t.skip(j - i)) == 0);
        assert(t.take(j - i) =~= tag@.subrange(i as int, j as int));
    }
    let n = name.as_slice();
    let l0: &[char] = &['p'];
    assert(l0@ =~= seq!['p']);
    let l1: &[char] = &['b', 'r'];
    assert(l1@ =~= seq!['b', 'r']);
    let l2: &[char] = &['d', 'i', 'v'];
    assert(l2@ =~= seq!['d', 'i', 'v']);
    let l3: &[char] = &['l', 'i'];
    assert(l3@ =~= seq!['l', 'i']);
    let l4: &[char] = &['t', 'r'];
    assert(l4@ =~= seq!['t', 'r']);
    let l5: &[char] = &['t', 'd'];
    assert(l5@ =~= seq!['t', 'd']);
    let l6: &[char] = &['h', '1'];
    assert(l6@ =~= seq!['h', '1']);
    let l7: &[char] = &['h', '2'];
    assert(l7@ =~= seq!['h', '2']);
    let l8: &[char] = &['h', '3'];
    assert(l8@ =~= seq!['h', '3']);
    let l9: &[char] = &['h', '4'];
    assert(l9@ =~= seq!['h', '4']);
    let l10: &[char] = &['h', '5'];
    assert(l10@ =~= seq!['h', '5']);
    let l11: &[char] = &['h', '6'];
    assert(l11@ =~= seq!['h', '6']);
    chars_eq(n, l0) || chars_eq(n, l1) || chars_eq(n, l2) || chars_eq(n, l3) || chars_eq(n, l4) || chars_eq(n, l5) || chars_eq(n, l6) || chars_eq(n, l7) || chars_eq(n, l8) || chars_eq(n, l9) || chars_eq(n, l10) || chars_eq(n, l11)
}

/// Whether a tag body (the text between `<` and `>`) names a block-level
/// element, so that the tag reads as a space rather than vanishing.
pub fn is_block_break(tag: &str) -> (r: bool)
    ensures
        r == is_block_tag(tag@),
{
    let v = chars_of(tag);
    block_break_chars(v.as_slice())
}

// ---------------------------------------------------------------------------
// Stripping tags
// ---------------------------------------------------------------------------

/// The scanner's state after a prefix of the body: the text kept so far,
/// whether a `<` is still open, and the body of the tag being read.
pub struct StripState {
    pub out: Seq<char>,
    pub in_tag: bool,
    pub tag: Seq<char>,
}

pub open spec fn strip_step(st: StripState, ch: char) -> StripState {
    if ch == '<' {
        StripState { out: st.out, in_tag: true, tag: Seq::empty() }
    } else if ch == '>' && st.in_tag {
        StripState {
            out: if is_block_tag(st.tag) {
                st.out.push(' ')
            } else {
                st.out
            },
            in_tag: false,
            tag: st.tag,
        }
    } else if st.in_tag {
        StripState { out: st.out, in_tag: true, tag: st.tag.push(ch) }
    } else {
        StripState { out: st.out.push(ch), in_tag: false, tag: st.tag }
    }
}

/// Scanning `s` left to right from the empty state. A `<` that is never
/// closed discards the partial tag and keeps the text before it.
pub open spec fn strip_scan(s: Seq<char>) -> StripState
    decreases s.len(),
{
    if s.len() == 0 {
        StripState { out: Seq::empty(), in_tag: false, tag: Seq::empty() }
    } else {
        strip_step(strip_scan(s.drop_last()), s.last())
    }
}

pub open spec fn strip_tags(s: Seq<char>) -> Seq<char> {
    strip_scan(s).out
}

// ---------------------------------------------------------------------------
// Entities
// ---------------------------------------------------------------------------

/// `str::replace`: every non-overlapping occurrence of `pat`, scanning left to
/// right, replaced by `rep`.
pub open spec fn replace_seq(s: Seq<char>, pat: Seq<char>, rep: Seq<char>) -> Seq<char>
    recommends
        pat.len() > 0,
    decreases s.len(),
{
    if s.len() == 0 || pat.len() == 0 {
        s
    } else if pat.len() <= s.len() && s.take(pat.len() as int) == pat {
        rep + replace_seq(s.skip(pat.len() as int), pat, rep)
    } else {
        seq![s[0]] + replace_seq(s.drop_first(), pat, rep)
    }
}

/// The entities Odoo's editor emits, decoded in this order. Anything else is
/// left as literal text.
pub open spec fn decode_entities(s: Seq<char>) -> Seq<char> {
    let s1 = replace_seq(s, seq!['&', 'n', 'b', 's', 'p', ';'], seq![' ']);
    let s2 = replace_seq(s1, seq!['&', 'a', 'm', 'p', ';'], seq!['&']);
    let s3 = replace_seq(s2, seq!['&', 'l', 't', ';'], seq!['<']);
    let s4 = replace_seq(s3, seq!['&', 'g', 't', ';'], seq!['>']);
    let s5 = replace_seq(s4, seq!['&', 'q', 'u', 'o', 't', ';'], seq!['"']);
    replace_seq(s5, seq!['&', '#', '3', '9', ';'], seq!['\''])
}

// ---------------------------------------------------------------------------
// Whitespace
// ---------------------------------------------------------------------------

/// The number of leading non-whitespace characters of `s`.
pub open spec fn word_len(s: Seq<char>) -> nat
    decreases s.len(),
{
    if s.len() == 0 || is_ws(s[0]) {
        0
    } else {
        1 + word_len(s.drop_first())
    }
}

pub proof fn lemma_word_len(s: Seq<char>)
    ensures
        word_len(s) <= s.len(),
        s.len() > 0 && !is_ws(s[0]) ==> word_len(s) >= 1,
        forall|k: int| 0 <= k < word_len(s) ==> !is_ws(#[trigger] s[k]),
        word_len(s) < s.len() ==> is_ws(s[word_len(s) as int]),
    decreases s.len(),
{
    if s.len() > 0 && !is_ws(s[0]) {
        lemma_word_len(s.drop_first());
        assert forall|k: int| 0 <= k < word_len(s) implies !is_ws(#[trigger] s[k]) by {
            if k > 0 {
                assert(s[k] == s.drop_first()[k - 1]);
            }
        }
    }
}

/// `str::split_whitespace`: the maximal runs of non-whitespace, in order.
pub open spec fn words(s: Seq<char>) -> Seq<Seq<char>>
    decreases s.len(),
{
    if s.len() == 0 {
        Seq::empty()
    } else if is_ws(s[0]) {
        words(s.drop_first())
    } else {
        proof {
            lemma_word_len(s);
        }
        seq![s.take(word_len(s) as int)] + words(s.skip(word_len(s) as int))
    }
}

/// `Vec::join` of the pieces with a one-character separator.
pub open spec fn join_with(ws: Seq<Seq<char>>, sep: char) -> Seq<char>
    decreases ws.len(),
{
    if ws.len() == 0 {
        Seq::empty()
    } else if ws.len() == 1 {
        ws[0]
    } else {
        ws[0] + seq![sep] + join_with(ws.drop_first(), sep)
    }
}

/// Runs of whitespace collapsed to one space, and none at either end.
pub open spec fn collapse_ws(s: Seq<char>) -> Seq<char> {
    join_with(words(s), ' ')
}

/// The plain text of an Odoo chatter body.
pub open spec fn html_text(html: Seq<char>) -> Seq<char> {
    collapse_ws(decode_entities(strip_tags(html)))
}

fn strip_tags_chars(v: &Vec<char>) -> (out: Vec<char>)
    ensures
        out@ == strip_tags(v@),
{
    let mut out: Vec<char> = Vec::new();
    let mut tag: Vec<char> = Vec::new();
    let mut in_tag = false;
    let mut i: usize = 0;
    assert(v@.take(0) =~= Seq::<char>::empty());
    while i < v.len()
        invariant
            i <= v.len(),
            strip_scan(v@.take(i as int)).out == out@,
            strip_scan(v@.take(i as int)).in_tag == in_tag,
            strip_scan(v@.take(i as int)).tag == tag@,
        decreases v.len() - i,
    {
        let ch = v[i];
        proof {
            assert(v@.take(i + 1).drop_last() =~= v@.take(i as int));
            assert(v@.take(i + 1).last() == ch);
        }
        if ch == '<' {
            in_tag = true;
            tag = Vec::new();
            assert(tag@ =~= Seq::<char>::empty());
        } else if ch == '>' && in_tag {
            in_tag = false;
            if block_break_chars(tag.as_slice()) {
                out.push(' ');
            }
        } else if in_tag {
            tag.push(ch);
        } else {
            out.push(ch);
        }
        i += 1;
    }
    assert(v@.take(v.len() as int) =~= v@);
    out
}

fn starts_at(s: &Vec<char>, i: usize, pat: &[char]) -> (r: bool)
    requires
        i <= s.len(),
        pat.len() <= s.len() - i,
    ensures
        r == (s@.subrange(i as int, i + pat.len()) == pat@),
{
    let mut k: usize = 0;
    while k < pat.len()
        invariant
            k <= pat.len(),
            i + pat.len() <= s.len(),
            forall|m: int| 0 <= m < k ==> s@[i + m] == pat@[m],
        decreases pat.len() - k,
    {
        if s[i + k] != pat[k] {
            assert(s@.subrange(i as int, i + pat.len())[k as int] != pat@[k as int]);
            return false;
        }
        k += 1;
    }
    assert(s@.subrange(i as int, i + pat.len()) =~= pat@);
    true
}

fn replace_chars(s: &Vec<char>, pat: &[char], rep: &[char]) -> (r: Vec<char>)
    requires
        pat.len() > 0,
    ensures
        r@ == replace_seq(s@, pat@, rep@),
{
    let mut out: Vec<char> = Vec::new();
    let mut i: usize = 0;
    assert(s@.skip(0) =~= s@);
    while i < s.len()
        invariant
            i <= s.len(),
            pat@.len() > 0,
            replace_seq(s@, pat@, rep@) == out@ + replace_seq(s@.skip(i as int), pat@, rep@),
        decreases s.len() - i,
    {
        let ghost t = s@.skip(i as int);
        let ghost before = out@;
        if pat.len() <= s.len() - i && starts_at(s, i, pat) {
            proof {
                assert(t.take(pat@.len() as int) =~= s@.subrange(i as int, i + pat@.len()));
                assert(t.skip(pat@.len() as int) =~= s@.skip(i + pat@.len()));
            }
            let mut k: usize = 0;
            while k < rep.len()
                invariant
                    k <= rep.len(),
                    out@ == before + rep@.take(k as int),
                decreases rep.len() - k,
            {
                out.push(rep[k]);
                k += 1;
                assert(out@ =~= before + rep@.take(k as int));
            }
            i += pat.len();
            proof {
                assert(rep@.take(rep@.len() as int) =~= rep@);
                let rest = replace_seq(s@.skip(i as int), pat@, rep@);
                assert(before + (rep@ + rest) =~= (before + rep@) + rest);
            }
        } else {
            proof {
                if pat@.len() <= t.len() {
                    assert(t.take(pat@.len() as int) =~= s@.subrange(i as int, i + pat@.len()));
                }
                assert(t.drop_first() =~= s@.skip(i + 1));
            }
            out.push(s[i]);
            i += 1;
            proof {
                let rest = replace_seq(s@.skip(i as int), pat@, rep@);
                assert(before + (seq![t[0]] + rest) =~= before.push(t[0]) + rest);
            }
        }
    }
    assert(out@ + Seq::<char>::empty() =~= out@);
    out
}

fn decode_entities_chars(v: &Vec<char>) -> (r: Vec<char>)
    ensures
        r@ == decode_entities(v@),
{
    let p1: &[char] = &['&', 'n', 'b', 's', 'p', ';'];
    let r1: &[char] = &[' '];
    let p2: &[char] = &['&', 'a', 'm', 'p', ';'];
    let r2: &[char] = &['&'];
    let p3: &[char] = &['&', 'l', 't', ';'];
    let r3: &[char] = &['<'];
    let p4: &[char] = &['&', 'g', 't', ';'];
    let r4: &[char] = &['>'];
    let p5: &[char] = &['&', 'q', 'u', 'o', 't', ';'];
    let r5: &[char] = &['"'];
    let p6: &[char] = &['&', '#', '3', '9', ';'];
    let r6: &[char] = &['\''];
    assert(p1@ =~= seq!['&', 'n', 'b', 's', 'p', ';']);
    assert(r1@ =~= seq![' ']);
    assert(p2@ =~= seq!['&', 'a', 'm', 'p', ';']);
    assert(r2@ =~= seq!['&']);
    assert(p3@ =~= seq!['&', 'l', 't', ';']);
    assert(r3@ =~= seq!['<']);
    assert(p4@ =~= seq!['&', 'g', 't', ';']);
    assert(r4@ =~= seq!['>']);
    assert(p5@ =~= seq!['&', 'q', 'u', 'o', 't', ';']);
    assert(r5@ =~= seq!['"']);
    assert(p6@ =~= seq!['&', '#', '3', '9', ';']);
    assert(r6@ =~= seq!['\'']);
    let s1 = replace_chars(v, p1, r1);
    let s2 = replace_chars(&s1, p2, r2);
    let s3 = replace_chars(&s2, p3, r3);
    let s4 = replace_chars(&s3, p4, r4);
    let s5 = replace_chars(&s4, p5, r5);
    replace_chars(&s5, p6, r6)
}

/// Glue `out` (the words already emitted) to the words still to come.
pub open spec fn glue(out: Seq<char>, rest: Seq<Seq<char>>) -> Seq<char> {
    if rest.len() == 0 {
        out
    } else if out.len() == 0 {
        join_with(rest, ' ')
    } else {
        out + seq![' '] + join_with(rest, ' ')
    }
}

proof fn lemma_words_skip_ws(s: Seq<char>, i: int)
    requires
        0 <= i < s.len(),
        is_ws(s[i]),
    ensures
        words(s.skip(i)) == words(s.skip(i + 1)),
{
    assert(s.skip(i).drop_first() =~= s.skip(i + 1));
}

proof fn lemma_word_len_step(s: Seq<char>, k: int)
    requires
        0 <= k <= s.len(),
        forall|m: int| 0 <= m < k ==> !is_ws(#[trigger] s[m]),
    ensures
        word_len(s) == k + word_len(s.skip(k)),
    decreases k,
{
    if k > 0 {
        lemma_word_len_step(s.drop_first(), k - 1);
        assert(s.drop_first().skip(k - 1) =~= s.skip(k));
    } else {
        assert(s.skip(0) =~= s);
    }
}

fn collapse_chars(v: &Vec<char>) -> (out: Vec<char>)
    ensures
        out@ == collapse_ws(v@),
{
    let mut out: Vec<char> = Vec::new();
    let mut i: usize = 0;
    assert(v@.skip(0) =~= v@);
    while i < v.len()
        invariant
            i <= v.len(),
            collapse_ws(v@) == glue(out@, words(v@.skip(i as int))),
        decreases v.len() - i,
    {
        if is_whitespace(v[i]) {
            proof {
                lemma_words_skip_ws(v@, i as int);
            }
            i += 1;
        } else {
            let mut j = i;
            while j < v.len() && !is_whitespace(v[j])
                invariant
                    i <= j <= v.len(),
                    forall|m: int| i <= m < j ==> !is_ws(#[trigger] v@[m]),
                decreases v.len() - j,
            {
                j += 1;
            }
            let ghost t = v@.skip(i as int);
            let ghost w = v@.subrange(i as int, j as int);
            proof {
                assert forall|m: int| 0 <= m < j - i implies !is_ws(#[trigger] t[m]) by {
                    assert(t[m] == v@[m + i]);
                }
                lemma_word_len_step(t, j - i);
                assert(t.skip(j - i) =~= v@.skip(j as int));
                if j < v.len() {
                    assert(v@.skip(j as int)[0] == v@[j as int]);
                }
                assert(word_len(v@.skip(j as int)) == 0);
                assert(t.take(j - i) =~= w);
                assert(words(t) == seq![w] + words(v@.skip(j as int)));
            }
            let ghost before = out@;
            if out.len() > 0 {
                out.push(' ');
            }
            let ghost mid = out@;
            let mut k = i;
            while k < j
                invariant
                    i <= k <= j <= v.len(),
                    out@ == mid + v@.subrange(i as int, k as int),
                decreases j - k,
            {
                out.push(v[k]);
                k += 1;
                assert(out@ =~= mid + v@.subrange(i as int, k as int));
            }
            proof {
                let rest = words(v@.skip(j as int));
                let ws = seq![w] + rest;
                assert(ws[0] == w);
                assert(ws.drop_first() =~= rest);
                if before.len() == 0 {
                    assert(mid =~= Seq::<char>::empty());
                    assert(out@ =~= w);
                } else {
                    assert(out@ =~= before + seq![' '] + w);
                }
                if rest.len() == 0 {
                    assert(join_with(ws, ' ') == w);
                } else {
                    assert(join_with(ws, ' ') == w + seq![' '] + join_with(rest, ' '));
                    if before.len() > 0 {
                        assert(before + seq![' '] + (w + seq![' '] + join_with(rest, ' '))
                            =~= out@ + seq![' '] + join_with(rest, ' '));
                    }
                }
            }
            i = j;
        }
    }
    proof {
        assert(v@.skip(v@.len() as int) =~= Seq::<char>::empty());
    }
    out
}

/// Strip HTML markup from a chatter body and collapse its whitespace.
///
/// Tags are removed, block-level tags become spaces, and the handful of
/// entities Odoo emits are decoded.
pub fn html_to_text(html: &str) -> (r: String)
    ensures
        r@ == html_text(html@),
{
    let v = chars_of(html);
    let stripped = strip_tags_chars(&v);
    let decoded = decode_entities_chars(&stripped);
    let collapsed = collapse_chars(&decoded);
    string_from_chars(collapsed.as_slice())
}

// ---------------------------------------------------------------------------
// Snippets
// ---------------------------------------------------------------------------

/// Longest snippet [`snippet_around`] will return, in characters (not counting
/// the ellipses that mark dropped text).
pub const SNIPPET_CHARS: usize = 200;

/// What `str::to_lowercase` returns for a string: Unicode's full lower-case
/// mapping, which may change the number of characters.
pub uninterp spec fn lowercase_of(s: Seq<char>) -> Seq<char>;

/// `str::to_lowercase`.
#[verifier::external_body]
fn to_lowercase(s: &str) -> (r: String)
    ensures
        r@ == lowercase_of(s@),
{
    s.to_lowercase()
}

/// The first position at or after `p` where `needle` occurs in `haystack`.
pub open spec fn find_from(haystack: Seq<char>, needle: Seq<char>, p: int) -> Option<int>
    decreases haystack.len() + 1 - p,
{
    if p < 0 || p + needle.len() > haystack.len() {
        None
    } else if haystack.subrange(p, p + needle.len()) == needle {
        Some(p)
    } else {
        find_from(haystack, needle, p + 1)
    }
}

/// `slice::windows(n).position(|w| w == needle)`.
pub open spec fn first_window_spec(haystack: Seq<char>, needle: Seq<char>) -> Option<int> {
    find_from(haystack, needle, 0)
}

/// The character offset of the first case-insensitive hit for `query` in
/// `text`; an empty (or all-whitespace) query finds nothing.
pub open spec fn match_hit(text: Seq<char>, query: Seq<char>) -> Option<int> {
    let needle = lowercase_of(trim_seq(query));
    if needle.len() == 0 {
        None
    } else {
        first_window_spec(lowercase_of(text), needle)
    }
}

pub open spec fn opt_usize_view(o: Option<usize>) -> Option<int> {
    match o {
        Some(u) => Some(u as int),
        None => None,
    }
}

/// The first position of `needle` in `haystack`, comparing whole windows.
pub fn first_window(haystack: &[char], needle: &[char]) -> (r: Option<usize>)
    requires
        needle.len() > 0,
    ensures
        opt_usize_view(r) == first_window_spec(haystack@, needle@),
{
    let n = needle.len();
    if n > haystack.len() {
        return None;
    }
    let hl = haystack.len();
    let mut p: usize = 0;
    while p <= hl - n
        invariant
            hl == haystack@.len(),
            n == needle@.len(),
            n <= haystack@.len(),
            p <= haystack@.len() - n + 1,
            first_window_spec(haystack@, needle@) == find_from(haystack@, needle@, p as int),
        decreases haystack.len() - n + 1 - p,
    {
        let mut k: usize = 0;
        let mut same = true;
        while k < n
            invariant
                k <= n,
                n == needle@.len(),
                p + n <= hl,
                hl == haystack@.len(),
                same == (forall|m: int| 0 <= m < k ==> haystack@[p + m] == needle@[m]),
            decreases n - k,
        {
            if haystack[p + k] != needle[k] {
                same = false;
            }
            k += 1;
        }
        if same {
            assert(haystack@.subrange(p as int, p + n) =~= needle@);
            return Some(p);
        } else {
            proof {
                let m = choose|m: int| 0 <= m < n && haystack@[p + m] != needle@[m];
                assert(haystack@.subrange(p as int, p + n)[m] != needle@[m]);
            }
        }
        p += 1;
    }
    None
}

/// The character offset of the first case-insensitive hit for `query` in
/// `text`.
///
/// Lower-casing can change a string's length, so the search runs over the
/// lower-cased characters and returns an offset into them.
pub fn match_start(text: &str, query: &str) -> (r: Option<usize>)
    ensures
        opt_usize_view(r) == match_hit(text@, query@),
{
    let q = trimmed(query);
    let needle_s = to_lowercase(q.as_str());
    let needle = chars_of(needle_s.as_str());
    if needle.len() == 0 {
        return None;
    }
    let hay_s = to_lowercase(text);
    let haystack = chars_of(hay_s.as_str());
    first_window(haystack.as_slice(), needle.as_slice())
}

/// Where a snippet of a long text starts: the hit centred, then clamped so a
/// hit near either end still yields a full-width snippet.
pub open spec fn snippet_start(len: int, hit: Option<int>) -> int {
    match hit {
        None => 0,
        Some(h) => {
            let centred = if h >= (SNIPPET_CHARS / 2) as int {
                h - (SNIPPET_CHARS / 2) as int
            } else {
                0
            };
            let last_start = len - SNIPPET_CHARS as int;
            if centred <= last_start {
                centred
            } else {
                last_start
            }
        },
    }
}

/// The excerpt [`snippet_around`] returns.
pub open spec fn snippet_spec(text: Seq<char>, query: Seq<char>) -> Seq<char> {
    let n = text.len() as int;
    if n <= SNIPPET_CHARS as int {
        text
    } else {
        let start = snippet_start(n, match_hit(text, query));
        let end = start + SNIPPET_CHARS as int;
        (if start > 0 {
            seq!['…']
        } else {
            Seq::empty()
        }) + text.subrange(start, end) + (if end < n {
            seq!['…']
        } else {
            Seq::empty()
        })
    }
}

/// An excerpt of `text` centred on the first case-insensitive hit for
/// `query`, at most [`SNIPPET_CHARS`] characters plus an ellipsis at each end
/// where text was dropped. A query that does not appear falls back to the
/// head of the text rather than to nothing.
pub fn snippet_around(text: &str, query: &str) -> (r: String)
    ensures
        r@ == snippet_spec(text@, query@),
{
    let chars = chars_of(text);
    if chars.len() <= SNIPPET_CHARS {
        return text.to_owned();
    }
    let len = chars.len();
    let hit = match_start(text, query);
    let start = match hit {
        None => 0,
        Some(h) => {
            let half = SNIPPET_CHARS / 2;
            let centred = if h >= half {
                h - half
            } else {
                0
            };
            let last_start = len - SNIPPET_CHARS;
            if centred <= last_start {
                centred
            } else {
                last_start
            }
        },
    };
    let end = start + SNIPPET_CHARS;
    let mut out: Vec<char> = Vec::new();
    if start > 0 {
        out.push('…');
    }
    let ghost head = out@;
    let mut k = start;
    while k < end
        invariant
            start <= k <= end <= len,
            len == chars@.len(),
            out@ == head + chars@.subrange(start as int, k as int),
        decreases end - k,
    {
        out.push(chars[k]);
        k += 1;
        assert(out@ =~= head + chars@.subrange(start as int, k as int));
    }
    if end < len {
        out.push('…');
    }
    proof {
        let tail: Seq<char> = if end < len {
            seq!['…']
        } else {
            Seq::empty()
        };
        assert(out@ =~= head + chars@.subrange(start as int, end as int) + tail);
    }
    string_from_chars(out.as_slice())
}


/// No whitespace at either end, and every whitespace character inside is a
/// single space followed by a non-space.
pub open spec fn collapsed(t: Seq<char>) -> bool {
    &&& t.len() > 0 ==> !is_ws(t[0]) && !is_ws(t[t.len() - 1])
    &&& forall|i: int|
        0 <= i < t.len() && #[trigger] is_ws(t[i]) ==> t[i] == ' ' && i + 1 < t.len() && !is_ws(
            t[i + 1],
        )
}

/// A word as `split_whitespace` yields it: non-empty, no whitespace.
pub open spec fn clean_word(w: Seq<char>) -> bool {
    w.len() > 0 && forall|i: int| 0 <= i < w.len() ==> !is_ws(#[trigger] w[i])
}

proof fn lemma_words_clean(s: Seq<char>)
    ensures
        forall|k: int| 0 <= k < words(s).len() ==> clean_word(#[trigger] words(s)[k]),
    decreases s.len(),
{
    if s.len() > 0 {
        if is_ws(s[0]) {
            lemma_words_clean(s.drop_first());
            assert(words(s) == words(s.drop_first()));
        } else {
            lemma_word_len(s);
            let w = s.take(word_len(s) as int);
            let rest = s.skip(word_len(s) as int);
            lemma_words_clean(rest);
            assert forall|i: int| 0 <= i < w.len() implies !is_ws(#[trigger] w[i]) by {
                assert(w[i] == s[i]);
            }
            assert(clean_word(w));
            let ws = words(s);
            assert(ws == seq![w] + words(rest));
            assert forall|k: int| 0 <= k < ws.len() implies clean_word(#[trigger] ws[k]) by {
                if k > 0 {
                    assert(ws[k] == words(rest)[k - 1]);
                }
            }
        }
    }
}

proof fn lemma_join_collapsed(ws: Seq<Seq<char>>)
    requires
        forall|k: int| 0 <= k < ws.len() ==> clean_word(#[trigger] ws[k]),
    ensures
        collapsed(join_with(ws, ' ')),
        ws.len() > 0 ==> join_with(ws, ' ').len() > 0,
    decreases ws.len(),
{
    if ws.len() == 1 {
        assert(clean_word(ws[0]));
    } else if ws.len() > 1 {
        let rest = ws.drop_first();
        assert forall|k: int| 0 <= k < rest.len() implies clean_word(#[trigger] rest[k]) by {
            assert(rest[k] == ws[k + 1]);
        }
        lemma_join_collapsed(rest);
        let w = ws[0];
        assert(clean_word(w));
        let j = join_with(rest, ' ');
        let t = join_with(ws, ' ');
        assert(t == w + seq![' '] + j);
        let n = w.len() as int;
        assert forall|i: int| 0 <= i < t.len() && #[trigger] is_ws(t[i]) implies t[i] == ' ' && i + 1
            < t.len() && !is_ws(t[i + 1]) by {
            if i < n {
                assert(t[i] == w[i]);
            } else if i == n {
                assert(t[i + 1] == j[0]);
            } else {
                assert(t[i] == j[i - n - 1]);
                assert(t[i + 1] == j[i - n]);
            }
        }
        assert(t[0] == w[0]);
        assert(t[t.len() - 1] == j[j.len() - 1]);
    }
}

/// The plain text of a chatter body has no whitespace at either end and no
/// run of whitespace: each gap between words is one space.
pub proof fn law_plain_text_is_collapsed(html: Seq<char>)
    ensures
        collapsed(html_text(html)),
{
    let s = decode_entities(strip_tags(html));
    lemma_words_clean(s);
    lemma_join_collapsed(words(s));
}

} // verus!
