//! The values a tool writes to Odoo: an ordered list of `field: value`
//! entries, the shape `create` and `write` take.
//!
//! Most values are plain text, integers or booleans. Two Odoo write commands
//! have their own variants: replacing a many2many with a set of ids, and
//! creating x2many lines. A value the caller supplied as JSON (a number, or a
//! field passed through verbatim) is carried as it came.

use vstd::prelude::*;

use crate::fmt::{owned, str_eq};

verus! {

#[verifier::external_type_specification]
#[verifier::external_body]
pub struct ExJsonValue(serde_json::Value);

/// One value that is not a write command.
pub enum Scalar {
    Text(String),
    Int(i64),
    Bool(bool),
    Json(serde_json::Value),
}

pub enum ScalarV {
    Text(Seq<char>),
    Int(int),
    Bool(bool),
    Json(serde_json::Value),
}

impl View for Scalar {
    type V = ScalarV;

    open spec fn view(&self) -> ScalarV {
        match self {
            Scalar::Text(s) => ScalarV::Text(s@),
            Scalar::Int(i) => ScalarV::Int(*i as int),
            Scalar::Bool(b) => ScalarV::Bool(*b),
            Scalar::Json(j) => ScalarV::Json(*j),
        }
    }
}

/// The entries of one x2many line, in order.
pub open spec fn line_view(line: Seq<(String, Scalar)>) -> Seq<(Seq<char>, ScalarV)> {
    Seq::new(line.len(), |i: int| (line[i].0@, line[i].1@))
}

/// The value of one entry.
pub enum FieldValue {
    One(Scalar),
    /// `[[6, 0, ids]]`: the many2many holds exactly these ids.
    ReplaceIds(Vec<i64>),
    /// `[[0, 0, line], ...]`: one new x2many record per line.
    CreateEach(Vec<Vec<(String, Scalar)>>),
}

pub enum FieldValueV {
    One(ScalarV),
    ReplaceIds(Seq<i64>),
    CreateEach(Seq<Seq<(Seq<char>, ScalarV)>>),
}

impl View for FieldValue {
    type V = FieldValueV;

    open spec fn view(&self) -> FieldValueV {
        match self {
            FieldValue::One(s) => FieldValueV::One(s@),
            FieldValue::ReplaceIds(ids) => FieldValueV::ReplaceIds(ids@),
            FieldValue::CreateEach(lines) => FieldValueV::CreateEach(
                Seq::new(lines@.len(), |i: int| line_view(lines@[i]@)),
            ),
        }
    }
}

/// `field: value` pairs, in the order they were added.
pub struct Payload {
    pub entries: Vec<(String, FieldValue)>,
}

impl View for Payload {
    type V = Seq<(Seq<char>, FieldValueV)>;

    open spec fn view(&self) -> Seq<(Seq<char>, FieldValueV)> {
        Seq::new(self.entries@.len(), |i: int| (self.entries@[i].0@, self.entries@[i].1@))
    }
}

/// A text entry.
pub open spec fn text_e(k: Seq<char>, v: Seq<char>) -> (Seq<char>, FieldValueV) {
    (k, FieldValueV::One(ScalarV::Text(v)))
}

/// An integer entry.
pub open spec fn int_e(k: Seq<char>, v: int) -> (Seq<char>, FieldValueV) {
    (k, FieldValueV::One(ScalarV::Int(v)))
}

/// A boolean entry.
pub open spec fn bool_e(k: Seq<char>, v: bool) -> (Seq<char>, FieldValueV) {
    (k, FieldValueV::One(ScalarV::Bool(v)))
}

/// The entries an optional text contributes under `k`: one when it carries
/// text (trimmed), none otherwise.
pub open spec fn opt_text_e(k: Seq<char>, o: Option<Seq<char>>) -> Seq<(Seq<char>, FieldValueV)> {
    match crate::strings::non_blank(o) {
        Some(t) => seq![text_e(k, t)],
        None => Seq::empty(),
    }
}

/// The keys of a payload, in order.
pub open spec fn keys_of(p: Seq<(Seq<char>, FieldValueV)>) -> Seq<Seq<char>> {
    Seq::new(p.len(), |i: int| p[i].0)
}

/// The first position holding key `k`, if any.
pub open spec fn key_index(p: Seq<(Seq<char>, FieldValueV)>, k: Seq<char>) -> Option<int>
    decreases p.len(),
{
    if p.len() == 0 {
        None
    } else if p[0].0 == k {
        Some(0)
    } else {
        match key_index(p.drop_first(), k) {
            Some(i) => Some(i + 1),
            None => None,
        }
    }
}

pub proof fn lemma_key_index(p: Seq<(Seq<char>, FieldValueV)>, k: Seq<char>)
    ensures
        match key_index(p, k) {
            Some(i) => 0 <= i < p.len() && p[i].0 == k && forall|j: int|
                0 <= j < i ==> p[j].0 != k,
            None => forall|j: int| 0 <= j < p.len() ==> p[j].0 != k,
        },
    decreases p.len(),
{
    if p.len() > 0 && p[0].0 != k {
        let q = p.drop_first();
        lemma_key_index(q, k);
        assert forall|j: int| 1 <= j < p.len() implies p[j].0 == #[trigger] q[j - 1].0 by {}
        match key_index(q, k) {
            Some(i) => {
                assert forall|j: int| 0 <= j < i + 1 implies p[j].0 != k by {
                    if j > 0 {
                        assert(q[j - 1].0 != k);
                    }
                }
            },
            None => {
                assert forall|j: int| 0 <= j < p.len() implies p[j].0 != k by {
                    if j > 0 {
                        assert(q[j - 1].0 != k);
                    }
                }
            },
        }
    }
}

impl Payload {
    pub fn new() -> (p: Payload)
        ensures
            p@ == Seq::<(Seq<char>, FieldValueV)>::empty(),
    {
        let p = Payload { entries: Vec::new() };
        assert(p@ =~= Seq::<(Seq<char>, FieldValueV)>::empty());
        p
    }

    /// Appends `key: value`.
    pub fn push(&mut self, key: &str, value: FieldValue)
        ensures
            final(self)@ == old(self)@.push((key@, value@)),
    {
        self.entries.push((owned(key), value));
        assert(self@ =~= old(self)@.push((key@, value@)));
    }

    pub fn push_text(&mut self, key: &str, v: &str)
        ensures
            final(self)@ == old(self)@.push(text_e(key@, v@)),
    {
        self.push(key, FieldValue::One(Scalar::Text(owned(v))));
    }

    pub fn push_int(&mut self, key: &str, v: i64)
        ensures
            final(self)@ == old(self)@.push(int_e(key@, v as int)),
    {
        self.push(key, FieldValue::One(Scalar::Int(v)));
    }

    pub fn push_bool(&mut self, key: &str, v: bool)
        ensures
            final(self)@ == old(self)@.push(bool_e(key@, v)),
    {
        self.push(key, FieldValue::One(Scalar::Bool(v)));
    }

    /// Appends `key: text` when the optional text is not blank, trimmed.
    pub fn push_opt_text(&mut self, key: &str, v: &Option<String>)
        ensures
            final(self)@ == old(self)@ + opt_text_e(key@, crate::strings::opt_view(*v)),
    {
        match crate::strings::non_blank_opt(v) {
            Some(t) => {
                self.push_text(key, t.as_str());
                assert(final(self)@ =~= old(self)@ + opt_text_e(key@, crate::strings::opt_view(*v)));
            },
            None => {
                assert(old(self)@ =~= old(self)@ + opt_text_e(key@, crate::strings::opt_view(*v)));
            },
        }
    }

    /// The position of `key`, if present.
    pub fn find(&self, key: &str) -> (r: Option<usize>)
        ensures
            match r {
                Some(i) => key_index(self@, key@) == Some(i as int),
                None => key_index(self@, key@) is None,
            },
    {
        proof {
            lemma_key_index(self@, key@);
        }
        let mut i: usize = 0;
        while i < self.entries.len()
            invariant
                i <= self.entries@.len(),
                forall|j: int| 0 <= j < i ==> self@[j].0 != key@,
                match key_index(self@, key@) {
                    Some(x) => 0 <= x < self@.len() && self@[x].0 == key@ && forall|j: int|
                        0 <= j < x ==> self@[j].0 != key@,
                    None => forall|j: int| 0 <= j < self@.len() ==> self@[j].0 != key@,
                },
            decreases self.entries.len() - i,
        {
            if str_eq(self.entries[i].0.as_str(), key) {
                assert(self@[i as int].0 == key@);
                return Some(i);
            }
            i += 1;
        }
        None
    }

    pub fn is_empty(&self) -> (r: bool)
        ensures
            r == (self@.len() == 0),
    {
        self.entries.len() == 0
    }

    /// The keys, in order.
    pub fn keys(&self) -> (r: Vec<String>)
        ensures
            r@.len() == self@.len(),
            forall|i: int| 0 <= i < r@.len() ==> #[trigger] r@[i]@ == self@[i].0,
    {
        let mut r: Vec<String> = Vec::new();
        for i in 0..self.entries.len()
            invariant
                r@.len() == i,
                forall|j: int| 0 <= j < i ==> #[trigger] r@[j]@ == self@[j].0,
        {
            r.push(owned(self.entries[i].0.as_str()));
        }
        r
    }
}


/// `a < b` as `str` orders them: lexicographically, character by character.
pub open spec fn chars_lt(a: Seq<char>, b: Seq<char>) -> bool
    decreases a.len(),
{
    if a.len() == 0 {
        b.len() > 0
    } else if b.len() == 0 {
        false
    } else if a[0] != b[0] {
        (a[0] as u32) < (b[0] as u32)
    } else {
        chars_lt(a.drop_first(), b.drop_first())
    }
}

/// Where `k` goes in a key-ordered list: before the first key greater than
/// it, or at the end.
pub open spec fn insert_pos(p: Seq<(Seq<char>, FieldValueV)>, k: Seq<char>) -> int
    decreases p.len(),
{
    if p.len() == 0 {
        0
    } else if chars_lt(k, p[0].0) {
        0
    } else {
        1 + insert_pos(p.drop_first(), k)
    }
}

/// A map insert on a key-ordered entry list, as a sorted map does it: the
/// value under `k` replaced where `k` is present, the entry inserted in key
/// order otherwise.
pub open spec fn put_ordered(p: Seq<(Seq<char>, FieldValueV)>, k: Seq<char>, v: FieldValueV) -> Seq<
    (Seq<char>, FieldValueV),
> {
    match key_index(p, k) {
        Some(i) => p.update(i, (k, v)),
        None => p.insert(insert_pos(p, k), (k, v)),
    }
}

pub proof fn lemma_insert_pos(p: Seq<(Seq<char>, FieldValueV)>, k: Seq<char>)
    ensures
        0 <= insert_pos(p, k) <= p.len(),
        insert_pos(p, k) < p.len() ==> chars_lt(k, p[insert_pos(p, k)].0),
        forall|j: int| 0 <= j < insert_pos(p, k) ==> !chars_lt(k, #[trigger] p[j].0),
    decreases p.len(),
{
    if p.len() > 0 && !chars_lt(k, p[0].0) {
        let q = p.drop_first();
        lemma_insert_pos(q, k);
        assert forall|j: int| 0 <= j < insert_pos(p, k) implies !chars_lt(k, #[trigger] p[j].0) by {
            if j > 0 {
                assert(p[j] == q[j - 1]);
            }
        }
    }
}

/// `a < b` on strings.
pub fn str_lt(a: &str, b: &str) -> (r: bool)
    ensures
        r == chars_lt(a@, b@),
{
    let x = crate::strings::chars_of(a);
    let y = crate::strings::chars_of(b);
    let mut i: usize = 0;
    assert(x@.skip(0) =~= x@);
    assert(y@.skip(0) =~= y@);
    while i < x.len() && i < y.len() && x[i] == y[i]
        invariant
            i <= x@.len(),
            i <= y@.len(),
            x@ == a@,
            y@ == b@,
            chars_lt(a@, b@) == chars_lt(x@.skip(i as int), y@.skip(i as int)),
        decreases x.len() - i,
    {
        proof {
            let s = x@.skip(i as int);
            let t = y@.skip(i as int);
            assert(s.drop_first() =~= x@.skip(i + 1));
            assert(t.drop_first() =~= y@.skip(i + 1));
        }
        i += 1;
    }
    proof {
        assert(x@.skip(i as int).len() == x@.len() - i);
        if i < x.len() && i < y.len() {
            assert(x@.skip(i as int)[0] == x@[i as int]);
            assert(y@.skip(i as int)[0] == y@[i as int]);
        }
    }
    if i == x.len() {
        i < y.len()
    } else if i == y.len() {
        false
    } else {
        (x[i] as u32) < (y[i] as u32)
    }
}

impl Payload {
    /// A map insert that keeps a key-ordered list in key order.
    pub fn put_ordered(&mut self, key: &str, value: FieldValue)
        ensures
            final(self)@ == put_ordered(old(self)@, key@, value@),
    {
        proof {
            lemma_key_index(self@, key@);
            lemma_insert_pos(self@, key@);
        }
        match self.find(key) {
            Some(i) => {
                let ghost v = value@;
                self.entries.set(i, (owned(key), value));
                assert(self@ =~= old(self)@.update(i as int, (key@, v)));
            },
            None => {
                let mut j: usize = 0;
                let mut stop = false;
                while j < self.entries.len() && !stop
                    invariant
                        j <= self.entries@.len(),
                        self@ == old(self)@,
                        insert_pos(self@, key@) >= j,
                        0 <= insert_pos(self@, key@) <= self@.len(),
                        insert_pos(self@, key@) < self@.len() ==> chars_lt(key@, self@[insert_pos(self@, key@)].0),
                        forall|m: int| 0 <= m < insert_pos(self@, key@) ==> !chars_lt(key@, #[trigger] self@[m].0),
                        stop ==> j < self@.len() && chars_lt(key@, self@[j as int].0),
                    decreases self.entries.len() - j, if stop { 0int } else { 1int },
                {
                    if str_lt(key, self.entries[j].0.as_str()) {
                        assert(self@[j as int].0 == self.entries@[j as int].0@);
                        stop = true;
                    } else {
                        assert(self@[j as int].0 == self.entries@[j as int].0@);
                        j += 1;
                    }
                }
                assert(j == insert_pos(self@, key@));
                let ghost v = value@;
                self.entries.insert(j, (owned(key), value));
                assert(self@ =~= old(self)@.insert(j as int, (key@, v)));
            },
        }
    }
}

} // verus!
