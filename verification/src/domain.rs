//! Odoo search domains.
//!
//! A domain is Odoo's filter language: a flat list of conditions
//! `[field, operator, value]`, implicitly AND-ed, with a prefix `"|"` OR-ing
//! the two terms that follow it. Every list tool builds one here from its
//! input; optional filters contribute a condition only when they carry text.

use vstd::prelude::*;

use crate::fmt::owned;
use crate::inputs::{
    CalendarEventListInput, InvoiceListInput, LeadReportInput, LeadSearchInput, LeadSort,
    ActivityListInput, NoteSearchInput, ReportGroupBy, SaleOrderListInput, TaskListInput,
};
use crate::strings::{non_blank, non_blank_opt, opt_view, trim_seq, trimmed};

verus! {

/// The value a condition compares against.
pub enum Operand {
    Text(String),
    Int(i64),
    Bool(bool),
}

pub enum OperandV {
    Text(Seq<char>),
    Int(int),
    Bool(bool),
}

impl View for Operand {
    type V = OperandV;

    open spec fn view(&self) -> OperandV {
        match self {
            Operand::Text(s) => OperandV::Text(s@),
            Operand::Int(i) => OperandV::Int(*i as int),
            Operand::Bool(b) => OperandV::Bool(*b),
        }
    }
}

/// One element of a domain: the prefix OR, or a condition.
pub enum Term {
    Or,
    Cond { field: String, op: String, value: Operand },
}

pub enum TermV {
    Or,
    Cond(Seq<char>, Seq<char>, OperandV),
}

impl View for Term {
    type V = TermV;

    open spec fn view(&self) -> TermV {
        match self {
            Term::Or => TermV::Or,
            Term::Cond { field, op, value } => TermV::Cond(field@, op@, value@),
        }
    }
}

/// A search domain, in order.
pub struct Domain {
    pub terms: Vec<Term>,
}

impl View for Domain {
    type V = Seq<TermV>;

    open spec fn view(&self) -> Seq<TermV> {
        Seq::new(self.terms@.len(), |i: int| self.terms@[i]@)
    }
}

/// `[field, op, "value"]`.
pub open spec fn text_c(field: Seq<char>, op: Seq<char>, v: Seq<char>) -> TermV {
    TermV::Cond(field, op, OperandV::Text(v))
}

/// `[field, op, value]` with an integer value.
pub open spec fn int_c(field: Seq<char>, op: Seq<char>, v: int) -> TermV {
    TermV::Cond(field, op, OperandV::Int(v))
}

/// `[field, op, true|false]`.
pub open spec fn bool_c(field: Seq<char>, op: Seq<char>, v: bool) -> TermV {
    TermV::Cond(field, op, OperandV::Bool(v))
}

/// `%text%`: an `ilike` pattern matching `text` anywhere.
pub open spec fn contains_pattern(text: Seq<char>) -> Seq<char> {
    "%"@ + text + "%"@
}

/// The terms an optional filter contributes: `f(text)` when it carries
/// text, nothing otherwise.
pub open spec fn when_text(o: Option<Seq<char>>, f: spec_fn(Seq<char>) -> Seq<TermV>) -> Seq<TermV> {
    match non_blank(o) {
        Some(t) => f(t),
        None => Seq::empty(),
    }
}

impl Domain {
    pub fn new() -> (d: Domain)
        ensures
            d@ == Seq::<TermV>::empty(),
    {
        let d = Domain { terms: Vec::new() };
        assert(d@ =~= Seq::<TermV>::empty());
        d
    }

    pub fn push(&mut self, t: Term)
        ensures
            final(self)@ == old(self)@.push(t@),
    {
        self.terms.push(t);
        assert(self@ =~= old(self)@.push(t@));
    }

    pub fn push_text(&mut self, field: &str, op: &str, v: &str)
        ensures
            final(self)@ == old(self)@.push(text_c(field@, op@, v@)),
    {
        self.push(Term::Cond { field: owned(field), op: owned(op), value: Operand::Text(owned(v)) });
    }

    pub fn push_int(&mut self, field: &str, op: &str, v: i64)
        ensures
            final(self)@ == old(self)@.push(int_c(field@, op@, v as int)),
    {
        self.push(Term::Cond { field: owned(field), op: owned(op), value: Operand::Int(v) });
    }

    pub fn push_bool(&mut self, field: &str, op: &str, v: bool)
        ensures
            final(self)@ == old(self)@.push(bool_c(field@, op@, v)),
    {
        self.push(Term::Cond { field: owned(field), op: owned(op), value: Operand::Bool(v) });
    }

    pub fn push_or(&mut self)
        ensures
            final(self)@ == old(self)@.push(TermV::Or),
    {
        self.push(Term::Or);
    }
}

fn pattern_of(t: &str) -> (r: String)
    ensures
        r@ == contains_pattern(t@),
{
    let mut p = owned("%");
    crate::fmt::push_str(&mut p, t);
    crate::fmt::push_str(&mut p, "%");
    p
}

// ---------------------------------------------------------------------------
// crm.lead
// ---------------------------------------------------------------------------

pub open spec fn lead_query_terms(q: Seq<char>) -> Seq<TermV> {
    seq![
        TermV::Or,
        TermV::Or,
        text_c("name"@, "ilike"@, q),
        text_c("partner_name"@, "ilike"@, q),
        text_c("email_from"@, "ilike"@, q),
    ]
}

pub open spec fn lead_domain_spec(input: LeadSearchInput) -> Seq<TermV> {
    when_text(opt_view(input.query), |q: Seq<char>| lead_query_terms(q)) + when_text(
        opt_view(input.stage),
        |s: Seq<char>| seq![text_c("stage_id.name"@, "ilike"@, s)],
    ) + when_text(
        opt_view(input.user),
        |u: Seq<char>|
            seq![
                TermV::Or,
                text_c("user_id.name"@, "ilike"@, u),
                text_c("user_id.login"@, "ilike"@, u),
            ],
    ) + (if input.open_only == Some(true) {
        seq![bool_c("active"@, "="@, true), bool_c("stage_id.is_won"@, "="@, false)]
    } else {
        Seq::empty()
    }) + when_text(opt_view(input.tag), |t: Seq<char>| seq![text_c("tag_ids.name"@, "ilike"@, t)])
}

/// The `crm.lead` search domain. Free text ORs over subject, contact and
/// email; "open" is two flags — not archived, and not in a stage flagged
/// won — rather than a stage list a rename would break.
pub fn lead_domain(input: &LeadSearchInput) -> (d: Domain)
    ensures
        d@ == lead_domain_spec(*input),
{
    let mut d = Domain::new();
    let ghost g0 = d@;
    if let Some(q) = non_blank_opt(&input.query) {
        d.push_or();
        d.push_or();
        d.push_text("name", "ilike", q.as_str());
        d.push_text("partner_name", "ilike", q.as_str());
        d.push_text("email_from", "ilike", q.as_str());
        assert(d@ =~= g0 + lead_query_terms(q@));
    } else {
        assert(d@ =~= g0 + Seq::<TermV>::empty());
    }
    let ghost g1 = d@;
    if let Some(s) = non_blank_opt(&input.stage) {
        d.push_text("stage_id.name", "ilike", s.as_str());
        assert(d@ =~= g1 + seq![text_c("stage_id.name"@, "ilike"@, s@)]);
    } else {
        assert(d@ =~= g1 + Seq::<TermV>::empty());
    }
    let ghost g2 = d@;
    if let Some(u) = non_blank_opt(&input.user) {
        d.push_or();
        d.push_text("user_id.name", "ilike", u.as_str());
        d.push_text("user_id.login", "ilike", u.as_str());
        assert(d@ =~= g2 + seq![
            TermV::Or,
            text_c("user_id.name"@, "ilike"@, u@),
            text_c("user_id.login"@, "ilike"@, u@),
        ]);
    } else {
        assert(d@ =~= g2 + Seq::<TermV>::empty());
    }
    let ghost g3 = d@;
    if input.open_only == Some(true) {
        d.push_bool("active", "=", true);
        d.push_bool("stage_id.is_won", "=", false);
        assert(d@ =~= g3 + seq![bool_c("active"@, "="@, true), bool_c("stage_id.is_won"@, "="@, false)]);
    } else {
        assert(d@ =~= g3 + Seq::<TermV>::empty());
    }
    let ghost g4 = d@;
    if let Some(t) = non_blank_opt(&input.tag) {
        d.push_text("tag_ids.name", "ilike", t.as_str());
        assert(d@ =~= g4 + seq![text_c("tag_ids.name"@, "ilike"@, t@)]);
    } else {
        assert(d@ =~= g4 + Seq::<TermV>::empty());
    }
    d
}

/// The sort order of a lead search: by deadline when asked, newest first
/// otherwise.
pub fn lead_order(input: &LeadSearchInput) -> (r: String)
    ensures
        r@ == (if input.sort == Some(LeadSort::Deadline) {
            "date_deadline asc, create_date desc"@
        } else {
            "create_date desc"@
        }),
{
    match input.sort {
        Some(LeadSort::Deadline) => owned("date_deadline asc, create_date desc"),
        _ => owned("create_date desc"),
    }
}

/// The creation-date window of the pipeline report. An open-ended range is
/// the normal case and produces an empty domain.
pub fn report_domain(input: &LeadReportInput) -> (d: Domain)
    ensures
        d@ == when_text(
            opt_view(input.date_from),
            |f: Seq<char>| seq![text_c("create_date"@, ">="@, f)],
        ) + when_text(opt_view(input.date_to), |t: Seq<char>| seq![text_c("create_date"@, "<="@, t)]),
{
    let mut d = Domain::new();
    let ghost g0 = d@;
    if let Some(f) = non_blank_opt(&input.date_from) {
        d.push_text("create_date", ">=", f.as_str());
        assert(d@ =~= g0 + seq![text_c("create_date"@, ">="@, f@)]);
    } else {
        assert(d@ =~= g0 + Seq::<TermV>::empty());
    }
    let ghost g1 = d@;
    if let Some(t) = non_blank_opt(&input.date_to) {
        d.push_text("create_date", "<=", t.as_str());
        assert(d@ =~= g1 + seq![text_c("create_date"@, "<="@, t@)]);
    } else {
        assert(d@ =~= g1 + Seq::<TermV>::empty());
    }
    d
}

/// The field a pipeline report groups by.
pub fn group_field(group_by: ReportGroupBy) -> (r: &'static str)
    ensures
        r@ == (if group_by == ReportGroupBy::Stage {
            "stage_id"@
        } else {
            "user_id"@
        }),
{
    match group_by {
        ReportGroupBy::Stage => "stage_id",
        ReportGroupBy::User => "user_id",
    }
}

// ---------------------------------------------------------------------------
// res.partner, res.users, discuss.channel
// ---------------------------------------------------------------------------

/// Free-text partner search across name, email and phone.
pub fn partner_domain(query: &str) -> (d: Domain)
    ensures
        d@ == seq![
            TermV::Or,
            TermV::Or,
            text_c("name"@, "ilike"@, query@),
            text_c("email"@, "ilike"@, query@),
            text_c("phone"@, "ilike"@, query@),
        ],
{
    let mut d = Domain::new();
    d.push_or();
    d.push_or();
    d.push_text("name", "ilike", query);
    d.push_text("email", "ilike", query);
    d.push_text("phone", "ilike", query);
    assert(d@ =~= seq![
        TermV::Or,
        TermV::Or,
        text_c("name"@, "ilike"@, query@),
        text_c("email"@, "ilike"@, query@),
        text_c("phone"@, "ilike"@, query@),
    ]);
    d
}

/// Users whose login or name contains the query, or all of them.
pub fn user_domain(query: &Option<String>) -> (d: Domain)
    ensures
        d@ == when_text(
            opt_view(*query),
            |q: Seq<char>|
                seq![
                    TermV::Or,
                    text_c("login"@, "ilike"@, contains_pattern(q)),
                    text_c("name"@, "ilike"@, contains_pattern(q)),
                ],
        ),
{
    let mut d = Domain::new();
    if let Some(q) = non_blank_opt(query) {
        let p = pattern_of(q.as_str());
        d.push_or();
        d.push_text("login", "ilike", p.as_str());
        d.push_text("name", "ilike", p.as_str());
        assert(d@ =~= seq![
            TermV::Or,
            text_c("login"@, "ilike"@, contains_pattern(q@)),
            text_c("name"@, "ilike"@, contains_pattern(q@)),
        ]);
    }
    d
}

/// Channels whose name contains the query, or all of them.
pub fn channel_domain(query: &Option<String>) -> (d: Domain)
    ensures
        d@ == when_text(
            opt_view(*query),
            |q: Seq<char>| seq![text_c("name"@, "ilike"@, contains_pattern(q))],
        ),
{
    let mut d = Domain::new();
    if let Some(q) = non_blank_opt(query) {
        let p = pattern_of(q.as_str());
        d.push_text("name", "ilike", p.as_str());
        assert(d@ =~= seq![text_c("name"@, "ilike"@, contains_pattern(q@))]);
    }
    d
}

// ---------------------------------------------------------------------------
// mail.activity, calendar.event, project.task
// ---------------------------------------------------------------------------

/// The acting user's activities, narrowed by model and to overdue ones
/// when asked: `user_id = uid` always leads, whatever the input says.
pub open spec fn activity_domain_spec(uid: i32, input: ActivityListInput, today: Seq<char>) -> Seq<TermV> {
    seq![int_c("user_id"@, "="@, uid as int)] + when_text(
            opt_view(input.model),
            |m: Seq<char>| seq![text_c("res_model"@, "="@, m)],
        ) + (if input.overdue_only == Some(true) {
            seq![text_c("date_deadline"@, "<"@, today)]
        } else {
            Seq::empty()
        })
}

/// Activities assigned to the acting user, optionally narrowed to a model
/// and to those already past their deadline. `user_id = uid` is the tool's
/// contract, not a convenience: no input can widen it to a colleague's list.
pub fn activity_domain(uid: i32, input: &ActivityListInput, today: &str) -> (d: Domain)
    ensures
        d@ == activity_domain_spec(uid, *input, today@),
{
    let mut d = Domain::new();
    d.push_int("user_id", "=", uid as i64);
    let ghost g0 = d@;
    if let Some(m) = non_blank_opt(&input.model) {
        d.push_text("res_model", "=", m.as_str());
        assert(d@ =~= g0 + seq![text_c("res_model"@, "="@, m@)]);
    } else {
        assert(d@ =~= g0 + Seq::<TermV>::empty());
    }
    let ghost g1 = d@;
    let overdue = match input.overdue_only {
        Some(b) => b,
        None => false,
    };
    if overdue {
        d.push_text("date_deadline", "<", today);
        assert(d@ =~= g1 + seq![text_c("date_deadline"@, "<"@, today@)]);
    } else {
        assert(d@ =~= g1 + Seq::<TermV>::empty());
    }
    d
}

/// The event search: a start-date window (whole days) and a name filter.
pub fn event_domain(input: &CalendarEventListInput) -> (d: Domain)
    ensures
        d@ == when_text(
            opt_view(input.date_from),
            |f: Seq<char>| seq![text_c("start"@, ">="@, f + " 00:00:00"@)],
        ) + when_text(
            opt_view(input.date_to),
            |t: Seq<char>| seq![text_c("start"@, "<="@, t + " 23:59:59"@)],
        ) + when_text(
            opt_view(input.query),
            |q: Seq<char>| seq![text_c("name"@, "ilike"@, contains_pattern(q))],
        ),
{
    let mut d = Domain::new();
    let ghost g0 = d@;
    if let Some(f) = non_blank_opt(&input.date_from) {
        let mut v = f;
        crate::fmt::push_str(&mut v, " 00:00:00");
        d.push_text("start", ">=", v.as_str());
        assert(d@ =~= g0 + seq![text_c("start"@, ">="@, v@)]);
    } else {
        assert(d@ =~= g0 + Seq::<TermV>::empty());
    }
    let ghost g1 = d@;
    if let Some(t) = non_blank_opt(&input.date_to) {
        let mut v = t;
        crate::fmt::push_str(&mut v, " 23:59:59");
        d.push_text("start", "<=", v.as_str());
        assert(d@ =~= g1 + seq![text_c("start"@, "<="@, v@)]);
    } else {
        assert(d@ =~= g1 + Seq::<TermV>::empty());
    }
    let ghost g2 = d@;
    if let Some(q) = non_blank_opt(&input.query) {
        let p = pattern_of(q.as_str());
        d.push_text("name", "ilike", p.as_str());
        assert(d@ =~= g2 + seq![text_c("name"@, "ilike"@, contains_pattern(q@))]);
    } else {
        assert(d@ =~= g2 + Seq::<TermV>::empty());
    }
    d
}

/// Tasks, optionally in one project and matching a name fragment; open ones
/// (not in a folded stage) unless the caller asks for all.
pub fn task_domain(input: &TaskListInput, project_id: Option<i64>) -> (d: Domain)
    ensures
        d@ == (match project_id {
            Some(id) => seq![int_c("project_id"@, "="@, id as int)],
            None => Seq::empty(),
        }) + when_text(
            opt_view(input.query),
            |q: Seq<char>| seq![text_c("name"@, "ilike"@, contains_pattern(q))],
        ) + (if input.open_only != Some(false) {
            seq![bool_c("stage_id.fold"@, "="@, false)]
        } else {
            Seq::empty()
        }),
{
    let mut d = Domain::new();
    let ghost g0 = d@;
    if let Some(id) = project_id {
        d.push_int("project_id", "=", id);
        assert(d@ =~= g0 + seq![int_c("project_id"@, "="@, id as int)]);
    } else {
        assert(d@ =~= g0 + Seq::<TermV>::empty());
    }
    let ghost g1 = d@;
    if let Some(q) = non_blank_opt(&input.query) {
        let p = pattern_of(q.as_str());
        d.push_text("name", "ilike", p.as_str());
        assert(d@ =~= g1 + seq![text_c("name"@, "ilike"@, contains_pattern(q@))]);
    } else {
        assert(d@ =~= g1 + Seq::<TermV>::empty());
    }
    let ghost g2 = d@;
    let open_only = match input.open_only {
        Some(b) => b,
        None => true,
    };
    if open_only {
        d.push_bool("stage_id.fold", "=", false);
        assert(d@ =~= g2 + seq![bool_c("stage_id.fold"@, "="@, false)]);
    } else {
        assert(d@ =~= g2 + Seq::<TermV>::empty());
    }
    d
}

// ---------------------------------------------------------------------------
// mail.message
// ---------------------------------------------------------------------------

/// The chatter of one record.
pub fn thread_domain(model: &str, res_id: i64) -> (d: Domain)
    ensures
        d@ == seq![text_c("model"@, "="@, model@), int_c("res_id"@, "="@, res_id as int)],
{
    let mut d = Domain::new();
    d.push_text("model", "=", model);
    d.push_int("res_id", "=", res_id);
    assert(d@ =~= seq![text_c("model"@, "="@, model@), int_c("res_id"@, "="@, res_id as int)]);
    d
}

/// A query of one or more `%` and nothing else: the caller asking for
/// everything.
pub open spec fn match_all_spec(query: Seq<char>) -> bool {
    let t = trim_seq(query);
    t.len() > 0 && forall|i: int| 0 <= i < t.len() ==> t[i] == '%'
}

/// Whether `query` asks for everything. Wrapping such a query in `%…%`
/// again would `ilike` on literal percent signs and match nothing.
pub fn is_match_all(query: &str) -> (r: bool)
    ensures
        r == match_all_spec(query@),
{
    let t = trimmed(query);
    let v = crate::strings::chars_of(t.as_str());
    if v.len() == 0 {
        return false;
    }
    let mut i: usize = 0;
    while i < v.len()
        invariant
            i <= v.len(),
            v@ == trim_seq(query@),
            forall|k: int| 0 <= k < i ==> v@[k] == '%',
        decreases v.len() - i,
    {
        if v[i] != '%' {
            return false;
        }
        i += 1;
    }
    true
}

pub open spec fn note_search_domain_spec(input: NoteSearchInput) -> Seq<TermV> {
    (if match_all_spec(input.query@) {
        seq![text_c("message_type"@, "="@, "comment"@)]
    } else {
        seq![
            TermV::Or,
            text_c("body"@, "ilike"@, contains_pattern(trim_seq(input.query@))),
            text_c("subject"@, "ilike"@, contains_pattern(trim_seq(input.query@))),
        ]
    }) + when_text(opt_view(input.model), |m: Seq<char>| seq![text_c("model"@, "="@, m)])
        + when_text(opt_view(input.date_from), |f: Seq<char>| seq![text_c("date"@, ">="@, f)])
        + when_text(opt_view(input.date_to), |t: Seq<char>| seq![text_c("date"@, "<="@, t)])
}

/// The chatter search: body or subject containing the query — or, for a
/// match-everything query, every comment — narrowed by model and date.
pub fn search_domain(input: &NoteSearchInput) -> (d: Domain)
    ensures
        d@ == note_search_domain_spec(*input),
{
    let mut d = Domain::new();
    let ghost g0 = d@;
    if is_match_all(input.query.as_str()) {
        d.push_text("message_type", "=", "comment");
        assert(d@ =~= seq![text_c("message_type"@, "="@, "comment"@)]);
    } else {
        let q = trimmed(input.query.as_str());
        let p = pattern_of(q.as_str());
        d.push_or();
        d.push_text("body", "ilike", p.as_str());
        d.push_text("subject", "ilike", p.as_str());
        assert(d@ =~= seq![
            TermV::Or,
            text_c("body"@, "ilike"@, contains_pattern(trim_seq(input.query@))),
            text_c("subject"@, "ilike"@, contains_pattern(trim_seq(input.query@))),
        ]);
    }
    let ghost g1 = d@;
    if let Some(m) = non_blank_opt(&input.model) {
        d.push_text("model", "=", m.as_str());
        assert(d@ =~= g1 + seq![text_c("model"@, "="@, m@)]);
    } else {
        assert(d@ =~= g1 + Seq::<TermV>::empty());
    }
    let ghost g2 = d@;
    if let Some(f) = non_blank_opt(&input.date_from) {
        d.push_text("date", ">=", f.as_str());
        assert(d@ =~= g2 + seq![text_c("date"@, ">="@, f@)]);
    } else {
        assert(d@ =~= g2 + Seq::<TermV>::empty());
    }
    let ghost g3 = d@;
    if let Some(t) = non_blank_opt(&input.date_to) {
        d.push_text("date", "<=", t.as_str());
        assert(d@ =~= g3 + seq![text_c("date"@, "<="@, t@)]);
    } else {
        assert(d@ =~= g3 + Seq::<TermV>::empty());
    }
    d
}

// ---------------------------------------------------------------------------
// sale.order, account.move
// ---------------------------------------------------------------------------

/// Orders, optionally for one customer, in one state, inside a date window.
pub fn order_domain(input: &SaleOrderListInput) -> (d: Domain)
    ensures
        d@ == (match input.partner_id {
            Some(id) => seq![int_c("partner_id"@, "="@, id as int)],
            None => Seq::empty(),
        }) + when_text(opt_view(input.state), |s: Seq<char>| seq![text_c("state"@, "="@, s)])
            + when_text(
            opt_view(input.date_from),
            |f: Seq<char>| seq![text_c("date_order"@, ">="@, f)],
        ) + when_text(opt_view(input.date_to), |t: Seq<char>| seq![text_c("date_order"@, "<="@, t)]),
{
    let mut d = Domain::new();
    let ghost g0 = d@;
    if let Some(id) = input.partner_id {
        d.push_int("partner_id", "=", id);
        assert(d@ =~= g0 + seq![int_c("partner_id"@, "="@, id as int)]);
    } else {
        assert(d@ =~= g0 + Seq::<TermV>::empty());
    }
    let ghost g1 = d@;
    if let Some(s) = non_blank_opt(&input.state) {
        d.push_text("state", "=", s.as_str());
        assert(d@ =~= g1 + seq![text_c("state"@, "="@, s@)]);
    } else {
        assert(d@ =~= g1 + Seq::<TermV>::empty());
    }
    let ghost g2 = d@;
    if let Some(f) = non_blank_opt(&input.date_from) {
        d.push_text("date_order", ">=", f.as_str());
        assert(d@ =~= g2 + seq![text_c("date_order"@, ">="@, f@)]);
    } else {
        assert(d@ =~= g2 + Seq::<TermV>::empty());
    }
    let ghost g3 = d@;
    if let Some(t) = non_blank_opt(&input.date_to) {
        d.push_text("date_order", "<=", t.as_str());
        assert(d@ =~= g3 + seq![text_c("date_order"@, "<="@, t@)]);
    } else {
        assert(d@ =~= g3 + Seq::<TermV>::empty());
    }
    d
}

/// Customer invoices only — `account.move` also holds bills, credit notes
/// and journal entries — narrowed by partner, unpaid state and date.
pub open spec fn invoice_domain_spec(input: InvoiceListInput) -> Seq<TermV> {
    seq![text_c("move_type"@, "="@, "out_invoice"@)] + (match input.partner_id {
            Some(id) => seq![int_c("partner_id"@, "="@, id as int)],
            None => Seq::empty(),
        }) + (if input.unpaid_only == Some(true) {
            seq![int_c("amount_residual"@, ">"@, 0)]
        } else {
            Seq::empty()
        }) + when_text(
            opt_view(input.date_from),
            |f: Seq<char>| seq![text_c("invoice_date"@, ">="@, f)],
        ) + when_text(
            opt_view(input.date_to),
            |t: Seq<char>| seq![text_c("invoice_date"@, "<="@, t)],
        )
}

/// Customer invoices only — `account.move` also holds vendor bills, credit
/// notes and journal entries — optionally for one customer, only those with
/// something outstanding, inside a date window.
pub fn invoice_domain(input: &InvoiceListInput) -> (d: Domain)
    ensures
        d@ == invoice_domain_spec(*input),
{
    let mut d = Domain::new();
    d.push_text("move_type", "=", "out_invoice");
    let ghost g0 = d@;
    if let Some(id) = input.partner_id {
        d.push_int("partner_id", "=", id);
        assert(d@ =~= g0 + seq![int_c("partner_id"@, "="@, id as int)]);
    } else {
        assert(d@ =~= g0 + Seq::<TermV>::empty());
    }
    let ghost g1 = d@;
    if input.unpaid_only == Some(true) {
        d.push_int("amount_residual", ">", 0);
        assert(d@ =~= g1 + seq![int_c("amount_residual"@, ">"@, 0)]);
    } else {
        assert(d@ =~= g1 + Seq::<TermV>::empty());
    }
    let ghost g2 = d@;
    if let Some(f) = non_blank_opt(&input.date_from) {
        d.push_text("invoice_date", ">=", f.as_str());
        assert(d@ =~= g2 + seq![text_c("invoice_date"@, ">="@, f@)]);
    } else {
        assert(d@ =~= g2 + Seq::<TermV>::empty());
    }
    let ghost g3 = d@;
    if let Some(t) = non_blank_opt(&input.date_to) {
        d.push_text("invoice_date", "<=", t.as_str());
        assert(d@ =~= g3 + seq![text_c("invoice_date"@, "<="@, t@)]);
    } else {
        assert(d@ =~= g3 + Seq::<TermV>::empty());
    }
    d
}

// ---------------------------------------------------------------------------
// The briefing's reads
// ---------------------------------------------------------------------------

/// Leads created on or after `since`.
pub fn new_leads_domain(since: &str) -> (d: Domain)
    ensures
        d@ == seq![text_c("create_date"@, ">="@, since@)],
{
    let mut d = Domain::new();
    d.push_text("create_date", ">=", since);
    assert(d@ =~= seq![text_c("create_date"@, ">="@, since@)]);
    d
}

/// The acting user's activities due today or already late: `<=` today,
/// because the briefing is for planning the day.
pub fn due_activities_domain(uid: i32, today: &str) -> (d: Domain)
    ensures
        d@ == seq![int_c("user_id"@, "="@, uid as int), text_c("date_deadline"@, "<="@, today@)],
{
    let mut d = Domain::new();
    d.push_int("user_id", "=", uid as i64);
    d.push_text("date_deadline", "<=", today);
    assert(d@ =~= seq![int_c("user_id"@, "="@, uid as int), text_c("date_deadline"@, "<="@, today@)]);
    d
}

/// The notes people wrote: chatter comments.
pub fn comments_domain() -> (d: Domain)
    ensures
        d@ == seq![text_c("message_type"@, "="@, "comment"@)],
{
    let mut d = Domain::new();
    d.push_text("message_type", "=", "comment");
    assert(d@ =~= seq![text_c("message_type"@, "="@, "comment"@)]);
    d
}

/// Events starting today.
pub fn agenda_domain(today: &str) -> (d: Domain)
    ensures
        d@ == seq![
            text_c("start"@, ">="@, today@ + " 00:00:00"@),
            text_c("start"@, "<="@, today@ + " 23:59:59"@),
        ],
{
    let mut d = Domain::new();
    let mut from = owned(today);
    crate::fmt::push_str(&mut from, " 00:00:00");
    let mut to = owned(today);
    crate::fmt::push_str(&mut to, " 23:59:59");
    d.push_text("start", ">=", from.as_str());
    d.push_text("start", "<=", to.as_str());
    assert(d@ =~= seq![
        text_c("start"@, ">="@, today@ + " 00:00:00"@),
        text_c("start"@, "<="@, today@ + " 23:59:59"@),
    ]);
    d
}

/// Open tasks with a deadline between `today` and `horizon`: an undated
/// backlog item is nothing today's briefing can act on.
pub fn due_tasks_domain(today: &str, horizon: &str) -> (d: Domain)
    ensures
        d@ == seq![
            bool_c("stage_id.fold"@, "="@, false),
            bool_c("date_deadline"@, "!="@, false),
            text_c("date_deadline"@, "<="@, horizon@),
            text_c("date_deadline"@, ">="@, today@),
        ],
{
    let mut d = Domain::new();
    d.push_bool("stage_id.fold", "=", false);
    d.push_bool("date_deadline", "!=", false);
    d.push_text("date_deadline", "<=", horizon);
    d.push_text("date_deadline", ">=", today);
    assert(d@ =~= seq![
        bool_c("stage_id.fold"@, "="@, false),
        bool_c("date_deadline"@, "!="@, false),
        text_c("date_deadline"@, "<="@, horizon@),
        text_c("date_deadline"@, ">="@, today@),
    ]);
    d
}

} // verus!
