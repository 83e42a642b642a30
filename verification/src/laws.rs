//! Properties the library keeps across all inputs: who a query is scoped to,
//! what a limit can be, which tools are listed and routed, how the approval
//! approval step answers, what a briefing always contains.

use vstd::prelude::*;

use crate::approval::{outcome_matches, GateOutcome, HoldStage, WaitResult};
use crate::approvals::{approval_limit_spec, MAX_LIMIT as APPROVAL_MAX_LIMIT};
use crate::domain::{activity_domain_spec, int_c, invoice_domain_spec, text_c};
use crate::inputs::{resolve_limit_spec, ActivityListInput, InvoiceListInput, MAX_LIMIT};
use crate::payload::{insert_pos, key_index, lemma_insert_pos, lemma_key_index, put_ordered, FieldValueV};
use crate::calendar::{
    before_dot, date_form, first_of, first_t_spaced, fraction_form, is_digit, lemma_first_of, normalize_spec, time_form,
    trim_end_z, zone_form,
};
use crate::overview::{briefing_sections_spec, BriefingRowsV, MetricCardV, SectionDataV};
use crate::strings::{is_ws, trim_end_seq, trim_seq, trim_start_seq};
use crate::text::{decode_entities, replace_seq, find_from, match_hit, snippet_spec, snippet_start, SNIPPET_CHARS};
use crate::inputs::{ReportGroupBy, SaleOrderLineInput};
use crate::payload::ScalarV;
use crate::report::group_key_spec;
use crate::sales::{order_line_spec, sale_order_values_spec};

verus! {

/// An activity listing is always the caller's own: its first condition is
/// `user_id = uid`, and it has no OR that could widen it.
pub proof fn law_activities_are_the_callers(uid: i32, input: ActivityListInput, today: Seq<char>)
    ensures
        activity_domain_spec(uid, input, today).len() >= 1,
        activity_domain_spec(uid, input, today)[0] == int_c("user_id"@, "="@, uid as int),
        forall|i: int|
            0 <= i < activity_domain_spec(uid, input, today).len() ==> !(
            #[trigger] activity_domain_spec(uid, input, today)[i] is Or),
{
    let d = activity_domain_spec(uid, input, today);
    assert(d[0] == int_c("user_id"@, "="@, uid as int));
}

/// An invoice listing only ever sees customer invoices: its first condition
/// is `move_type = out_invoice`, and it has no OR that could widen it.
pub proof fn law_invoices_are_customer_invoices(input: InvoiceListInput)
    ensures
        invoice_domain_spec(input).len() >= 1,
        invoice_domain_spec(input)[0] == text_c("move_type"@, "="@, "out_invoice"@),
        forall|i: int|
            0 <= i < invoice_domain_spec(input).len() ==> !(#[trigger] invoice_domain_spec(input)[i] is Or),
{
}

/// An Odoo page size is always between 1 and the cap, and resolving a
/// resolved size changes nothing.
pub proof fn law_limit_is_bounded_and_stable(requested: Option<u32>)
    ensures
        1 <= resolve_limit_spec(requested) <= MAX_LIMIT,
        resolve_limit_spec(Some(resolve_limit_spec(requested))) == resolve_limit_spec(requested),
{
}

/// An approval page size is always between 1 and its cap, and resolving a
/// resolved size changes nothing.
pub proof fn law_approval_limit_is_bounded_and_stable(requested: Option<i64>)
    ensures
        1 <= approval_limit_spec(requested) <= APPROVAL_MAX_LIMIT,
        approval_limit_spec(Some(approval_limit_spec(requested))) == approval_limit_spec(requested),
{
}

/// The approval step lets a call run exactly when the call is not held or a human
/// approved it; a call still waiting echoes its own call id, and every
/// other stage refuses.
pub proof fn law_gate_runs_only_approved_calls(o: GateOutcome, tool: Seq<char>, call_id: Seq<char>, stage: HoldStage)
    requires
        outcome_matches(o, tool, call_id, stage),
    ensures
        (o is Proceed) <==> (stage is NotHeld || stage matches HoldStage::Opened(WaitResult::Approved(_))),
        stage matches HoldStage::Opened(WaitResult::StillPending) ==> (o matches GateOutcome::Held {
            request_state,
        } && request_state@ == call_id),
        (o is Held) ==> stage matches HoldStage::Opened(WaitResult::StillPending),
{
}

/// Writing a key into an entry list leaves the new value under it, keeps
/// every entry under another key, and adds at most one entry.
pub proof fn law_put_sets_one_key(p: Seq<(Seq<char>, FieldValueV)>, k: Seq<char>, v: FieldValueV)
    ensures
        put_ordered(p, k, v).contains((k, v)),
        put_ordered(p, k, v).len() == p.len() || put_ordered(p, k, v).len() == p.len() + 1,
        forall|j: int| 0 <= j < p.len() && p[j].0 != k ==> put_ordered(p, k, v).contains(#[trigger] p[j]),
{
    lemma_key_index(p, k);
    lemma_insert_pos(p, k);
    let q = put_ordered(p, k, v);
    match key_index(p, k) {
        Some(i) => {
            assert(q[i] == (k, v));
            assert forall|j: int| 0 <= j < p.len() && p[j].0 != k implies q.contains(#[trigger] p[j]) by {
                assert(q[j] == p[j]);
            }
        },
        None => {
            let n = insert_pos(p, k);
            assert(q[n] == (k, v));
            assert forall|j: int| 0 <= j < p.len() && p[j].0 != k implies q.contains(#[trigger] p[j]) by {
                if j < n {
                    assert(q[j] == p[j]);
                } else {
                    assert(q[j + 1] == p[j]);
                }
            }
        },
    }
}

/// A briefing always has its six blocks, in order — pipeline, new leads,
/// activities, calendar, tasks, notes — and each block is a table (or, for
/// the pipeline, cards) exactly when it has something to show, a table
/// carrying that block's rows in the order they were read; otherwise it
/// names its empty case in text.
pub proof fn law_briefing_has_every_block<R>(cards: Seq<MetricCardV>, rows: BriefingRowsV<R>)
    ensures
        briefing_sections_spec(cards, rows).len() == 6,
        briefing_sections_spec(cards, rows)[0].id == "pipeline"@,
        briefing_sections_spec(cards, rows)[1].id == "new_leads"@,
        briefing_sections_spec(cards, rows)[2].id == "activities"@,
        briefing_sections_spec(cards, rows)[3].id == "calendar"@,
        briefing_sections_spec(cards, rows)[4].id == "tasks"@,
        briefing_sections_spec(cards, rows)[5].id == "notes"@,
        forall|i: int| 0 <= i < 6 ==> #[trigger] briefing_sections_spec(cards, rows)[i].order == i,
        (briefing_sections_spec(cards, rows)[0].data is Cards) <==> cards.len() > 0,
        (briefing_sections_spec(cards, rows)[1].data is Table) <==> rows.new_leads.len() > 0,
        (briefing_sections_spec(cards, rows)[2].data is Table) <==> rows.activities.len() > 0,
        (briefing_sections_spec(cards, rows)[3].data is Table) <==> rows.events.len() > 0,
        (briefing_sections_spec(cards, rows)[4].data is Table) <==> rows.tasks.len() > 0,
        (briefing_sections_spec(cards, rows)[5].data is Table) <==> rows.notes.len() > 0,
        briefing_sections_spec(cards, rows)[1].data matches SectionDataV::Table(_, r) ==> r == rows.new_leads,
        briefing_sections_spec(cards, rows)[2].data matches SectionDataV::Table(_, r) ==> r == rows.activities,
        briefing_sections_spec(cards, rows)[3].data matches SectionDataV::Table(_, r) ==> r == rows.events,
        briefing_sections_spec(cards, rows)[4].data matches SectionDataV::Table(_, r) ==> r == rows.tasks,
        briefing_sections_spec(cards, rows)[5].data matches SectionDataV::Table(_, r) ==> r == rows.notes,
        forall|i: int|
            0 <= i < 6 ==> ((#[trigger] briefing_sections_spec(cards, rows)[i].data is Text) || i == 0
                || briefing_sections_spec(cards, rows)[i].data is Table),
{
    let s = briefing_sections_spec(cards, rows);
    assert(s[0].order == 0 && s[1].order == 1 && s[2].order == 2 && s[3].order == 3 && s[4].order == 4
        && s[5].order == 5);
}

/// A datetime already in Odoo's form — trimmed, no fractional seconds, no
/// `T`, no trailing `Z` — passes through untouched.
pub proof fn law_normal_datetime_passes_through(v: Seq<char>)
    requires
        trim_seq(v) == v,
        !v.contains('.'),
        !v.contains('T'),
        v.len() == 0 || v.last() != 'Z',
    ensures
        normalize_spec(v) == v,
{
    lemma_first_of_absent(v, '.');
    lemma_first_of_absent(v, 'T');
}

/// An ISO 8601 datetime as callers write it — `YYYY-MM-DD`, then `T` or a
/// space, then `HH:MM:SS`, then optional fractional seconds and an optional
/// `Z`, with whitespace around it — becomes Odoo's `YYYY-MM-DD HH:MM:SS`,
/// and normalizing that again changes nothing.
pub proof fn law_normalize_datetime_forms(
    lead: Seq<char>,
    d: Seq<char>,
    sep: char,
    t: Seq<char>,
    f: Seq<char>,
    z: Seq<char>,
    trail: Seq<char>,
)
    requires
        forall|j: int| 0 <= j < lead.len() ==> is_ws(#[trigger] lead[j]),
        forall|j: int| 0 <= j < trail.len() ==> is_ws(#[trigger] trail[j]),
        date_form(d),
        sep == 'T' || sep == ' ',
        time_form(t),
        fraction_form(f),
        zone_form(z),
    ensures
        normalize_spec(lead + d + seq![sep] + t + f + z + trail) == d + seq![' '] + t,
        normalize_spec(normalize_spec(lead + d + seq![sep] + t + f + z + trail))
            == normalize_spec(lead + d + seq![sep] + t + f + z + trail),
{
    let v = lead + d + seq![sep] + t + f + z + trail;
    let u = d + seq![sep] + t;
    let w = u + f;
    let core = w + z;
    let r = d + seq![' '] + t;
    assert forall|j: int| 0 <= j < 19 implies (#[trigger] u[j] != '.' && u[j] != 'Z' && (u[j] == 'T' ==> j == 10)) by {
        if j < 10 {
            assert(u[j] == d[j]);
            if j != 4 && j != 7 {
                lemma_digit(d[j]);
            }
        } else if j > 10 {
            assert(u[j] == t[j - 11]);
            if j - 11 != 2 && j - 11 != 5 {
                lemma_digit(t[j - 11]);
            }
        }
    }
    assert forall|j: int| 0 <= j < 19 implies #[trigger] r[j] != '.' && r[j] != 'T' && r[j] != 'Z' by {
        if j < 10 {
            assert(r[j] == d[j]);
            if j != 4 && j != 7 {
                lemma_digit(d[j]);
            }
        } else if j > 10 {
            assert(r[j] == t[j - 11]);
            if j - 11 != 2 && j - 11 != 5 {
                lemma_digit(t[j - 11]);
            }
        }
    }
    lemma_digit(d[0]);
    lemma_digit(t[7]);
    // The whitespace around the value goes.
    assert(!is_ws(core.last())) by {
        if z.len() == 0 {
            if f.len() == 0 {
                assert(core.last() == t[7]);
            } else {
                assert(core.last() == f[f.len() - 1]);
                if f.len() > 1 {
                    lemma_digit(f[f.len() - 1]);
                }
            }
        } else {
            assert(core.last() == 'Z');
        }
    }
    assert(v =~= lead + (core + trail));
    assert((core + trail)[0] == d[0]);
    lemma_trim_start_ws(lead, core + trail);
    lemma_trim_end_ws(core, trail);
    assert(trim_seq(v) == core);
    // The zone marker goes.
    assert(w.len() > 0 && w.last() != 'Z') by {
        if f.len() == 0 {
            assert(w.last() == t[7]);
        } else {
            assert(w.last() == f[f.len() - 1]);
            if f.len() > 1 {
                lemma_digit(f[f.len() - 1]);
            }
        }
    }
    assert(trim_end_z(w) == w);
    if z.len() > 0 {
        assert(core.drop_last() =~= w);
    } else {
        assert(core =~= w);
    }
    assert(trim_end_z(core) == w);
    // The fractional seconds go.
    lemma_first_of(w, '.');
    if f.len() > 0 {
        assert(w[19] == '.');
        match first_of(w, '.') {
            Some(i) => {
                if i < 19 {
                    assert(w[i] == u[i]);
                }
                assert(i == 19);
            },
            None => {
                assert(false);
            },
        }
        assert(w.take(19) =~= u);
    } else {
        assert(w =~= u);
        match first_of(w, '.') {
            Some(i) => {
                assert(w[i] == u[i]);
            },
            None => {},
        }
    }
    assert(before_dot(w) == u);
    // The `T` becomes a space.
    lemma_first_of(u, 'T');
    if sep == 'T' {
        assert(u[10] == 'T');
        match first_of(u, 'T') {
            Some(i) => {
                assert(i == 10);
            },
            None => {
                assert(false);
            },
        }
        assert(u.update(10, ' ') =~= r);
    } else {
        assert(u =~= r);
        match first_of(u, 'T') {
            Some(i) => {
                assert(u[i] == 'T');
                assert(i == 10);
            },
            None => {},
        }
    }
    assert(first_t_spaced(u) == r);
    assert(normalize_spec(v) == r);
    // And Odoo's form is a fixed point.
    assert(r[10] == ' ');
    assert(!r.contains('.'));
    assert(!r.contains('T'));
    assert(r.last() == t[7]);
    assert(trim_start_seq(r) == r);
    assert(trim_end_seq(r) == r);
    law_normal_datetime_passes_through(r);
}

proof fn lemma_digit(c: char)
    requires
        is_digit(c),
    ensures
        c != '.',
        c != 'T',
        c != 'Z',
        !is_ws(c),
{
}

proof fn lemma_trim_start_ws(lead: Seq<char>, x: Seq<char>)
    requires
        forall|j: int| 0 <= j < lead.len() ==> is_ws(#[trigger] lead[j]),
        x.len() > 0,
        !is_ws(x[0]),
    ensures
        trim_start_seq(lead + x) == x,
    decreases lead.len(),
{
    if lead.len() == 0 {
        assert(lead + x =~= x);
    } else {
        let rest = lead.drop_first();
        assert((lead + x).drop_first() =~= rest + x);
        assert((lead + x)[0] == lead[0]);
        lemma_trim_start_ws(rest, x);
    }
}

proof fn lemma_trim_end_ws(x: Seq<char>, trail: Seq<char>)
    requires
        forall|j: int| 0 <= j < trail.len() ==> is_ws(#[trigger] trail[j]),
        x.len() > 0,
        !is_ws(x.last()),
    ensures
        trim_end_seq(x + trail) == x,
    decreases trail.len(),
{
    if trail.len() == 0 {
        assert(x + trail =~= x);
    } else {
        let rest = trail.drop_last();
        assert((x + trail).drop_last() =~= x + rest);
        assert((x + trail).last() == trail.last());
        lemma_trim_end_ws(x, rest);
    }
}

proof fn lemma_first_of_absent(s: Seq<char>, c: char)
    requires
        !s.contains(c),
    ensures
        first_of(s, c) is None,
    decreases s.len(),
{
    if s.len() > 0 {
        assert(s[0] != c);
        let q = s.drop_first();
        assert forall|j: int| 0 <= j < q.len() implies q[j] != c by {
            assert(q[j] == s[j + 1]);
        }
        lemma_first_of_absent(q, c);
    }
}

/// A snippet is never longer than [`SNIPPET_CHARS`] characters plus an
/// ellipsis at each end, and a text that short comes back whole.
pub proof fn law_snippet_is_bounded(text: Seq<char>, query: Seq<char>)
    ensures
        snippet_spec(text, query).len() <= SNIPPET_CHARS + 2,
        text.len() <= SNIPPET_CHARS ==> snippet_spec(text, query) == text,
{
    let n = text.len() as int;
    if n > SNIPPET_CHARS as int {
        let start = snippet_start(n, match_hit(text, query));
        assert(0 <= start <= n - SNIPPET_CHARS as int) by {
            match match_hit(text, query) {
                Some(h) => {},
                None => {},
            }
        }
    }
}

/// A pipeline report groups by what the caller asked for: by stage it
/// groups on `stage_id`, by salesperson on `user_id` — the two are never
/// confused, and the field the plan groups on is the one the summary names.
pub proof fn law_report_groups_as_asked(g: ReportGroupBy)
    ensures
        g == ReportGroupBy::Stage ==> group_key_spec(g) == "stage_id"@,
        g == ReportGroupBy::User ==> group_key_spec(g) == "user_id"@,
        group_key_spec(ReportGroupBy::Stage) != group_key_spec(ReportGroupBy::User),
{
    reveal_strlit("stage_id");
    reveal_strlit("user_id");
    assert(group_key_spec(ReportGroupBy::Stage)[0] != group_key_spec(ReportGroupBy::User)[0]);
}

/// A created line carries every field its request gave — the product
/// always, the quantity and the unit price whenever given, each
/// independently of the other — and no quantity or price it did not give.
pub open spec fn line_keeps_fields(l: SaleOrderLineInput, c: Seq<(Seq<char>, ScalarV)>) -> bool {
    &&& c.contains(("product_id"@, ScalarV::Int(l.product_id as int)))
    &&& (l.quantity matches Some(q) ==> c.contains(("product_uom_qty"@, ScalarV::Json(q))))
    &&& (l.price_unit matches Some(p) ==> c.contains(("price_unit"@, ScalarV::Json(p))))
    &&& (l.quantity is None ==> forall|k: int| 0 <= k < c.len() ==> c[k].0 != "product_uom_qty"@)
    &&& (l.price_unit is None ==> forall|k: int| 0 <= k < c.len() ==> c[k].0 != "price_unit"@)
}

/// A quotation carries every requested line, in order, each keeping every
/// field its request gave ([`line_keeps_fields`]).
pub proof fn law_quotation_lines_keep_their_fields(partner_id: int, lines: Seq<SaleOrderLineInput>, origin: Option<Seq<char>>)
    ensures
        sale_order_values_spec(partner_id, lines, origin)[1].0 == "order_line"@,
        sale_order_values_spec(partner_id, lines, origin)[1].1 matches FieldValueV::CreateEach(cs)
            && cs.len() == lines.len()
            && forall|i: int| 0 <= i < lines.len() ==> line_keeps_fields(lines[i], #[trigger] cs[i]),
{
    reveal_strlit("product_id");
    reveal_strlit("product_uom_qty");
    reveal_strlit("price_unit");
    let v = sale_order_values_spec(partner_id, lines, origin);
    let cs = Seq::new(lines.len(), |i: int| order_line_spec(lines[i]));
    assert(v[1] == ("order_line"@, FieldValueV::CreateEach(cs)));
    assert forall|i: int| 0 <= i < lines.len() implies line_keeps_fields(lines[i], #[trigger] cs[i]) by {
        let l = lines[i];
        let c = cs[i];
        assert(c[0] == ("product_id"@, ScalarV::Int(l.product_id as int)));
        let nq: int = if l.quantity is Some { 1 } else { 0 };
        match l.quantity {
            Some(q) => {
                assert(c[1] == ("product_uom_qty"@, ScalarV::Json(q)));
            },
            None => {},
        }
        match l.price_unit {
            Some(p) => {
                assert(c[1 + nq] == ("price_unit"@, ScalarV::Json(p)));
            },
            None => {},
        }
        assert("product_id"@.len() == 10 && "product_uom_qty"@.len() == 15 && "price_unit"@.len() == 10);
        assert("product_id"@ != "product_uom_qty"@);
        assert("product_id"@[2] != "price_unit"@[2]);
        assert("product_uom_qty"@ != "price_unit"@);
    }
}

/// A snippet of a long text shows the hit: the window it cuts is a full
/// [`SNIPPET_CHARS`] characters of the text, starts no later than the hit,
/// and reaches at least half a snippet's width past it (or to the end of
/// the text) — so a hit near either end is still inside it.
pub proof fn law_snippet_shows_the_hit(text: Seq<char>, query: Seq<char>, h: int, k: int)
    requires
        text.len() > SNIPPET_CHARS,
        match_hit(text, query) == Some(h),
        0 <= k <= (SNIPPET_CHARS / 2) as int,
        h + k <= text.len(),
    ensures
        0 <= snippet_start(text.len() as int, Some(h)),
        snippet_start(text.len() as int, Some(h)) + SNIPPET_CHARS <= text.len(),
        snippet_start(text.len() as int, Some(h)) <= h,
        h + k <= snippet_start(text.len() as int, Some(h)) + SNIPPET_CHARS,
        snippet_spec(text, query) == (if snippet_start(text.len() as int, Some(h)) > 0 {
            seq!['…']
        } else {
            Seq::empty()
        }) + text.subrange(
            snippet_start(text.len() as int, Some(h)),
            snippet_start(text.len() as int, Some(h)) + SNIPPET_CHARS,
        ) + (if snippet_start(text.len() as int, Some(h)) + SNIPPET_CHARS < text.len() {
            seq!['…']
        } else {
            Seq::empty()
        }),
{
    let needle = crate::text::lowercase_of(trim_seq(query));
    lemma_find_from_at_least(crate::text::lowercase_of(text), needle, 0);
}

proof fn lemma_find_from_at_least(hay: Seq<char>, needle: Seq<char>, p: int)
    ensures
        find_from(hay, needle, p) matches Some(i) ==> i >= p,
    decreases hay.len() + 1 - p,
{
    if !(p < 0 || p + needle.len() > hay.len()) && hay.subrange(p, p + needle.len()) != needle {
        lemma_find_from_at_least(hay, needle, p + 1);
    }
}

/// Each entity Odoo's editor emits decodes to its own character, wherever
/// it stands in plain text: `&nbsp;` to a space, `&amp;` to `&`, `&lt;` to
/// `<`, `&gt;` to `>`, `&quot;` to `"` and `&#39;` to `'`; and text with no
/// entity is left as it is.
pub proof fn law_entities_decode(a: Seq<char>, b: Seq<char>)
    requires
        !a.contains('&'),
        !b.contains('&'),
        !b.contains(';'),
    ensures
        decode_entities(a) == a,
        decode_entities(a + seq!['&', 'n', 'b', 's', 'p', ';'] + b) == a + seq![' '] + b,
        decode_entities(a + seq!['&', 'a', 'm', 'p', ';'] + b) == a + seq!['&'] + b,
        decode_entities(a + seq!['&', 'l', 't', ';'] + b) == a + seq!['<'] + b,
        decode_entities(a + seq!['&', 'g', 't', ';'] + b) == a + seq!['>'] + b,
        decode_entities(a + seq!['&', 'q', 'u', 'o', 't', ';'] + b) == a + seq!['"'] + b,
        decode_entities(a + seq!['&', '#', '3', '9', ';'] + b) == a + seq!['\''] + b,
{
    let ps: Seq<Seq<char>> = seq![seq!['&', 'n', 'b', 's', 'p', ';'], seq!['&', 'a', 'm', 'p', ';'], seq!['&', 'l', 't', ';'], seq!['&', 'g', 't', ';'], seq!['&', 'q', 'u', 'o', 't', ';'], seq!['&', '#', '3', '9', ';']];
    let rs: Seq<char> = seq![' ', '&', '<', '>', '"', '\''];
    lemma_untouched_by_all(a);
    lemma_decode_one(a, b, ps, rs, 0);
    assert(ps[0] == seq!['&', 'n', 'b', 's', 'p', ';'] && rs[0] == ' ');
    lemma_decode_one(a, b, ps, rs, 1);
    assert(ps[1] == seq!['&', 'a', 'm', 'p', ';'] && rs[1] == '&');
    lemma_decode_one(a, b, ps, rs, 2);
    assert(ps[2] == seq!['&', 'l', 't', ';'] && rs[2] == '<');
    lemma_decode_one(a, b, ps, rs, 3);
    assert(ps[3] == seq!['&', 'g', 't', ';'] && rs[3] == '>');
    lemma_decode_one(a, b, ps, rs, 4);
    assert(ps[4] == seq!['&', 'q', 'u', 'o', 't', ';'] && rs[4] == '"');
    lemma_decode_one(a, b, ps, rs, 5);
    assert(ps[5] == seq!['&', '#', '3', '9', ';'] && rs[5] == '\'');
}

/// The six patterns `decode_entities` replaces, in order, and what each
/// becomes, applied to `x`.
spec fn decode_steps(x: Seq<char>, ps: Seq<Seq<char>>, rs: Seq<char>, upto: int) -> Seq<char>
    decreases upto,
{
    if upto <= 0 {
        x
    } else {
        replace_seq(decode_steps(x, ps, rs, upto - 1), ps[upto - 1], seq![rs[upto - 1]])
    }
}

proof fn lemma_decode_is_steps(x: Seq<char>, ps: Seq<Seq<char>>, rs: Seq<char>)
    requires
        ps == seq![seq!['&', 'n', 'b', 's', 'p', ';'], seq!['&', 'a', 'm', 'p', ';'], seq!['&', 'l', 't', ';'], seq!['&', 'g', 't', ';'], seq!['&', 'q', 'u', 'o', 't', ';'], seq!['&', '#', '3', '9', ';']],
        rs == seq![' ', '&', '<', '>', '"', '\''],
    ensures
        decode_entities(x) == decode_steps(x, ps, rs, 6),
{
    reveal_with_fuel(decode_steps, 7);
}

proof fn lemma_untouched_by_all(a: Seq<char>)
    requires
        !a.contains('&'),
    ensures
        decode_entities(a) == a,
{
    lemma_untouched(a, seq!['&', 'n', 'b', 's', 'p', ';'], seq![' ']);
    lemma_untouched(a, seq!['&', 'a', 'm', 'p', ';'], seq!['&']);
    lemma_untouched(a, seq!['&', 'l', 't', ';'], seq!['<']);
    lemma_untouched(a, seq!['&', 'g', 't', ';'], seq!['>']);
    lemma_untouched(a, seq!['&', 'q', 'u', 'o', 't', ';'], seq!['"']);
    lemma_untouched(a, seq!['&', '#', '3', '9', ';'], seq!['\'']);
}

proof fn lemma_decode_one(a: Seq<char>, b: Seq<char>, ps: Seq<Seq<char>>, rs: Seq<char>, k: int)
    requires
        !a.contains('&'),
        !b.contains('&'),
        !b.contains(';'),
        ps == seq![seq!['&', 'n', 'b', 's', 'p', ';'], seq!['&', 'a', 'm', 'p', ';'], seq!['&', 'l', 't', ';'], seq!['&', 'g', 't', ';'], seq!['&', 'q', 'u', 'o', 't', ';'], seq!['&', '#', '3', '9', ';']],
        rs == seq![' ', '&', '<', '>', '"', '\''],
        0 <= k < 6,
    ensures
        decode_entities(a + ps[k] + b) == a + seq![rs[k]] + b,
{
    lemma_decode_is_steps(a + ps[k] + b, ps, rs);
    assert forall|j: int| 0 <= j < 6 implies (#[trigger] ps[j]).len() >= 2 && ps[j][0] == '&' && ps[j][ps[j].len() - 1] == ';'
        && !ps[j].drop_first().contains('&') && (forall|i: int| 0 <= i < 6 && i != j ==> ps[i][1] != ps[j][1]) by {
        assert(!ps[j].drop_first().contains('&')) by {
            assert forall|m: int| 0 <= m < ps[j].drop_first().len() implies ps[j].drop_first()[m] != '&' by {}
        }
    }
    lemma_steps(a, b, ps, rs, k, 6);
}

proof fn lemma_steps(a: Seq<char>, b: Seq<char>, ps: Seq<Seq<char>>, rs: Seq<char>, k: int, j: int)
    requires
        !a.contains('&'),
        !b.contains('&'),
        !b.contains(';'),
        ps == seq![seq!['&', 'n', 'b', 's', 'p', ';'], seq!['&', 'a', 'm', 'p', ';'], seq!['&', 'l', 't', ';'], seq!['&', 'g', 't', ';'], seq!['&', 'q', 'u', 'o', 't', ';'], seq!['&', '#', '3', '9', ';']],
        rs == seq![' ', '&', '<', '>', '"', '\''],
        0 <= k < 6,
        0 <= j <= 6,
        forall|i: int| 0 <= i < 6 ==> (#[trigger] ps[i]).len() >= 2 && ps[i][0] == '&' && ps[i][ps[i].len() - 1] == ';'
            && !ps[i].drop_first().contains('&') && (forall|m: int| 0 <= m < 6 && m != i ==> ps[m][1] != ps[i][1]),
    ensures
        decode_steps(a + ps[k] + b, ps, rs, j) == if j <= k {
            a + ps[k] + b
        } else {
            a + seq![rs[k]] + b
        },
    decreases j,
{
    if j > 0 {
        lemma_steps(a, b, ps, rs, k, j - 1);
        let i = j - 1;
        if i < k {
            lemma_step_skip(a, ps[k], b, ps[i], seq![rs[i]]);
        } else if i == k {
            lemma_step_hit(a, ps[k], b, seq![rs[k]]);
        } else {
            lemma_step_after(a, rs[k], b, ps[i], seq![rs[i]]);
        }
    }
}

proof fn lemma_untouched(s: Seq<char>, pat: Seq<char>, rep: Seq<char>)
    requires
        pat.len() > 0,
        !s.contains(pat[0]),
    ensures
        replace_seq(s, pat, rep) == s,
    decreases s.len(),
{
    if s.len() > 0 {
        if pat.len() <= s.len() && s.take(pat.len() as int) == pat {
            assert(s.take(pat.len() as int)[0] == s[0]);
        }
        let t = s.drop_first();
        assert(!t.contains(pat[0])) by {
            if t.contains(pat[0]) {
                let m = choose|m: int| 0 <= m < t.len() && t[m] == pat[0];
                assert(s[m + 1] == pat[0]);
            }
        }
        lemma_untouched(t, pat, rep);
        assert(seq![s[0]] + t =~= s);
    }
}

proof fn lemma_prefix_untouched(a: Seq<char>, x: Seq<char>, pat: Seq<char>, rep: Seq<char>)
    requires
        pat.len() > 0,
        !a.contains(pat[0]),
    ensures
        replace_seq(a + x, pat, rep) == a + replace_seq(x, pat, rep),
    decreases a.len(),
{
    if a.len() == 0 {
        assert(a + x =~= x);
        assert(a + replace_seq(x, pat, rep) =~= replace_seq(x, pat, rep));
    } else {
        let s = a + x;
        assert(s[0] == a[0]);
        if pat.len() <= s.len() && s.take(pat.len() as int) == pat {
            assert(s.take(pat.len() as int)[0] == s[0]);
        }
        let t = a.drop_first();
        assert(!t.contains(pat[0])) by {
            if t.contains(pat[0]) {
                let m = choose|m: int| 0 <= m < t.len() && t[m] == pat[0];
                assert(a[m + 1] == pat[0]);
            }
        }
        assert(s.drop_first() =~= t + x);
        lemma_prefix_untouched(t, x, pat, rep);
        assert(seq![a[0]] + (t + replace_seq(x, pat, rep)) =~= a + replace_seq(x, pat, rep));
    }
}

proof fn lemma_head_skip(y: Seq<char>, pat: Seq<char>, rep: Seq<char>)
    requires
        pat.len() > 0,
        y.len() > 0,
        !(pat.len() <= y.len() && y.take(pat.len() as int) == pat),
        !y.drop_first().contains(pat[0]),
    ensures
        replace_seq(y, pat, rep) == y,
{
    lemma_untouched(y.drop_first(), pat, rep);
    assert(seq![y[0]] + y.drop_first() =~= y);
}

proof fn lemma_step_skip(a: Seq<char>, e: Seq<char>, b: Seq<char>, p: Seq<char>, r: Seq<char>)
    requires
        !a.contains('&'),
        !b.contains('&'),
        e.len() >= 2,
        e[0] == '&',
        !e.drop_first().contains('&'),
        p.len() >= 2,
        p[0] == '&',
        e[1] != p[1],
    ensures
        replace_seq(a + e + b, p, r) == a + e + b,
{
    let y = e + b;
    assert(a + e + b =~= a + y);
    lemma_prefix_untouched(a, y, p, r);
    if p.len() <= y.len() && y.take(p.len() as int) == p {
        assert(y.take(p.len() as int)[1] == y[1]);
    }
    assert(!y.drop_first().contains('&')) by {
        if y.drop_first().contains('&') {
            let m = choose|m: int| 0 <= m < y.drop_first().len() && y.drop_first()[m] == '&';
            if m + 1 < e.len() {
                assert(e.drop_first()[m] == '&');
            } else {
                assert(b[m + 1 - e.len()] == '&');
            }
        }
    }
    lemma_head_skip(y, p, r);
}

proof fn lemma_step_hit(a: Seq<char>, e: Seq<char>, b: Seq<char>, r: Seq<char>)
    requires
        !a.contains('&'),
        !b.contains('&'),
        e.len() >= 2,
        e[0] == '&',
    ensures
        replace_seq(a + e + b, e, r) == a + r + b,
{
    let y = e + b;
    assert(a + e + b =~= a + y);
    lemma_prefix_untouched(a, y, e, r);
    assert(y.take(e.len() as int) =~= e);
    assert(y.skip(e.len() as int) =~= b);
    lemma_untouched(b, e, r);
    assert(a + (r + b) =~= a + r + b);
}

proof fn lemma_step_after(a: Seq<char>, c: char, b: Seq<char>, p: Seq<char>, r: Seq<char>)
    requires
        !a.contains('&'),
        !b.contains('&'),
        !b.contains(';'),
        p.len() >= 2,
        p[0] == '&',
        p[p.len() - 1] == ';',
    ensures
        replace_seq(a + seq![c] + b, p, r) == a + seq![c] + b,
{
    let y = seq![c] + b;
    assert(a + seq![c] + b =~= a + y);
    lemma_prefix_untouched(a, y, p, r);
    if p.len() <= y.len() && y.take(p.len() as int) == p {
        let i = p.len() - 1;
        assert(y.take(p.len() as int)[i] == y[i]);
        assert(y[i] == b[i - 1]);
    }
    assert(y.drop_first() =~= b);
    lemma_head_skip(y, p, r);
}

} // verus!
