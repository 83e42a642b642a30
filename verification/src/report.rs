//! `crm_lead_report`: the pipeline aggregated in Odoo, by stage or by
//! salesperson, rather than records pulled back to be counted.

use vstd::prelude::*;

use crate::domain::{group_field, report_domain, text_c, when_text};
use crate::strings::opt_view;
use crate::fmt::{decimal, decimal_string, owned, push_str, usize_string};
use crate::inputs::{LeadReportInput, ReportGroupBy};
use crate::overview::{GroupPlan, GroupPlanV};

verus! {

pub open spec fn group_key_spec(g: ReportGroupBy) -> Seq<char> {
    if g == ReportGroupBy::Stage {
        "stage_id"@
    } else {
        "user_id"@
    }
}

/// Revenue summed per group over the leads created in the window.
pub fn report_plan(input: &LeadReportInput) -> (p: GroupPlan)
    ensures
        p@ == (GroupPlanV {
            model: "crm.lead"@,
            domain: when_text(
                opt_view(input.date_from),
                |f: Seq<char>| seq![text_c("create_date"@, ">="@, f)],
            ) + when_text(opt_view(input.date_to), |t: Seq<char>| seq![text_c("create_date"@, "<="@, t)]),
            fields: seq!["expected_revenue:sum"@],
            group_by: seq![group_key_spec(input.group_by)],
        }),
{
    let mut fields: Vec<String> = Vec::new();
    fields.push(owned("expected_revenue:sum"));
    let mut group_by: Vec<String> = Vec::new();
    group_by.push(owned(group_field(input.group_by)));
    let p = GroupPlan { model: owned("crm.lead"), domain: report_domain(input), fields, group_by };
    assert(p@.fields =~= seq!["expected_revenue:sum"@]);
    assert(p@.group_by =~= seq![group_key_spec(input.group_by)]);
    p
}

/// `- **group** — n lead(s), expected revenue r`, the revenue rendered with
/// two decimals by the caller.
pub fn group_row(label: &str, count: i64, revenue: &str) -> (r: String)
    ensures
        r@ == "- **"@ + label@ + "** — "@ + decimal(count as int) + " lead(s), expected revenue "@
            + revenue@,
{
    let mut r = owned("- **");
    push_str(&mut r, label);
    push_str(&mut r, "** — ");
    push_str(&mut r, decimal_string(count).as_str());
    push_str(&mut r, " lead(s), expected revenue ");
    push_str(&mut r, revenue);
    r
}

/// The counts that are present, summed.
pub open spec fn count_total(counts: Seq<Option<i64>>) -> int
    decreases counts.len(),
{
    if counts.len() == 0 {
        0
    } else {
        count_total(counts.drop_last()) + match counts.last() {
            Some(c) => c as int,
            None => 0,
        }
    }
}

/// Every running total of `counts` fits in an `i64`.
pub open spec fn totals_fit(counts: Seq<Option<i64>>) -> bool {
    forall|k: int| 0 <= k <= counts.len() ==> i64::MIN <= #[trigger] count_total(counts.take(k)) <= i64::MAX
}

/// [`report_total`] for any counts: the total, or nothing when a running
/// total would not fit in an `i64`.
pub fn report_total_checked(counts: &Vec<Option<i64>>) -> (t: Option<i64>)
    ensures
        t == (if totals_fit(counts@) {
            Some(count_total(counts@) as i64)
        } else {
            None
        }),
{
    let mut t: i64 = 0;
    let mut i: usize = 0;
    assert(counts@.take(0) =~= Seq::<Option<i64>>::empty());
    while i < counts.len()
        invariant
            i <= counts@.len(),
            t == count_total(counts@.take(i as int)),
            forall|k: int| 0 <= k <= i ==> i64::MIN <= #[trigger] count_total(counts@.take(k)) <= i64::MAX,
        decreases counts.len() - i,
    {
        assert(counts@.take(i + 1).drop_last() =~= counts@.take(i as int));
        match counts[i] {
            Some(c) => {
                match t.checked_add(c) {
                    Some(n) => {
                        t = n;
                    },
                    None => {
                        assert(!(i64::MIN <= count_total(counts@.take(i + 1)) <= i64::MAX));
                        return None;
                    },
                }
            },
            None => {},
        }
        i += 1;
    }
    assert(counts@.take(counts@.len() as int) =~= counts@);
    Some(t)
}

/// The number of leads across all groups: the groups' counts, where
/// present, added up. Every running total must fit in an `i64`.
pub fn report_total(counts: &Vec<Option<i64>>) -> (t: i64)
    requires
        forall|k: int|
            0 <= k <= counts@.len() ==> i64::MIN <= #[trigger] count_total(counts@.take(k)) <= i64::MAX,
    ensures
        t == count_total(counts@),
{
    let mut t: i64 = 0;
    let mut i: usize = 0;
    assert(counts@.take(0) =~= Seq::<Option<i64>>::empty());
    while i < counts.len()
        invariant
            i <= counts@.len(),
            t == count_total(counts@.take(i as int)),
            forall|k: int|
                0 <= k <= counts@.len() ==> i64::MIN <= #[trigger] count_total(counts@.take(k)) <= i64::MAX,
        decreases counts.len() - i,
    {
        assert(counts@.take(i + 1).drop_last() =~= counts@.take(i as int));
        let ghost next = count_total(counts@.take(i + 1));
        match counts[i] {
            Some(c) => {
                t = t + c;
            },
            None => {},
        }
        i += 1;
    }
    assert(counts@.take(counts@.len() as int) =~= counts@);
    t
}

/// `total lead(s) across n group(s) by key`.
pub fn report_summary(total: i64, groups: usize, group_by: ReportGroupBy) -> (r: String)
    ensures
        r@ == decimal(total as int) + " lead(s) across "@ + decimal(groups as int) + " group(s) by "@
            + group_key_spec(group_by),
{
    let mut r = decimal_string(total);
    push_str(&mut r, " lead(s) across ");
    push_str(&mut r, usize_string(groups).as_str());
    push_str(&mut r, " group(s) by ");
    push_str(&mut r, group_field(group_by));
    r
}

} // verus!
