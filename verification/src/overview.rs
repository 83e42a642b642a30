//! The morning briefing: the six bounded reads it is gathered from, and the
//! dashboard it is shaped into.
//!
//! The reads are independent and go out together; their dates come from one
//! reading of the clock. Every block of the dashboard is present whatever
//! came back: a quiet block names its own empty case rather than vanishing.

use vstd::prelude::*;

use crate::activity::{activity_fields, activity_fields_spec};
use crate::crm::{lead_fields, lead_fields_spec};
use crate::domain::{
    agenda_domain, comments_domain, due_activities_domain, due_tasks_domain, new_leads_domain,
    Domain, TermV, bool_c, int_c, text_c,
};
use crate::fmt::{decimal, owned, owned_all, push_str, str_views, views};

verus! {

/// How far back "recent" reaches for the new-leads block, in days.
pub const RECENT_DAYS: i64 = 7;

/// How far ahead the task block looks, in days.
pub const TASK_HORIZON_DAYS: i64 = 7;

/// Chatter notes (and activities) the briefing reads at most.
pub const RECENT_NOTES: u32 = 20;

/// New leads the briefing reads at most.
pub const RECENT_LEADS: u32 = 25;

/// Events, and tasks, the briefing reads at most.
pub const AGENDA_LIMIT: u32 = 15;

/// One `search_read`: model, domain, fields, limit and order.
pub struct SearchPlan {
    pub model: String,
    pub domain: Domain,
    pub fields: Vec<String>,
    pub limit: u32,
    pub order: String,
}

pub struct SearchPlanV {
    pub model: Seq<char>,
    pub domain: Seq<TermV>,
    pub fields: Seq<Seq<char>>,
    pub limit: u32,
    pub order: Seq<char>,
}

impl View for SearchPlan {
    type V = SearchPlanV;

    open spec fn view(&self) -> SearchPlanV {
        SearchPlanV {
            model: self.model@,
            domain: self.domain@,
            fields: views(self.fields@),
            limit: self.limit,
            order: self.order@,
        }
    }
}

/// The pipeline read: revenue summed per stage over every lead.
pub struct GroupPlan {
    pub model: String,
    pub domain: Domain,
    pub fields: Vec<String>,
    pub group_by: Vec<String>,
}

pub struct GroupPlanV {
    pub model: Seq<char>,
    pub domain: Seq<TermV>,
    pub fields: Seq<Seq<char>>,
    pub group_by: Seq<Seq<char>>,
}

impl View for GroupPlan {
    type V = GroupPlanV;

    open spec fn view(&self) -> GroupPlanV {
        GroupPlanV {
            model: self.model@,
            domain: self.domain@,
            fields: views(self.fields@),
            group_by: views(self.group_by@),
        }
    }
}

/// The six reads a briefing is assembled from.
pub struct BriefingPlan {
    pub pipeline: GroupPlan,
    pub new_leads: SearchPlan,
    pub activities: SearchPlan,
    pub notes: SearchPlan,
    pub events: SearchPlan,
    pub tasks: SearchPlan,
}

pub open spec fn event_fields_spec() -> Seq<Seq<char>> {
    seq!["id"@, "name"@, "start"@, "stop"@, "location"@, "partner_ids"@]
}

pub open spec fn briefing_task_fields_spec() -> Seq<Seq<char>> {
    seq!["id"@, "name"@, "project_id"@, "stage_id"@, "user_ids"@, "date_deadline"@]
}

/// Chatter rows carry the record they hang off, so a note names its lead
/// without a second read.
pub open spec fn note_fields_spec() -> Seq<Seq<char>> {
    seq!["id"@, "subject"@, "record_name"@, "model"@, "res_id"@, "author_id"@, "date"@]
}

fn event_fields() -> (r: Vec<String>)
    ensures
        views(r@) == event_fields_spec(),
{
    let a: [&str; 6] = ["id", "name", "start", "stop", "location", "partner_ids"];
    let r = owned_all(&a);
    assert(str_views(a@) =~= event_fields_spec());
    r
}

fn briefing_task_fields() -> (r: Vec<String>)
    ensures
        views(r@) == briefing_task_fields_spec(),
{
    let a: [&str; 6] = ["id", "name", "project_id", "stage_id", "user_ids", "date_deadline"];
    let r = owned_all(&a);
    assert(str_views(a@) =~= briefing_task_fields_spec());
    r
}

fn note_fields() -> (r: Vec<String>)
    ensures
        views(r@) == note_fields_spec(),
{
    let a: [&str; 7] = ["id", "subject", "record_name", "model", "res_id", "author_id", "date"];
    let r = owned_all(&a);
    assert(str_views(a@) =~= note_fields_spec());
    r
}

fn search(model: &str, domain: Domain, fields: Vec<String>, limit: u32, order: &str) -> (p: SearchPlan)
    ensures
        p@ == (SearchPlanV {
            model: model@,
            domain: domain@,
            fields: views(fields@),
            limit,
            order: order@,
        }),
{
    SearchPlan { model: owned(model), domain, fields, limit, order: owned(order) }
}

/// What the reads of a briefing are, for user `uid` given today's date, the
/// date the new-leads block reaches back to and the date the task block
/// reaches ahead to.
pub open spec fn is_briefing_plan(p: BriefingPlan, uid: i32, today: Seq<char>, since: Seq<char>, horizon: Seq<char>) -> bool {
    &&& p.pipeline@ == (GroupPlanV {
            model: "crm.lead"@,
            domain: Seq::empty(),
            fields: seq!["expected_revenue:sum"@],
            group_by: seq!["stage_id"@],
        })
    &&& p.new_leads@ == (SearchPlanV {
            model: "crm.lead"@,
            domain: seq![text_c("create_date"@, ">="@, since)],
            fields: lead_fields_spec(),
            limit: RECENT_LEADS,
            order: "create_date desc"@,
        })
    &&& p.activities@ == (SearchPlanV {
            model: "mail.activity"@,
            domain: seq![int_c("user_id"@, "="@, uid as int), text_c("date_deadline"@, "<="@, today)],
            fields: activity_fields_spec(),
            limit: RECENT_NOTES,
            order: "date_deadline asc"@,
        })
    &&& p.notes@ == (SearchPlanV {
            model: "mail.message"@,
            domain: seq![text_c("message_type"@, "="@, "comment"@)],
            fields: note_fields_spec(),
            limit: RECENT_NOTES,
            order: "date desc"@,
        })
    &&& p.events@ == (SearchPlanV {
            model: "calendar.event"@,
            domain: seq![
                text_c("start"@, ">="@, today + " 00:00:00"@),
                text_c("start"@, "<="@, today + " 23:59:59"@),
            ],
            fields: event_fields_spec(),
            limit: AGENDA_LIMIT,
            order: "start asc"@,
        })
    &&& p.tasks@ == (SearchPlanV {
            model: "project.task"@,
            domain: seq![
                bool_c("stage_id.fold"@, "="@, false),
                bool_c("date_deadline"@, "!="@, false),
                text_c("date_deadline"@, "<="@, horizon),
                text_c("date_deadline"@, ">="@, today),
            ],
            fields: briefing_task_fields_spec(),
            limit: AGENDA_LIMIT,
            order: "date_deadline asc"@,
        })
}

/// The reads of a briefing for user `uid`, given today's date, the date
/// [`RECENT_DAYS`] back and the date [`TASK_HORIZON_DAYS`] ahead:
/// revenue per stage; leads created since `since`, newest first; the
/// user's activities due today or late; recent chatter comments, newest
/// first; today's events; open tasks due between today and `horizon`.
pub fn briefing_plan(uid: i32, today: &str, since: &str, horizon: &str) -> (p: BriefingPlan)
    ensures
        is_briefing_plan(p, uid, today@, since@, horizon@),
{
    let mut fields: Vec<String> = Vec::new();
    fields.push(owned("expected_revenue:sum"));
    let mut group_by: Vec<String> = Vec::new();
    group_by.push(owned("stage_id"));
    let pipeline = GroupPlan { model: owned("crm.lead"), domain: Domain::new(), fields, group_by };
    assert(pipeline@.fields =~= seq!["expected_revenue:sum"@]);
    assert(pipeline@.group_by =~= seq!["stage_id"@]);
    BriefingPlan {
        pipeline,
        new_leads: search(
            "crm.lead",
            new_leads_domain(since),
            lead_fields(),
            RECENT_LEADS,
            "create_date desc",
        ),
        activities: search(
            "mail.activity",
            due_activities_domain(uid, today),
            activity_fields(),
            RECENT_NOTES,
            "date_deadline asc",
        ),
        notes: search("mail.message", comments_domain(), note_fields(), RECENT_NOTES, "date desc"),
        events: search("calendar.event", agenda_domain(today), event_fields(), AGENDA_LIMIT, "start asc"),
        tasks: search(
            "project.task",
            due_tasks_domain(today, horizon),
            briefing_task_fields(),
            AGENDA_LIMIT,
            "date_deadline asc",
        ),
    }
}

/// The calendar date `days` days after `date` (before it, for negative
/// `days`), both written `YYYY-MM-DD`, as chrono's `NaiveDate` counts days.
pub uninterp spec fn days_shifted(date: Seq<char>, days: int) -> Seq<char>;

/// chrono's `Utc::now`, read once, shifted by `Duration::days` and cut to
/// the date with `date_naive`: today's UTC date, then the date `back` days
/// before it and the date `ahead` days after it, each as `YYYY-MM-DD`.
/// Which day is today depends on the clock, so nothing is promised of the
/// first; a whole number of days moved off the same instant moves its UTC
/// date by exactly that many days, so the other two are [`days_shifted`]
/// of the first. The bounds keep `Duration::days` and the shifted instant in
/// range.
#[verifier::external_body]
fn utc_dates(back: i64, ahead: i64) -> (r: (String, String, String))
    requires
        0 <= back <= 36500,
        0 <= ahead <= 36500,
    ensures
        r.1@ == days_shifted(r.0@, -back),
        r.2@ == days_shifted(r.0@, ahead as int),
{
    let now = chrono::Utc::now();
    let today = now.date_naive().to_string();
    let since = (now - chrono::Duration::days(back)).date_naive().to_string();
    let horizon = (now + chrono::Duration::days(ahead)).date_naive().to_string();
    (today, since, horizon)
}

/// The briefing's reads for user `uid`, dated by the clock now: today's
/// date, the date [`RECENT_DAYS`] before it and the date
/// [`TASK_HORIZON_DAYS`] after it, and the plan [`briefing_plan`] makes of
/// those three.
pub fn briefing_plan_now(uid: i32) -> (r: (BriefingPlan, String, String, String))
    ensures
        r.2@ == days_shifted(r.1@, -RECENT_DAYS),
        r.3@ == days_shifted(r.1@, TASK_HORIZON_DAYS as int),
        is_briefing_plan(r.0, uid, r.1@, r.2@, r.3@),
{
    let (today, since, horizon) = utc_dates(RECENT_DAYS, TASK_HORIZON_DAYS);
    let plan = briefing_plan(uid, today.as_str(), since.as_str(), horizon.as_str());
    (plan, today, since, horizon)
}


/// One pipeline bucket as a card: the stage, the lead count, and the summed
/// expected revenue (rendered with two decimals by the caller).
pub struct MetricCard {
    pub title: String,
    pub value: String,
    pub subtitle: String,
}

pub struct MetricCardV {
    pub title: Seq<char>,
    pub value: Seq<char>,
    pub subtitle: Seq<char>,
}

impl View for MetricCard {
    type V = MetricCardV;

    open spec fn view(&self) -> MetricCardV {
        MetricCardV { title: self.title@, value: self.value@, subtitle: self.subtitle@ }
    }
}

pub open spec fn pipeline_card_spec(stage: Option<Seq<char>>, count: Option<i64>, revenue: Seq<char>) -> MetricCardV {
    MetricCardV {
        title: match stage {
            Some(s) => s,
            None => "Unstaged"@,
        },
        value: decimal(
            match count {
                Some(c) => c as int,
                None => 0,
            },
        ) + " lead(s)"@,
        subtitle: "Expected revenue "@ + revenue,
    }
}

/// A bucket with no stage is `Unstaged`; a missing count is zero.
pub fn pipeline_card(stage: Option<String>, count: Option<i64>, revenue: &str) -> (c: MetricCard)
    ensures
        c@ == pipeline_card_spec(crate::strings::opt_view(stage), count, revenue@),
{
    let title = match stage {
        Some(s) => s,
        None => owned("Unstaged"),
    };
    let n: i64 = match count {
        Some(c) => c,
        None => 0,
    };
    let mut value = crate::fmt::decimal_string(n);
    push_str(&mut value, " lead(s)");
    let mut subtitle = owned("Expected revenue ");
    push_str(&mut subtitle, revenue);
    MetricCard { title, value, subtitle }
}

/// What a dashboard section shows; `R` is the type of a table's rows.
pub enum SectionData<R> {
    /// A line of text: how a quiet block says it is empty.
    Text(String),
    /// A table: its columns, then the block's rows in order.
    Table(Vec<String>, Vec<R>),
    /// Metric cards.
    Cards(Vec<MetricCard>),
}

pub enum SectionDataV<R> {
    Text(Seq<char>),
    Table(Seq<Seq<char>>, Seq<R>),
    Cards(Seq<MetricCardV>),
}

impl<R> View for SectionData<R> {
    type V = SectionDataV<R>;

    open spec fn view(&self) -> SectionDataV<R> {
        match self {
            SectionData::Text(t) => SectionDataV::Text(t@),
            SectionData::Table(cs, rs) => SectionDataV::Table(views(cs@), rs@),
            SectionData::Cards(cs) => SectionDataV::Cards(Seq::new(cs@.len(), |i: int| cs@[i]@)),
        }
    }
}

pub struct Section<R> {
    pub id: String,
    pub title: String,
    pub order: u32,
    pub data: SectionData<R>,
}

pub struct SectionV<R> {
    pub id: Seq<char>,
    pub title: Seq<char>,
    pub order: u32,
    pub data: SectionDataV<R>,
}

impl<R> View for Section<R> {
    type V = SectionV<R>;

    open spec fn view(&self) -> SectionV<R> {
        SectionV { id: self.id@, title: self.title@, order: self.order, data: self.data@ }
    }
}

/// A dashboard: a title and its sections, laid out one above the other.
pub struct Dashboard<R> {
    pub title: String,
    pub sections: Vec<Section<R>>,
}

pub open spec fn sections_view<R>(ss: Seq<Section<R>>) -> Seq<SectionV<R>> {
    Seq::new(ss.len(), |i: int| ss[i]@)
}

/// A block with nothing in it still gets its section, naming its own empty
/// case.
pub fn empty_section<R>(id: &str, title: String, empty: &str, order: u32) -> (s: Section<R>)
    ensures
        s@ == (SectionV::<R> { id: id@, title: title@, order, data: SectionDataV::Text(empty@) }),
{
    Section { id: owned(id), title, order, data: SectionData::Text(owned(empty)) }
}

/// A table of `rows`, in the order given, under `columns`.
pub fn table_section<R>(id: &str, title: String, columns: &[&str], rows: Vec<R>, order: u32) -> (s: Section<R>)
    ensures
        s@ == (SectionV { id: id@, title: title@, order, data: SectionDataV::Table(str_views(columns@), rows@) }),
{
    Section { id: owned(id), title, order, data: SectionData::Table(owned_all(columns), rows) }
}

/// A block of a dashboard: what its section is called and shows.
pub struct Block<'a> {
    pub id: &'a str,
    pub title: String,
    pub columns: &'a [&'a str],
    pub empty: &'a str,
    pub order: u32,
}

pub open spec fn rows_section_spec<R>(id: Seq<char>, title: Seq<char>, columns: Seq<Seq<char>>, empty: Seq<char>, order: u32, rows: Seq<R>) -> SectionV<R> {
    SectionV {
        id,
        title,
        order,
        data: if rows.len() == 0 {
            SectionDataV::Text(empty)
        } else {
            SectionDataV::Table(columns, rows)
        },
    }
}

/// A table of the block's rows, or its empty note when it has none.
pub fn rows_section<R>(block: Block, rows: Vec<R>) -> (s: Section<R>)
    ensures
        s@ == rows_section_spec(block.id@, block.title@, str_views(block.columns@), block.empty@, block.order, rows@),
{
    if rows.len() == 0 {
        empty_section(block.id, block.title, block.empty, block.order)
    } else {
        table_section(block.id, block.title, block.columns, rows, block.order)
    }
}

pub open spec fn pipeline_section_spec<R>(cards: Seq<MetricCardV>) -> SectionV<R> {
    SectionV {
        id: "pipeline"@,
        title: "Pipeline by stage"@,
        order: 0,
        data: if cards.len() == 0 {
            SectionDataV::Text("No leads in the pipeline."@)
        } else {
            SectionDataV::Cards(cards)
        },
    }
}

/// The pipeline block: metric cards per stage, the one section that is not
/// a table.
pub fn pipeline_section<R>(cards: Vec<MetricCard>) -> (s: Section<R>)
    ensures
        s@ == pipeline_section_spec::<R>(Seq::new(cards@.len(), |i: int| cards@[i]@)),
{
    if cards.len() == 0 {
        empty_section("pipeline", owned("Pipeline by stage"), "No leads in the pipeline.", 0)
    } else {
        let s = Section {
            id: owned("pipeline"),
            title: owned("Pipeline by stage"),
            order: 0,
            data: SectionData::Cards(cards),
        };
        s
    }
}

/// How many records each block of a briefing came back with.
pub struct BriefingCounts {
    pub new_leads: usize,
    pub activities: usize,
    pub events: usize,
    pub tasks: usize,
    pub notes: usize,
}

/// The typed rows of each table block of a briefing, in the order they were
/// read: new leads, activities, events, tasks, notes.
pub struct BriefingRows<R> {
    pub new_leads: Vec<R>,
    pub activities: Vec<R>,
    pub events: Vec<R>,
    pub tasks: Vec<R>,
    pub notes: Vec<R>,
}

pub struct BriefingRowsV<R> {
    pub new_leads: Seq<R>,
    pub activities: Seq<R>,
    pub events: Seq<R>,
    pub tasks: Seq<R>,
    pub notes: Seq<R>,
}

impl<R> View for BriefingRows<R> {
    type V = BriefingRowsV<R>;

    open spec fn view(&self) -> BriefingRowsV<R> {
        BriefingRowsV {
            new_leads: self.new_leads@,
            activities: self.activities@,
            events: self.events@,
            tasks: self.tasks@,
            notes: self.notes@,
        }
    }
}

/// The briefing's sections, in order: the pipeline, new leads, the caller's
/// activities, today's calendar, tasks due, recent notes. Each is present
/// whether or not it has rows, and a table section carries its block's rows.
pub open spec fn briefing_sections_spec<R>(cards: Seq<MetricCardV>, rows: BriefingRowsV<R>) -> Seq<SectionV<R>> {
    seq![
        pipeline_section_spec(cards),
        rows_section_spec(
            "new_leads"@,
            "Leads created in the last "@ + decimal(RECENT_DAYS as int) + " days"@,
            seq!["id"@, "name"@, "stage_id"@, "user_id"@, "partner_name"@, "expected_revenue"@],
            "No new leads this week."@,
            1,
            rows.new_leads,
        ),
        rows_section_spec(
            "activities"@,
            "Your activities, overdue and due today"@,
            seq!["id"@, "summary"@, "activity_type_id"@, "res_name"@, "date_deadline"@],
            "Nothing due — your activity list is clear."@,
            2,
            rows.activities,
        ),
        rows_section_spec(
            "calendar"@,
            "Today's calendar"@,
            seq!["id"@, "name"@, "start"@, "location"@],
            "Nothing in the calendar today."@,
            3,
            rows.events,
        ),
        rows_section_spec(
            "tasks"@,
            "Open tasks due in the next "@ + decimal(TASK_HORIZON_DAYS as int) + " days"@,
            seq!["id"@, "name"@, "project_id"@, "stage_id"@, "date_deadline"@],
            "No tasks fall due this week."@,
            4,
            rows.tasks,
        ),
        rows_section_spec(
            "notes"@,
            "Recent notes"@,
            seq!["date"@, "record_name"@, "model"@, "author_id"@, "body"@],
            "No recent chatter."@,
            5,
            rows.notes,
        ),
    ]
}

fn days_title(head: &str, days: i64) -> (r: String)
    ensures
        r@ == head@ + decimal(days as int) + " days"@,
{
    let mut r = owned(head);
    push_str(&mut r, crate::fmt::decimal_string(days).as_str());
    push_str(&mut r, " days");
    r
}

/// The briefing as a dashboard titled `Odoo Business Overview`: the
/// pipeline cards, then each table block with its rows in the order read.
pub fn briefing_dashboard<R>(cards: Vec<MetricCard>, rows: BriefingRows<R>) -> (d: Dashboard<R>)
    ensures
        d.title@ == "Odoo Business Overview"@,
        sections_view(d.sections@) == briefing_sections_spec(
            Seq::new(cards@.len(), |i: int| cards@[i]@),
            rows@,
        ),
{
    let ghost cv = Seq::new(cards@.len(), |i: int| cards@[i]@);
    let ghost rv = rows@;
    let BriefingRows { new_leads, activities, events, tasks, notes } = rows;
    let mut sections: Vec<Section<R>> = Vec::new();
    sections.push(pipeline_section(cards));
    let c1: [&str; 6] = ["id", "name", "stage_id", "user_id", "partner_name", "expected_revenue"];
    assert(str_views(c1@) =~= seq!["id"@, "name"@, "stage_id"@, "user_id"@, "partner_name"@, "expected_revenue"@]);
    sections.push(
        rows_section(
            Block {
                id: "new_leads",
                title: days_title("Leads created in the last ", RECENT_DAYS),
                columns: &c1,
                empty: "No new leads this week.",
                order: 1,
            },
            new_leads,
        ),
    );
    let c2: [&str; 5] = ["id", "summary", "activity_type_id", "res_name", "date_deadline"];
    assert(str_views(c2@) =~= seq!["id"@, "summary"@, "activity_type_id"@, "res_name"@, "date_deadline"@]);
    sections.push(
        rows_section(
            Block {
                id: "activities",
                title: owned("Your activities, overdue and due today"),
                columns: &c2,
                empty: "Nothing due — your activity list is clear.",
                order: 2,
            },
            activities,
        ),
    );
    let c3: [&str; 4] = ["id", "name", "start", "location"];
    assert(str_views(c3@) =~= seq!["id"@, "name"@, "start"@, "location"@]);
    sections.push(
        rows_section(
            Block {
                id: "calendar",
                title: owned("Today's calendar"),
                columns: &c3,
                empty: "Nothing in the calendar today.",
                order: 3,
            },
            events,
        ),
    );
    let c4: [&str; 5] = ["id", "name", "project_id", "stage_id", "date_deadline"];
    assert(str_views(c4@) =~= seq!["id"@, "name"@, "project_id"@, "stage_id"@, "date_deadline"@]);
    sections.push(
        rows_section(
            Block {
                id: "tasks",
                title: days_title("Open tasks due in the next ", TASK_HORIZON_DAYS),
                columns: &c4,
                empty: "No tasks fall due this week.",
                order: 4,
            },
            tasks,
        ),
    );
    let c5: [&str; 5] = ["date", "record_name", "model", "author_id", "body"];
    assert(str_views(c5@) =~= seq!["date"@, "record_name"@, "model"@, "author_id"@, "body"@]);
    sections.push(
        rows_section(
            Block {
                id: "notes",
                title: owned("Recent notes"),
                columns: &c5,
                empty: "No recent chatter.",
                order: 5,
            },
            notes,
        ),
    );
    assert(sections_view(sections@) =~= briefing_sections_spec(cv, rv));
    Dashboard { title: owned("Odoo Business Overview"), sections }
}


/// `Odoo overview for login: p stage(s), n new lead(s), a activity(ies)
/// due, e event(s) today, t task(s) due this week, m recent note(s)`.
pub fn overview_summary(login: &str, stages: usize, counts: &BriefingCounts) -> (r: String)
    ensures
        r@ == "Odoo overview for "@ + login@ + ": "@ + decimal(stages as int) + " stage(s), "@
            + decimal(counts.new_leads as int) + " new lead(s), "@ + decimal(counts.activities as int)
            + " activity(ies) due, "@ + decimal(counts.events as int) + " event(s) today, "@
            + decimal(counts.tasks as int) + " task(s) due this week, "@ + decimal(counts.notes as int)
            + " recent note(s)"@,
{
    let mut r = owned("Odoo overview for ");
    push_str(&mut r, login);
    push_str(&mut r, ": ");
    push_str(&mut r, crate::fmt::usize_string(stages).as_str());
    push_str(&mut r, " stage(s), ");
    push_str(&mut r, crate::fmt::usize_string(counts.new_leads).as_str());
    push_str(&mut r, " new lead(s), ");
    push_str(&mut r, crate::fmt::usize_string(counts.activities).as_str());
    push_str(&mut r, " activity(ies) due, ");
    push_str(&mut r, crate::fmt::usize_string(counts.events).as_str());
    push_str(&mut r, " event(s) today, ");
    push_str(&mut r, crate::fmt::usize_string(counts.tasks).as_str());
    push_str(&mut r, " task(s) due this week, ");
    push_str(&mut r, crate::fmt::usize_string(counts.notes).as_str());
    push_str(&mut r, " recent note(s)");
    r
}

} // verus!
