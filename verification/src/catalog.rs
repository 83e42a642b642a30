//! The tools the Odoo server offers: their names, titles, descriptions and
//! what each does to Odoo, grouped by plane and listed in one fixed order.
//!
//! Descriptions are written for an agent choosing between tools: where two
//! tools could answer the same question, the description says which to use.

use vstd::prelude::*;

use crate::fmt::str_views;

verus! {

pub const SERVER_NAME: &'static str = "odoo";

pub const TOOL_LEAD_SEARCH: &'static str = "crm_lead_search";

pub const TOOL_LEAD_GET: &'static str = "crm_lead_get";

pub const TOOL_LEAD_CREATE: &'static str = "crm_lead_create";

pub const TOOL_LEAD_UPDATE: &'static str = "crm_lead_update";

pub const TOOL_LEAD_DELETE: &'static str = "crm_lead_delete";

pub const TOOL_LEAD_REPORT: &'static str = "crm_lead_report";

pub const TOOL_PARTNER_SEARCH: &'static str = "partner_search";

pub const TOOL_PARTNER_GET: &'static str = "partner_get";

pub const TOOL_NOTE_ADD: &'static str = "note_add";

pub const TOOL_NOTE_LIST: &'static str = "note_list";

pub const TOOL_NOTE_SEARCH: &'static str = "note_search";

pub const TOOL_ATTACHMENT_ADD: &'static str = "attachment_add";

pub const TOOL_ATTACHMENT_LIST: &'static str = "attachment_list";

pub const TOOL_ATTACHMENT_GET: &'static str = "attachment_get";

pub const TOOL_ACTIVITY_LIST: &'static str = "activity_list";

pub const TOOL_ACTIVITY_CREATE: &'static str = "activity_create";

pub const TOOL_ACTIVITY_COMPLETE: &'static str = "activity_complete";

pub const TOOL_CHANNEL_LIST: &'static str = "channel_list";

pub const TOOL_CHANNEL_POST: &'static str = "channel_post";

pub const TOOL_CALENDAR_EVENT_LIST: &'static str = "calendar_event_list";

pub const TOOL_CALENDAR_EVENT_CREATE: &'static str = "calendar_event_create";

pub const TOOL_TASK_LIST: &'static str = "task_list";

pub const TOOL_TASK_CREATE: &'static str = "task_create";

pub const TOOL_TASK_UPDATE: &'static str = "task_update";

pub const TOOL_OVERVIEW: &'static str = "business_overview_data";

pub const TOOL_PARTNER_CREATE: &'static str = "partner_create";

pub const TOOL_PARTNER_UPDATE: &'static str = "partner_update";

pub const TOOL_LEAD_MARK_WON: &'static str = "crm_lead_mark_won";

pub const TOOL_LEAD_MARK_LOST: &'static str = "crm_lead_mark_lost";

pub const TOOL_LEAD_CONVERT: &'static str = "crm_lead_convert_to_opportunity";

pub const TOOL_STAGE_LIST: &'static str = "crm_stage_list";

pub const TOOL_USER_LIST: &'static str = "user_list";

pub const TOOL_ACTIVITY_TYPE_LIST: &'static str = "activity_type_list";

pub const TOOL_SALE_ORDER_LIST: &'static str = "sale_order_list";

pub const TOOL_SALE_ORDER_GET: &'static str = "sale_order_get";

pub const TOOL_SALE_ORDER_CREATE: &'static str = "sale_order_create";

pub const TOOL_INVOICE_LIST: &'static str = "invoice_list";

pub const TOOL_INVOICE_GET: &'static str = "invoice_get";


/// Every tool name, in the order the unknown-tool message lists them.
pub const ALL_TOOLS: [&'static str; 38] = [
    TOOL_LEAD_SEARCH,
    TOOL_LEAD_GET,
    TOOL_LEAD_CREATE,
    TOOL_LEAD_UPDATE,
    TOOL_LEAD_DELETE,
    TOOL_LEAD_REPORT,
    TOOL_PARTNER_SEARCH,
    TOOL_PARTNER_GET,
    TOOL_NOTE_ADD,
    TOOL_NOTE_LIST,
    TOOL_NOTE_SEARCH,
    TOOL_ATTACHMENT_ADD,
    TOOL_ATTACHMENT_LIST,
    TOOL_ATTACHMENT_GET,
    TOOL_ACTIVITY_LIST,
    TOOL_ACTIVITY_CREATE,
    TOOL_ACTIVITY_COMPLETE,
    TOOL_CHANNEL_LIST,
    TOOL_CHANNEL_POST,
    TOOL_CALENDAR_EVENT_LIST,
    TOOL_CALENDAR_EVENT_CREATE,
    TOOL_TASK_LIST,
    TOOL_TASK_CREATE,
    TOOL_TASK_UPDATE,
    TOOL_OVERVIEW,
    TOOL_PARTNER_CREATE,
    TOOL_PARTNER_UPDATE,
    TOOL_LEAD_MARK_WON,
    TOOL_LEAD_MARK_LOST,
    TOOL_LEAD_CONVERT,
    TOOL_STAGE_LIST,
    TOOL_USER_LIST,
    TOOL_ACTIVITY_TYPE_LIST,
    TOOL_SALE_ORDER_LIST,
    TOOL_SALE_ORDER_GET,
    TOOL_SALE_ORDER_CREATE,
    TOOL_INVOICE_LIST,
    TOOL_INVOICE_GET,
];


/// What a tool does to Odoo, as advertised to clients.
#[derive(Clone, Copy, PartialEq, Eq, Structural)]
pub enum Effect {
    ReadOnly,
    Write,
    Destructive,
}

/// The advisory hint a client reads before calling a tool.
#[derive(Clone, Copy, PartialEq, Eq, Structural)]
pub enum Annotation {
    ReadOnly,
    Destructive,
}

/// A read-only tool says so; a destructive one says so, so a client that
/// honours the hint asks first; a plain write carries no hint.
pub open spec fn annotation_spec(effect: Effect) -> Option<Annotation> {
    match effect {
        Effect::ReadOnly => Some(Annotation::ReadOnly),
        Effect::Write => None,
        Effect::Destructive => Some(Annotation::Destructive),
    }
}

pub fn annotation_for(effect: Effect) -> (r: Option<Annotation>)
    ensures
        r == annotation_spec(effect),
{
    match effect {
        Effect::ReadOnly => Some(Annotation::ReadOnly),
        Effect::Write => None,
        Effect::Destructive => Some(Annotation::Destructive),
    }
}

/// One tool as listed: its input schema is derived from its input type by
/// the caller.
pub struct ToolSpec {
    pub name: &'static str,
    pub title: &'static str,
    pub description: &'static str,
    pub effect: Effect,
}

pub struct ToolSpecV {
    pub name: Seq<char>,
    pub title: Seq<char>,
    pub description: Seq<char>,
    pub effect: Effect,
}

impl View for ToolSpec {
    type V = ToolSpecV;

    open spec fn view(&self) -> ToolSpecV {
        ToolSpecV {
            name: self.name@,
            title: self.title@,
            description: self.description@,
            effect: self.effect,
        }
    }
}

pub open spec fn tool_v(name: Seq<char>, title: Seq<char>, description: Seq<char>, effect: Effect) -> ToolSpecV {
    ToolSpecV { name, title, description, effect }
}

pub open spec fn tools_view(ts: Seq<ToolSpec>) -> Seq<ToolSpecV> {
    Seq::new(ts.len(), |i: int| ts[i]@)
}

fn push_tool(
    tools: &mut Vec<ToolSpec>,
    name: &'static str,
    title: &'static str,
    description: &'static str,
    effect: Effect,
)
    ensures
        tools_view(final(tools)@) == tools_view(old(tools)@).push(tool_v(name@, title@, description@, effect)),
{
    tools.push(ToolSpec { name, title, description, effect });
    assert(tools_view(tools@) =~= tools_view(old(tools)@).push(tool_v(name@, title@, description@, effect)));
}

pub const LEAD_SEARCH_DESCRIPTION: &'static str = "Search leads and opportunities in Odoo CRM by free text, stage, or salesperson. Runs as your own Odoo account, so it returns exactly the leads Odoo lets you see.";

pub const LEAD_GET_DESCRIPTION: &'static str = "Read one lead or opportunity in full by its Odoo id, including stage, salesperson, revenue forecast and description.";

pub const LEAD_CREATE_DESCRIPTION: &'static str = "Create a lead in Odoo CRM. Only the subject is required. The lead is created by your Odoo user, so it lands in your pipeline and your name is on it.";

pub const LEAD_UPDATE_DESCRIPTION: &'static str = "Update fields on an existing lead — move it between pipeline stages by passing `stage` as a NAME (call crm_stage_list first), reassign with `user_id`, or re-forecast `expected_revenue` and `probability` through `fields`. To close a deal use crm_lead_mark_won or crm_lead_mark_lost instead: they run Odoo's own closing actions rather than writing a probability by hand.";

pub const LEAD_DELETE_DESCRIPTION: &'static str = "Permanently delete a lead from Odoo CRM by id. This is `unlink`, not archive — the record, its chatter and its activities are gone and cannot be recovered. Use crm_lead_update with `{\"active\": false}` to archive instead. Runs as your own Odoo account, so Odoo refuses it unless you may delete leads.";

pub const LEAD_REPORT_DESCRIPTION: &'static str = "Aggregate the pipeline by stage or by salesperson: lead count and total expected revenue per group, optionally limited to a creation-date window. Use this instead of searching and counting.";


pub open spec fn lead_tools_spec() -> Seq<ToolSpecV> {
    seq![
        tool_v(TOOL_LEAD_SEARCH@, "Search CRM Leads"@, LEAD_SEARCH_DESCRIPTION@, Effect::ReadOnly),
        tool_v(TOOL_LEAD_GET@, "Get CRM Lead"@, LEAD_GET_DESCRIPTION@, Effect::ReadOnly),
        tool_v(TOOL_LEAD_CREATE@, "Create CRM Lead"@, LEAD_CREATE_DESCRIPTION@, Effect::Write),
        tool_v(TOOL_LEAD_UPDATE@, "Update CRM Lead"@, LEAD_UPDATE_DESCRIPTION@, Effect::Write),
        tool_v(TOOL_LEAD_DELETE@, "Delete CRM Lead"@, LEAD_DELETE_DESCRIPTION@, Effect::Destructive),
        tool_v(TOOL_LEAD_REPORT@, "CRM Pipeline Report"@, LEAD_REPORT_DESCRIPTION@, Effect::ReadOnly),
    ]
}


pub fn lead_tools() -> (r: Vec<ToolSpec>)
    ensures
        tools_view(r@) == lead_tools_spec(),
{
    let mut r: Vec<ToolSpec> = Vec::new();
    assert(tools_view(r@) =~= Seq::<ToolSpecV>::empty());
    push_tool(&mut r, TOOL_LEAD_SEARCH, "Search CRM Leads", LEAD_SEARCH_DESCRIPTION, Effect::ReadOnly);
    push_tool(&mut r, TOOL_LEAD_GET, "Get CRM Lead", LEAD_GET_DESCRIPTION, Effect::ReadOnly);
    push_tool(&mut r, TOOL_LEAD_CREATE, "Create CRM Lead", LEAD_CREATE_DESCRIPTION, Effect::Write);
    push_tool(&mut r, TOOL_LEAD_UPDATE, "Update CRM Lead", LEAD_UPDATE_DESCRIPTION, Effect::Write);
    push_tool(&mut r, TOOL_LEAD_DELETE, "Delete CRM Lead", LEAD_DELETE_DESCRIPTION, Effect::Destructive);
    push_tool(&mut r, TOOL_LEAD_REPORT, "CRM Pipeline Report", LEAD_REPORT_DESCRIPTION, Effect::ReadOnly);
    assert(tools_view(r@) =~= lead_tools_spec());
    r
}

pub const LEAD_MARK_WON_DESCRIPTION: &'static str = "Close a deal as WON. Runs Odoo's own win action, so the stage, the probability and the close date all move together and the pipeline report agrees with the dashboard. Prefer this over writing `probability` by hand.";

pub const LEAD_MARK_LOST_DESCRIPTION: &'static str = "Close a deal as LOST, optionally recording why in the words the team would use. Runs Odoo's own lost action; the lead is closed, not deleted, so it still counts in the pipeline history.";

pub const LEAD_CONVERT_DESCRIPTION: &'static str = "Promote a qualified lead into an opportunity, optionally against an existing customer. Use it when a raw enquiry has become a deal worth forecasting.";


pub open spec fn closing_tools_spec() -> Seq<ToolSpecV> {
    seq![
        tool_v(TOOL_LEAD_MARK_WON@, "Mark Lead Won"@, LEAD_MARK_WON_DESCRIPTION@, Effect::Write),
        tool_v(TOOL_LEAD_MARK_LOST@, "Mark Lead Lost"@, LEAD_MARK_LOST_DESCRIPTION@, Effect::Write),
        tool_v(TOOL_LEAD_CONVERT@, "Convert Lead to Opportunity"@, LEAD_CONVERT_DESCRIPTION@, Effect::Write),
    ]
}


pub fn closing_tools() -> (r: Vec<ToolSpec>)
    ensures
        tools_view(r@) == closing_tools_spec(),
{
    let mut r: Vec<ToolSpec> = Vec::new();
    assert(tools_view(r@) =~= Seq::<ToolSpecV>::empty());
    push_tool(&mut r, TOOL_LEAD_MARK_WON, "Mark Lead Won", LEAD_MARK_WON_DESCRIPTION, Effect::Write);
    push_tool(&mut r, TOOL_LEAD_MARK_LOST, "Mark Lead Lost", LEAD_MARK_LOST_DESCRIPTION, Effect::Write);
    push_tool(&mut r, TOOL_LEAD_CONVERT, "Convert Lead to Opportunity", LEAD_CONVERT_DESCRIPTION, Effect::Write);
    assert(tools_view(r@) =~= closing_tools_spec());
    r
}

pub const STAGE_LIST_DESCRIPTION: &'static str = "List the CRM pipeline's stages in order, with their ids and which one counts as won. Call this before moving a lead: stage ids are deployment-specific and cannot be guessed.";

pub const USER_LIST_DESCRIPTION: &'static str = "List the Odoo users a lead or task can be assigned to, with their ids. Use it to resolve a name before reassigning work.";

pub const ACTIVITY_TYPE_LIST_DESCRIPTION: &'static str = "List the activity types this Odoo defines — typically Call, Meeting, Email and To Do. Pass one by name to activity_create to schedule a call rather than a generic to-do.";


pub open spec fn discovery_tools_spec() -> Seq<ToolSpecV> {
    seq![
        tool_v(TOOL_STAGE_LIST@, "List Pipeline Stages"@, STAGE_LIST_DESCRIPTION@, Effect::ReadOnly),
        tool_v(TOOL_USER_LIST@, "List Salespeople"@, USER_LIST_DESCRIPTION@, Effect::ReadOnly),
        tool_v(TOOL_ACTIVITY_TYPE_LIST@, "List Activity Types"@, ACTIVITY_TYPE_LIST_DESCRIPTION@, Effect::ReadOnly),
    ]
}


pub fn discovery_tools() -> (r: Vec<ToolSpec>)
    ensures
        tools_view(r@) == discovery_tools_spec(),
{
    let mut r: Vec<ToolSpec> = Vec::new();
    assert(tools_view(r@) =~= Seq::<ToolSpecV>::empty());
    push_tool(&mut r, TOOL_STAGE_LIST, "List Pipeline Stages", STAGE_LIST_DESCRIPTION, Effect::ReadOnly);
    push_tool(&mut r, TOOL_USER_LIST, "List Salespeople", USER_LIST_DESCRIPTION, Effect::ReadOnly);
    push_tool(&mut r, TOOL_ACTIVITY_TYPE_LIST, "List Activity Types", ACTIVITY_TYPE_LIST_DESCRIPTION, Effect::ReadOnly);
    assert(tools_view(r@) =~= discovery_tools_spec());
    r
}

pub const PARTNER_CREATE_DESCRIPTION: &'static str = "Create a customer or contact in Odoo. Search first with partner_search — a duplicate customer splits a company's history in two. Pass the new id to crm_lead_create so the lead joins the contact database.";

pub const PARTNER_UPDATE_DESCRIPTION: &'static str = "Update fields on an existing customer or contact — email, phone, address.";


pub open spec fn partner_write_tools_spec() -> Seq<ToolSpecV> {
    seq![
        tool_v(TOOL_PARTNER_CREATE@, "Create Customer"@, PARTNER_CREATE_DESCRIPTION@, Effect::Write),
        tool_v(TOOL_PARTNER_UPDATE@, "Update Customer"@, PARTNER_UPDATE_DESCRIPTION@, Effect::Write),
    ]
}


pub fn partner_write_tools() -> (r: Vec<ToolSpec>)
    ensures
        tools_view(r@) == partner_write_tools_spec(),
{
    let mut r: Vec<ToolSpec> = Vec::new();
    assert(tools_view(r@) =~= Seq::<ToolSpecV>::empty());
    push_tool(&mut r, TOOL_PARTNER_CREATE, "Create Customer", PARTNER_CREATE_DESCRIPTION, Effect::Write);
    push_tool(&mut r, TOOL_PARTNER_UPDATE, "Update Customer", PARTNER_UPDATE_DESCRIPTION, Effect::Write);
    assert(tools_view(r@) =~= partner_write_tools_spec());
    r
}

pub const SALE_ORDER_LIST_DESCRIPTION: &'static str = "List sales orders and quotations, optionally for one customer, one state (`draft`/`sent` are quotations, `sale` is confirmed) or a date window. Runs as your own Odoo account.";

pub const SALE_ORDER_GET_DESCRIPTION: &'static str = "Read one sales order in full by id, including every order line with its product, quantity and price.";

pub const SALE_ORDER_CREATE_DESCRIPTION: &'static str = "Create a quotation for a customer from a list of product lines. It is created as a draft, never confirmed — a human sends it. Set `origin` to the lead it came from so the deal and the quote read together.";

pub const INVOICE_LIST_DESCRIPTION: &'static str = "List customer invoices with what is still outstanding on each. Set `unpaid_only` to answer 'who owes us'. Read-only: this server never raises or posts an invoice.";

pub const INVOICE_GET_DESCRIPTION: &'static str = "Read one customer invoice in full by id, including its lines and the balance still due.";


pub open spec fn sales_tools_spec() -> Seq<ToolSpecV> {
    seq![
        tool_v(TOOL_SALE_ORDER_LIST@, "List Quotations and Orders"@, SALE_ORDER_LIST_DESCRIPTION@, Effect::ReadOnly),
        tool_v(TOOL_SALE_ORDER_GET@, "Get Quotation or Order"@, SALE_ORDER_GET_DESCRIPTION@, Effect::ReadOnly),
        tool_v(TOOL_SALE_ORDER_CREATE@, "Raise a Quotation"@, SALE_ORDER_CREATE_DESCRIPTION@, Effect::Write),
        tool_v(TOOL_INVOICE_LIST@, "List Customer Invoices"@, INVOICE_LIST_DESCRIPTION@, Effect::ReadOnly),
        tool_v(TOOL_INVOICE_GET@, "Get Customer Invoice"@, INVOICE_GET_DESCRIPTION@, Effect::ReadOnly),
    ]
}


pub fn sales_tools() -> (r: Vec<ToolSpec>)
    ensures
        tools_view(r@) == sales_tools_spec(),
{
    let mut r: Vec<ToolSpec> = Vec::new();
    assert(tools_view(r@) =~= Seq::<ToolSpecV>::empty());
    push_tool(&mut r, TOOL_SALE_ORDER_LIST, "List Quotations and Orders", SALE_ORDER_LIST_DESCRIPTION, Effect::ReadOnly);
    push_tool(&mut r, TOOL_SALE_ORDER_GET, "Get Quotation or Order", SALE_ORDER_GET_DESCRIPTION, Effect::ReadOnly);
    push_tool(&mut r, TOOL_SALE_ORDER_CREATE, "Raise a Quotation", SALE_ORDER_CREATE_DESCRIPTION, Effect::Write);
    push_tool(&mut r, TOOL_INVOICE_LIST, "List Customer Invoices", INVOICE_LIST_DESCRIPTION, Effect::ReadOnly);
    push_tool(&mut r, TOOL_INVOICE_GET, "Get Customer Invoice", INVOICE_GET_DESCRIPTION, Effect::ReadOnly);
    assert(tools_view(r@) =~= sales_tools_spec());
    r
}

pub const NOTE_SEARCH_DESCRIPTION: &'static str = "Search every note written in Odoo for what is known about a subject, across leads, partners and any other record type at once. Reach for this when the question is about knowledge — \"what do we know about X\", \"what was agreed\", \"has anyone dealt with this before\" — rather than about a record's fields. Use crm_lead_search instead when you want leads by stage, owner or revenue. Each hit names the record it is attached to, so you can follow it with crm_lead_get, partner_get or note_list.";

pub const NOTE_LIST_DESCRIPTION: &'static str = "Read the full note history on one record, newest first, once you know which record you care about. This is the follow-up to note_search or crm_lead_search — it gives the whole conversation rather than a snippet.";

pub const NOTE_ADD_DESCRIPTION: &'static str = "Post a note to a record's chatter in Odoo — a lead, a partner, or any record with a message thread. This is how knowledge gets *into* the bank, so write what a colleague would need later, not a restatement of the record's fields. The note is attributed to you in Odoo's audit trail, so write it as yourself.";

pub const ATTACHMENT_LIST_DESCRIPTION: &'static str = "List files attached to Odoo records, optionally scoped to one model, one record, or a filename fragment. Each row says whether it is a stored file or a link to one held elsewhere. Attachment ids are global; res_id is only meaningful alongside model.";

pub const ATTACHMENT_GET_DESCRIPTION: &'static str = "Read one attachment's metadata, plus its base64 content when it is a stored file of 1 MB or less. A link-type attachment returns its URL and no content — there are no bytes in Odoo to return. Larger stored files return metadata and a pointer to the Odoo web UI, because the content would not usefully fit in context.";

pub const ATTACHMENT_ADD_DESCRIPTION: &'static str = "Attach a file to an Odoo record, either by uploading it (content_base64, up to 5 MB decoded) or by recording a link to it (url) — use the link form for large external media such as meeting recordings in object storage. Provide exactly one of the two. The attachment is created by your Odoo user, so your name is on it.";


pub open spec fn knowledge_tools_spec() -> Seq<ToolSpecV> {
    seq![
        tool_v(TOOL_NOTE_SEARCH@, "Search Notes"@, NOTE_SEARCH_DESCRIPTION@, Effect::ReadOnly),
        tool_v(TOOL_NOTE_LIST@, "Read a Record's Chatter"@, NOTE_LIST_DESCRIPTION@, Effect::ReadOnly),
        tool_v(TOOL_NOTE_ADD@, "Log a Note"@, NOTE_ADD_DESCRIPTION@, Effect::Write),
        tool_v(TOOL_ATTACHMENT_LIST@, "List Attachments"@, ATTACHMENT_LIST_DESCRIPTION@, Effect::ReadOnly),
        tool_v(TOOL_ATTACHMENT_GET@, "Get Attachment"@, ATTACHMENT_GET_DESCRIPTION@, Effect::ReadOnly),
        tool_v(TOOL_ATTACHMENT_ADD@, "Attach a File"@, ATTACHMENT_ADD_DESCRIPTION@, Effect::Write),
    ]
}


pub fn knowledge_tools() -> (r: Vec<ToolSpec>)
    ensures
        tools_view(r@) == knowledge_tools_spec(),
{
    let mut r: Vec<ToolSpec> = Vec::new();
    assert(tools_view(r@) =~= Seq::<ToolSpecV>::empty());
    push_tool(&mut r, TOOL_NOTE_SEARCH, "Search Notes", NOTE_SEARCH_DESCRIPTION, Effect::ReadOnly);
    push_tool(&mut r, TOOL_NOTE_LIST, "Read a Record's Chatter", NOTE_LIST_DESCRIPTION, Effect::ReadOnly);
    push_tool(&mut r, TOOL_NOTE_ADD, "Log a Note", NOTE_ADD_DESCRIPTION, Effect::Write);
    push_tool(&mut r, TOOL_ATTACHMENT_LIST, "List Attachments", ATTACHMENT_LIST_DESCRIPTION, Effect::ReadOnly);
    push_tool(&mut r, TOOL_ATTACHMENT_GET, "Get Attachment", ATTACHMENT_GET_DESCRIPTION, Effect::ReadOnly);
    push_tool(&mut r, TOOL_ATTACHMENT_ADD, "Attach a File", ATTACHMENT_ADD_DESCRIPTION, Effect::Write);
    assert(tools_view(r@) =~= knowledge_tools_spec());
    r
}

pub const ACTIVITY_CREATE_DESCRIPTION: &'static str = "Schedule a follow-up on an Odoo record — a call, a to-do, a reminder — due on a date and assigned to someone. Defaults to you if no user is named. Use this for work attached to a lead or partner; use calendar_event_create for something with a time and attendees.";

pub const ACTIVITY_COMPLETE_DESCRIPTION: &'static str = "Mark an activity done and log what happened. The feedback is written to the record's chatter, so it survives as history rather than disappearing with the reminder — write it as a note to whoever reads the record next.";

pub const CALENDAR_EVENT_LIST_DESCRIPTION: &'static str = "List calendar events in a date window, optionally filtered by title. Use this for what is on the calendar; use activity_list for to-dos that have a deadline but no meeting time.";

pub const CALENDAR_EVENT_CREATE_DESCRIPTION: &'static str = "Create a calendar event. Give a start and either a stop or duration_hours (one hour if neither). Datetimes are UTC. Invite people with partner ids from partner_search, and link the event to a lead by passing model and res_id together.";


pub open spec fn scheduling_tools_spec() -> Seq<ToolSpecV> {
    seq![
        tool_v(TOOL_ACTIVITY_CREATE@, "Schedule an Activity"@, ACTIVITY_CREATE_DESCRIPTION@, Effect::Write),
        tool_v(TOOL_ACTIVITY_COMPLETE@, "Complete an Activity"@, ACTIVITY_COMPLETE_DESCRIPTION@, Effect::Write),
        tool_v(TOOL_CALENDAR_EVENT_LIST@, "List Calendar Events"@, CALENDAR_EVENT_LIST_DESCRIPTION@, Effect::ReadOnly),
        tool_v(TOOL_CALENDAR_EVENT_CREATE@, "Create a Calendar Event"@, CALENDAR_EVENT_CREATE_DESCRIPTION@, Effect::Write),
    ]
}


fn scheduling_tools() -> (r: Vec<ToolSpec>)
    ensures
        tools_view(r@) == scheduling_tools_spec(),
{
    let mut r: Vec<ToolSpec> = Vec::new();
    assert(tools_view(r@) =~= Seq::<ToolSpecV>::empty());
    push_tool(&mut r, TOOL_ACTIVITY_CREATE, "Schedule an Activity", ACTIVITY_CREATE_DESCRIPTION, Effect::Write);
    push_tool(&mut r, TOOL_ACTIVITY_COMPLETE, "Complete an Activity", ACTIVITY_COMPLETE_DESCRIPTION, Effect::Write);
    push_tool(&mut r, TOOL_CALENDAR_EVENT_LIST, "List Calendar Events", CALENDAR_EVENT_LIST_DESCRIPTION, Effect::ReadOnly);
    push_tool(&mut r, TOOL_CALENDAR_EVENT_CREATE, "Create a Calendar Event", CALENDAR_EVENT_CREATE_DESCRIPTION, Effect::Write);
    assert(tools_view(r@) =~= scheduling_tools_spec());
    r
}

pub const TASK_LIST_DESCRIPTION: &'static str = "List project tasks — open ones unless you ask otherwise — optionally scoped to a project by name or filtered by title.";

pub const TASK_CREATE_DESCRIPTION: &'static str = "Create a task in an existing project, named rather than by id. The project must already exist: if the name does not match, the error lists the projects you can see rather than creating a new one.";

pub const TASK_UPDATE_DESCRIPTION: &'static str = "Update fields on a task — `stage_id` to move it along, `user_ids` (a list) to reassign, `date_deadline`, `priority`.";

pub const CHANNEL_LIST_DESCRIPTION: &'static str = "List the Odoo Discuss channels you can see, with their type and member count. Run this first to get the channel id channel_post needs.";

pub const CHANNEL_POST_DESCRIPTION: &'static str = "Post a message to a Discuss channel as yourself. This talks to a room of people and leaves no trace on any record — use note_add instead when the point is to document something against a lead or partner.";


pub open spec fn collaboration_tools_spec() -> Seq<ToolSpecV> {
    seq![
        tool_v(TOOL_TASK_LIST@, "List Tasks"@, TASK_LIST_DESCRIPTION@, Effect::ReadOnly),
        tool_v(TOOL_TASK_CREATE@, "Create a Task"@, TASK_CREATE_DESCRIPTION@, Effect::Write),
        tool_v(TOOL_TASK_UPDATE@, "Update a Task"@, TASK_UPDATE_DESCRIPTION@, Effect::Write),
        tool_v(TOOL_CHANNEL_LIST@, "List Discuss Channels"@, CHANNEL_LIST_DESCRIPTION@, Effect::ReadOnly),
        tool_v(TOOL_CHANNEL_POST@, "Post to a Channel"@, CHANNEL_POST_DESCRIPTION@, Effect::Write),
    ]
}


fn collaboration_tools() -> (r: Vec<ToolSpec>)
    ensures
        tools_view(r@) == collaboration_tools_spec(),
{
    let mut r: Vec<ToolSpec> = Vec::new();
    assert(tools_view(r@) =~= Seq::<ToolSpecV>::empty());
    push_tool(&mut r, TOOL_TASK_LIST, "List Tasks", TASK_LIST_DESCRIPTION, Effect::ReadOnly);
    push_tool(&mut r, TOOL_TASK_CREATE, "Create a Task", TASK_CREATE_DESCRIPTION, Effect::Write);
    push_tool(&mut r, TOOL_TASK_UPDATE, "Update a Task", TASK_UPDATE_DESCRIPTION, Effect::Write);
    push_tool(&mut r, TOOL_CHANNEL_LIST, "List Discuss Channels", CHANNEL_LIST_DESCRIPTION, Effect::ReadOnly);
    push_tool(&mut r, TOOL_CHANNEL_POST, "Post to a Channel", CHANNEL_POST_DESCRIPTION, Effect::Write);
    assert(tools_view(r@) =~= collaboration_tools_spec());
    r
}

pub const PARTNER_SEARCH_DESCRIPTION: &'static str = "Search Odoo partners (customers, contacts, vendors) by name, email or phone.";

pub const PARTNER_GET_DESCRIPTION: &'static str = "Read one partner in full by Odoo id: contact details, address, company and category.";

pub const ACTIVITY_LIST_DESCRIPTION: &'static str = "List the scheduled activities assigned to you in Odoo — calls, meetings, to-dos — optionally only those past their deadline.";

pub const OVERVIEW_DESCRIPTION: &'static str = "One call for a daily briefing: pipeline by stage, leads created in the last seven days, your overdue and due-today activities, and the twenty most recent chatter notes. Prefer this over issuing the individual queries yourself.";


pub open spec fn context_tools_spec() -> Seq<ToolSpecV> {
    seq![
        tool_v(TOOL_PARTNER_SEARCH@, "Search Partners"@, PARTNER_SEARCH_DESCRIPTION@, Effect::ReadOnly),
        tool_v(TOOL_PARTNER_GET@, "Get Partner"@, PARTNER_GET_DESCRIPTION@, Effect::ReadOnly),
        tool_v(TOOL_ACTIVITY_LIST@, "List My Activities"@, ACTIVITY_LIST_DESCRIPTION@, Effect::ReadOnly),
        tool_v(TOOL_OVERVIEW@, "Business Overview"@, OVERVIEW_DESCRIPTION@, Effect::ReadOnly),
    ]
}


pub fn context_tools() -> (r: Vec<ToolSpec>)
    ensures
        tools_view(r@) == context_tools_spec(),
{
    let mut r: Vec<ToolSpec> = Vec::new();
    assert(tools_view(r@) =~= Seq::<ToolSpecV>::empty());
    push_tool(&mut r, TOOL_PARTNER_SEARCH, "Search Partners", PARTNER_SEARCH_DESCRIPTION, Effect::ReadOnly);
    push_tool(&mut r, TOOL_PARTNER_GET, "Get Partner", PARTNER_GET_DESCRIPTION, Effect::ReadOnly);
    push_tool(&mut r, TOOL_ACTIVITY_LIST, "List My Activities", ACTIVITY_LIST_DESCRIPTION, Effect::ReadOnly);
    push_tool(&mut r, TOOL_OVERVIEW, "Business Overview", OVERVIEW_DESCRIPTION, Effect::ReadOnly);
    assert(tools_view(r@) =~= context_tools_spec());
    r
}

pub open spec fn work_tools_spec() -> Seq<ToolSpecV> {
    scheduling_tools_spec() + collaboration_tools_spec()
}

/// Scheduling, then collaboration.
pub fn work_tools() -> (r: Vec<ToolSpec>)
    ensures
        tools_view(r@) == work_tools_spec(),
{
    let mut r = scheduling_tools();
    let mut more = collaboration_tools();
    r.append(&mut more);
    assert(tools_view(r@) =~= work_tools_spec());
    r
}

/// The whole catalogue, plane by plane.
pub open spec fn list_tools_spec() -> Seq<ToolSpecV> {
    lead_tools_spec() + closing_tools_spec() + discovery_tools_spec() + partner_write_tools_spec()
        + sales_tools_spec() + knowledge_tools_spec() + work_tools_spec() + context_tools_spec()
}

pub fn list_tools() -> (r: Vec<ToolSpec>)
    ensures
        tools_view(r@) == list_tools_spec(),
{
    let mut r = lead_tools();
    let mut g = closing_tools();
    r.append(&mut g);
    assert(tools_view(r@) =~= lead_tools_spec() + closing_tools_spec());
    let mut g = discovery_tools();
    r.append(&mut g);
    assert(tools_view(r@) =~= lead_tools_spec() + closing_tools_spec() + discovery_tools_spec());
    let mut g = partner_write_tools();
    r.append(&mut g);
    assert(tools_view(r@) =~= lead_tools_spec() + closing_tools_spec() + discovery_tools_spec()
        + partner_write_tools_spec());
    let mut g = sales_tools();
    r.append(&mut g);
    assert(tools_view(r@) =~= lead_tools_spec() + closing_tools_spec() + discovery_tools_spec()
        + partner_write_tools_spec() + sales_tools_spec());
    let mut g = knowledge_tools();
    r.append(&mut g);
    assert(tools_view(r@) =~= lead_tools_spec() + closing_tools_spec() + discovery_tools_spec()
        + partner_write_tools_spec() + sales_tools_spec() + knowledge_tools_spec());
    let mut g = work_tools();
    r.append(&mut g);
    assert(tools_view(r@) =~= lead_tools_spec() + closing_tools_spec() + discovery_tools_spec()
        + partner_write_tools_spec() + sales_tools_spec() + knowledge_tools_spec()
        + work_tools_spec());
    let mut g = context_tools();
    r.append(&mut g);
    assert(tools_view(r@) =~= list_tools_spec());
    r
}


/// The names of the listed tools, in order.
pub open spec fn tool_names(ts: Seq<ToolSpecV>) -> Seq<Seq<char>> {
    Seq::new(ts.len(), |i: int| ts[i].name)
}

/// The catalogue lists exactly the tools the unknown-tool message names:
/// every listed tool is named there and every name there is listed, 38 of
/// each.
pub proof fn law_catalog_lists_every_tool()
    ensures
        list_tools_spec().len() == ALL_TOOLS@.len(),
        forall|i: int| 0 <= i < list_tools_spec().len() ==> str_views(ALL_TOOLS@).contains(#[trigger] list_tools_spec()[i].name),
        forall|j: int| 0 <= j < ALL_TOOLS@.len() ==> tool_names(list_tools_spec()).contains(#[trigger] ALL_TOOLS@[j]@),
{
    let l = list_tools_spec();
    let a = str_views(ALL_TOOLS@);
    let n = tool_names(l);

    assert(l[0].name == TOOL_LEAD_SEARCH@ && a[0] == TOOL_LEAD_SEARCH@);
    assert(l[1].name == TOOL_LEAD_GET@ && a[1] == TOOL_LEAD_GET@);
    assert(l[2].name == TOOL_LEAD_CREATE@ && a[2] == TOOL_LEAD_CREATE@);
    assert(l[3].name == TOOL_LEAD_UPDATE@ && a[3] == TOOL_LEAD_UPDATE@);
    assert(l[4].name == TOOL_LEAD_DELETE@ && a[4] == TOOL_LEAD_DELETE@);
    assert(l[5].name == TOOL_LEAD_REPORT@ && a[5] == TOOL_LEAD_REPORT@);
    assert(l[6].name == TOOL_LEAD_MARK_WON@ && a[27] == TOOL_LEAD_MARK_WON@);
    assert(l[7].name == TOOL_LEAD_MARK_LOST@ && a[28] == TOOL_LEAD_MARK_LOST@);
    assert(l[8].name == TOOL_LEAD_CONVERT@ && a[29] == TOOL_LEAD_CONVERT@);
    assert(l[9].name == TOOL_STAGE_LIST@ && a[30] == TOOL_STAGE_LIST@);
    assert(l[10].name == TOOL_USER_LIST@ && a[31] == TOOL_USER_LIST@);
    assert(l[11].name == TOOL_ACTIVITY_TYPE_LIST@ && a[32] == TOOL_ACTIVITY_TYPE_LIST@);
    assert(l[12].name == TOOL_PARTNER_CREATE@ && a[25] == TOOL_PARTNER_CREATE@);
    assert(l[13].name == TOOL_PARTNER_UPDATE@ && a[26] == TOOL_PARTNER_UPDATE@);
    assert(l[14].name == TOOL_SALE_ORDER_LIST@ && a[33] == TOOL_SALE_ORDER_LIST@);
    assert(l[15].name == TOOL_SALE_ORDER_GET@ && a[34] == TOOL_SALE_ORDER_GET@);
    assert(l[16].name == TOOL_SALE_ORDER_CREATE@ && a[35] == TOOL_SALE_ORDER_CREATE@);
    assert(l[17].name == TOOL_INVOICE_LIST@ && a[36] == TOOL_INVOICE_LIST@);
    assert(l[18].name == TOOL_INVOICE_GET@ && a[37] == TOOL_INVOICE_GET@);
    assert(l[19].name == TOOL_NOTE_SEARCH@ && a[10] == TOOL_NOTE_SEARCH@);
    assert(l[20].name == TOOL_NOTE_LIST@ && a[9] == TOOL_NOTE_LIST@);
    assert(l[21].name == TOOL_NOTE_ADD@ && a[8] == TOOL_NOTE_ADD@);
    assert(l[22].name == TOOL_ATTACHMENT_LIST@ && a[12] == TOOL_ATTACHMENT_LIST@);
    assert(l[23].name == TOOL_ATTACHMENT_GET@ && a[13] == TOOL_ATTACHMENT_GET@);
    assert(l[24].name == TOOL_ATTACHMENT_ADD@ && a[11] == TOOL_ATTACHMENT_ADD@);
    assert(l[25].name == TOOL_ACTIVITY_CREATE@ && a[15] == TOOL_ACTIVITY_CREATE@);
    assert(l[26].name == TOOL_ACTIVITY_COMPLETE@ && a[16] == TOOL_ACTIVITY_COMPLETE@);
    assert(l[27].name == TOOL_CALENDAR_EVENT_LIST@ && a[19] == TOOL_CALENDAR_EVENT_LIST@);
    assert(l[28].name == TOOL_CALENDAR_EVENT_CREATE@ && a[20] == TOOL_CALENDAR_EVENT_CREATE@);
    assert(l[29].name == TOOL_TASK_LIST@ && a[21] == TOOL_TASK_LIST@);
    assert(l[30].name == TOOL_TASK_CREATE@ && a[22] == TOOL_TASK_CREATE@);
    assert(l[31].name == TOOL_TASK_UPDATE@ && a[23] == TOOL_TASK_UPDATE@);
    assert(l[32].name == TOOL_CHANNEL_LIST@ && a[17] == TOOL_CHANNEL_LIST@);
    assert(l[33].name == TOOL_CHANNEL_POST@ && a[18] == TOOL_CHANNEL_POST@);
    assert(l[34].name == TOOL_PARTNER_SEARCH@ && a[6] == TOOL_PARTNER_SEARCH@);
    assert(l[35].name == TOOL_PARTNER_GET@ && a[7] == TOOL_PARTNER_GET@);
    assert(l[36].name == TOOL_ACTIVITY_LIST@ && a[14] == TOOL_ACTIVITY_LIST@);
    assert(l[37].name == TOOL_OVERVIEW@ && a[24] == TOOL_OVERVIEW@);
    assert forall|i: int| 0 <= i < l.len() implies a.contains(#[trigger] l[i].name) by {
        if i == 0 { assert(a[0] == l[i].name); }
        else if i == 1 { assert(a[1] == l[i].name); }
        else if i == 2 { assert(a[2] == l[i].name); }
        else if i == 3 { assert(a[3] == l[i].name); }
        else if i == 4 { assert(a[4] == l[i].name); }
        else if i == 5 { assert(a[5] == l[i].name); }
        else if i == 6 { assert(a[27] == l[i].name); }
        else if i == 7 { assert(a[28] == l[i].name); }
        else if i == 8 { assert(a[29] == l[i].name); }
        else if i == 9 { assert(a[30] == l[i].name); }
        else if i == 10 { assert(a[31] == l[i].name); }
        else if i == 11 { assert(a[32] == l[i].name); }
        else if i == 12 { assert(a[25] == l[i].name); }
        else if i == 13 { assert(a[26] == l[i].name); }
        else if i == 14 { assert(a[33] == l[i].name); }
        else if i == 15 { assert(a[34] == l[i].name); }
        else if i == 16 { assert(a[35] == l[i].name); }
        else if i == 17 { assert(a[36] == l[i].name); }
        else if i == 18 { assert(a[37] == l[i].name); }
        else if i == 19 { assert(a[10] == l[i].name); }
        else if i == 20 { assert(a[9] == l[i].name); }
        else if i == 21 { assert(a[8] == l[i].name); }
        else if i == 22 { assert(a[12] == l[i].name); }
        else if i == 23 { assert(a[13] == l[i].name); }
        else if i == 24 { assert(a[11] == l[i].name); }
        else if i == 25 { assert(a[15] == l[i].name); }
        else if i == 26 { assert(a[16] == l[i].name); }
        else if i == 27 { assert(a[19] == l[i].name); }
        else if i == 28 { assert(a[20] == l[i].name); }
        else if i == 29 { assert(a[21] == l[i].name); }
        else if i == 30 { assert(a[22] == l[i].name); }
        else if i == 31 { assert(a[23] == l[i].name); }
        else if i == 32 { assert(a[17] == l[i].name); }
        else if i == 33 { assert(a[18] == l[i].name); }
        else if i == 34 { assert(a[6] == l[i].name); }
        else if i == 35 { assert(a[7] == l[i].name); }
        else if i == 36 { assert(a[14] == l[i].name); }
        else if i == 37 { assert(a[24] == l[i].name); }
    }
    assert forall|j: int| 0 <= j < ALL_TOOLS@.len() implies n.contains(#[trigger] ALL_TOOLS@[j]@) by {
        if j == 0 { assert(n[0] == ALL_TOOLS@[j]@); }
        else if j == 1 { assert(n[1] == ALL_TOOLS@[j]@); }
        else if j == 2 { assert(n[2] == ALL_TOOLS@[j]@); }
        else if j == 3 { assert(n[3] == ALL_TOOLS@[j]@); }
        else if j == 4 { assert(n[4] == ALL_TOOLS@[j]@); }
        else if j == 5 { assert(n[5] == ALL_TOOLS@[j]@); }
        else if j == 6 { assert(n[34] == ALL_TOOLS@[j]@); }
        else if j == 7 { assert(n[35] == ALL_TOOLS@[j]@); }
        else if j == 8 { assert(n[21] == ALL_TOOLS@[j]@); }
        else if j == 9 { assert(n[20] == ALL_TOOLS@[j]@); }
        else if j == 10 { assert(n[19] == ALL_TOOLS@[j]@); }
        else if j == 11 { assert(n[24] == ALL_TOOLS@[j]@); }
        else if j == 12 { assert(n[22] == ALL_TOOLS@[j]@); }
        else if j == 13 { assert(n[23] == ALL_TOOLS@[j]@); }
        else if j == 14 { assert(n[36] == ALL_TOOLS@[j]@); }
        else if j == 15 { assert(n[25] == ALL_TOOLS@[j]@); }
        else if j == 16 { assert(n[26] == ALL_TOOLS@[j]@); }
        else if j == 17 { assert(n[32] == ALL_TOOLS@[j]@); }
        else if j == 18 { assert(n[33] == ALL_TOOLS@[j]@); }
        else if j == 19 { assert(n[27] == ALL_TOOLS@[j]@); }
        else if j == 20 { assert(n[28] == ALL_TOOLS@[j]@); }
        else if j == 21 { assert(n[29] == ALL_TOOLS@[j]@); }
        else if j == 22 { assert(n[30] == ALL_TOOLS@[j]@); }
        else if j == 23 { assert(n[31] == ALL_TOOLS@[j]@); }
        else if j == 24 { assert(n[37] == ALL_TOOLS@[j]@); }
        else if j == 25 { assert(n[12] == ALL_TOOLS@[j]@); }
        else if j == 26 { assert(n[13] == ALL_TOOLS@[j]@); }
        else if j == 27 { assert(n[6] == ALL_TOOLS@[j]@); }
        else if j == 28 { assert(n[7] == ALL_TOOLS@[j]@); }
        else if j == 29 { assert(n[8] == ALL_TOOLS@[j]@); }
        else if j == 30 { assert(n[9] == ALL_TOOLS@[j]@); }
        else if j == 31 { assert(n[10] == ALL_TOOLS@[j]@); }
        else if j == 32 { assert(n[11] == ALL_TOOLS@[j]@); }
        else if j == 33 { assert(n[14] == ALL_TOOLS@[j]@); }
        else if j == 34 { assert(n[15] == ALL_TOOLS@[j]@); }
        else if j == 35 { assert(n[16] == ALL_TOOLS@[j]@); }
        else if j == 36 { assert(n[17] == ALL_TOOLS@[j]@); }
        else if j == 37 { assert(n[18] == ALL_TOOLS@[j]@); }
    }
}

} // verus!
