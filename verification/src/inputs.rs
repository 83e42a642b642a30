//! Input shapes for the Odoo tools, and the page size every list tool uses.
//!
//! Field names match Odoo's own (`partner_name`, `email_from`, `stage_id`) so a
//! model that knows Odoo already knows them.

use vstd::prelude::*;

use crate::payload::Payload;

verus! {

/// Page size when the caller names none.
pub const DEFAULT_LIMIT: u32 = 20;

/// The largest page any list tool returns.
pub const MAX_LIMIT: u32 = 100;

pub open spec fn resolve_limit_spec(requested: Option<u32>) -> u32 {
    match requested {
        None => DEFAULT_LIMIT,
        Some(l) => if l < 1 {
            1
        } else if l > MAX_LIMIT {
            MAX_LIMIT
        } else {
            l
        },
    }
}

/// The page size for a list call: the default when none is asked for,
/// otherwise the request clamped to `1..=MAX_LIMIT`.
pub fn resolve_limit(requested: Option<u32>) -> (r: u32)
    ensures
        r == resolve_limit_spec(requested),
        1 <= r <= MAX_LIMIT,
{
    match requested {
        None => DEFAULT_LIMIT,
        Some(l) => if l < 1 {
            1
        } else if l > MAX_LIMIT {
            MAX_LIMIT
        } else {
            l
        },
    }
}

pub struct LeadSearchInput {
    pub query: Option<String>,
    pub stage: Option<String>,
    pub user: Option<String>,
    pub limit: Option<u32>,
    pub open_only: Option<bool>,
    pub tag: Option<String>,
    pub sort: Option<LeadSort>,
}

#[derive(Clone, Copy, PartialEq, Eq, Structural)]
pub enum LeadSort {
    Created,
    Deadline,
}

pub struct LeadGetInput {
    pub id: i64,
}

pub struct LeadDeleteInput {
    pub id: i64,
}

/// A new lead. The expected revenue, when given, travels to Odoo alongside
/// these fields.
pub struct LeadCreateInput {
    pub name: String,
    pub partner_id: Option<i64>,
    pub partner_name: Option<String>,
    pub email_from: Option<String>,
    pub phone: Option<String>,
    pub description: Option<String>,
}

#[derive(Clone, Copy, PartialEq, Eq, Structural)]
pub enum ReportGroupBy {
    Stage,
    User,
}

pub struct LeadReportInput {
    pub group_by: ReportGroupBy,
    pub date_from: Option<String>,
    pub date_to: Option<String>,
}

pub struct PartnerSearchInput {
    pub query: String,
    pub limit: Option<u32>,
}

pub struct PartnerGetInput {
    pub id: i64,
}

/// `business_overview_data` takes no arguments: the briefing is defined by
/// who is asking.
pub struct OverviewInput {}

pub struct PartnerCreateInput {
    pub name: String,
    pub email: Option<String>,
    pub phone: Option<String>,
    pub mobile: Option<String>,
    pub city: Option<String>,
    pub is_company: Option<bool>,
}

pub struct LeadMarkWonInput {
    pub id: i64,
}

pub struct LeadMarkLostInput {
    pub id: i64,
    pub reason: Option<String>,
}

pub struct LeadConvertInput {
    pub id: i64,
    pub partner_id: Option<i64>,
}

pub struct StageListInput {}

pub struct UserListInput {
    pub query: Option<String>,
    pub limit: Option<u32>,
}

pub struct ActivityTypeListInput {}

pub struct NoteAddInput {
    pub model: String,
    pub res_id: i64,
    pub body: String,
}

pub struct NoteListInput {
    pub model: String,
    pub res_id: i64,
    pub limit: Option<u32>,
}

pub struct NoteSearchInput {
    pub query: String,
    pub model: Option<String>,
    pub date_from: Option<String>,
    pub date_to: Option<String>,
    pub limit: Option<u32>,
}

pub struct AttachmentAddInput {
    pub model: String,
    pub res_id: i64,
    pub filename: String,
    pub content_base64: Option<String>,
    pub url: Option<String>,
    pub mimetype: Option<String>,
}

pub struct AttachmentListInput {
    pub model: Option<String>,
    pub res_id: Option<i64>,
    pub query: Option<String>,
    pub limit: Option<u32>,
}

pub struct AttachmentGetInput {
    pub id: i64,
}

pub struct SaleOrderListInput {
    pub partner_id: Option<i64>,
    pub state: Option<String>,
    pub date_from: Option<String>,
    pub date_to: Option<String>,
    pub limit: Option<u32>,
}

pub struct SaleOrderGetInput {
    pub id: i64,
}

pub struct InvoiceListInput {
    pub partner_id: Option<i64>,
    pub unpaid_only: Option<bool>,
    pub date_from: Option<String>,
    pub date_to: Option<String>,
    pub limit: Option<u32>,
}

pub struct InvoiceGetInput {
    pub id: i64,
}

pub struct ActivityListInput {
    pub model: Option<String>,
    pub overdue_only: Option<bool>,
    pub limit: Option<u32>,
}

pub struct ActivityCreateInput {
    pub model: String,
    pub res_id: i64,
    pub summary: String,
    pub date_deadline: String,
    pub user: Option<String>,
    pub note: Option<String>,
}

pub struct ActivityCompleteInput {
    pub activity_id: i64,
    pub feedback: Option<String>,
}

pub struct ChannelListInput {
    pub query: Option<String>,
    pub limit: Option<u32>,
}

pub struct ChannelPostInput {
    pub channel_id: i64,
    pub body: String,
}

pub struct CalendarEventListInput {
    pub date_from: Option<String>,
    pub date_to: Option<String>,
    pub query: Option<String>,
    pub limit: Option<u32>,
}

pub struct TaskListInput {
    pub project: Option<String>,
    pub query: Option<String>,
    pub open_only: Option<bool>,
    pub limit: Option<u32>,
}

pub struct TaskCreateInput {
    pub name: String,
    pub project: String,
    pub description: Option<String>,
    pub user: Option<String>,
    pub date_deadline: Option<String>,
}

/// A new calendar event. The duration, when given, is in whole minutes:
/// the caller rounds a duration in hours to the nearest minute.
pub struct CalendarEventCreateInput {
    pub name: String,
    pub start: String,
    pub stop: Option<String>,
    pub duration_minutes: Option<i64>,
    pub attendee_partner_ids: Option<Vec<i64>>,
    pub description: Option<String>,
    pub model: Option<String>,
    pub res_id: Option<i64>,
}

/// `crm_lead_update`: a stage by name, and field/value pairs written as
/// given.
pub struct LeadUpdateInput {
    pub id: i64,
    pub stage: Option<String>,
    pub fields: Payload,
}

/// `partner_update`: field/value pairs written as given.
pub struct PartnerUpdateInput {
    pub id: i64,
    pub fields: Payload,
}

/// `task_update`: field/value pairs written as given.
pub struct TaskUpdateInput {
    pub id: i64,
    pub fields: Payload,
}

/// One requested quotation line: the product, and the quantity and unit
/// price as the JSON numbers the caller gave, when given.
pub struct SaleOrderLineInput {
    pub product_id: i64,
    pub quantity: Option<serde_json::Value>,
    pub price_unit: Option<serde_json::Value>,
}

/// `sale_order_create`: a draft quotation for a partner.
pub struct SaleOrderCreateInput {
    pub partner_id: i64,
    pub lines: Vec<SaleOrderLineInput>,
    pub origin: Option<String>,
}

} // verus!
