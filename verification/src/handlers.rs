//! The tool handlers: each is built with the caller's Odoo call bundle and
//! answers to one tool name. What a handler decides — validation, payloads,
//! summaries — lives beside the tool's other logic; a handler names the tool
//! and says what it does.

use vstd::prelude::*;

use crate::catalog::{TOOL_ACTIVITY_COMPLETE, TOOL_ACTIVITY_CREATE, TOOL_ACTIVITY_LIST, TOOL_ACTIVITY_TYPE_LIST, TOOL_ATTACHMENT_ADD, TOOL_ATTACHMENT_GET, TOOL_ATTACHMENT_LIST, TOOL_CALENDAR_EVENT_CREATE, TOOL_CALENDAR_EVENT_LIST, TOOL_CHANNEL_LIST, TOOL_CHANNEL_POST, TOOL_INVOICE_GET, TOOL_INVOICE_LIST, TOOL_LEAD_CONVERT, TOOL_LEAD_CREATE, TOOL_LEAD_DELETE, TOOL_LEAD_GET, TOOL_LEAD_MARK_LOST, TOOL_LEAD_MARK_WON, TOOL_LEAD_REPORT, TOOL_LEAD_SEARCH, TOOL_LEAD_UPDATE, TOOL_NOTE_ADD, TOOL_NOTE_LIST, TOOL_NOTE_SEARCH, TOOL_OVERVIEW, TOOL_PARTNER_CREATE, TOOL_PARTNER_GET, TOOL_PARTNER_SEARCH, TOOL_PARTNER_UPDATE, TOOL_SALE_ORDER_CREATE, TOOL_SALE_ORDER_GET, TOOL_SALE_ORDER_LIST, TOOL_STAGE_LIST, TOOL_TASK_CREATE, TOOL_TASK_LIST, TOOL_TASK_UPDATE, TOOL_USER_LIST};

verus! {

/// The acting user's Odoo credential: the numeric user id every query runs
/// as, and the login the confirmations name.
pub struct Credentials {
    pub uid: i32,
    pub login: String,
}

/// The per-request bundle every handler is built with: there is no handler
/// without a resolved acting user.
pub struct OdooCall {
    pub creds: Credentials,
}


pub struct ActivityListHandler {
    pub call: OdooCall,
}

impl ActivityListHandler {
    pub fn tool_name(&self) -> (r: &'static str)
        ensures
            r@ == TOOL_ACTIVITY_LIST@,
    {
        TOOL_ACTIVITY_LIST
    }

    pub fn description(&self) -> (r: &'static str)
        ensures
            r@ == "List the Odoo activities assigned to you."@,
    {
        "List the Odoo activities assigned to you."
    }
}


pub struct ActivityCreateHandler {
    pub call: OdooCall,
}

impl ActivityCreateHandler {
    pub fn tool_name(&self) -> (r: &'static str)
        ensures
            r@ == TOOL_ACTIVITY_CREATE@,
    {
        TOOL_ACTIVITY_CREATE
    }

    pub fn description(&self) -> (r: &'static str)
        ensures
            r@ == "Schedule an activity on an Odoo record."@,
    {
        "Schedule an activity on an Odoo record."
    }
}


pub struct ActivityCompleteHandler {
    pub call: OdooCall,
}

impl ActivityCompleteHandler {
    pub fn tool_name(&self) -> (r: &'static str)
        ensures
            r@ == TOOL_ACTIVITY_COMPLETE@,
    {
        TOOL_ACTIVITY_COMPLETE
    }

    pub fn description(&self) -> (r: &'static str)
        ensures
            r@ == "Mark an Odoo activity done, logging the outcome to the record."@,
    {
        "Mark an Odoo activity done, logging the outcome to the record."
    }
}


pub struct AttachmentAddHandler {
    pub call: OdooCall,
}

impl AttachmentAddHandler {
    pub fn tool_name(&self) -> (r: &'static str)
        ensures
            r@ == TOOL_ATTACHMENT_ADD@,
    {
        TOOL_ATTACHMENT_ADD
    }

    pub fn description(&self) -> (r: &'static str)
        ensures
            r@ == "Attach a file to an Odoo record."@,
    {
        "Attach a file to an Odoo record."
    }
}


pub struct AttachmentListHandler {
    pub call: OdooCall,
}

impl AttachmentListHandler {
    pub fn tool_name(&self) -> (r: &'static str)
        ensures
            r@ == TOOL_ATTACHMENT_LIST@,
    {
        TOOL_ATTACHMENT_LIST
    }

    pub fn description(&self) -> (r: &'static str)
        ensures
            r@ == "List Odoo attachments, optionally scoped to a record or filename."@,
    {
        "List Odoo attachments, optionally scoped to a record or filename."
    }
}


pub struct AttachmentGetHandler {
    pub call: OdooCall,
}

impl AttachmentGetHandler {
    pub fn tool_name(&self) -> (r: &'static str)
        ensures
            r@ == TOOL_ATTACHMENT_GET@,
    {
        TOOL_ATTACHMENT_GET
    }

    pub fn description(&self) -> (r: &'static str)
        ensures
            r@ == "Read one Odoo attachment, with its content when the file is small."@,
    {
        "Read one Odoo attachment, with its content when the file is small."
    }
}


pub struct CalendarEventListHandler {
    pub call: OdooCall,
}

impl CalendarEventListHandler {
    pub fn tool_name(&self) -> (r: &'static str)
        ensures
            r@ == TOOL_CALENDAR_EVENT_LIST@,
    {
        TOOL_CALENDAR_EVENT_LIST
    }

    pub fn description(&self) -> (r: &'static str)
        ensures
            r@ == "List calendar events in a date window."@,
    {
        "List calendar events in a date window."
    }
}


pub struct CalendarEventCreateHandler {
    pub call: OdooCall,
}

impl CalendarEventCreateHandler {
    pub fn tool_name(&self) -> (r: &'static str)
        ensures
            r@ == TOOL_CALENDAR_EVENT_CREATE@,
    {
        TOOL_CALENDAR_EVENT_CREATE
    }

    pub fn description(&self) -> (r: &'static str)
        ensures
            r@ == "Create a calendar event, optionally linked to a record."@,
    {
        "Create a calendar event, optionally linked to a record."
    }
}


pub struct ChannelListHandler {
    pub call: OdooCall,
}

impl ChannelListHandler {
    pub fn tool_name(&self) -> (r: &'static str)
        ensures
            r@ == TOOL_CHANNEL_LIST@,
    {
        TOOL_CHANNEL_LIST
    }

    pub fn description(&self) -> (r: &'static str)
        ensures
            r@ == "List the Discuss channels you can see."@,
    {
        "List the Discuss channels you can see."
    }
}


pub struct ChannelPostHandler {
    pub call: OdooCall,
}

impl ChannelPostHandler {
    pub fn tool_name(&self) -> (r: &'static str)
        ensures
            r@ == TOOL_CHANNEL_POST@,
    {
        TOOL_CHANNEL_POST
    }

    pub fn description(&self) -> (r: &'static str)
        ensures
            r@ == "Post a message to a Discuss channel."@,
    {
        "Post a message to a Discuss channel."
    }
}


pub struct LeadSearchHandler {
    pub call: OdooCall,
}

impl LeadSearchHandler {
    pub fn tool_name(&self) -> (r: &'static str)
        ensures
            r@ == TOOL_LEAD_SEARCH@,
    {
        TOOL_LEAD_SEARCH
    }

    pub fn description(&self) -> (r: &'static str)
        ensures
            r@ == "Search leads and opportunities in Odoo CRM."@,
    {
        "Search leads and opportunities in Odoo CRM."
    }
}


pub struct LeadGetHandler {
    pub call: OdooCall,
}

impl LeadGetHandler {
    pub fn tool_name(&self) -> (r: &'static str)
        ensures
            r@ == TOOL_LEAD_GET@,
    {
        TOOL_LEAD_GET
    }

    pub fn description(&self) -> (r: &'static str)
        ensures
            r@ == "Read one lead or opportunity by Odoo id."@,
    {
        "Read one lead or opportunity by Odoo id."
    }
}


pub struct LeadCreateHandler {
    pub call: OdooCall,
}

impl LeadCreateHandler {
    pub fn tool_name(&self) -> (r: &'static str)
        ensures
            r@ == TOOL_LEAD_CREATE@,
    {
        TOOL_LEAD_CREATE
    }

    pub fn description(&self) -> (r: &'static str)
        ensures
            r@ == "Create a lead in Odoo CRM."@,
    {
        "Create a lead in Odoo CRM."
    }
}


pub struct LeadUpdateHandler {
    pub call: OdooCall,
}

impl LeadUpdateHandler {
    pub fn tool_name(&self) -> (r: &'static str)
        ensures
            r@ == TOOL_LEAD_UPDATE@,
    {
        TOOL_LEAD_UPDATE
    }

    pub fn description(&self) -> (r: &'static str)
        ensures
            r@ == "Update fields on an existing Odoo lead."@,
    {
        "Update fields on an existing Odoo lead."
    }
}


pub struct LeadMarkWonHandler {
    pub call: OdooCall,
}

impl LeadMarkWonHandler {
    pub fn tool_name(&self) -> (r: &'static str)
        ensures
            r@ == TOOL_LEAD_MARK_WON@,
    {
        TOOL_LEAD_MARK_WON
    }

    pub fn description(&self) -> (r: &'static str)
        ensures
            r@ == "Close an Odoo lead as won."@,
    {
        "Close an Odoo lead as won."
    }
}


pub struct LeadMarkLostHandler {
    pub call: OdooCall,
}

impl LeadMarkLostHandler {
    pub fn tool_name(&self) -> (r: &'static str)
        ensures
            r@ == TOOL_LEAD_MARK_LOST@,
    {
        TOOL_LEAD_MARK_LOST
    }

    pub fn description(&self) -> (r: &'static str)
        ensures
            r@ == "Close an Odoo lead as lost, optionally recording why."@,
    {
        "Close an Odoo lead as lost, optionally recording why."
    }
}


pub struct LeadConvertHandler {
    pub call: OdooCall,
}

impl LeadConvertHandler {
    pub fn tool_name(&self) -> (r: &'static str)
        ensures
            r@ == TOOL_LEAD_CONVERT@,
    {
        TOOL_LEAD_CONVERT
    }

    pub fn description(&self) -> (r: &'static str)
        ensures
            r@ == "Convert an Odoo lead into an opportunity."@,
    {
        "Convert an Odoo lead into an opportunity."
    }
}


pub struct LeadDeleteHandler {
    pub call: OdooCall,
}

impl LeadDeleteHandler {
    pub fn tool_name(&self) -> (r: &'static str)
        ensures
            r@ == TOOL_LEAD_DELETE@,
    {
        TOOL_LEAD_DELETE
    }

    pub fn description(&self) -> (r: &'static str)
        ensures
            r@ == "Permanently delete a lead from Odoo CRM."@,
    {
        "Permanently delete a lead from Odoo CRM."
    }
}


pub struct StageListHandler {
    pub call: OdooCall,
}

impl StageListHandler {
    pub fn tool_name(&self) -> (r: &'static str)
        ensures
            r@ == TOOL_STAGE_LIST@,
    {
        TOOL_STAGE_LIST
    }

    pub fn description(&self) -> (r: &'static str)
        ensures
            r@ == "List the CRM pipeline's stages in order."@,
    {
        "List the CRM pipeline's stages in order."
    }
}


pub struct UserListHandler {
    pub call: OdooCall,
}

impl UserListHandler {
    pub fn tool_name(&self) -> (r: &'static str)
        ensures
            r@ == TOOL_USER_LIST@,
    {
        TOOL_USER_LIST
    }

    pub fn description(&self) -> (r: &'static str)
        ensures
            r@ == "List the Odoo users work can be assigned to."@,
    {
        "List the Odoo users work can be assigned to."
    }
}


pub struct ActivityTypeListHandler {
    pub call: OdooCall,
}

impl ActivityTypeListHandler {
    pub fn tool_name(&self) -> (r: &'static str)
        ensures
            r@ == TOOL_ACTIVITY_TYPE_LIST@,
    {
        TOOL_ACTIVITY_TYPE_LIST
    }

    pub fn description(&self) -> (r: &'static str)
        ensures
            r@ == "List the activity types this Odoo defines."@,
    {
        "List the activity types this Odoo defines."
    }
}


pub struct NoteAddHandler {
    pub call: OdooCall,
}

impl NoteAddHandler {
    pub fn tool_name(&self) -> (r: &'static str)
        ensures
            r@ == TOOL_NOTE_ADD@,
    {
        TOOL_NOTE_ADD
    }

    pub fn description(&self) -> (r: &'static str)
        ensures
            r@ == "Log a note on an Odoo record's chatter."@,
    {
        "Log a note on an Odoo record's chatter."
    }
}


pub struct NoteListHandler {
    pub call: OdooCall,
}

impl NoteListHandler {
    pub fn tool_name(&self) -> (r: &'static str)
        ensures
            r@ == TOOL_NOTE_LIST@,
    {
        TOOL_NOTE_LIST
    }

    pub fn description(&self) -> (r: &'static str)
        ensures
            r@ == "Read the chatter on one Odoo record."@,
    {
        "Read the chatter on one Odoo record."
    }
}


pub struct NoteSearchHandler {
    pub call: OdooCall,
}

impl NoteSearchHandler {
    pub fn tool_name(&self) -> (r: &'static str)
        ensures
            r@ == TOOL_NOTE_SEARCH@,
    {
        TOOL_NOTE_SEARCH
    }

    pub fn description(&self) -> (r: &'static str)
        ensures
            r@ == "Search every note in Odoo for what is known about a subject."@,
    {
        "Search every note in Odoo for what is known about a subject."
    }
}


pub struct OverviewHandler {
    pub call: OdooCall,
}

impl OverviewHandler {
    pub fn tool_name(&self) -> (r: &'static str)
        ensures
            r@ == TOOL_OVERVIEW@,
    {
        TOOL_OVERVIEW
    }

    pub fn description(&self) -> (r: &'static str)
        ensures
            r@ == "Aggregate today's CRM picture from Odoo in a single call."@,
    {
        "Aggregate today's CRM picture from Odoo in a single call."
    }
}


pub struct PartnerSearchHandler {
    pub call: OdooCall,
}

impl PartnerSearchHandler {
    pub fn tool_name(&self) -> (r: &'static str)
        ensures
            r@ == TOOL_PARTNER_SEARCH@,
    {
        TOOL_PARTNER_SEARCH
    }

    pub fn description(&self) -> (r: &'static str)
        ensures
            r@ == "Search Odoo partners by name, email or phone."@,
    {
        "Search Odoo partners by name, email or phone."
    }
}


pub struct PartnerGetHandler {
    pub call: OdooCall,
}

impl PartnerGetHandler {
    pub fn tool_name(&self) -> (r: &'static str)
        ensures
            r@ == TOOL_PARTNER_GET@,
    {
        TOOL_PARTNER_GET
    }

    pub fn description(&self) -> (r: &'static str)
        ensures
            r@ == "Read one Odoo partner by id."@,
    {
        "Read one Odoo partner by id."
    }
}


pub struct PartnerCreateHandler {
    pub call: OdooCall,
}

impl PartnerCreateHandler {
    pub fn tool_name(&self) -> (r: &'static str)
        ensures
            r@ == TOOL_PARTNER_CREATE@,
    {
        TOOL_PARTNER_CREATE
    }

    pub fn description(&self) -> (r: &'static str)
        ensures
            r@ == "Create a customer or contact in Odoo."@,
    {
        "Create a customer or contact in Odoo."
    }
}


pub struct PartnerUpdateHandler {
    pub call: OdooCall,
}

impl PartnerUpdateHandler {
    pub fn tool_name(&self) -> (r: &'static str)
        ensures
            r@ == TOOL_PARTNER_UPDATE@,
    {
        TOOL_PARTNER_UPDATE
    }

    pub fn description(&self) -> (r: &'static str)
        ensures
            r@ == "Update fields on an existing Odoo customer."@,
    {
        "Update fields on an existing Odoo customer."
    }
}


pub struct LeadReportHandler {
    pub call: OdooCall,
}

impl LeadReportHandler {
    pub fn tool_name(&self) -> (r: &'static str)
        ensures
            r@ == TOOL_LEAD_REPORT@,
    {
        TOOL_LEAD_REPORT
    }

    pub fn description(&self) -> (r: &'static str)
        ensures
            r@ == "Aggregate the Odoo CRM pipeline by stage or salesperson."@,
    {
        "Aggregate the Odoo CRM pipeline by stage or salesperson."
    }
}


pub struct InvoiceListHandler {
    pub call: OdooCall,
}

impl InvoiceListHandler {
    pub fn tool_name(&self) -> (r: &'static str)
        ensures
            r@ == TOOL_INVOICE_LIST@,
    {
        TOOL_INVOICE_LIST
    }

    pub fn description(&self) -> (r: &'static str)
        ensures
            r@ == "List Odoo customer invoices and what is outstanding."@,
    {
        "List Odoo customer invoices and what is outstanding."
    }
}


pub struct InvoiceGetHandler {
    pub call: OdooCall,
}

impl InvoiceGetHandler {
    pub fn tool_name(&self) -> (r: &'static str)
        ensures
            r@ == TOOL_INVOICE_GET@,
    {
        TOOL_INVOICE_GET
    }

    pub fn description(&self) -> (r: &'static str)
        ensures
            r@ == "Read one Odoo customer invoice, including its lines."@,
    {
        "Read one Odoo customer invoice, including its lines."
    }
}


pub struct SaleOrderListHandler {
    pub call: OdooCall,
}

impl SaleOrderListHandler {
    pub fn tool_name(&self) -> (r: &'static str)
        ensures
            r@ == TOOL_SALE_ORDER_LIST@,
    {
        TOOL_SALE_ORDER_LIST
    }

    pub fn description(&self) -> (r: &'static str)
        ensures
            r@ == "List Odoo quotations and sales orders."@,
    {
        "List Odoo quotations and sales orders."
    }
}


pub struct SaleOrderGetHandler {
    pub call: OdooCall,
}

impl SaleOrderGetHandler {
    pub fn tool_name(&self) -> (r: &'static str)
        ensures
            r@ == TOOL_SALE_ORDER_GET@,
    {
        TOOL_SALE_ORDER_GET
    }

    pub fn description(&self) -> (r: &'static str)
        ensures
            r@ == "Read one Odoo sales order, including its lines."@,
    {
        "Read one Odoo sales order, including its lines."
    }
}


pub struct SaleOrderCreateHandler {
    pub call: OdooCall,
}

impl SaleOrderCreateHandler {
    pub fn tool_name(&self) -> (r: &'static str)
        ensures
            r@ == TOOL_SALE_ORDER_CREATE@,
    {
        TOOL_SALE_ORDER_CREATE
    }

    pub fn description(&self) -> (r: &'static str)
        ensures
            r@ == "Create a draft quotation in Odoo."@,
    {
        "Create a draft quotation in Odoo."
    }
}


pub struct TaskListHandler {
    pub call: OdooCall,
}

impl TaskListHandler {
    pub fn tool_name(&self) -> (r: &'static str)
        ensures
            r@ == TOOL_TASK_LIST@,
    {
        TOOL_TASK_LIST
    }

    pub fn description(&self) -> (r: &'static str)
        ensures
            r@ == "List project tasks, open ones by default."@,
    {
        "List project tasks, open ones by default."
    }
}


pub struct TaskCreateHandler {
    pub call: OdooCall,
}

impl TaskCreateHandler {
    pub fn tool_name(&self) -> (r: &'static str)
        ensures
            r@ == TOOL_TASK_CREATE@,
    {
        TOOL_TASK_CREATE
    }

    pub fn description(&self) -> (r: &'static str)
        ensures
            r@ == "Create a task in an existing project."@,
    {
        "Create a task in an existing project."
    }
}


pub struct TaskUpdateHandler {
    pub call: OdooCall,
}

impl TaskUpdateHandler {
    pub fn tool_name(&self) -> (r: &'static str)
        ensures
            r@ == TOOL_TASK_UPDATE@,
    {
        TOOL_TASK_UPDATE
    }

    pub fn description(&self) -> (r: &'static str)
        ensures
            r@ == "Update fields on an existing project task."@,
    {
        "Update fields on an existing project task."
    }
}

} // verus!
