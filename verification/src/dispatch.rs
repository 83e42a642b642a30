//! Routing a tool call: which handler answers a tool name, what an unknown
//! name is answered, and how a call that the approval step or the credential
//! lookup stopped is answered.

use vstd::prelude::*;

use crate::catalog::{
    TOOL_ACTIVITY_COMPLETE, TOOL_ACTIVITY_CREATE, TOOL_ACTIVITY_LIST, TOOL_ACTIVITY_TYPE_LIST, TOOL_ATTACHMENT_ADD, TOOL_ATTACHMENT_GET, TOOL_ATTACHMENT_LIST, TOOL_CALENDAR_EVENT_CREATE, TOOL_CALENDAR_EVENT_LIST, TOOL_CHANNEL_LIST, TOOL_CHANNEL_POST, TOOL_INVOICE_GET, TOOL_INVOICE_LIST, TOOL_LEAD_CONVERT, TOOL_LEAD_CREATE, TOOL_LEAD_DELETE, TOOL_LEAD_GET, TOOL_LEAD_MARK_LOST, TOOL_LEAD_MARK_WON, TOOL_LEAD_REPORT, TOOL_LEAD_SEARCH, TOOL_LEAD_UPDATE, TOOL_NOTE_ADD, TOOL_NOTE_LIST, TOOL_NOTE_SEARCH, TOOL_OVERVIEW, TOOL_PARTNER_CREATE, TOOL_PARTNER_GET, TOOL_PARTNER_SEARCH, TOOL_PARTNER_UPDATE, TOOL_SALE_ORDER_CREATE, TOOL_SALE_ORDER_GET, TOOL_SALE_ORDER_LIST, TOOL_STAGE_LIST, TOOL_TASK_CREATE, TOOL_TASK_LIST, TOOL_TASK_UPDATE, TOOL_USER_LIST, ALL_TOOLS,
};
use crate::fmt::{join_sep, owned, push_str, str_views};
use crate::outcome::{ToolError, ToolErrorV};

verus! {

/// The handler each tool is routed to: one per tool the server lists.
#[derive(Clone, Copy, PartialEq, Eq, Structural)]
pub enum Handler {
    LeadSearch,
    LeadGet,
    LeadCreate,
    LeadUpdate,
    LeadDelete,
    LeadReport,
    PartnerSearch,
    PartnerGet,
    NoteAdd,
    NoteList,
    NoteSearch,
    AttachmentAdd,
    AttachmentList,
    AttachmentGet,
    ActivityList,
    ActivityCreate,
    ActivityComplete,
    ChannelList,
    ChannelPost,
    CalendarEventList,
    CalendarEventCreate,
    TaskList,
    TaskCreate,
    TaskUpdate,
    Overview,
    PartnerCreate,
    PartnerUpdate,
    LeadMarkWon,
    LeadMarkLost,
    LeadConvert,
    StageList,
    UserList,
    ActivityTypeList,
    SaleOrderList,
    SaleOrderGet,
    SaleOrderCreate,
    InvoiceList,
    InvoiceGet,
}

/// The tool name each handler answers to.
pub open spec fn handler_name(h: Handler) -> Seq<char> {
    match h {
        Handler::LeadSearch => TOOL_LEAD_SEARCH@,
        Handler::LeadGet => TOOL_LEAD_GET@,
        Handler::LeadCreate => TOOL_LEAD_CREATE@,
        Handler::LeadUpdate => TOOL_LEAD_UPDATE@,
        Handler::LeadDelete => TOOL_LEAD_DELETE@,
        Handler::LeadReport => TOOL_LEAD_REPORT@,
        Handler::PartnerSearch => TOOL_PARTNER_SEARCH@,
        Handler::PartnerGet => TOOL_PARTNER_GET@,
        Handler::NoteAdd => TOOL_NOTE_ADD@,
        Handler::NoteList => TOOL_NOTE_LIST@,
        Handler::NoteSearch => TOOL_NOTE_SEARCH@,
        Handler::AttachmentAdd => TOOL_ATTACHMENT_ADD@,
        Handler::AttachmentList => TOOL_ATTACHMENT_LIST@,
        Handler::AttachmentGet => TOOL_ATTACHMENT_GET@,
        Handler::ActivityList => TOOL_ACTIVITY_LIST@,
        Handler::ActivityCreate => TOOL_ACTIVITY_CREATE@,
        Handler::ActivityComplete => TOOL_ACTIVITY_COMPLETE@,
        Handler::ChannelList => TOOL_CHANNEL_LIST@,
        Handler::ChannelPost => TOOL_CHANNEL_POST@,
        Handler::CalendarEventList => TOOL_CALENDAR_EVENT_LIST@,
        Handler::CalendarEventCreate => TOOL_CALENDAR_EVENT_CREATE@,
        Handler::TaskList => TOOL_TASK_LIST@,
        Handler::TaskCreate => TOOL_TASK_CREATE@,
        Handler::TaskUpdate => TOOL_TASK_UPDATE@,
        Handler::Overview => TOOL_OVERVIEW@,
        Handler::PartnerCreate => TOOL_PARTNER_CREATE@,
        Handler::PartnerUpdate => TOOL_PARTNER_UPDATE@,
        Handler::LeadMarkWon => TOOL_LEAD_MARK_WON@,
        Handler::LeadMarkLost => TOOL_LEAD_MARK_LOST@,
        Handler::LeadConvert => TOOL_LEAD_CONVERT@,
        Handler::StageList => TOOL_STAGE_LIST@,
        Handler::UserList => TOOL_USER_LIST@,
        Handler::ActivityTypeList => TOOL_ACTIVITY_TYPE_LIST@,
        Handler::SaleOrderList => TOOL_SALE_ORDER_LIST@,
        Handler::SaleOrderGet => TOOL_SALE_ORDER_GET@,
        Handler::SaleOrderCreate => TOOL_SALE_ORDER_CREATE@,
        Handler::InvoiceList => TOOL_INVOICE_LIST@,
        Handler::InvoiceGet => TOOL_INVOICE_GET@,
    }
}

/// The handlers in the order routing tries them: the order of `ALL_TOOLS`.
pub open spec fn route_order() -> Seq<Handler> {
    seq![
        Handler::LeadSearch,
        Handler::LeadGet,
        Handler::LeadCreate,
        Handler::LeadUpdate,
        Handler::LeadDelete,
        Handler::LeadReport,
        Handler::PartnerSearch,
        Handler::PartnerGet,
        Handler::NoteAdd,
        Handler::NoteList,
        Handler::NoteSearch,
        Handler::AttachmentAdd,
        Handler::AttachmentList,
        Handler::AttachmentGet,
        Handler::ActivityList,
        Handler::ActivityCreate,
        Handler::ActivityComplete,
        Handler::ChannelList,
        Handler::ChannelPost,
        Handler::CalendarEventList,
        Handler::CalendarEventCreate,
        Handler::TaskList,
        Handler::TaskCreate,
        Handler::TaskUpdate,
        Handler::Overview,
        Handler::PartnerCreate,
        Handler::PartnerUpdate,
        Handler::LeadMarkWon,
        Handler::LeadMarkLost,
        Handler::LeadConvert,
        Handler::StageList,
        Handler::UserList,
        Handler::ActivityTypeList,
        Handler::SaleOrderList,
        Handler::SaleOrderGet,
        Handler::SaleOrderCreate,
        Handler::InvoiceList,
        Handler::InvoiceGet,
    ]
}

/// The first handler in routing order whose name is `name`.
pub open spec fn route_from(name: Seq<char>, i: nat) -> Option<Handler>
    decreases route_order().len() - i,
{
    if i >= route_order().len() {
        None
    } else if handler_name(route_order()[i as int]) == name {
        Some(route_order()[i as int])
    } else {
        route_from(name, i + 1)
    }
}

pub open spec fn route_spec(name: Seq<char>) -> Option<Handler> {
    route_from(name, 0)
}

fn handler_at(i: usize) -> (h: Handler)
    requires
        i < 38,
    ensures
        h == route_order()[i as int],
{
    let hs: [Handler; 38] = [
        Handler::LeadSearch,
        Handler::LeadGet,
        Handler::LeadCreate,
        Handler::LeadUpdate,
        Handler::LeadDelete,
        Handler::LeadReport,
        Handler::PartnerSearch,
        Handler::PartnerGet,
        Handler::NoteAdd,
        Handler::NoteList,
        Handler::NoteSearch,
        Handler::AttachmentAdd,
        Handler::AttachmentList,
        Handler::AttachmentGet,
        Handler::ActivityList,
        Handler::ActivityCreate,
        Handler::ActivityComplete,
        Handler::ChannelList,
        Handler::ChannelPost,
        Handler::CalendarEventList,
        Handler::CalendarEventCreate,
        Handler::TaskList,
        Handler::TaskCreate,
        Handler::TaskUpdate,
        Handler::Overview,
        Handler::PartnerCreate,
        Handler::PartnerUpdate,
        Handler::LeadMarkWon,
        Handler::LeadMarkLost,
        Handler::LeadConvert,
        Handler::StageList,
        Handler::UserList,
        Handler::ActivityTypeList,
        Handler::SaleOrderList,
        Handler::SaleOrderGet,
        Handler::SaleOrderCreate,
        Handler::InvoiceList,
        Handler::InvoiceGet,
    ];
    assert(hs@ =~= route_order());
    hs[i]
}

fn name_of(h: Handler) -> (r: &'static str)
    ensures
        r@ == handler_name(h),
{
    match h {
        Handler::LeadSearch => TOOL_LEAD_SEARCH,
        Handler::LeadGet => TOOL_LEAD_GET,
        Handler::LeadCreate => TOOL_LEAD_CREATE,
        Handler::LeadUpdate => TOOL_LEAD_UPDATE,
        Handler::LeadDelete => TOOL_LEAD_DELETE,
        Handler::LeadReport => TOOL_LEAD_REPORT,
        Handler::PartnerSearch => TOOL_PARTNER_SEARCH,
        Handler::PartnerGet => TOOL_PARTNER_GET,
        Handler::NoteAdd => TOOL_NOTE_ADD,
        Handler::NoteList => TOOL_NOTE_LIST,
        Handler::NoteSearch => TOOL_NOTE_SEARCH,
        Handler::AttachmentAdd => TOOL_ATTACHMENT_ADD,
        Handler::AttachmentList => TOOL_ATTACHMENT_LIST,
        Handler::AttachmentGet => TOOL_ATTACHMENT_GET,
        Handler::ActivityList => TOOL_ACTIVITY_LIST,
        Handler::ActivityCreate => TOOL_ACTIVITY_CREATE,
        Handler::ActivityComplete => TOOL_ACTIVITY_COMPLETE,
        Handler::ChannelList => TOOL_CHANNEL_LIST,
        Handler::ChannelPost => TOOL_CHANNEL_POST,
        Handler::CalendarEventList => TOOL_CALENDAR_EVENT_LIST,
        Handler::CalendarEventCreate => TOOL_CALENDAR_EVENT_CREATE,
        Handler::TaskList => TOOL_TASK_LIST,
        Handler::TaskCreate => TOOL_TASK_CREATE,
        Handler::TaskUpdate => TOOL_TASK_UPDATE,
        Handler::Overview => TOOL_OVERVIEW,
        Handler::PartnerCreate => TOOL_PARTNER_CREATE,
        Handler::PartnerUpdate => TOOL_PARTNER_UPDATE,
        Handler::LeadMarkWon => TOOL_LEAD_MARK_WON,
        Handler::LeadMarkLost => TOOL_LEAD_MARK_LOST,
        Handler::LeadConvert => TOOL_LEAD_CONVERT,
        Handler::StageList => TOOL_STAGE_LIST,
        Handler::UserList => TOOL_USER_LIST,
        Handler::ActivityTypeList => TOOL_ACTIVITY_TYPE_LIST,
        Handler::SaleOrderList => TOOL_SALE_ORDER_LIST,
        Handler::SaleOrderGet => TOOL_SALE_ORDER_GET,
        Handler::SaleOrderCreate => TOOL_SALE_ORDER_CREATE,
        Handler::InvoiceList => TOOL_INVOICE_LIST,
        Handler::InvoiceGet => TOOL_INVOICE_GET,
    }
}

/// Routing order names the tools exactly as `ALL_TOOLS` lists them.
proof fn lemma_route_order_names()
    ensures
        route_order().len() == ALL_TOOLS@.len(),
        forall|j: int| 0 <= j < route_order().len() ==> handler_name(#[trigger] route_order()[j]) == str_views(ALL_TOOLS@)[j],
{
    let a = str_views(ALL_TOOLS@);
    let o = route_order();
    assert(handler_name(o[0]) == a[0]);
    assert(handler_name(o[1]) == a[1]);
    assert(handler_name(o[2]) == a[2]);
    assert(handler_name(o[3]) == a[3]);
    assert(handler_name(o[4]) == a[4]);
    assert(handler_name(o[5]) == a[5]);
    assert(handler_name(o[6]) == a[6]);
    assert(handler_name(o[7]) == a[7]);
    assert(handler_name(o[8]) == a[8]);
    assert(handler_name(o[9]) == a[9]);
    assert(handler_name(o[10]) == a[10]);
    assert(handler_name(o[11]) == a[11]);
    assert(handler_name(o[12]) == a[12]);
    assert(handler_name(o[13]) == a[13]);
    assert(handler_name(o[14]) == a[14]);
    assert(handler_name(o[15]) == a[15]);
    assert(handler_name(o[16]) == a[16]);
    assert(handler_name(o[17]) == a[17]);
    assert(handler_name(o[18]) == a[18]);
    assert(handler_name(o[19]) == a[19]);
    assert(handler_name(o[20]) == a[20]);
    assert(handler_name(o[21]) == a[21]);
    assert(handler_name(o[22]) == a[22]);
    assert(handler_name(o[23]) == a[23]);
    assert(handler_name(o[24]) == a[24]);
    assert(handler_name(o[25]) == a[25]);
    assert(handler_name(o[26]) == a[26]);
    assert(handler_name(o[27]) == a[27]);
    assert(handler_name(o[28]) == a[28]);
    assert(handler_name(o[29]) == a[29]);
    assert(handler_name(o[30]) == a[30]);
    assert(handler_name(o[31]) == a[31]);
    assert(handler_name(o[32]) == a[32]);
    assert(handler_name(o[33]) == a[33]);
    assert(handler_name(o[34]) == a[34]);
    assert(handler_name(o[35]) == a[35]);
    assert(handler_name(o[36]) == a[36]);
    assert(handler_name(o[37]) == a[37]);
}

proof fn lemma_route_from(name: Seq<char>, i: nat)
    ensures
        route_from(name, i) matches Some(h) ==> handler_name(h) == name,
        route_from(name, i) is None ==> forall|j: int| i <= j < route_order().len() ==> handler_name(#[trigger] route_order()[j]) != name,
    decreases route_order().len() - i,
{
    if i < route_order().len() {
        lemma_route_from(name, i + 1);
    }
}

/// A name is routed exactly when it is one of the listed tools, and then to
/// the handler of that very tool.
proof fn lemma_route_spec(name: Seq<char>)
    ensures
        route_spec(name) is Some <==> str_views(ALL_TOOLS@).contains(name),
        route_spec(name) matches Some(h) ==> handler_name(h) == name,
{
    lemma_route_from(name, 0);
    lemma_route_order_names();
    let a = str_views(ALL_TOOLS@);
    if a.contains(name) {
        let j = choose|j: int| 0 <= j < a.len() && a[j] == name;
        assert(handler_name(route_order()[j]) == name);
    }
    if route_spec(name) is Some {
        let h = route_spec(name)->0;
        assert(route_order().contains(h)) by {
            lemma_route_in_order(name, 0);
        }
        let j = choose|j: int| 0 <= j < route_order().len() && route_order()[j] == h;
        assert(a[j] == name);
    }
}

proof fn lemma_route_in_order(name: Seq<char>, i: nat)
    ensures
        route_from(name, i) matches Some(h) ==> route_order().contains(h),
    decreases route_order().len() - i,
{
    if i < route_order().len() {
        lemma_route_in_order(name, i + 1);
    }
}

/// The handler for a tool name: every tool the server lists is routed, to the
/// handler of that tool, and any other name is not routed.
pub fn route_tool(name: &str) -> (r: Option<Handler>)
    ensures
        r == route_spec(name@),
        r is Some <==> str_views(ALL_TOOLS@).contains(name@),
        r matches Some(h) ==> handler_name(h) == name@,
{
    proof {
        lemma_route_spec(name@);
    }
    let mut i: usize = 0;
    while i < 38
        invariant
            i <= 38,
            route_spec(name@) == route_from(name@, i as nat),
            route_spec(name@) is Some <==> str_views(ALL_TOOLS@).contains(name@),
            route_spec(name@) matches Some(h) ==> handler_name(h) == name@,
        decreases 38 - i,
    {
        let h = handler_at(i);
        if crate::fmt::str_eq(name_of(h), name) {
            return Some(h);
        }
        i += 1;
    }
    None
}

/// `Unknown tool: 'name'. Available tools: a, b, ....`
pub open spec fn unknown_tool_message(name: Seq<char>) -> Seq<char> {
    "Unknown tool: '"@ + name + "'. Available tools: "@ + join_sep(str_views(ALL_TOOLS@), ", "@)
        + "."@
}

/// The error an unroutable tool name is refused with, listing every tool.
pub fn unknown_tool(name: &str) -> (e: ToolError)
    ensures
        e@ == ToolErrorV::InvalidParams(unknown_tool_message(name@)),
{
    let all = crate::fmt::owned_all(&ALL_TOOLS);
    let mut m = owned("Unknown tool: '");
    push_str(&mut m, name);
    push_str(&mut m, "'. Available tools: ");
    push_str(&mut m, crate::fmt::join(&all, ", ").as_str());
    push_str(&mut m, ".");
    ToolError::InvalidParams(m)
}

/// Why the caller's Odoo credential could not be had.
#[derive(Clone, Copy, PartialEq, Eq, Structural)]
pub enum CredentialFailure {
    /// The platform user has not linked an Odoo account.
    NotLinked,
    /// The server is not configured to reach Odoo.
    NotConfigured,
    /// The Odoo database lacks an app the tools need.
    AppMissing,
    /// Anything else: the transport, Odoo itself.
    Other,
}

/// Link and setup problems reach the caller as an error *result* the UI
/// renders; anything else is a protocol error.
pub open spec fn shown_as_result_spec(f: CredentialFailure) -> bool {
    match f {
        CredentialFailure::NotLinked => true,
        CredentialFailure::NotConfigured => true,
        CredentialFailure::AppMissing => true,
        CredentialFailure::Other => false,
    }
}

pub fn shown_as_result(f: CredentialFailure) -> (r: bool)
    ensures
        r == shown_as_result_spec(f),
{
    match f {
        CredentialFailure::Other => false,
        _ => true,
    }
}


/// What the server tells a client about itself on `initialize`.
pub const INSTRUCTIONS: &'static str = "Odoo CRM. Every call here runs as *your own* Odoo account, using the credential you linked on /admin/profile — so what you can see and change is exactly what Odoo permits you, and your name is on every note you post and every lead you touch. Prefer business_overview_data for a daily picture and crm_lead_report for pipeline numbers; both aggregate in Odoo rather than pulling records back to count them.";

/// The Odoo server, identified by its service id; its connections are the
/// caller's.
pub struct OdooServer {
    pub service_id: String,
}

impl OdooServer {
    pub fn new(service_id: &str) -> (s: OdooServer)
        ensures
            s.service_id@ == service_id@,
    {
        OdooServer { service_id: owned(service_id) }
    }

    /// The implementation name clients see: `Odoo (service id)`.
    pub fn display_name(&self) -> (r: String)
        ensures
            r@ == "Odoo ("@ + self.service_id@ + ")"@,
    {
        let mut r = owned("Odoo (");
        push_str(&mut r, self.service_id.as_str());
        push_str(&mut r, ")");
        r
    }

    pub fn title(&self) -> (r: &'static str)
        ensures
            r@ == "Odoo CRM"@,
    {
        "Odoo CRM"
    }

    pub fn instructions(&self) -> (r: &'static str)
        ensures
            r@ == INSTRUCTIONS@,
    {
        INSTRUCTIONS
    }
}

/// Each handler answers to its own tool and no other: the handler named
/// for a tool is the one routed that tool's name (so `crm_lead_mark_won`
/// reaches [`Handler::LeadMarkWon`], never [`Handler::LeadMarkLost`]).
pub proof fn law_each_handler_answers_to_its_own_tool()
    ensures
        handler_name(Handler::LeadSearch) == "crm_lead_search"@,
        handler_name(Handler::LeadGet) == "crm_lead_get"@,
        handler_name(Handler::LeadCreate) == "crm_lead_create"@,
        handler_name(Handler::LeadUpdate) == "crm_lead_update"@,
        handler_name(Handler::LeadDelete) == "crm_lead_delete"@,
        handler_name(Handler::LeadReport) == "crm_lead_report"@,
        handler_name(Handler::PartnerSearch) == "partner_search"@,
        handler_name(Handler::PartnerGet) == "partner_get"@,
        handler_name(Handler::NoteAdd) == "note_add"@,
        handler_name(Handler::NoteList) == "note_list"@,
        handler_name(Handler::NoteSearch) == "note_search"@,
        handler_name(Handler::AttachmentAdd) == "attachment_add"@,
        handler_name(Handler::AttachmentList) == "attachment_list"@,
        handler_name(Handler::AttachmentGet) == "attachment_get"@,
        handler_name(Handler::ActivityList) == "activity_list"@,
        handler_name(Handler::ActivityCreate) == "activity_create"@,
        handler_name(Handler::ActivityComplete) == "activity_complete"@,
        handler_name(Handler::ChannelList) == "channel_list"@,
        handler_name(Handler::ChannelPost) == "channel_post"@,
        handler_name(Handler::CalendarEventList) == "calendar_event_list"@,
        handler_name(Handler::CalendarEventCreate) == "calendar_event_create"@,
        handler_name(Handler::TaskList) == "task_list"@,
        handler_name(Handler::TaskCreate) == "task_create"@,
        handler_name(Handler::TaskUpdate) == "task_update"@,
        handler_name(Handler::Overview) == "business_overview_data"@,
        handler_name(Handler::PartnerCreate) == "partner_create"@,
        handler_name(Handler::PartnerUpdate) == "partner_update"@,
        handler_name(Handler::LeadMarkWon) == "crm_lead_mark_won"@,
        handler_name(Handler::LeadMarkLost) == "crm_lead_mark_lost"@,
        handler_name(Handler::LeadConvert) == "crm_lead_convert_to_opportunity"@,
        handler_name(Handler::StageList) == "crm_stage_list"@,
        handler_name(Handler::UserList) == "user_list"@,
        handler_name(Handler::ActivityTypeList) == "activity_type_list"@,
        handler_name(Handler::SaleOrderList) == "sale_order_list"@,
        handler_name(Handler::SaleOrderGet) == "sale_order_get"@,
        handler_name(Handler::SaleOrderCreate) == "sale_order_create"@,
        handler_name(Handler::InvoiceList) == "invoice_list"@,
        handler_name(Handler::InvoiceGet) == "invoice_get"@,
{
}

/// Which of the listed tools `s` names, as its position in routing order
/// (`-1` for none of them), told apart by length and a few characters.
spec fn tool_index(s: Seq<char>) -> int {
    if s.len() == 8 {
        8
    } else if s.len() == 9 {
        if s[0] == 'n' {
            9
        } else {
            if s[0] == 't' {
                21
            } else {
                31
            }
        }
    } else if s.len() == 11 {
        if s[0] == 't' {
            if s[5] == 'c' {
                22
            } else {
                23
            }
        } else {
            if s[0] == 'p' {
                7
            } else {
                if s[0] == 'n' {
                    10
                } else {
                    37
                }
            }
        }
    } else if s.len() == 12 {
        if s[1] == 'h' {
            if s[8] == 'l' {
                17
            } else {
                18
            }
        } else {
            if s[0] == 'c' {
                1
            } else {
                36
            }
        }
    } else if s.len() == 13 {
        14
    } else if s.len() == 14 {
        if s[0] == 'p' {
            if s[8] == 's' {
                6
            } else {
                if s[8] == 'c' {
                    25
                } else {
                    26
                }
            }
        } else {
            if s[0] == 'a' {
                if s[11] == 'a' {
                    11
                } else {
                    13
                }
            } else {
                if s[0] == 'c' {
                    30
                } else {
                    34
                }
            }
        }
    } else if s.len() == 15 {
        if s[13] == 't' {
            if s[9] == 'c' {
                if s[0] == 'c' {
                    2
                } else {
                    15
                }
            } else {
                if s[9] == 'u' {
                    3
                } else {
                    4
                }
            }
        } else {
            if s[0] == 'c' {
                if s[9] == 's' {
                    0
                } else {
                    5
                }
            } else {
                if s[0] == 'a' {
                    12
                } else {
                    33
                }
            }
        }
    } else if s.len() == 17 {
        if s[0] == 'a' {
            16
        } else {
            if s[0] == 'c' {
                27
            } else {
                35
            }
        }
    } else if s.len() == 18 {
        if s[0] == 'c' {
            28
        } else {
            32
        }
    } else if s.len() == 19 {
        19
    } else if s.len() == 21 {
        20
    } else if s.len() == 22 {
        24
    } else if s.len() == 31 {
        29
    } else {
        -1
    }
}

/// The position a handler's tool name decodes to is that handler's own.
proof fn lemma_tool_index(h: Handler)
    ensures
        0 <= tool_index(handler_name(h)) < route_order().len(),
        route_order()[tool_index(handler_name(h))] == h,
{
    match h {
        Handler::LeadSearch => {
            reveal_strlit("crm_lead_search");
            assert(tool_index(handler_name(h)) == 0);
        },
        Handler::LeadGet => {
            reveal_strlit("crm_lead_get");
            assert(tool_index(handler_name(h)) == 1);
        },
        Handler::LeadCreate => {
            reveal_strlit("crm_lead_create");
            assert(tool_index(handler_name(h)) == 2);
        },
        Handler::LeadUpdate => {
            reveal_strlit("crm_lead_update");
            assert(tool_index(handler_name(h)) == 3);
        },
        Handler::LeadDelete => {
            reveal_strlit("crm_lead_delete");
            assert(tool_index(handler_name(h)) == 4);
        },
        Handler::LeadReport => {
            reveal_strlit("crm_lead_report");
            assert(tool_index(handler_name(h)) == 5);
        },
        Handler::PartnerSearch => {
            reveal_strlit("partner_search");
            assert(tool_index(handler_name(h)) == 6);
        },
        Handler::PartnerGet => {
            reveal_strlit("partner_get");
            assert(tool_index(handler_name(h)) == 7);
        },
        Handler::NoteAdd => {
            reveal_strlit("note_add");
            assert(tool_index(handler_name(h)) == 8);
        },
        Handler::NoteList => {
            reveal_strlit("note_list");
            assert(tool_index(handler_name(h)) == 9);
        },
        Handler::NoteSearch => {
            reveal_strlit("note_search");
            assert(tool_index(handler_name(h)) == 10);
        },
        Handler::AttachmentAdd => {
            reveal_strlit("attachment_add");
            assert(tool_index(handler_name(h)) == 11);
        },
        Handler::AttachmentList => {
            reveal_strlit("attachment_list");
            assert(tool_index(handler_name(h)) == 12);
        },
        Handler::AttachmentGet => {
            reveal_strlit("attachment_get");
            assert(tool_index(handler_name(h)) == 13);
        },
        Handler::ActivityList => {
            reveal_strlit("activity_list");
            assert(tool_index(handler_name(h)) == 14);
        },
        Handler::ActivityCreate => {
            reveal_strlit("activity_create");
            assert(tool_index(handler_name(h)) == 15);
        },
        Handler::ActivityComplete => {
            reveal_strlit("activity_complete");
            assert(tool_index(handler_name(h)) == 16);
        },
        Handler::ChannelList => {
            reveal_strlit("channel_list");
            assert(tool_index(handler_name(h)) == 17);
        },
        Handler::ChannelPost => {
            reveal_strlit("channel_post");
            assert(tool_index(handler_name(h)) == 18);
        },
        Handler::CalendarEventList => {
            reveal_strlit("calendar_event_list");
            assert(tool_index(handler_name(h)) == 19);
        },
        Handler::CalendarEventCreate => {
            reveal_strlit("calendar_event_create");
            assert(tool_index(handler_name(h)) == 20);
        },
        Handler::TaskList => {
            reveal_strlit("task_list");
            assert(tool_index(handler_name(h)) == 21);
        },
        Handler::TaskCreate => {
            reveal_strlit("task_create");
            assert(tool_index(handler_name(h)) == 22);
        },
        Handler::TaskUpdate => {
            reveal_strlit("task_update");
            assert(tool_index(handler_name(h)) == 23);
        },
        Handler::Overview => {
            reveal_strlit("business_overview_data");
            assert(tool_index(handler_name(h)) == 24);
        },
        Handler::PartnerCreate => {
            reveal_strlit("partner_create");
            assert(tool_index(handler_name(h)) == 25);
        },
        Handler::PartnerUpdate => {
            reveal_strlit("partner_update");
            assert(tool_index(handler_name(h)) == 26);
        },
        Handler::LeadMarkWon => {
            reveal_strlit("crm_lead_mark_won");
            assert(tool_index(handler_name(h)) == 27);
        },
        Handler::LeadMarkLost => {
            reveal_strlit("crm_lead_mark_lost");
            assert(tool_index(handler_name(h)) == 28);
        },
        Handler::LeadConvert => {
            reveal_strlit("crm_lead_convert_to_opportunity");
            assert(tool_index(handler_name(h)) == 29);
        },
        Handler::StageList => {
            reveal_strlit("crm_stage_list");
            assert(tool_index(handler_name(h)) == 30);
        },
        Handler::UserList => {
            reveal_strlit("user_list");
            assert(tool_index(handler_name(h)) == 31);
        },
        Handler::ActivityTypeList => {
            reveal_strlit("activity_type_list");
            assert(tool_index(handler_name(h)) == 32);
        },
        Handler::SaleOrderList => {
            reveal_strlit("sale_order_list");
            assert(tool_index(handler_name(h)) == 33);
        },
        Handler::SaleOrderGet => {
            reveal_strlit("sale_order_get");
            assert(tool_index(handler_name(h)) == 34);
        },
        Handler::SaleOrderCreate => {
            reveal_strlit("sale_order_create");
            assert(tool_index(handler_name(h)) == 35);
        },
        Handler::InvoiceList => {
            reveal_strlit("invoice_list");
            assert(tool_index(handler_name(h)) == 36);
        },
        Handler::InvoiceGet => {
            reveal_strlit("invoice_get");
            assert(tool_index(handler_name(h)) == 37);
        },
    }
}

/// Every listed tool's name is routed to that tool's own handler:
/// `crm_lead_mark_won` to [`Handler::LeadMarkWon`], `crm_lead_mark_lost` to
/// [`Handler::LeadMarkLost`], and so on for all of them.
pub proof fn law_each_tool_reaches_its_own_handler()
    ensures
        route_spec("crm_lead_search"@) == Some(Handler::LeadSearch),
        route_spec("crm_lead_get"@) == Some(Handler::LeadGet),
        route_spec("crm_lead_create"@) == Some(Handler::LeadCreate),
        route_spec("crm_lead_update"@) == Some(Handler::LeadUpdate),
        route_spec("crm_lead_delete"@) == Some(Handler::LeadDelete),
        route_spec("crm_lead_report"@) == Some(Handler::LeadReport),
        route_spec("partner_search"@) == Some(Handler::PartnerSearch),
        route_spec("partner_get"@) == Some(Handler::PartnerGet),
        route_spec("note_add"@) == Some(Handler::NoteAdd),
        route_spec("note_list"@) == Some(Handler::NoteList),
        route_spec("note_search"@) == Some(Handler::NoteSearch),
        route_spec("attachment_add"@) == Some(Handler::AttachmentAdd),
        route_spec("attachment_list"@) == Some(Handler::AttachmentList),
        route_spec("attachment_get"@) == Some(Handler::AttachmentGet),
        route_spec("activity_list"@) == Some(Handler::ActivityList),
        route_spec("activity_create"@) == Some(Handler::ActivityCreate),
        route_spec("activity_complete"@) == Some(Handler::ActivityComplete),
        route_spec("channel_list"@) == Some(Handler::ChannelList),
        route_spec("channel_post"@) == Some(Handler::ChannelPost),
        route_spec("calendar_event_list"@) == Some(Handler::CalendarEventList),
        route_spec("calendar_event_create"@) == Some(Handler::CalendarEventCreate),
        route_spec("task_list"@) == Some(Handler::TaskList),
        route_spec("task_create"@) == Some(Handler::TaskCreate),
        route_spec("task_update"@) == Some(Handler::TaskUpdate),
        route_spec("business_overview_data"@) == Some(Handler::Overview),
        route_spec("partner_create"@) == Some(Handler::PartnerCreate),
        route_spec("partner_update"@) == Some(Handler::PartnerUpdate),
        route_spec("crm_lead_mark_won"@) == Some(Handler::LeadMarkWon),
        route_spec("crm_lead_mark_lost"@) == Some(Handler::LeadMarkLost),
        route_spec("crm_lead_convert_to_opportunity"@) == Some(Handler::LeadConvert),
        route_spec("crm_stage_list"@) == Some(Handler::StageList),
        route_spec("user_list"@) == Some(Handler::UserList),
        route_spec("activity_type_list"@) == Some(Handler::ActivityTypeList),
        route_spec("sale_order_list"@) == Some(Handler::SaleOrderList),
        route_spec("sale_order_get"@) == Some(Handler::SaleOrderGet),
        route_spec("sale_order_create"@) == Some(Handler::SaleOrderCreate),
        route_spec("invoice_list"@) == Some(Handler::InvoiceList),
        route_spec("invoice_get"@) == Some(Handler::InvoiceGet),
{
    let a = str_views(ALL_TOOLS@);
    assert(route_spec("crm_lead_search"@) == Some(Handler::LeadSearch)) by {
        lemma_route_spec("crm_lead_search"@);
        assert(a[0] == "crm_lead_search"@);
        lemma_tool_index(route_spec("crm_lead_search"@)->0);
        reveal_strlit("crm_lead_search");
    }
    assert(route_spec("crm_lead_get"@) == Some(Handler::LeadGet)) by {
        lemma_route_spec("crm_lead_get"@);
        assert(a[1] == "crm_lead_get"@);
        lemma_tool_index(route_spec("crm_lead_get"@)->0);
        reveal_strlit("crm_lead_get");
    }
    assert(route_spec("crm_lead_create"@) == Some(Handler::LeadCreate)) by {
        lemma_route_spec("crm_lead_create"@);
        assert(a[2] == "crm_lead_create"@);
        lemma_tool_index(route_spec("crm_lead_create"@)->0);
        reveal_strlit("crm_lead_create");
    }
    assert(route_spec("crm_lead_update"@) == Some(Handler::LeadUpdate)) by {
        lemma_route_spec("crm_lead_update"@);
        assert(a[3] == "crm_lead_update"@);
        lemma_tool_index(route_spec("crm_lead_update"@)->0);
        reveal_strlit("crm_lead_update");
    }
    assert(route_spec("crm_lead_delete"@) == Some(Handler::LeadDelete)) by {
        lemma_route_spec("crm_lead_delete"@);
        assert(a[4] == "crm_lead_delete"@);
        lemma_tool_index(route_spec("crm_lead_delete"@)->0);
        reveal_strlit("crm_lead_delete");
    }
    assert(route_spec("crm_lead_report"@) == Some(Handler::LeadReport)) by {
        lemma_route_spec("crm_lead_report"@);
        assert(a[5] == "crm_lead_report"@);
        lemma_tool_index(route_spec("crm_lead_report"@)->0);
        reveal_strlit("crm_lead_report");
    }
    assert(route_spec("partner_search"@) == Some(Handler::PartnerSearch)) by {
        lemma_route_spec("partner_search"@);
        assert(a[6] == "partner_search"@);
        lemma_tool_index(route_spec("partner_search"@)->0);
        reveal_strlit("partner_search");
    }
    assert(route_spec("partner_get"@) == Some(Handler::PartnerGet)) by {
        lemma_route_spec("partner_get"@);
        assert(a[7] == "partner_get"@);
        lemma_tool_index(route_spec("partner_get"@)->0);
        reveal_strlit("partner_get");
    }
    assert(route_spec("note_add"@) == Some(Handler::NoteAdd)) by {
        lemma_route_spec("note_add"@);
        assert(a[8] == "note_add"@);
        lemma_tool_index(route_spec("note_add"@)->0);
        reveal_strlit("note_add");
    }
    assert(route_spec("note_list"@) == Some(Handler::NoteList)) by {
        lemma_route_spec("note_list"@);
        assert(a[9] == "note_list"@);
        lemma_tool_index(route_spec("note_list"@)->0);
        reveal_strlit("note_list");
    }
    assert(route_spec("note_search"@) == Some(Handler::NoteSearch)) by {
        lemma_route_spec("note_search"@);
        assert(a[10] == "note_search"@);
        lemma_tool_index(route_spec("note_search"@)->0);
        reveal_strlit("note_search");
    }
    assert(route_spec("attachment_add"@) == Some(Handler::AttachmentAdd)) by {
        lemma_route_spec("attachment_add"@);
        assert(a[11] == "attachment_add"@);
        lemma_tool_index(route_spec("attachment_add"@)->0);
        reveal_strlit("attachment_add");
    }
    assert(route_spec("attachment_list"@) == Some(Handler::AttachmentList)) by {
        lemma_route_spec("attachment_list"@);
        assert(a[12] == "attachment_list"@);
        lemma_tool_index(route_spec("attachment_list"@)->0);
        reveal_strlit("attachment_list");
    }
    assert(route_spec("attachment_get"@) == Some(Handler::AttachmentGet)) by {
        lemma_route_spec("attachment_get"@);
        assert(a[13] == "attachment_get"@);
        lemma_tool_index(route_spec("attachment_get"@)->0);
        reveal_strlit("attachment_get");
    }
    assert(route_spec("activity_list"@) == Some(Handler::ActivityList)) by {
        lemma_route_spec("activity_list"@);
        assert(a[14] == "activity_list"@);
        lemma_tool_index(route_spec("activity_list"@)->0);
        reveal_strlit("activity_list");
    }
    assert(route_spec("activity_create"@) == Some(Handler::ActivityCreate)) by {
        lemma_route_spec("activity_create"@);
        assert(a[15] == "activity_create"@);
        lemma_tool_index(route_spec("activity_create"@)->0);
        reveal_strlit("activity_create");
    }
    assert(route_spec("activity_complete"@) == Some(Handler::ActivityComplete)) by {
        lemma_route_spec("activity_complete"@);
        assert(a[16] == "activity_complete"@);
        lemma_tool_index(route_spec("activity_complete"@)->0);
        reveal_strlit("activity_complete");
    }
    assert(route_spec("channel_list"@) == Some(Handler::ChannelList)) by {
        lemma_route_spec("channel_list"@);
        assert(a[17] == "channel_list"@);
        lemma_tool_index(route_spec("channel_list"@)->0);
        reveal_strlit("channel_list");
    }
    assert(route_spec("channel_post"@) == Some(Handler::ChannelPost)) by {
        lemma_route_spec("channel_post"@);
        assert(a[18] == "channel_post"@);
        lemma_tool_index(route_spec("channel_post"@)->0);
        reveal_strlit("channel_post");
    }
    assert(route_spec("calendar_event_list"@) == Some(Handler::CalendarEventList)) by {
        lemma_route_spec("calendar_event_list"@);
        assert(a[19] == "calendar_event_list"@);
        lemma_tool_index(route_spec("calendar_event_list"@)->0);
        reveal_strlit("calendar_event_list");
    }
    assert(route_spec("calendar_event_create"@) == Some(Handler::CalendarEventCreate)) by {
        lemma_route_spec("calendar_event_create"@);
        assert(a[20] == "calendar_event_create"@);
        lemma_tool_index(route_spec("calendar_event_create"@)->0);
        reveal_strlit("calendar_event_create");
    }
    assert(route_spec("task_list"@) == Some(Handler::TaskList)) by {
        lemma_route_spec("task_list"@);
        assert(a[21] == "task_list"@);
        lemma_tool_index(route_spec("task_list"@)->0);
        reveal_strlit("task_list");
    }
    assert(route_spec("task_create"@) == Some(Handler::TaskCreate)) by {
        lemma_route_spec("task_create"@);
        assert(a[22] == "task_create"@);
        lemma_tool_index(route_spec("task_create"@)->0);
        reveal_strlit("task_create");
    }
    assert(route_spec("task_update"@) == Some(Handler::TaskUpdate)) by {
        lemma_route_spec("task_update"@);
        assert(a[23] == "task_update"@);
        lemma_tool_index(route_spec("task_update"@)->0);
        reveal_strlit("task_update");
    }
    assert(route_spec("business_overview_data"@) == Some(Handler::Overview)) by {
        lemma_route_spec("business_overview_data"@);
        assert(a[24] == "business_overview_data"@);
        lemma_tool_index(route_spec("business_overview_data"@)->0);
        reveal_strlit("business_overview_data");
    }
    assert(route_spec("partner_create"@) == Some(Handler::PartnerCreate)) by {
        lemma_route_spec("partner_create"@);
        assert(a[25] == "partner_create"@);
        lemma_tool_index(route_spec("partner_create"@)->0);
        reveal_strlit("partner_create");
    }
    assert(route_spec("partner_update"@) == Some(Handler::PartnerUpdate)) by {
        lemma_route_spec("partner_update"@);
        assert(a[26] == "partner_update"@);
        lemma_tool_index(route_spec("partner_update"@)->0);
        reveal_strlit("partner_update");
    }
    assert(route_spec("crm_lead_mark_won"@) == Some(Handler::LeadMarkWon)) by {
        lemma_route_spec("crm_lead_mark_won"@);
        assert(a[27] == "crm_lead_mark_won"@);
        lemma_tool_index(route_spec("crm_lead_mark_won"@)->0);
        reveal_strlit("crm_lead_mark_won");
    }
    assert(route_spec("crm_lead_mark_lost"@) == Some(Handler::LeadMarkLost)) by {
        lemma_route_spec("crm_lead_mark_lost"@);
        assert(a[28] == "crm_lead_mark_lost"@);
        lemma_tool_index(route_spec("crm_lead_mark_lost"@)->0);
        reveal_strlit("crm_lead_mark_lost");
    }
    assert(route_spec("crm_lead_convert_to_opportunity"@) == Some(Handler::LeadConvert)) by {
        lemma_route_spec("crm_lead_convert_to_opportunity"@);
        assert(a[29] == "crm_lead_convert_to_opportunity"@);
        lemma_tool_index(route_spec("crm_lead_convert_to_opportunity"@)->0);
        reveal_strlit("crm_lead_convert_to_opportunity");
    }
    assert(route_spec("crm_stage_list"@) == Some(Handler::StageList)) by {
        lemma_route_spec("crm_stage_list"@);
        assert(a[30] == "crm_stage_list"@);
        lemma_tool_index(route_spec("crm_stage_list"@)->0);
        reveal_strlit("crm_stage_list");
    }
    assert(route_spec("user_list"@) == Some(Handler::UserList)) by {
        lemma_route_spec("user_list"@);
        assert(a[31] == "user_list"@);
        lemma_tool_index(route_spec("user_list"@)->0);
        reveal_strlit("user_list");
    }
    assert(route_spec("activity_type_list"@) == Some(Handler::ActivityTypeList)) by {
        lemma_route_spec("activity_type_list"@);
        assert(a[32] == "activity_type_list"@);
        lemma_tool_index(route_spec("activity_type_list"@)->0);
        reveal_strlit("activity_type_list");
    }
    assert(route_spec("sale_order_list"@) == Some(Handler::SaleOrderList)) by {
        lemma_route_spec("sale_order_list"@);
        assert(a[33] == "sale_order_list"@);
        lemma_tool_index(route_spec("sale_order_list"@)->0);
        reveal_strlit("sale_order_list");
    }
    assert(route_spec("sale_order_get"@) == Some(Handler::SaleOrderGet)) by {
        lemma_route_spec("sale_order_get"@);
        assert(a[34] == "sale_order_get"@);
        lemma_tool_index(route_spec("sale_order_get"@)->0);
        reveal_strlit("sale_order_get");
    }
    assert(route_spec("sale_order_create"@) == Some(Handler::SaleOrderCreate)) by {
        lemma_route_spec("sale_order_create"@);
        assert(a[35] == "sale_order_create"@);
        lemma_tool_index(route_spec("sale_order_create"@)->0);
        reveal_strlit("sale_order_create");
    }
    assert(route_spec("invoice_list"@) == Some(Handler::InvoiceList)) by {
        lemma_route_spec("invoice_list"@);
        assert(a[36] == "invoice_list"@);
        lemma_tool_index(route_spec("invoice_list"@)->0);
        reveal_strlit("invoice_list");
    }
    assert(route_spec("invoice_get"@) == Some(Handler::InvoiceGet)) by {
        lemma_route_spec("invoice_get"@);
        assert(a[37] == "invoice_get"@);
        lemma_tool_index(route_spec("invoice_get"@)->0);
        reveal_strlit("invoice_get");
    }
}

/// Every tool the server lists is routed, to the handler of that very tool,
/// and a name the server does not list is routed nowhere.
pub proof fn law_every_listed_tool_is_routed(name: Seq<char>)
    ensures
        route_spec(name) is Some <==> str_views(ALL_TOOLS@).contains(name),
        route_spec(name) matches Some(h) ==> handler_name(h) == name,
{
    lemma_route_spec(name);
}

} // verus!
