//! The systemprompt server's tools: the CLI passthrough, and the three
//! approval tools — the queue of held calls, one decision, and the decided
//! history.

use vstd::prelude::*;

use crate::fmt::{decimal, owned, push_str, usize_string};
use crate::strings::{non_blank, non_blank_opt, opt_view};

verus! {

pub const SERVER_NAME: &'static str = "systemprompt";

pub const TOOL_SYSTEMPROMPT: &'static str = "systemprompt";

pub const TOOL_APPROVAL_LIST: &'static str = "approval_list";

pub const TOOL_APPROVAL_DECIDE: &'static str = "approval_decide";

pub const TOOL_APPROVAL_HISTORY: &'static str = "approval_history";

/// A CLI command, without the `systemprompt` prefix.
pub struct CliInput {
    pub command: String,
}

/// What a CLI run produced.
pub struct CliOutput {
    pub stdout: String,
    pub stderr: String,
    pub exit_code: i32,
    pub success: bool,
}

/// `approval_list` takes only a page size.
pub struct ApprovalListInput {
    pub limit: Option<i64>,
}

/// `approval_history` takes only a page size.
pub struct ApprovalHistoryInput {
    pub limit: Option<i64>,
}

/// One decision: the held call, approve or deny, and why.
pub struct ApprovalDecideInput {
    pub call_id: String,
    pub approve: bool,
    pub note: Option<String>,
}

/// Rows returned when no page size is given.
pub const DEFAULT_LIMIT: i64 = 25;

/// The most rows one call returns.
pub const MAX_LIMIT: i64 = 200;

pub open spec fn approval_limit_spec(limit: Option<i64>) -> i64 {
    let l = match limit {
        Some(l) => l,
        None => DEFAULT_LIMIT,
    };
    if l < 1 {
        1
    } else if l > MAX_LIMIT {
        MAX_LIMIT
    } else {
        l
    }
}

/// The page size: the requested one clamped to `1..=200`, 25 by default.
pub fn resolve_limit(limit: Option<i64>) -> (r: i64)
    ensures
        r == approval_limit_spec(limit),
        1 <= r <= MAX_LIMIT,
{
    let l = match limit {
        Some(l) => l,
        None => DEFAULT_LIMIT,
    };
    if l < 1 {
        1
    } else if l > MAX_LIMIT {
        MAX_LIMIT
    } else {
        l
    }
}

/// The internal error a failed `approval_requests` query is reported with.
pub fn db_error_message(detail: &str) -> (r: String)
    ensures
        r@ == "approval_requests query failed: "@ + detail@,
{
    crate::fmt::cat2("approval_requests query failed: ", detail)
}

pub fn pending_summary(n: usize) -> (r: String)
    ensures
        n == 0 ==> r@ == "No calls are held for approval."@,
        n > 0 ==> r@ == decimal(n as int) + " call(s) held for approval"@,
{
    if n == 0 {
        owned("No calls are held for approval.")
    } else {
        let mut r = usize_string(n);
        push_str(&mut r, " call(s) held for approval");
        r
    }
}

pub fn history_summary(n: usize) -> (r: String)
    ensures
        n == 0 ==> r@ == "No approval request has been decided yet."@,
        n > 0 ==> r@ == decimal(n as int) + " decided approval request(s)"@,
{
    if n == 0 {
        owned("No approval request has been decided yet.")
    } else {
        let mut r = usize_string(n);
        push_str(&mut r, " decided approval request(s)");
        r
    }
}

/// The verdict a decision records.
#[derive(Clone, Copy, PartialEq, Eq, Structural)]
pub enum ApprovalStatus {
    Approved,
    Denied,
}

/// What `approval_decide` asks the store to record: the status, the
/// approver's id and display name, and the note when it carries text. The
/// name falls back to the id when the context has no user record.
pub struct Decision {
    pub status: ApprovalStatus,
    pub approver_id: String,
    pub approver_username: String,
    pub note: Option<String>,
}

pub fn decision(input: &ApprovalDecideInput, user_id: &str, username: &Option<String>) -> (d: Decision)
    ensures
        d.status == (if input.approve {
            ApprovalStatus::Approved
        } else {
            ApprovalStatus::Denied
        }),
        d.approver_id@ == user_id@,
        d.approver_username@ == match opt_view(*username) {
            Some(u) => u,
            None => user_id@,
        },
        opt_view(d.note) == non_blank(opt_view(input.note)),
{
    let approver_username = match username {
        Some(u) => owned(u.as_str()),
        None => owned(user_id),
    };
    Decision {
        status: if input.approve {
            ApprovalStatus::Approved
        } else {
            ApprovalStatus::Denied
        },
        approver_id: owned(user_id),
        approver_username,
        note: non_blank_opt(&input.note),
    }
}

/// The summary of a decision: the call's new status, or — when the store
/// resolved nothing — that the call is no longer pending, which is an
/// answer rather than an error.
pub fn decided_summary(call_id: &str, status: &Option<String>) -> (r: String)
    ensures
        r@ == match opt_view(*status) {
            Some(s) => call_id@ + " is now "@ + s + "."@,
            None => call_id@
                + " could not be decided — it is no longer pending (already decided, expired, or unknown)."@,
        },
{
    let mut r = owned(call_id);
    match status {
        Some(s) => {
            push_str(&mut r, " is now ");
            push_str(&mut r, s.as_str());
            push_str(&mut r, ".");
        },
        None => {
            push_str(
                &mut r,
                " could not be decided — it is no longer pending (already decided, expired, or unknown).",
            );
        },
    }
    r
}

/// One of this server's tools as listed; the schemas come from the input
/// types.
pub struct ServerTool {
    pub name: &'static str,
    pub title: &'static str,
    pub description: String,
}

pub open spec fn cli_description(website_url: Seq<char>) -> Seq<char> {
    "Execute SystemPrompt CLI commands. Pass the command WITHOUT the 'systemprompt' prefix.\n\nCommon commands:\n  - core skills list: List installed skills\n  - core skills show <id>: Show a skill's config and instruction body\n  - core content list: List markdown content\n  - plugins run discord send \"message\": Send Discord notification\n  - plugins run discord send \"message\" --channel <id>: Send to specific channel\n  - admin agents list: List agents\n\nExample: {\"command\": \"core skills list\"}\n\nFull documentation: "@
        + website_url + "/docs"@
}

pub const APPROVAL_LIST_DESCRIPTION: &'static str = "List the tool calls the governance chain is holding for a human decision. Answers with typed rows under `items`, each carrying the held call's arguments verbatim so the approver authorises exactly what will run.";

pub const APPROVAL_DECIDE_DESCRIPTION: &'static str = "Approve or deny one held tool call by its `call_id`. The caller is stamped onto the audited row as the approver. A call that is no longer pending is reported as such rather than failing.";

pub const APPROVAL_HISTORY_DESCRIPTION: &'static str = "List recently decided approval requests — approved, denied and expired — with the approver and the time of the decision.";

/// The four tools, the CLI first; its description points at the
/// documentation under `website_url`.
pub fn list_tools(website_url: &str) -> (r: Vec<ServerTool>)
    ensures
        r@.len() == 4,
        r@[0].name@ == TOOL_SYSTEMPROMPT@ && r@[0].title@ == "SystemPrompt CLI"@
            && r@[0].description@ == cli_description(website_url@),
        r@[1].name@ == TOOL_APPROVAL_LIST@ && r@[1].title@ == "Held Calls"@
            && r@[1].description@ == APPROVAL_LIST_DESCRIPTION@,
        r@[2].name@ == TOOL_APPROVAL_DECIDE@ && r@[2].title@ == "Decide Held Call"@
            && r@[2].description@ == APPROVAL_DECIDE_DESCRIPTION@,
        r@[3].name@ == TOOL_APPROVAL_HISTORY@ && r@[3].title@ == "Decided Approvals"@
            && r@[3].description@ == APPROVAL_HISTORY_DESCRIPTION@,
{
    let mut desc = owned(
        "Execute SystemPrompt CLI commands. Pass the command WITHOUT the 'systemprompt' prefix.\n\nCommon commands:\n  - core skills list: List installed skills\n  - core skills show <id>: Show a skill's config and instruction body\n  - core content list: List markdown content\n  - plugins run discord send \"message\": Send Discord notification\n  - plugins run discord send \"message\" --channel <id>: Send to specific channel\n  - admin agents list: List agents\n\nExample: {\"command\": \"core skills list\"}\n\nFull documentation: ",
    );
    push_str(&mut desc, website_url);
    push_str(&mut desc, "/docs");
    let mut r: Vec<ServerTool> = Vec::new();
    r.push(ServerTool { name: TOOL_SYSTEMPROMPT, title: "SystemPrompt CLI", description: desc });
    r.push(
        ServerTool {
            name: TOOL_APPROVAL_LIST,
            title: "Held Calls",
            description: owned(APPROVAL_LIST_DESCRIPTION),
        },
    );
    r.push(
        ServerTool {
            name: TOOL_APPROVAL_DECIDE,
            title: "Decide Held Call",
            description: owned(APPROVAL_DECIDE_DESCRIPTION),
        },
    );
    r.push(
        ServerTool {
            name: TOOL_APPROVAL_HISTORY,
            title: "Decided Approvals",
            description: owned(APPROVAL_HISTORY_DESCRIPTION),
        },
    );
    r
}

/// A stored approval request, its times already rendered as RFC 3339.
pub struct ApprovalRequestView {
    pub call_id: String,
    pub tool_name: String,
    pub server_name: String,
    pub requested_by: String,
    pub rule: String,
    pub arguments: serde_json::Value,
    pub args_digest: String,
    pub session_id: Option<String>,
    pub trace_id: Option<String>,
    pub status: String,
    pub approver_id: Option<String>,
    pub approver_username: Option<String>,
    pub decided_at: Option<String>,
    pub decision_note: Option<String>,
    pub created_at: String,
    pub expires_at: String,
}

/// One held call as the approver sees it: the arguments verbatim, so what
/// is authorised is what will run.
pub struct PendingRow {
    pub call_id: String,
    pub tool_name: String,
    pub server_name: String,
    pub requested_by: String,
    pub rule: String,
    pub arguments: serde_json::Value,
    pub args_digest: String,
    pub session: Option<String>,
    pub trace_id: Option<String>,
    pub created_at: String,
    pub expires_at: String,
}

/// One decided call, with who decided it and when; an expired one has no
/// approver.
pub struct DecidedRow {
    pub call_id: String,
    pub tool_name: String,
    pub server_name: String,
    pub requested_by: String,
    pub rule: String,
    pub arguments: serde_json::Value,
    pub args_digest: String,
    pub status: String,
    pub approver_id: Option<String>,
    pub approver_username: Option<String>,
    pub decided_at: Option<String>,
    pub decision_note: Option<String>,
    pub created_at: String,
}

pub fn pending_row(req: ApprovalRequestView) -> (r: PendingRow)
    ensures
        r.call_id == req.call_id && r.tool_name == req.tool_name && r.server_name == req.server_name
            && r.requested_by == req.requested_by && r.rule == req.rule && r.arguments == req.arguments
            && r.args_digest == req.args_digest && r.session == req.session_id && r.trace_id
            == req.trace_id && r.created_at == req.created_at && r.expires_at == req.expires_at,
{
    PendingRow {
        call_id: req.call_id,
        tool_name: req.tool_name,
        server_name: req.server_name,
        requested_by: req.requested_by,
        rule: req.rule,
        arguments: req.arguments,
        args_digest: req.args_digest,
        session: req.session_id,
        trace_id: req.trace_id,
        created_at: req.created_at,
        expires_at: req.expires_at,
    }
}

pub fn decided_row(req: ApprovalRequestView) -> (r: DecidedRow)
    ensures
        r.call_id == req.call_id && r.tool_name == req.tool_name && r.server_name == req.server_name
            && r.requested_by == req.requested_by && r.rule == req.rule && r.arguments == req.arguments
            && r.args_digest == req.args_digest && r.status == req.status && r.approver_id
            == req.approver_id && r.approver_username == req.approver_username && r.decided_at
            == req.decided_at && r.decision_note == req.decision_note && r.created_at == req.created_at,
{
    DecidedRow {
        call_id: req.call_id,
        tool_name: req.tool_name,
        server_name: req.server_name,
        requested_by: req.requested_by,
        rule: req.rule,
        arguments: req.arguments,
        args_digest: req.args_digest,
        status: req.status,
        approver_id: req.approver_id,
        approver_username: req.approver_username,
        decided_at: req.decided_at,
        decision_note: req.decision_note,
        created_at: req.created_at,
    }
}


/// `approval_list`: the queue of held calls. The store connection is the
/// caller's.
pub struct ApprovalListHandler {}

/// `approval_decide`: one decision, stamping the caller as approver.
pub struct ApprovalDecideHandler {}

/// `approval_history`: recently decided requests.
pub struct ApprovalHistoryHandler {}

impl ApprovalListHandler {
    pub fn tool_name(&self) -> (r: &'static str)
        ensures
            r@ == TOOL_APPROVAL_LIST@,
    {
        TOOL_APPROVAL_LIST
    }

    pub fn description(&self) -> (r: &'static str)
        ensures
            r@ == "List the tool calls currently held for a human decision."@,
    {
        "List the tool calls currently held for a human decision."
    }
}

impl ApprovalDecideHandler {
    pub fn tool_name(&self) -> (r: &'static str)
        ensures
            r@ == TOOL_APPROVAL_DECIDE@,
    {
        TOOL_APPROVAL_DECIDE
    }

    pub fn description(&self) -> (r: &'static str)
        ensures
            r@ == "Approve or deny one held tool call, stamping the caller as approver."@,
    {
        "Approve or deny one held tool call, stamping the caller as approver."
    }
}

impl ApprovalHistoryHandler {
    pub fn tool_name(&self) -> (r: &'static str)
        ensures
            r@ == TOOL_APPROVAL_HISTORY@,
    {
        TOOL_APPROVAL_HISTORY
    }

    pub fn description(&self) -> (r: &'static str)
        ensures
            r@ == "List recently decided approval requests, with who decided each one."@,
    {
        "List recently decided approval requests, with who decided each one."
    }
}

} // verus!
