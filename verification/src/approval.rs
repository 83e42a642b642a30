//! The human-approval step's decisions.
//!
//! The approval step itself talks to the governance engine and the approval store;
//! what it decides is here: the call id a retried call is recognised by, what
//! the caller is told at each landing (proceed, still waiting, refused), and
//! which audit milestones a hold leaves behind.

use vstd::prelude::*;
use vstd::utf8::encode_utf8;

use sha2::Digest;

use crate::fmt::{owned, push_str};
use crate::strings::{opt_view, string_from_chars};

verus! {

// ---------------------------------------------------------------------------
// Call ids
// ---------------------------------------------------------------------------

/// What SHA-256 gives for `data`.
pub uninterp spec fn sha256_of(data: Seq<u8>) -> Seq<u8>;

/// `sha2::Sha256::digest`: the SHA-256 digest of `data`, 32 bytes long.
#[verifier::external_body]
fn sha256_digest(data: &[u8]) -> (r: Vec<u8>)
    ensures
        r@ == sha256_of(data@),
        r@.len() == 32,
{
    sha2::Sha256::digest(data).as_slice().to_vec()
}

/// The lower-case hexadecimal digit for `d` (`0 <= d < 16`).
pub open spec fn hex_digit(d: int) -> char {
    if d < 10 {
        (('0' as u32) + d) as char
    } else {
        (('a' as u32) + d - 10) as char
    }
}

/// `format!("{:x}", digest)`: two lower-case hex digits per byte.
pub open spec fn hex_lower(bytes: Seq<u8>) -> Seq<char>
    decreases bytes.len(),
{
    if bytes.len() == 0 {
        Seq::empty()
    } else {
        seq![hex_digit((bytes[0] / 16) as int), hex_digit((bytes[0] % 16) as int)] + hex_lower(
            bytes.drop_first(),
        )
    }
}

/// The bytes a call id is derived from: the caller, the server, the tool and
/// the arguments' digest, separated by the unit separator `0x1f`.
pub open spec fn call_id_preimage(
    user_id: Seq<char>,
    server_name: Seq<char>,
    tool_name: Seq<char>,
    args_digest: Seq<char>,
) -> Seq<u8> {
    encode_utf8(user_id) + seq![0x1fu8] + encode_utf8(server_name) + seq![0x1fu8] + encode_utf8(
        tool_name,
    ) + seq![0x1fu8] + encode_utf8(args_digest)
}

pub open spec fn call_id_spec(
    user_id: Seq<char>,
    server_name: Seq<char>,
    tool_name: Seq<char>,
    args_digest: Seq<char>,
) -> Seq<char> {
    hex_lower(sha256_of(call_id_preimage(user_id, server_name, tool_name, args_digest)))
}

fn hex_char(d: u8) -> (c: char)
    requires
        d < 16,
    ensures
        c == hex_digit(d as int),
{
    if d < 10 {
        (d + 48) as char
    } else {
        (d + 87) as char
    }
}

/// Lower-case hex of `bytes`.
pub fn hex_string(bytes: &[u8]) -> (r: String)
    ensures
        r@ == hex_lower(bytes@),
{
    let mut out: Vec<char> = Vec::new();
    let mut i: usize = 0;
    assert(bytes@.skip(0) =~= bytes@);
    while i < bytes.len()
        invariant
            i <= bytes.len(),
            hex_lower(bytes@) == out@ + hex_lower(bytes@.skip(i as int)),
        decreases bytes.len() - i,
    {
        let b = bytes[i];
        let hi = hex_char(b / 16);
        let lo = hex_char(b % 16);
        proof {
            let t = bytes@.skip(i as int);
            assert(t[0] == b);
            assert(t.drop_first() =~= bytes@.skip(i + 1));
            assert(out@ + (seq![hi, lo] + hex_lower(bytes@.skip(i + 1))) =~= out@.push(hi).push(
                lo,
            ) + hex_lower(bytes@.skip(i + 1)));
        }
        out.push(hi);
        out.push(lo);
        i += 1;
    }
    assert(out@ + hex_lower(bytes@.skip(bytes@.len() as int)) =~= out@);
    string_from_chars(out.as_slice())
}

fn append_bytes(v: &mut Vec<u8>, s: &str)
    ensures
        final(v)@ == old(v)@ + encode_utf8(s@),
{
    let b = s.as_bytes();
    let ghost start = v@;
    let mut i: usize = 0;
    while i < b.len()
        invariant
            i <= b.len(),
            b@ == encode_utf8(s@),
            v@ == start + b@.take(i as int),
        decreases b.len() - i,
    {
        v.push(b[i]);
        i += 1;
        assert(v@ =~= start + b@.take(i as int));
    }
    assert(b@.take(b@.len() as int) =~= b@);
}

/// A stable identity for one logical call across retried rounds: derived
/// from who is calling, the server, the tool and a digest of the arguments —
/// never from anything a retry changes.
pub fn derive_call_id(user_id: &str, server_name: &str, tool_name: &str, args_digest: &str) -> (r:
    String)
    ensures
        r@ == call_id_spec(user_id@, server_name@, tool_name@, args_digest@),
        r@.len() == 64,
{
    let mut bytes: Vec<u8> = Vec::new();
    append_bytes(&mut bytes, user_id);
    bytes.push(0x1f);
    append_bytes(&mut bytes, server_name);
    bytes.push(0x1f);
    append_bytes(&mut bytes, tool_name);
    bytes.push(0x1f);
    append_bytes(&mut bytes, args_digest);
    assert(bytes@ =~= call_id_preimage(user_id@, server_name@, tool_name@, args_digest@));
    let digest = sha256_digest(bytes.as_slice());
    let r = hex_string(digest.as_slice());
    proof {
        lemma_hex_len(digest@);
    }
    r
}

pub proof fn lemma_hex_len(bytes: Seq<u8>)
    ensures
        hex_lower(bytes).len() == 2 * bytes.len(),
    decreases bytes.len(),
{
    if bytes.len() > 0 {
        lemma_hex_len(bytes.drop_first());
    }
}

// ---------------------------------------------------------------------------
// Landing a hold
// ---------------------------------------------------------------------------

/// The decided row the approval store hands back. The approver columns are
/// nullable because a pending row must not carry them.
pub struct DecidedRequest {
    pub approver_id: Option<String>,
    pub approver_username: Option<String>,
    pub decided_at: Option<String>,
    pub decision_note: Option<String>,
}

/// What waiting out one round of a hold produced.
pub enum WaitResult {
    Approved(DecidedRequest),
    Denied(DecidedRequest),
    Expired,
    StillPending,
}

/// How far the approval step got with a call.
pub enum HoldStage {
    /// The approval rule does not hold this call.
    NotHeld,
    /// The call is held but there is no database to record the hold in.
    StoreUnavailable,
    /// The call is held but the approval request could not be recorded.
    OpenFailed,
    /// The hold was recorded and one round was waited out.
    Opened(WaitResult),
}

/// What the approval step decided the caller should do next.
pub enum GateOutcome {
    Proceed,
    /// Still waiting for a human; the call id is echoed as `requestState`.
    Held { request_state: String },
    /// Refused, with the message shown to the caller as an error result.
    Refused { message: String },
}

/// Who decided a held call, and when (RFC 3339).
pub struct ApproverStamp {
    pub user_id: String,
    pub username: String,
    pub decided_at: String,
    pub action: String,
}

pub open spec fn unwrap_or_empty(s: Option<Seq<char>>) -> Seq<char> {
    match s {
        Some(t) => t,
        None => Seq::empty(),
    }
}

pub open spec fn approver_name(req: DecidedRequest) -> Seq<char> {
    match req.approver_username {
        Some(n) => n@,
        None => "an approver"@,
    }
}

fn opt_clone(o: &Option<String>) -> (r: Option<String>)
    ensures
        opt_view(r) == opt_view(*o),
{
    match o {
        Some(s) => Some(owned(s.as_str())),
        None => None,
    }
}

/// chrono's `Utc::now`, written with `to_rfc3339`. It depends on the clock,
/// so nothing is promised of it.
#[verifier::external_body]
fn utc_now_rfc3339() -> (r: String) {
    chrono::Utc::now().to_rfc3339()
}

/// The stamp recorded for a decided request. A resolved row always has an
/// approver and a decision time; the fallbacks (no id, `an approver`, the
/// time of writing) exist so a decision is never dropped for want of them.
pub fn approver_stamp(req: &DecidedRequest, action: &str) -> (s: ApproverStamp)
    ensures
        s.user_id@ == unwrap_or_empty(opt_view(req.approver_id)),
        s.username@ == approver_name(*req),
        req.decided_at matches Some(d) ==> s.decided_at@ == d@,
        s.action@ == action@,
{
    ApproverStamp {
        user_id: match &req.approver_id {
            Some(id) => owned(id.as_str()),
            None => String::new(),
        },
        username: match &req.approver_username {
            Some(n) => owned(n.as_str()),
            None => owned("an approver"),
        },
        decided_at: match &req.decided_at {
            Some(d) => owned(d.as_str()),
            None => utc_now_rfc3339(),
        },
        action: owned(action),
    }
}

/// What [`approver_stamp`] records of `req` for `action`: the approver's id
/// (empty when none) and name, the decision time when the row has one, and
/// the action.
pub open spec fn stamp_of(a: ApproverStamp, req: DecidedRequest, action: Seq<char>) -> bool {
    &&& a.user_id@ == unwrap_or_empty(opt_view(req.approver_id))
    &&& a.username@ == approver_name(req)
    &&& (req.decided_at matches Some(d) ==> a.decided_at@ == d@)
    &&& a.action@ == action
}

/// The message a refused call reports.
pub open spec fn denial_message(tool: Seq<char>, req: DecidedRequest) -> Seq<char> {
    tool + " was refused by "@ + approver_name(req) + "."@ + match req.decision_note {
        Some(n) => " Reason: "@ + n@,
        None => Seq::empty(),
    }
}

/// The message and outcome the approval step reports for a call that reached `stage`.
pub open spec fn outcome_matches(
    o: GateOutcome,
    tool: Seq<char>,
    call_id: Seq<char>,
    stage: HoldStage,
) -> bool {
    match stage {
        HoldStage::NotHeld => o is Proceed,
        HoldStage::StoreUnavailable => o matches GateOutcome::Refused { message } && message@
            == "This tool requires human approval, but the approval store is unavailable."@,
        HoldStage::OpenFailed => o matches GateOutcome::Refused { message } && message@
            == "This tool requires human approval, but the request could not be recorded."@,
        HoldStage::Opened(w) => match w {
            WaitResult::Approved(_) => o is Proceed,
            WaitResult::Denied(req) => o matches GateOutcome::Refused { message } && message@
                == denial_message(tool, req),
            WaitResult::Expired => o matches GateOutcome::Refused { message } && message@ == tool
                + " required human approval and none was given in time."@,
            WaitResult::StillPending => o matches GateOutcome::Held { request_state }
                && request_state@ == call_id,
        },
    }
}

/// What the approval step tells the caller once a call has reached `stage`: run it,
/// keep waiting (echoing the call id), or refuse it and say why. Without a
/// recorded hold there is no way for a human to answer, so every failure to
/// record one refuses the call.
pub fn gate_outcome(tool_name: &str, call_id: &str, stage: &HoldStage) -> (o: GateOutcome)
    ensures
        outcome_matches(o, tool_name@, call_id@, *stage),
{
    match stage {
        HoldStage::NotHeld => GateOutcome::Proceed,
        HoldStage::StoreUnavailable => GateOutcome::Refused {
            message: owned(
                "This tool requires human approval, but the approval store is unavailable.",
            ),
        },
        HoldStage::OpenFailed => GateOutcome::Refused {
            message: owned(
                "This tool requires human approval, but the request could not be recorded.",
            ),
        },
        HoldStage::Opened(w) => match w {
            WaitResult::Approved(_) => GateOutcome::Proceed,
            WaitResult::Denied(req) => {
                let stamp = approver_stamp(req, "denied");
                let mut m = owned(tool_name);
                push_str(&mut m, " was refused by ");
                push_str(&mut m, stamp.username.as_str());
                push_str(&mut m, ".");
                let ghost head = m@;
                match &req.decision_note {
                    Some(n) => {
                        push_str(&mut m, " Reason: ");
                        push_str(&mut m, n.as_str());
                        assert(m@ =~= head + (" Reason: "@ + n@));
                    },
                    None => {
                        assert(m@ =~= head + Seq::<char>::empty());
                    },
                }
                assert(m@ == denial_message(tool_name@, *req));
                GateOutcome::Refused { message: m }
            },
            WaitResult::Expired => {
                let mut m = owned(tool_name);
                push_str(&mut m, " required human approval and none was given in time.");
                GateOutcome::Refused { message: m }
            },
            WaitResult::StillPending => GateOutcome::Held { request_state: owned(call_id) },
        },
    }
}

// ---------------------------------------------------------------------------
// Audit milestones
// ---------------------------------------------------------------------------

/// The policy every approval milestone is recorded under.
pub const POLICY_ID: &'static str = "require_approval";

/// The decision an approval milestone records.
pub enum Verdict {
    /// Flagged and waiting, under `rule`.
    Pending { rule: String },
    /// Allowed by a human.
    Allow,
    /// Refused; `detail` names who refused it.
    Deny { detail: String },
}

/// How the approval rule's chain entry ended.
pub enum ChainResult {
    Hold,
    Pass,
    Fail,
}

/// One row of the approval audit trail.
pub struct Milestone {
    pub verdict: Verdict,
    pub result: ChainResult,
    pub detail: String,
    pub approver: Option<ApproverStamp>,
}

/// The milestone written when a call is held.
pub fn hold_milestone(rule: &str) -> (m: Milestone)
    ensures
        m.verdict matches Verdict::Pending { rule: r } && r@ == rule@,
        m.result is Hold,
        m.detail@ == "Held for human approval by rule "@ + rule@,
        m.approver is None,
{
    let mut detail = owned("Held for human approval by rule ");
    push_str(&mut detail, rule);
    Milestone {
        verdict: Verdict::Pending { rule: owned(rule) },
        result: ChainResult::Hold,
        detail,
        approver: None,
    }
}

/// The milestone written when a human answers: an approval passes the chain
/// and names the approver, a refusal fails it and names who refused.
pub fn verdict_milestone(stamp: ApproverStamp, approved: bool) -> (m: Milestone)
    ensures
        approved ==> m.verdict is Allow && m.result is Pass && m.detail@ == "Approved by "@
            + stamp.username@,
        !approved ==> (m.verdict matches Verdict::Deny { detail } && detail@ == "Refused by "@
            + stamp.username@),
        !approved ==> m.result is Fail && m.detail@ == "Refused by "@ + stamp.username@,
        m.approver == Some(stamp),
{
    if approved {
        let mut detail = owned("Approved by ");
        push_str(&mut detail, stamp.username.as_str());
        Milestone { verdict: Verdict::Allow, result: ChainResult::Pass, detail, approver: Some(stamp) }
    } else {
        let mut detail = owned("Refused by ");
        push_str(&mut detail, stamp.username.as_str());
        let mut d2 = owned("Refused by ");
        push_str(&mut d2, stamp.username.as_str());
        Milestone {
            verdict: Verdict::Deny { detail: d2 },
            result: ChainResult::Fail,
            detail,
            approver: Some(stamp),
        }
    }
}

/// The audit milestones a call that reached `stage` leaves: none unless the
/// hold was recorded; then the hold itself, and — once a human has answered —
/// the approval or the refusal carrying the approver.
pub fn gate_milestones(rule: &str, stage: &HoldStage) -> (ms: Vec<Milestone>)
    ensures
        match *stage {
            HoldStage::Opened(w) => {
                &&& ms@.len() == match w {
                    WaitResult::Approved(_) => 2int,
                    WaitResult::Denied(_) => 2int,
                    _ => 1int,
                }
                &&& ms@[0].verdict matches Verdict::Pending { rule: r } && r@ == rule@
                &&& ms@[0].result is Hold
                &&& ms@[0].detail@ == "Held for human approval by rule "@ + rule@
                &&& ms@[0].approver is None
                &&& (w matches WaitResult::Approved(req) ==> {
                    &&& ms@[1].verdict is Allow
                    &&& ms@[1].result is Pass
                    &&& ms@[1].detail@ == "Approved by "@ + approver_name(req)
                    &&& ms@[1].approver matches Some(a) && stamp_of(a, req, "approved"@)
                })
                &&& (w matches WaitResult::Denied(req) ==> {
                    &&& ms@[1].verdict matches Verdict::Deny { detail } && detail@ == "Refused by "@
                        + approver_name(req)
                    &&& ms@[1].result is Fail
                    &&& ms@[1].detail@ == "Refused by "@ + approver_name(req)
                    &&& ms@[1].approver matches Some(a) && stamp_of(a, req, "denied"@)
                })
            },
            _ => ms@.len() == 0,
        },
{
    let mut ms: Vec<Milestone> = Vec::new();
    match stage {
        HoldStage::Opened(w) => {
            ms.push(hold_milestone(rule));
            match w {
                WaitResult::Approved(req) => {
                    ms.push(verdict_milestone(approver_stamp(req, "approved"), true));
                },
                WaitResult::Denied(req) => {
                    ms.push(verdict_milestone(approver_stamp(req, "denied"), false));
                },
                _ => {},
            }
        },
        _ => {},
    }
    ms
}

// ---------------------------------------------------------------------------
// Who and what a decision is recorded for
// ---------------------------------------------------------------------------

/// The platform user a request runs as, as the request context carries it.
pub struct UserView {
    pub username: String,
    pub roles: Vec<String>,
}

/// The parts of a request context a decision record reads.
pub struct RequestContextView {
    pub user_id: String,
    pub session_id: String,
    pub user: Option<UserView>,
    pub client_id: Option<String>,
    pub trace_id: String,
    pub act_chain: Vec<String>,
}

/// Who the decision is recorded for. A hold opened by a scheduled job has a
/// user but no live request, so the principal is a value rather than a
/// request context.
pub struct DecisionPrincipal {
    pub user_id: String,
    pub session_id: String,
    pub roles: Vec<String>,
    pub client_id: Option<String>,
    pub trace_id: Option<String>,
    pub act_chain: Vec<String>,
}

/// Which call the decision is about.
pub struct DecisionSubject {
    pub call_id: String,
    pub server_name: String,
    pub tool_name: String,
}

fn clone_strings(v: &Vec<String>) -> (r: Vec<String>)
    ensures
        r@.len() == v@.len(),
        forall|i: int| 0 <= i < v@.len() ==> #[trigger] r@[i]@ == v@[i]@,
{
    let mut r: Vec<String> = Vec::new();
    let mut i: usize = 0;
    while i < v.len()
        invariant
            i <= v.len(),
            r@.len() == i,
            forall|k: int| 0 <= k < i ==> #[trigger] r@[k]@ == v@[k]@,
        decreases v.len() - i,
    {
        r.push(owned(v[i].as_str()));
        i += 1;
    }
    r
}

pub open spec fn same_strings(a: Seq<String>, b: Seq<String>) -> bool {
    a.len() == b.len() && forall|i: int| 0 <= i < a.len() ==> #[trigger] a[i]@ == b[i]@
}

impl DecisionPrincipal {
    /// The principal of a live request: its user, session, client and trace,
    /// and the user's roles (none when the context has no user record).
    pub fn from_request_context(ctx: &RequestContextView) -> (p: DecisionPrincipal)
        ensures
            p.user_id@ == ctx.user_id@,
            p.session_id@ == ctx.session_id@,
            match ctx.user {
                Some(u) => same_strings(p.roles@, u.roles@),
                None => p.roles@.len() == 0,
            },
            opt_view(p.client_id) == opt_view(ctx.client_id),
            p.trace_id matches Some(t) && t@ == ctx.trace_id@,
            same_strings(p.act_chain@, ctx.act_chain@),
    {
        DecisionPrincipal {
            user_id: owned(ctx.user_id.as_str()),
            session_id: owned(ctx.session_id.as_str()),
            roles: match &ctx.user {
                Some(u) => clone_strings(&u.roles),
                None => Vec::new(),
            },
            client_id: opt_clone(&ctx.client_id),
            trace_id: Some(owned(ctx.trace_id.as_str())),
            act_chain: clone_strings(&ctx.act_chain),
        }
    }
}

/// One approval decision as the audit trail stores it: the call, the
/// principal, and the milestone under [`POLICY_ID`].
pub struct DecisionRecord {
    pub id: String,
    pub call_id: String,
    pub tool_name: String,
    pub policy_id: String,
    pub principal: DecisionPrincipal,
    pub milestone: Milestone,
}

/// The record written for `milestone` about `subject` on behalf of
/// `principal`.
pub fn decision_record(
    subject: &DecisionSubject,
    principal: DecisionPrincipal,
    milestone: Milestone,
) -> (r: DecisionRecord)
    ensures
        r.id@.len() == 36,
        r.call_id@ == subject.call_id@,
        r.tool_name@ == subject.tool_name@,
        r.policy_id@ == POLICY_ID@,
        r.principal == principal,
        r.milestone == milestone,
{
    DecisionRecord {
        id: new_record_id(),
        call_id: owned(subject.call_id.as_str()),
        tool_name: owned(subject.tool_name.as_str()),
        policy_id: owned(POLICY_ID),
        principal,
        milestone,
    }
}

/// `uuid::Uuid::new_v4`, written out: a fresh random id for an audit row,
/// in the hyphenated form of 36 characters.
#[verifier::external_body]
fn new_record_id() -> (r: String)
    ensures
        r@.len() == 36,
{
    uuid::Uuid::new_v4().to_string()
}

/// The audit row for a milestone of a live call, recorded for the request's
/// own principal.
pub fn audit_record(subject: &DecisionSubject, ctx: &RequestContextView, milestone: Milestone) -> (r:
    DecisionRecord)
    ensures
        r.call_id@ == subject.call_id@,
        r.tool_name@ == subject.tool_name@,
        r.policy_id@ == POLICY_ID@,
        r.principal.user_id@ == ctx.user_id@,
        r.principal.session_id@ == ctx.session_id@,
        match ctx.user {
            Some(u) => same_strings(r.principal.roles@, u.roles@),
            None => r.principal.roles@.len() == 0,
        },
        opt_view(r.principal.client_id) == opt_view(ctx.client_id),
        r.principal.trace_id matches Some(t) && t@ == ctx.trace_id@,
        same_strings(r.principal.act_chain@, ctx.act_chain@),
        r.milestone == milestone,
{
    decision_record(subject, DecisionPrincipal::from_request_context(ctx), milestone)
}

/// The hold row for a call flagged under `rule`.
pub fn record_hold(subject: &DecisionSubject, principal: DecisionPrincipal, rule: &str) -> (r:
    DecisionRecord)
    ensures
        r.call_id@ == subject.call_id@,
        r.tool_name@ == subject.tool_name@,
        r.policy_id@ == POLICY_ID@,
        r.principal == principal,
        r.milestone.verdict matches Verdict::Pending { rule: x } && x@ == rule@,
        r.milestone.result is Hold,
        r.milestone.detail@ == "Held for human approval by rule "@ + rule@,
        r.milestone.approver is None,
{
    decision_record(subject, principal, hold_milestone(rule))
}

/// The verdict row for a call a human approved or refused.
pub fn record_verdict(
    subject: &DecisionSubject,
    principal: DecisionPrincipal,
    stamp: ApproverStamp,
    approved: bool,
) -> (r: DecisionRecord)
    ensures
        r.call_id@ == subject.call_id@,
        r.tool_name@ == subject.tool_name@,
        r.policy_id@ == POLICY_ID@,
        r.principal == principal,
        approved ==> r.milestone.verdict is Allow && r.milestone.result is Pass
            && r.milestone.detail@ == "Approved by "@ + stamp.username@,
        !approved ==> (r.milestone.verdict matches Verdict::Deny { detail } && detail@ == "Refused by "@
            + stamp.username@),
        !approved ==> r.milestone.result is Fail && r.milestone.detail@ == "Refused by "@
            + stamp.username@,
        r.milestone.approver == Some(stamp),
{
    decision_record(subject, principal, verdict_milestone(stamp, approved))
}


// ---------------------------------------------------------------------------
// Opening a hold
// ---------------------------------------------------------------------------

/// A call the approval rule holds: its derived id, the rule that held it,
/// the arguments as sent, how long the request lives, and where it was
/// going. Carried from the flagging to the verdict so neither the id nor the
/// arguments is recomputed.
pub struct Held {
    pub call_id: String,
    pub rule: String,
    pub arguments: serde_json::Value,
    pub expiry_seconds: i64,
    pub server_name: String,
    pub tool_name: String,
}

/// The approval request a hold opens: insert-if-absent, so a retried call
/// rejoins the request it opened instead of resetting its deadline.
pub struct NewApprovalRequest {
    pub call_id: String,
    pub tool_name: String,
    pub server_name: String,
    pub arguments: serde_json::Value,
    pub requested_by: String,
    pub session_id: Option<String>,
    pub trace_id: Option<String>,
    pub rule: String,
    pub expires_in_seconds: i64,
}

/// The request opened for `held` on behalf of the calling user, with the
/// session and trace it came in on.
pub fn hold_request(held: Held, ctx: &RequestContextView) -> (r: NewApprovalRequest)
    ensures
        r.call_id == held.call_id,
        r.tool_name == held.tool_name,
        r.server_name == held.server_name,
        r.arguments == held.arguments,
        r.requested_by@ == ctx.user_id@,
        r.session_id matches Some(s) && s@ == ctx.session_id@,
        r.trace_id matches Some(t) && t@ == ctx.trace_id@,
        r.rule == held.rule,
        r.expires_in_seconds == held.expiry_seconds,
{
    NewApprovalRequest {
        call_id: held.call_id,
        tool_name: held.tool_name,
        server_name: held.server_name,
        arguments: held.arguments,
        requested_by: owned(ctx.user_id.as_str()),
        session_id: Some(owned(ctx.session_id.as_str())),
        trace_id: Some(owned(ctx.trace_id.as_str())),
        rule: held.rule,
        expires_in_seconds: held.expiry_seconds,
    }
}

} // verus!
