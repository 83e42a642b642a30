//! Calendar events: listing a date window, and creating one.
//!
//! Odoo stores datetimes in UTC as `YYYY-MM-DD HH:MM:SS`, with no zone
//! marker; callers write ISO 8601 with a `T`, often a `Z`, sometimes
//! fractional seconds, so those shapes are rewritten rather than refused. An
//! event with no end gets one: from the duration, else one hour.

use vstd::prelude::*;

use crate::fmt::{decimal, decimal_string, owned, owned_all, push_str, str_views, usize_string, views};
use crate::inputs::CalendarEventCreateInput;
use crate::outcome::{ToolError, ToolErrorV};
use crate::payload::{int_e, opt_text_e, text_e, FieldValue, FieldValueV, Payload};
use crate::strings::{chars_of, non_blank, non_blank_opt, opt_view, string_from_chars, trim_seq, trimmed};
use crate::text::{html_text, html_to_text};

verus! {

/// Minutes an event runs for when the caller gives neither a stop nor a
/// duration.
pub const DEFAULT_DURATION_MINUTES: i64 = 60;

/// Characters of an event's description shown under its row.
pub const DESCRIPTION_CHARS: usize = 160;

pub open spec fn event_fields_spec() -> Seq<Seq<char>> {
    seq!["id"@, "name"@, "start"@, "stop"@, "location"@, "partner_ids"@, "description"@]
}

pub fn event_fields() -> (r: Vec<String>)
    ensures
        views(r@) == event_fields_spec(),
{
    let a: [&str; 7] = ["id", "name", "start", "stop", "location", "partner_ids", "description"];
    let r = owned_all(&a);
    assert(str_views(a@) =~= event_fields_spec());
    r
}

/// `s` without its trailing `Z`s.
pub open spec fn trim_end_z(s: Seq<char>) -> Seq<char>
    decreases s.len(),
{
    if s.len() > 0 && s.last() == 'Z' {
        trim_end_z(s.drop_last())
    } else {
        s
    }
}

/// The first position of `c` in `s`.
pub open spec fn first_of(s: Seq<char>, c: char) -> Option<int>
    decreases s.len(),
{
    if s.len() == 0 {
        None
    } else if s[0] == c {
        Some(0)
    } else {
        match first_of(s.drop_first(), c) {
            Some(i) => Some(i + 1),
            None => None,
        }
    }
}

/// `s` up to its first `.`, or all of it.
pub open spec fn before_dot(s: Seq<char>) -> Seq<char> {
    match first_of(s, '.') {
        Some(i) => s.take(i),
        None => s,
    }
}

/// `s` with its first `T` replaced by a space.
pub open spec fn first_t_spaced(s: Seq<char>) -> Seq<char> {
    match first_of(s, 'T') {
        Some(i) => s.update(i, ' '),
        None => s,
    }
}

/// An ASCII digit.
pub open spec fn is_digit(c: char) -> bool {
    '0' <= c <= '9'
}

/// `YYYY-MM-DD`.
pub open spec fn date_form(d: Seq<char>) -> bool {
    &&& d.len() == 10
    &&& d[4] == '-'
    &&& d[7] == '-'
    &&& forall|j: int| 0 <= j < 10 && j != 4 && j != 7 ==> is_digit(#[trigger] d[j])
}

/// `HH:MM:SS`.
pub open spec fn time_form(t: Seq<char>) -> bool {
    &&& t.len() == 8
    &&& t[2] == ':'
    &&& t[5] == ':'
    &&& forall|j: int| 0 <= j < 8 && j != 2 && j != 5 ==> is_digit(#[trigger] t[j])
}

/// Fractional seconds: nothing, or a `.` and digits.
pub open spec fn fraction_form(f: Seq<char>) -> bool {
    f.len() == 0 || (f[0] == '.' && forall|j: int| 1 <= j < f.len() ==> is_digit(#[trigger] f[j]))
}

/// A zone marker: nothing, or `Z`.
pub open spec fn zone_form(z: Seq<char>) -> bool {
    z.len() == 0 || z == seq!['Z']
}

/// A caller's datetime in the form Odoo's ORM accepts: trimmed, trailing
/// `Z`s dropped, fractional seconds dropped, the date-time `T` a space.
pub open spec fn normalize_spec(v: Seq<char>) -> Seq<char> {
    first_t_spaced(before_dot(trim_end_z(trim_seq(v))))
}

pub(crate) proof fn lemma_first_of(s: Seq<char>, c: char)
    ensures
        match first_of(s, c) {
            Some(i) => 0 <= i < s.len() && s[i] == c && forall|j: int| 0 <= j < i ==> s[j] != c,
            None => forall|j: int| 0 <= j < s.len() ==> s[j] != c,
        },
    decreases s.len(),
{
    if s.len() > 0 && s[0] != c {
        let q = s.drop_first();
        lemma_first_of(q, c);
        assert forall|j: int| 1 <= j < s.len() implies s[j] == #[trigger] q[j - 1] by {}
        match first_of(q, c) {
            Some(i) => {
                assert forall|j: int| 0 <= j < i + 1 implies s[j] != c by {
                    if j > 0 {
                        assert(q[j - 1] != c);
                    }
                }
            },
            None => {
                assert forall|j: int| 0 <= j < s.len() implies s[j] != c by {
                    if j > 0 {
                        assert(q[j - 1] != c);
                    }
                }
            },
        }
    }
}

fn find_char(v: &Vec<char>, c: char) -> (r: Option<usize>)
    ensures
        match r {
            Some(i) => first_of(v@, c) == Some(i as int),
            None => first_of(v@, c) is None,
        },
{
    proof {
        lemma_first_of(v@, c);
    }
    let mut i: usize = 0;
    while i < v.len()
        invariant
            i <= v.len(),
            forall|j: int| 0 <= j < i ==> v@[j] != c,
            match first_of(v@, c) {
                Some(x) => 0 <= x < v@.len() && v@[x] == c && forall|j: int| 0 <= j < x ==> v@[j] != c,
                None => forall|j: int| 0 <= j < v@.len() ==> v@[j] != c,
            },
        decreases v.len() - i,
    {
        if v[i] == c {
            return Some(i);
        }
        i += 1;
    }
    None
}

pub fn normalize_datetime(value: &str) -> (r: String)
    ensures
        r@ == normalize_spec(value@),
{
    let t = trimmed(value);
    let mut v = chars_of(t.as_str());
    let ghost tv = v@;
    let mut n = v.len();
    assert(tv.take(tv.len() as int) =~= tv);
    while n > 0 && v[n - 1] == 'Z'
        invariant
            n <= v.len(),
            v@ == tv,
            trim_end_z(tv) == trim_end_z(tv.take(n as int)),
        decreases n,
    {
        proof {
            let s = tv.take(n as int);
            assert(s.drop_last() =~= tv.take(n - 1));
        }
        n -= 1;
    }
    proof {
        let s = tv.take(n as int);
        assert(trim_end_z(s) == s);
        assert(tv.take(tv.len() as int) =~= tv);
    }
    v.truncate(n);
    assert(v@ =~= trim_end_z(tv));
    let ghost z = v@;
    proof {
        lemma_first_of(z, '.');
    }
    match find_char(&v, '.') {
        Some(i) => {
            v.truncate(i);
            assert(v@ =~= z.take(i as int));
        },
        None => {},
    }
    let ghost cut = v@;
    assert(cut =~= before_dot(trim_end_z(tv)));
    proof {
        lemma_first_of(cut, 'T');
    }
    match find_char(&v, 'T') {
        Some(i) => {
            v.set(i, ' ');
        },
        None => {},
    }
    assert(v@ =~= first_t_spaced(cut));
    string_from_chars(v.as_slice())
}

/// `start` (in Odoo's form) moved by `minutes`, in Odoo's form; nothing
/// when `start` does not parse or the result is out of range.
pub uninterp spec fn shifted_datetime(start: Seq<char>, minutes: int) -> Option<Seq<char>>;

/// chrono's `NaiveDateTime::parse_from_str` with `%Y-%m-%d %H:%M:%S`, then
/// `TimeDelta::try_minutes` and `checked_add_signed`, formatted back with the
/// same pattern: [`shifted_datetime`] of the start and the minutes. Each of
/// the three steps returns nothing rather than panicking, so neither does
/// this.
#[verifier::external_body]
fn shift_datetime(start: &str, minutes: i64) -> (r: Option<String>)
    ensures
        opt_view(r) == shifted_datetime(start@, minutes as int),
{
    let parsed = chrono::NaiveDateTime::parse_from_str(start, "%Y-%m-%d %H:%M:%S").ok()?;
    let delta = chrono::Duration::try_minutes(minutes)?;
    Some(parsed.checked_add_signed(delta)?.format("%Y-%m-%d %H:%M:%S").to_string())
}

/// The stop of an event that has none: the shifted start, or the start
/// itself (a zero-length event Odoo's own validation will name) when the
/// start cannot be shifted.
pub fn stop_from_shift(start: &str, shifted: Option<String>) -> (r: String)
    ensures
        r@ == match opt_view(shifted) {
            Some(s) => s,
            None => start@,
        },
{
    match shifted {
        Some(s) => s,
        None => owned(start),
    }
}

pub open spec fn stop_spec(stop: Option<Seq<char>>, start: Seq<char>, minutes: Option<i64>) -> Seq<char> {
    match non_blank(stop) {
        Some(s) => normalize_spec(s),
        None => match shifted_datetime(
            start,
            match minutes {
                Some(m) => m as int,
                None => DEFAULT_DURATION_MINUTES as int,
            },
        ) {
            Some(s) => s,
            None => start,
        },
    }
}

/// An explicit stop wins; otherwise the duration decides; otherwise one
/// hour. `start` is the normalized start.
pub fn stop_for(input: &CalendarEventCreateInput, start: &str) -> (r: String)
    ensures
        r@ == stop_spec(opt_view(input.stop), start@, input.duration_minutes),
{
    match non_blank_opt(&input.stop) {
        Some(s) => normalize_datetime(s.as_str()),
        None => {
            let minutes = match input.duration_minutes {
                Some(m) => m,
                None => DEFAULT_DURATION_MINUTES,
            };
            stop_from_shift(start, shift_datetime(start, minutes))
        },
    }
}

/// Attendees as a many2many set-replacement, when there are any.
pub open spec fn attendee_entries(ids: Option<Vec<i64>>) -> Seq<(Seq<char>, FieldValueV)> {
    match ids {
        Some(ids) => if ids@.len() > 0 {
            seq![("partner_ids"@, FieldValueV::ReplaceIds(ids@))]
        } else {
            Seq::empty()
        },
        None => Seq::empty(),
    }
}

/// The linked record, when both its model and its id are given.
pub open spec fn link_entries(model: Option<String>, res_id: Option<i64>) -> Seq<(Seq<char>, FieldValueV)> {
    match (model, res_id) {
        (Some(m), Some(id)) => seq![text_e("res_model"@, m@), int_e("res_id"@, id as int)],
        _ => Seq::empty(),
    }
}

/// The `calendar.event` record: the trimmed name, the normalized start and
/// derived stop, the attendees when there are any, the description when it
/// carries text, and the linked record when both its model and id are given.
pub open spec fn event_values_spec(input: CalendarEventCreateInput) -> Seq<(Seq<char>, FieldValueV)> {
    let start = normalize_spec(input.start@);
    seq![
        text_e("name"@, trim_seq(input.name@)),
        text_e("start"@, start),
        text_e("stop"@, stop_spec(opt_view(input.stop), start, input.duration_minutes)),
    ] + attendee_entries(input.attendee_partner_ids) + opt_text_e("description"@, opt_view(input.description))
        + link_entries(input.model, input.res_id)
}

pub fn event_values(input: &CalendarEventCreateInput) -> (p: Payload)
    ensures
        p@ == event_values_spec(*input),
{
    let start = normalize_datetime(input.start.as_str());
    let mut p = Payload::new();
    p.push_text("name", trimmed(input.name.as_str()).as_str());
    p.push_text("start", start.as_str());
    p.push_text("stop", stop_for(input, start.as_str()).as_str());
    let ghost a = p@;
    match &input.attendee_partner_ids {
        Some(ids) => {
            if ids.len() > 0 {
                let copy = ids.clone();
                assert(copy@ =~= ids@);
                p.push("partner_ids", FieldValue::ReplaceIds(copy));
            }
        },
        None => {},
    }
    let ghost b = p@;
    p.push_opt_text("description", &input.description);
    let ghost c = p@;
    match (&input.model, input.res_id) {
        (Some(m), Some(id)) => {
            p.push_text("res_model", m.as_str());
            p.push_int("res_id", id);
        },
        _ => {},
    }
    proof {
        assert(b =~= a + attendee_entries(input.attendee_partner_ids));
        assert(p@ =~= c + link_entries(input.model, input.res_id));
        assert(p@ =~= event_values_spec(*input));
    }
    p
}

/// A new event needs a title, and a record link needs both halves: an id
/// without its model would attach the event to nothing.
pub fn event_create_check(input: &CalendarEventCreateInput) -> (r: Result<(), ToolError>)
    ensures
        trim_seq(input.name@).len() == 0 ==> (r matches Err(e) && e@ == ToolErrorV::InvalidParams(
            "An event title is required."@,
        )),
        trim_seq(input.name@).len() > 0 && (input.model is Some) != (input.res_id is Some) ==> (r matches Err(
            e,
        ) && e@ == ToolErrorV::InvalidParams(
            "To link the event to a record, give both model and res_id."@,
        )),
        trim_seq(input.name@).len() > 0 && (input.model is Some) == (input.res_id is Some) ==> r is Ok,
{
    if trimmed(input.name.as_str()).as_str().is_empty() {
        return Err(ToolError::InvalidParams(owned("An event title is required.")));
    }
    if input.model.is_some() != input.res_id.is_some() {
        return Err(
            ToolError::InvalidParams(owned("To link the event to a record, give both model and res_id.")),
        );
    }
    Ok(())
}

pub fn event_created_summary(id: i64, input: &CalendarEventCreateInput, login: &str) -> (r: String)
    ensures
        r@ == "Created calendar event "@ + decimal(id as int) + " \""@ + trim_seq(input.name@)
            + "\" starting "@ + normalize_spec(input.start@) + ", organised by "@ + login@,
{
    let mut r = owned("Created calendar event ");
    push_str(&mut r, decimal_string(id).as_str());
    push_str(&mut r, " \"");
    push_str(&mut r, trimmed(input.name.as_str()).as_str());
    push_str(&mut r, "\" starting ");
    push_str(&mut r, normalize_datetime(input.start.as_str()).as_str());
    push_str(&mut r, ", organised by ");
    push_str(&mut r, login);
    r
}

pub fn event_list_summary(n: usize) -> (r: String)
    ensures
        r@ == decimal(n as int) + " calendar event(s)"@,
{
    let mut r = usize_string(n);
    push_str(&mut r, " calendar event(s)");
    r
}

/// The description line under an event row: the description's plain text,
/// clipped to [`DESCRIPTION_CHARS`] characters with an ellipsis when longer;
/// nothing when there is no text.
pub open spec fn description_line_spec(description: Option<Seq<char>>) -> Seq<char> {
    match description {
        Some(d) => {
            let t = html_text(d);
            if t.len() == 0 {
                Seq::empty()
            } else if t.len() > DESCRIPTION_CHARS {
                "\n  "@ + t.take(DESCRIPTION_CHARS as int) + "…"@
            } else {
                "\n  "@ + t
            }
        },
        None => Seq::empty(),
    }
}

pub open spec fn event_row_spec(
    id: int,
    name: Seq<char>,
    start: Seq<char>,
    stop: Seq<char>,
    location: Seq<char>,
    attendees: int,
    description: Option<Seq<char>>,
) -> Seq<char> {
    "- **["@ + decimal(id) + "] "@ + name + "** — "@ + start + " → "@ + stop + " · "@ + location
        + " · "@ + decimal(attendees) + " attendee(s)"@ + description_line_spec(description)
}

/// One event as a list line, from its id, rendered fields, number of
/// attendees and raw description.
pub fn event_row(
    id: i64,
    name: &str,
    start: &str,
    stop: &str,
    location: &str,
    attendees: usize,
    description: &Option<String>,
) -> (r: String)
    ensures
        r@ == event_row_spec(id as int, name@, start@, stop@, location@, attendees as int, opt_view(*description)),
{
    let mut r = owned("- **[");
    push_str(&mut r, decimal_string(id).as_str());
    push_str(&mut r, "] ");
    push_str(&mut r, name);
    push_str(&mut r, "** — ");
    push_str(&mut r, start);
    push_str(&mut r, " → ");
    push_str(&mut r, stop);
    push_str(&mut r, " · ");
    push_str(&mut r, location);
    push_str(&mut r, " · ");
    push_str(&mut r, usize_string(attendees).as_str());
    push_str(&mut r, " attendee(s)");
    let ghost head = r@;
    match description {
        Some(d) => {
            let text = html_to_text(d.as_str());
            let v = chars_of(text.as_str());
            if v.len() > 0 {
                push_str(&mut r, "\n  ");
                if v.len() > DESCRIPTION_CHARS {
                    let clipped = string_from_chars(&v.as_slice()[0..DESCRIPTION_CHARS]);
                    assert(v@.subrange(0, DESCRIPTION_CHARS as int) =~= v@.take(DESCRIPTION_CHARS as int));
                    push_str(&mut r, clipped.as_str());
                    push_str(&mut r, "…");
                } else {
                    push_str(&mut r, text.as_str());
                }
            }
            assert(r@ =~= head + description_line_spec(opt_view(*description)));
        },
        None => {
            assert(r@ =~= head + description_line_spec(opt_view(*description)));
        },
    }
    r
}

} // verus!
