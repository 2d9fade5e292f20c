//! The draft record, its projections, the error taxonomy, and the two
//! environment-dependent helpers (current time, fresh identifier).

use vstd::prelude::*;
use crate::json::{JsonModel, JsonValue};
use time::OffsetDateTime;
use time::format_description::well_known::Rfc3339;

verus! {

/// The draft lifecycle: a record starts as `Draft` and moves once, and
/// terminally, to `Submitted`.
#[derive(Clone, Copy, PartialEq, Eq, Structural, Debug)]
pub enum Status {
    Draft,
    Submitted,
}

/// What the two lifecycle states are called on the wire.
pub open spec fn status_name(s: Status) -> Seq<char> {
    match s {
        Status::Draft => "draft"@,
        Status::Submitted => "submitted"@,
    }
}

impl Status {
    /// The wire name of this state.
    pub fn as_str(self) -> (r: &'static str)
        ensures
            r@ == status_name(self),
    {
        match self {
            Status::Draft => "draft",
            Status::Submitted => "submitted",
        }
    }
}

/// The mathematical content of a stored draft record.
pub struct DraftModel {
    pub uuid: Seq<char>,
    pub data: JsonModel,
    pub step: int,
    pub status: Status,
    pub created_at: Seq<char>,
    pub updated_at: Seq<char>,
}

/// A stored draft record: the sole entity the store keeps.
pub struct Draft {
    /// The unique identifier, also the key of the resume link.
    pub uuid: String,
    /// The form data, replaced wholesale on every partial update.
    pub data: JsonValue,
    /// The last step the client was on.
    pub step: i64,
    /// The lifecycle state.
    pub status: Status,
    /// Set once at creation.
    pub created_at: String,
    /// Set on every mutation, submission included.
    pub updated_at: String,
}

impl View for Draft {
    type V = DraftModel;

    open spec fn view(&self) -> DraftModel {
        DraftModel {
            uuid: self.uuid@,
            data: self.data.deep_view(),
            step: self.step as int,
            status: self.status,
            created_at: self.created_at@,
            updated_at: self.updated_at@,
        }
    }
}

/// The response to a creation request: the new identifier and the link a
/// client follows to resume the form.
#[derive(Clone, Debug)]
pub struct NewDraftResponse {
    pub id: String,
    pub resume_url: String,
}

/// The externally visible projection of a draft.
#[derive(Debug)]
pub struct DraftOut {
    pub id: String,
    pub data: JsonValue,
    pub step: i64,
    pub status: Status,
    pub created_at: String,
    pub updated_at: String,
}

/// Whether `out` is the projection of the record `d` stored under `id`.
pub open spec fn projects(out: DraftOut, id: Seq<char>, d: DraftModel) -> bool {
    &&& out.id@ == id
    &&& out.data.deep_view() == d.data
    &&& out.step as int == d.step
    &&& out.status == d.status
    &&& out.created_at@ == d.created_at
    &&& out.updated_at@ == d.updated_at
}

/// The body of a partial update: the whole form object, and the step the
/// client is on if it chose to report one.
pub struct PatchDraft {
    pub data: JsonValue,
    pub step: Option<i64>,
}

/// The greeting returned by the hello route.
pub struct HelloResponse {
    pub hello: String,
}

/// The error taxonomy of the service.
#[derive(Clone, Copy, PartialEq, Eq, Structural, Debug)]
pub enum Error {
    /// No record matches the requested identifier.
    NotFound,
    /// A lookup that should have produced a row produced none.
    QueryFailed,
    /// The persistence layer failed: connectivity, a constraint violation.
    Storage,
    /// Required startup configuration is missing; fatal, never per-request.
    Config,
}

/// The HTTP status each error maps to.
pub open spec fn status_of(e: Error) -> u16 {
    match e {
        Error::NotFound => 404u16,
        Error::QueryFailed => 404u16,
        Error::Storage => 500u16,
        Error::Config => 500u16,
    }
}

impl Error {
    /// The HTTP status code this error maps to.
    pub fn status(&self) -> (r: u16)
        ensures
            r == status_of(*self),
    {
        match self {
            Error::NotFound => 404,
            Error::QueryFailed => 404,
            Error::Storage => 500,
            Error::Config => 500,
        }
    }
}

/// An ASCII decimal digit.
pub open spec fn is_digit(c: char) -> bool {
    ('0' as u32) <= (c as u32) && (c as u32) <= ('9' as u32)
}

/// The number an ASCII digit denotes.
pub open spec fn digit_val(c: char) -> int {
    (c as u32) - ('0' as u32)
}

/// The number a two-digit field denotes.
pub open spec fn two_digit_val(a: char, b: char) -> int {
    10 * digit_val(a) + digit_val(b)
}

/// A valid RFC 3339 UTC date-time rendering: `YYYY-MM-DDTHH:MM:SS`, an
/// optional fraction — a point and digits — and the `Z` zone designator,
/// with every field inside its calendar range.
pub open spec fn is_rfc3339_utc(s: Seq<char>) -> bool {
    &&& s.len() >= 20
    &&& is_digit(s[0]) && is_digit(s[1]) && is_digit(s[2]) && is_digit(s[3])
    &&& s[4] == '-'
    &&& is_digit(s[5]) && is_digit(s[6]) && 1 <= two_digit_val(s[5], s[6]) <= 12
    &&& s[7] == '-'
    &&& is_digit(s[8]) && is_digit(s[9]) && 1 <= two_digit_val(s[8], s[9]) <= 31
    &&& s[10] == 'T'
    &&& is_digit(s[11]) && is_digit(s[12]) && two_digit_val(s[11], s[12]) <= 23
    &&& s[13] == ':'
    &&& is_digit(s[14]) && is_digit(s[15]) && two_digit_val(s[14], s[15]) <= 59
    &&& s[16] == ':'
    &&& is_digit(s[17]) && is_digit(s[18]) && two_digit_val(s[17], s[18]) <= 59
    &&& s.last() == 'Z'
    &&& s.len() > 20 ==> s[19] == '.' && (forall|i: int| 20 <= i < s.len() - 1 ==> is_digit(s[i]))
}

/// The current UTC time, rendered in the RFC 3339 text form.
///
/// Relies on `time::OffsetDateTime::now_utc` and the crate's `Rfc3339`
/// formatter: for a UTC value it writes the four-digit year, `-`, two-digit
/// month (01–12), `-`, day (01–31), `T`, two-digit hour (00–23), `:`,
/// minutes (00–59), `:`, seconds (00–59), a `.` and subsecond digits only
/// when the nanoseconds are not zero, and `Z` — every character ASCII, the
/// ranges those of the crate's date and time types. Formatting itself errs
/// only for a year outside 0–9999, and the epoch stamp then stands in, so
/// every return has this shape; a system clock set beyond that range aborts
/// earlier, in the reading of the clock, as the original did. The value
/// depends on the clock, so nothing else is stated of it.
#[verifier::external_body]
pub fn now_rfc3339() -> (r: String)
    ensures
        is_rfc3339_utc(r@),
{
    OffsetDateTime::now_utc()
        .format(&Rfc3339)
        .unwrap_or_else(|_| "1970-01-01T00:00:00Z".to_string())
}

/// A fresh random identifier.
///
/// Relies on `uuid::Uuid::new_v4` and its `Display` rendering: a hyphenated
/// UUID is always thirty-six characters. The value is random, so nothing
/// else is stated of it. The draw aborts only if the operating system's
/// random source fails, which no argument can avoid.
#[verifier::external_body]
pub(crate) fn fresh_uuid() -> (r: String)
    ensures
        r@.len() == 36,
{
    uuid::Uuid::new_v4().to_string()
}

} // verus!
