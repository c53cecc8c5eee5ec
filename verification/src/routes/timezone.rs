//! The rule for a time zone that a user sets.
use crate::text::{trim, trimmed};
use vstd::prelude::*;

verus! {

/// A user's time zone, as it is sent to whoever asks for it.
#[derive(Debug, Clone)]
pub struct TimezoneResponse {
    pub user: UserInfo,
    pub timezone: String,
}

/// The part of a user that is shown with their time zone.
#[derive(Debug, Clone)]
pub struct UserInfo {
    pub id: String,
    pub username: String,
}

/// The question for one user's time zone.
#[derive(Debug, Clone)]
pub struct GetQuery {
    pub id: String,
}

/// The time zone a user wants to set.
#[derive(Debug, Clone)]
pub struct SetQuery {
    pub timezone: String,
}

impl GetQuery {
    /// The answer to this question, from the stored name and time zone.
    pub fn answer(self, username: String, timezone: String) -> (r: TimezoneResponse)
        ensures
            r.user.id == self.id,
            r.user.username == username,
            r.timezone == timezone,
    {
        TimezoneResponse { user: UserInfo { id: self.id, username }, timezone }
    }
}

impl SetQuery {
    /// The time zone to store, or why there is none: see [`check_timezone`].
    pub fn checked(&self) -> (r: Result<String, TimezoneFault>)
        ensures
            match accepted(self.timezone@) {
                Ok(name) => r matches Ok(s) && s@ == name,
                Err(fault) => r == Err::<String, TimezoneFault>(fault),
            },
    {
        check_timezone(self.timezone.as_str())
    }
}

/// Why a time zone is refused.
#[derive(Debug, Clone, Copy, PartialEq, Eq, Structural)]
pub enum TimezoneFault {
    /// Nothing but white space was given.
    Required,
    /// The name is not in the time zone database.
    Invalid,
}

/// Whether the time zone database of `chrono_tz` holds `name`.
pub uninterp spec fn timezone_known(name: Seq<char>) -> bool;

/// Parses `name` as a `chrono_tz::Tz`. Trusted: the answer depends on the
/// name alone, which is looked up in a table that is fixed when the program
/// is built.
#[verifier::external_body]
fn is_timezone(name: &str) -> (b: bool)
    ensures
        b == timezone_known(name@),
{
    name.parse::<chrono_tz::Tz>().is_ok()
}

/// What becomes of the text a user sent as a time zone.
pub open spec fn accepted(input: Seq<char>) -> Result<Seq<char>, TimezoneFault> {
    let name = trimmed(input);
    if name.len() == 0 {
        Err(TimezoneFault::Required)
    } else {
        accepted_name(name, timezone_known(name))
    }
}

/// What becomes of a name that is not empty, once the database has said
/// whether it holds it.
pub open spec fn accepted_name(name: Seq<char>, known: bool) -> Result<Seq<char>, TimezoneFault> {
    if known {
        Ok(name)
    } else {
        Err(TimezoneFault::Invalid)
    }
}

/// The verdict on a name that is not empty, given the database's answer.
pub fn judge_name(name: &str, known: bool) -> (r: Result<String, TimezoneFault>)
    ensures
        match accepted_name(name@, known) {
            Ok(n) => r matches Ok(s) && s@ == n,
            Err(fault) => r == Err::<String, TimezoneFault>(fault),
        },
{
    if known {
        Ok(name.to_owned())
    } else {
        Err(TimezoneFault::Invalid)
    }
}

/// The time zone to store for the text a user sent: the text without the
/// white space round it, if that is a name the database holds.
pub fn check_timezone(input: &str) -> (r: Result<String, TimezoneFault>)
    ensures
        match accepted(input@) {
            Ok(name) => r matches Ok(s) && s@ == name,
            Err(fault) => r == Err::<String, TimezoneFault>(fault),
        },
{
    let name = trim(input);
    if name.is_empty() {
        return Err(TimezoneFault::Required);
    }
    judge_name(name, is_timezone(name))
}

/// How a request about time zones ended, where the answer is a message.
#[derive(Debug, Clone, Copy, PartialEq, Eq, Structural)]
pub enum TimezoneReply {
    /// No time zone is stored for the user asked for.
    UserNotFound,
    /// The database failed while one time zone was looked up.
    LookupFailed,
    /// The database failed while all were listed.
    ListFailed,
    /// The database failed while the user's own was looked up.
    OwnLookupFailed,
    /// The user's time zone is gone.
    Deleted,
    /// The database failed while it was deleted.
    DeleteFailed,
    /// The time zone sent was refused.
    Refused(TimezoneFault),
    /// The time zone is stored.
    Saved,
    /// The database failed while it was stored.
    SaveFailed,
}

impl TimezoneReply {
    /// The HTTP status of the answer: 200 where the request was carried out,
    /// 400 where the time zone was refused, 404 for an unknown user, 500
    /// where the database failed.
    pub fn status(&self) -> (code: u16)
        ensures
            code == (match *self {
                TimezoneReply::Deleted => 200u16,
                TimezoneReply::Saved => 200u16,
                TimezoneReply::Refused(_) => 400u16,
                TimezoneReply::UserNotFound => 404u16,
                _ => 500u16,
            }),
    {
        match self {
            TimezoneReply::Deleted => 200,
            TimezoneReply::Saved => 200,
            TimezoneReply::Refused(_) => 400,
            TimezoneReply::UserNotFound => 404,
            _ => 500,
        }
    }

    /// The message of the answer.
    pub fn message(&self) -> (m: &'static str)
        ensures
            m@ == (match *self {
                TimezoneReply::UserNotFound => "User not found"@,
                TimezoneReply::LookupFailed => "Database error"@,
                TimezoneReply::ListFailed => "Failed to fetch list"@,
                TimezoneReply::OwnLookupFailed => "Failed to fetch timezone"@,
                TimezoneReply::Deleted => "Timezone deleted"@,
                TimezoneReply::DeleteFailed => "Delete failed"@,
                TimezoneReply::Refused(TimezoneFault::Required) => "Timezone is required"@,
                TimezoneReply::Refused(TimezoneFault::Invalid) => "Invalid timezone"@,
                TimezoneReply::Saved => "Timezone saved"@,
                TimezoneReply::SaveFailed => "Database error"@,
            }),
    {
        match self {
            TimezoneReply::UserNotFound => "User not found",
            TimezoneReply::LookupFailed => "Database error",
            TimezoneReply::ListFailed => "Failed to fetch list",
            TimezoneReply::OwnLookupFailed => "Failed to fetch timezone",
            TimezoneReply::Deleted => "Timezone deleted",
            TimezoneReply::DeleteFailed => "Delete failed",
            TimezoneReply::Refused(fault) => fault.message(),
            TimezoneReply::Saved => "Timezone saved",
            TimezoneReply::SaveFailed => "Database error",
        }
    }
}

impl TimezoneFault {
    /// The message sent to the user.
    pub fn message(&self) -> (m: &'static str)
        ensures
            m@ == (match *self {
                TimezoneFault::Required => "Timezone is required"@,
                TimezoneFault::Invalid => "Invalid timezone"@,
            }),
    {
        match self {
            TimezoneFault::Required => "Timezone is required",
            TimezoneFault::Invalid => "Invalid timezone",
        }
    }
}

} // verus!
