//! Validation and application of the Victron-supplied display timezone.

use vstd::prelude::*;
use vstd::string::StringExecFns;

use crate::ids::LogLevel;
use crate::log::LogRecord;
use crate::text::str_eq;
use crate::time::Instant;

verus! {

#[verifier::external_type_specification]
#[verifier::external_body]
pub struct ExTz(chrono_tz::Tz);

#[verifier::external_type_specification]
#[verifier::external_body]
pub struct ExTzParseError(chrono_tz::ParseError);

/// The zone that the timezone database holds under `name`, if any.
pub uninterp spec fn tz_lookup(name: Seq<char>) -> Option<chrono_tz::Tz>;

/// Whether the timezone database knows `name` as an IANA zone name.
pub open spec fn tz_name_known(name: Seq<char>) -> bool {
    tz_lookup(name) is Some
}

/// `chrono_tz::Tz::from_str`: looks `value` up in the crate's compiled
/// timezone table. Claimed: it succeeds exactly for the names the table
/// holds and then returns the zone held under that name, a function of
/// the name alone.
#[verifier::external_body]
fn parse_tz(value: &str) -> (r: Result<chrono_tz::Tz, chrono_tz::ParseError>)
    ensures
        match r {
            Ok(tz) => tz_lookup(value@) == Some(tz),
            Err(_) => tz_lookup(value@) is None,
        },
{
    value.parse::<chrono_tz::Tz>()
}

/// `Debug` text of a string: the characters quoted and escaped.
pub uninterp spec fn str_debug_text(value: Seq<char>) -> Seq<char>;

/// `<str as Debug>::fmt` through `format!`: `value` in double quotes with
/// quotes, backslashes and control characters escaped, a function of the
/// characters alone. Its characters are not stated here.
#[verifier::external_body]
fn str_debug(value: &str) -> (r: String)
    ensures
        r@ == str_debug_text(value@),
{
    format!("{value:?}")
}

/// Text of the warning for a rejected zone name. The middle part is how
/// `chrono_tz::ParseError` displays, a fixed text.
pub open spec fn spec_invalid_tz_message(value: Seq<char>) -> Seq<char> {
    "invalid TZ from Victron: "@ + str_debug_text(value) + " — failed to parse timezone; keeping previous"@
}

fn invalid_tz_message(value: &str) -> (r: String)
    ensures
        r@ == spec_invalid_tz_message(value@),
{
    let mut r = String::from_str("invalid TZ from Victron: ");
    r.append(str_debug(value).as_str());
    r.append(" — failed to parse timezone; keeping previous");
    r
}

/// The display-timezone slice of the world state.
#[derive(Clone, Debug, PartialEq)]
pub struct TimezoneState {
    /// IANA name of the Victron-supplied display timezone.
    pub timezone: String,
    /// When the last valid timezone observation landed.
    pub timezone_updated_at: Option<Instant>,
}

impl TimezoneState {
    /// `"Etc/UTC"` until the first reading lands.
    pub fn fresh_boot() -> (r: Self)
        ensures
            r.timezone@ == "Etc/UTC"@,
            r.timezone_updated_at is None,
    {
        TimezoneState { timezone: String::from_str("Etc/UTC"), timezone_updated_at: None }
    }
}

/// Result of a timezone observation.
#[derive(Debug)]
pub enum TimezoneOutcome {
    /// The name is valid; the shell swaps this zone into its live handle.
    Applied(chrono_tz::Tz),
    /// The name is invalid; state is unchanged and this warning is logged.
    Rejected(LogRecord),
}

/// Apply a timezone observation. A name the timezone database knows
/// becomes the current zone, stamps the update time and hands the zone
/// held under that name to the shell; any other name is
/// rejected with a Warn log and leaves the state as it was.
pub fn apply_timezone(value: &str, at: Instant, state: &mut TimezoneState) -> (r: TimezoneOutcome)
    ensures
        tz_name_known(value@) ==> {
            &&& r matches TimezoneOutcome::Applied(tz) && tz_lookup(value@) == Some(tz)
            &&& final(state).timezone@ == value@
            &&& final(state).timezone_updated_at == Some(at)
        },
        !tz_name_known(value@) ==> {
            &&& *final(state) == *old(state)
            &&& r matches TimezoneOutcome::Rejected(log) && log.level == LogLevel::Warn
                && log.source@ == "timezone"@ && log.message@ == spec_invalid_tz_message(value@)
        },
{
    match parse_tz(value) {
        Ok(tz) => {
            if !str_eq(state.timezone.as_str(), value) {
                state.timezone = String::from_str(value);
            }
            state.timezone_updated_at = Some(at);
            TimezoneOutcome::Applied(tz)
        },
        Err(_) => TimezoneOutcome::Rejected(
            LogRecord {
                level: LogLevel::Warn,
                source: String::from_str("timezone"),
                message: invalid_tz_message(value),
            },
        ),
    }
}

} // verus!
