//! Persisted bookkeeping dates and the two ways they are written: the
//! boot-time restore from retained state, and the user-driven edit that
//! accepts only an allowlist of `(key, value)` shapes.

use vstd::prelude::*;
use vstd::string::StringExecFns;

use crate::calendar::{naive_date_debug, naive_date_debug_text, naive_date_time_debug, naive_date_time_debug_text};
use crate::ids::{BookkeepingKey, LogLevel};
use crate::log::LogRecord;

verus! {

/// A value for a persisted bookkeeping key.
#[derive(Clone, Copy, Debug, PartialEq)]
pub enum BookkeepingValue {
    NaiveDateTime(chrono::NaiveDateTime),
    NaiveDate(chrono::NaiveDate),
    Cleared,
}

/// The date-valued bookkeeping fields.
#[derive(Clone, Copy, Debug, PartialEq)]
pub struct BookkeepingDates {
    pub next_full_charge: Option<chrono::NaiveDateTime>,
    pub above_soc_date: Option<chrono::NaiveDate>,
}

/// What a bookkeeping write does to the dates. A value whose shape does
/// not match the key (a date for `NextFullCharge`, a date-time for
/// `AboveSocDate`) changes nothing.
pub open spec fn spec_apply_bookkeeping(
    key: BookkeepingKey,
    value: BookkeepingValue,
    dates: BookkeepingDates,
) -> BookkeepingDates {
    match (key, value) {
        (BookkeepingKey::NextFullCharge, BookkeepingValue::NaiveDateTime(dt)) => BookkeepingDates {
            next_full_charge: Some(dt),
            ..dates
        },
        (BookkeepingKey::NextFullCharge, BookkeepingValue::Cleared) => BookkeepingDates {
            next_full_charge: None,
            ..dates
        },
        (BookkeepingKey::AboveSocDate, BookkeepingValue::NaiveDate(d)) => BookkeepingDates {
            above_soc_date: Some(d),
            ..dates
        },
        (BookkeepingKey::AboveSocDate, BookkeepingValue::Cleared) => BookkeepingDates {
            above_soc_date: None,
            ..dates
        },
        _ => dates,
    }
}

/// The user may edit only `NextFullCharge`, setting it or clearing it.
pub open spec fn spec_set_bookkeeping_accepted(key: BookkeepingKey, value: BookkeepingValue) -> bool {
    key is NextFullCharge && (value is NaiveDateTime || value is Cleared)
}

/// What the shell is asked to do after a bookkeeping write.
#[derive(Clone, Debug, PartialEq)]
pub enum BookkeepingEffect {
    /// Persist the new value to retained state.
    Publish { key: BookkeepingKey, value: BookkeepingValue },
    Log(LogRecord),
}

impl BookkeepingDates {
    /// Nothing recorded yet.
    pub fn fresh_boot() -> (r: Self)
        ensures
            r.next_full_charge is None,
            r.above_soc_date is None,
    {
        BookkeepingDates { next_full_charge: None, above_soc_date: None }
    }
}

/// Apply a retained `(key, value)` pair; a shape mismatch is dropped.
pub fn apply_bookkeeping(key: BookkeepingKey, value: BookkeepingValue, dates: &mut BookkeepingDates)
    ensures
        *final(dates) == spec_apply_bookkeeping(key, value, *old(dates)),
        key is NextFullCharge && value is NaiveDateTime ==> final(dates).next_full_charge == Some(value->NaiveDateTime_0)
            && final(dates).above_soc_date == old(dates).above_soc_date,
        key is NextFullCharge && value is Cleared ==> final(dates).next_full_charge is None
            && final(dates).above_soc_date == old(dates).above_soc_date,
        key is AboveSocDate && value is NaiveDate ==> final(dates).above_soc_date == Some(value->NaiveDate_0)
            && final(dates).next_full_charge == old(dates).next_full_charge,
        key is AboveSocDate && value is Cleared ==> final(dates).above_soc_date is None
            && final(dates).next_full_charge == old(dates).next_full_charge,
        (key is NextFullCharge && value is NaiveDate) || (key is AboveSocDate && value is NaiveDateTime)
            ==> *final(dates) == *old(dates),
{
    match (key, value) {
        (BookkeepingKey::NextFullCharge, BookkeepingValue::NaiveDateTime(dt)) => {
            dates.next_full_charge = Some(dt);
        },
        (BookkeepingKey::NextFullCharge, BookkeepingValue::Cleared) => {
            dates.next_full_charge = None;
        },
        (BookkeepingKey::AboveSocDate, BookkeepingValue::NaiveDate(d)) => {
            dates.above_soc_date = Some(d);
        },
        (BookkeepingKey::AboveSocDate, BookkeepingValue::Cleared) => {
            dates.above_soc_date = None;
        },
        _ => {},
    }
}

/// The key's variant name, as the derived `Debug` prints it.
pub open spec fn spec_bookkeeping_key_debug(key: BookkeepingKey) -> Seq<char> {
    match key {
        BookkeepingKey::NextFullCharge => "NextFullCharge"@,
        BookkeepingKey::AboveSocDate => "AboveSocDate"@,
    }
}

/// The value as the derived `Debug` prints it.
pub open spec fn spec_bookkeeping_value_debug(value: BookkeepingValue) -> Seq<char> {
    match value {
        BookkeepingValue::NaiveDateTime(dt) => "NaiveDateTime("@ + naive_date_time_debug_text(dt) + ")"@,
        BookkeepingValue::NaiveDate(d) => "NaiveDate("@ + naive_date_debug_text(d) + ")"@,
        BookkeepingValue::Cleared => "Cleared"@,
    }
}

/// Log text for a bookkeeping edit: the verdict, then the key and the
/// value as `Debug` prints them.
pub open spec fn spec_set_bookkeeping_message(
    verdict: Seq<char>,
    key: BookkeepingKey,
    value: BookkeepingValue,
) -> Seq<char> {
    "SetBookkeeping "@ + verdict + ": ("@ + spec_bookkeeping_key_debug(key) + ", "@
        + spec_bookkeeping_value_debug(value) + ")"@
}

fn set_bookkeeping_message(verdict: &str, key: BookkeepingKey, value: BookkeepingValue) -> (r: String)
    ensures
        r@ == spec_set_bookkeeping_message(verdict@, key, value),
{
    let mut r = String::from_str("SetBookkeeping ");
    r.append(verdict);
    r.append(": (");
    match key {
        BookkeepingKey::NextFullCharge => r.append("NextFullCharge"),
        BookkeepingKey::AboveSocDate => r.append("AboveSocDate"),
    }
    r.append(", ");
    match value {
        BookkeepingValue::NaiveDateTime(dt) => {
            r.append("NaiveDateTime(");
            r.append(naive_date_time_debug(&dt).as_str());
            r.append(")");
        },
        BookkeepingValue::NaiveDate(d) => {
            r.append("NaiveDate(");
            r.append(naive_date_debug(&d).as_str());
            r.append(")");
        },
        BookkeepingValue::Cleared => r.append("Cleared"),
    }
    r.append(")");
    r
}

/// User-driven bookkeeping edit. An accepted `(key, value)` is applied
/// and yields a publish of the new value followed by an Info log; any
/// other combination changes nothing and yields a single Warn log.
pub fn apply_set_bookkeeping(
    key: BookkeepingKey,
    value: BookkeepingValue,
    dates: &mut BookkeepingDates,
) -> (effects: Vec<BookkeepingEffect>)
    ensures
        (key is NextFullCharge && (value is NaiveDateTime || value is Cleared)) <==> effects@.len() == 2,
        !(key is NextFullCharge) || value is NaiveDate ==> *final(dates) == *old(dates) && effects@.len() == 1,
        effects@.len() == 2 ==> effects@[0] == (BookkeepingEffect::Publish { key, value }),
        spec_set_bookkeeping_accepted(key, value) ==> {
            &&& *final(dates) == spec_apply_bookkeeping(key, value, *old(dates))
            &&& effects@.len() == 2
            &&& effects@[0] == BookkeepingEffect::Publish { key, value }
            &&& effects@[1] matches BookkeepingEffect::Log(log) && log.level == LogLevel::Info
                && log.source@ == "bookkeeping.edit"@ && log.message@
                == spec_set_bookkeeping_message("accepted"@, key, value)
        },
        !spec_set_bookkeeping_accepted(key, value) ==> {
            &&& *final(dates) == *old(dates)
            &&& effects@.len() == 1
            &&& effects@[0] matches BookkeepingEffect::Log(log) && log.level == LogLevel::Warn
                && log.source@ == "process::command"@ && log.message@
                == spec_set_bookkeeping_message("rejected"@, key, value)
        },
{
    let accepted = match (key, value) {
        (BookkeepingKey::NextFullCharge, BookkeepingValue::NaiveDateTime(_)) => true,
        (BookkeepingKey::NextFullCharge, BookkeepingValue::Cleared) => true,
        _ => false,
    };
    let mut effects: Vec<BookkeepingEffect> = Vec::new();
    if !accepted {
        effects.push(
            BookkeepingEffect::Log(
                LogRecord {
                    level: LogLevel::Warn,
                    source: String::from_str("process::command"),
                    message: set_bookkeeping_message("rejected", key, value),
                },
            ),
        );
        return effects;
    }
    apply_bookkeeping(key, value, dates);
    effects.push(BookkeepingEffect::Publish { key, value });
    effects.push(
        BookkeepingEffect::Log(
            LogRecord {
                level: LogLevel::Info,
                source: String::from_str("bookkeeping.edit"),
                message: set_bookkeeping_message("accepted", key, value),
            },
        ),
    );
    effects
}

} // verus!
