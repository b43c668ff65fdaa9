//! Wire form of the extended battery-charge mode.

use vstd::prelude::*;
use vstd::string::StringExecFns;

use super::ueba::UebaError;
use crate::text::str_eq;

verus! {

#[derive(Clone, Copy, Debug, PartialEq, Eq, Structural, Hash, PartialOrd, Ord)]
pub enum ChargeBatteryExtendedMode {
    Auto,
    Forced,
    Disabled,
}

/// Wire name of each variant.
pub open spec fn spec_charge_battery_extended_mode_name(x: ChargeBatteryExtendedMode) -> Seq<char> {
    match x {
        ChargeBatteryExtendedMode::Auto => "Auto"@,
        ChargeBatteryExtendedMode::Forced => "Forced"@,
        ChargeBatteryExtendedMode::Disabled => "Disabled"@,
    }
}

/// The variant a wire name denotes, if any.
pub open spec fn spec_charge_battery_extended_mode_parse(s: Seq<char>) -> Option<ChargeBatteryExtendedMode> {
    if s == "Auto"@ {
        Some(ChargeBatteryExtendedMode::Auto)
    } else if s == "Forced"@ {
        Some(ChargeBatteryExtendedMode::Forced)
    } else if s == "Disabled"@ {
        Some(ChargeBatteryExtendedMode::Disabled)
    } else {
        None
    }
}

/// UEBA tag byte of each variant.
pub open spec fn spec_charge_battery_extended_mode_tag(x: ChargeBatteryExtendedMode) -> u8 {
    match x {
        ChargeBatteryExtendedMode::Auto => 0,
        ChargeBatteryExtendedMode::Forced => 1,
        ChargeBatteryExtendedMode::Disabled => 2,
    }
}

/// The variant a UEBA tag byte denotes, if any.
pub open spec fn spec_charge_battery_extended_mode_from_tag(t: u8) -> Option<ChargeBatteryExtendedMode> {
    match t {
        0 => Some(ChargeBatteryExtendedMode::Auto),
        1 => Some(ChargeBatteryExtendedMode::Forced),
        2 => Some(ChargeBatteryExtendedMode::Disabled),
        _ => None,
    }
}

/// Decoding one value from `input` at `pos`: the value and the position
/// after it.
pub open spec fn spec_charge_battery_extended_mode_decode(input: Seq<u8>, pos: int) -> Result<(ChargeBatteryExtendedMode, int), UebaError> {
    if pos < 0 || pos >= input.len() {
        Err(UebaError::UnexpectedEnd)
    } else {
        match spec_charge_battery_extended_mode_from_tag(input[pos]) {
            Some(v) => Ok((v, pos + 1)),
            None => Err(UebaError::UnknownEnumTag(input[pos])),
        }
    }
}

impl ChargeBatteryExtendedMode {
    /// The variant named `s`; `Err("Unknown variant: <s>")` otherwise.
    pub fn parse(s: &str) -> (r: Result<ChargeBatteryExtendedMode, String>)
        ensures
            match r {
                Ok(v) => spec_charge_battery_extended_mode_parse(s@) == Some(v),
                Err(message) => spec_charge_battery_extended_mode_parse(s@) is None && message@ == "Unknown variant: "@
                    + s@,
            },
    {
        if str_eq(s, "Auto") {
            Ok(ChargeBatteryExtendedMode::Auto)
        } else if str_eq(s, "Forced") {
            Ok(ChargeBatteryExtendedMode::Forced)
        } else if str_eq(s, "Disabled") {
            Ok(ChargeBatteryExtendedMode::Disabled)
        } else {
            let mut message = String::from_str("Unknown variant: ");
            message.append(s);
            Err(message)
        }
    }

    /// Every variant, in declaration order.
    pub fn all() -> (v: Vec<ChargeBatteryExtendedMode>)
        ensures
            v@ == seq![ChargeBatteryExtendedMode::Auto, ChargeBatteryExtendedMode::Forced, ChargeBatteryExtendedMode::Disabled],
    {
        let v = vec![ChargeBatteryExtendedMode::Auto, ChargeBatteryExtendedMode::Forced, ChargeBatteryExtendedMode::Disabled];
        assert(v@ =~= seq![ChargeBatteryExtendedMode::Auto, ChargeBatteryExtendedMode::Forced, ChargeBatteryExtendedMode::Disabled]);
        v
    }

    /// Wire name of this variant (what `Display` prints).
    pub fn wire_name(&self) -> (s: &'static str)
        ensures
            s@ == spec_charge_battery_extended_mode_name(*self),
    {
        match self {
            ChargeBatteryExtendedMode::Auto => "Auto",
            ChargeBatteryExtendedMode::Forced => "Forced",
            ChargeBatteryExtendedMode::Disabled => "Disabled",
        }
    }

    /// An enum carries no indexed fields.
    pub fn index_elements_count() -> (n: u16)
        ensures
            n == 0,
    {
        0
    }

    /// Append this value's UEBA encoding, its tag byte, to `out`.
    pub fn encode_ueba(&self, out: &mut Vec<u8>)
        ensures
            final(out)@ == old(out)@.push(spec_charge_battery_extended_mode_tag(*self)),
            *self == ChargeBatteryExtendedMode::Auto ==> final(out)@ == old(out)@.push(0u8),
            *self == ChargeBatteryExtendedMode::Forced ==> final(out)@ == old(out)@.push(1u8),
            *self == ChargeBatteryExtendedMode::Disabled ==> final(out)@ == old(out)@.push(2u8),
    {
        let tag: u8 = match self {
            ChargeBatteryExtendedMode::Auto => 0,
            ChargeBatteryExtendedMode::Forced => 1,
            ChargeBatteryExtendedMode::Disabled => 2,
        };
        out.push(tag);
    }

    /// Decode one value from `input` at `pos`, returning it with the
    /// position after it.
    pub fn decode_ueba(input: &[u8], pos: usize) -> (r: Result<(ChargeBatteryExtendedMode, usize), UebaError>)
        ensures
            pos >= input@.len() ==> r == Err::<(ChargeBatteryExtendedMode, usize), UebaError>(UebaError::UnexpectedEnd),
            pos < input@.len() && input@[pos as int] == 0u8 ==> r == Ok::<(ChargeBatteryExtendedMode, usize), UebaError>((ChargeBatteryExtendedMode::Auto, (pos + 1) as usize)),
            pos < input@.len() && input@[pos as int] == 1u8 ==> r == Ok::<(ChargeBatteryExtendedMode, usize), UebaError>((ChargeBatteryExtendedMode::Forced, (pos + 1) as usize)),
            pos < input@.len() && input@[pos as int] == 2u8 ==> r == Ok::<(ChargeBatteryExtendedMode, usize), UebaError>((ChargeBatteryExtendedMode::Disabled, (pos + 1) as usize)),
            pos < input@.len() && input@[pos as int] >= 3u8 ==> r == Err::<(ChargeBatteryExtendedMode, usize), UebaError>(UebaError::UnknownEnumTag(input@[pos as int])),
            match spec_charge_battery_extended_mode_decode(input@, pos as int) {
                Ok((v, next)) => r matches Ok((w, n)) && w == v && n == next,
                Err(e) => r == Err::<(ChargeBatteryExtendedMode, usize), UebaError>(e),
            },
    {
        if pos >= input.len() {
            return Err(UebaError::UnexpectedEnd);
        }
        match input[pos] {
            0 => Ok((ChargeBatteryExtendedMode::Auto, pos + 1)),
            1 => Ok((ChargeBatteryExtendedMode::Forced, pos + 1)),
            2 => Ok((ChargeBatteryExtendedMode::Disabled, pos + 1)),
            t => Err(UebaError::UnknownEnumTag(t)),
        }
    }
}

impl std::str::FromStr for ChargeBatteryExtendedMode {
    type Err = String;

    fn from_str(s: &str) -> (r: Result<Self, Self::Err>)
        ensures
            match r {
                Ok(v) => spec_charge_battery_extended_mode_parse(s@) == Some(v),
                Err(message) => spec_charge_battery_extended_mode_parse(s@) is None && message@ == "Unknown variant: "@ + s@,
            },
    {
        Self::parse(s)
    }
}

/// Every variant's wire name parses back to that variant.
pub proof fn lemma_charge_battery_extended_mode_name_round_trip(x: ChargeBatteryExtendedMode)
    ensures
        spec_charge_battery_extended_mode_parse(spec_charge_battery_extended_mode_name(x)) == Some(x),
{
    reveal_strlit("Auto");
    assert("Auto"@.len() == 4);
    assert("Auto"@[0] == 'A');

    reveal_strlit("Forced");
    assert("Forced"@.len() == 6);
    assert("Forced"@[0] == 'F');

    reveal_strlit("Disabled");
    assert("Disabled"@.len() == 8);
    assert("Disabled"@[0] == 'D');
}

/// A string parses to a variant only if it is that variant's wire name.
pub proof fn lemma_charge_battery_extended_mode_parse_only_names(s: Seq<char>)
    ensures
        spec_charge_battery_extended_mode_parse(s) matches Some(x) ==> spec_charge_battery_extended_mode_name(x) == s,
{
}

/// Decoding what was just encoded, after any prefix, gives the value back
/// and the position just past it.
pub proof fn lemma_charge_battery_extended_mode_ueba_round_trip(x: ChargeBatteryExtendedMode, prefix: Seq<u8>)
    ensures
        spec_charge_battery_extended_mode_decode(prefix.push(spec_charge_battery_extended_mode_tag(x)), prefix.len() as int) == Ok::<(ChargeBatteryExtendedMode, int), UebaError>((x, prefix.len() as int + 1)),
{
}

/// The UEBA tag of each variant is its declaration index
/// (`Auto` 0, `Forced` 1, `Disabled` 2), and no other byte
/// names a variant.
pub proof fn lemma_charge_battery_extended_mode_tags_are_declaration_indices(t: u8)
    ensures
        spec_charge_battery_extended_mode_tag(ChargeBatteryExtendedMode::Auto) == 0u8,
        spec_charge_battery_extended_mode_tag(ChargeBatteryExtendedMode::Forced) == 1u8,
        spec_charge_battery_extended_mode_tag(ChargeBatteryExtendedMode::Disabled) == 2u8,
        spec_charge_battery_extended_mode_from_tag(0u8) == Some(ChargeBatteryExtendedMode::Auto),
        spec_charge_battery_extended_mode_from_tag(1u8) == Some(ChargeBatteryExtendedMode::Forced),
        spec_charge_battery_extended_mode_from_tag(2u8) == Some(ChargeBatteryExtendedMode::Disabled),
        t >= 3 ==> spec_charge_battery_extended_mode_from_tag(t) is None,
{
}

} // verus!
