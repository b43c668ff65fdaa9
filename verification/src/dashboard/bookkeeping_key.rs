//! Wire keys of the persisted bookkeeping fields.

use vstd::prelude::*;
use vstd::string::StringExecFns;

use super::ueba::UebaError;
use crate::text::str_eq;

verus! {

#[derive(Clone, Copy, Debug, PartialEq, Eq, Structural, Hash, PartialOrd, Ord)]
pub enum BookkeepingKey {
    NextFullCharge,
    AboveSocDate,
    PrevEssState,
    ChargeToFullRequired,
}

/// Wire name of each variant.
pub open spec fn spec_bookkeeping_key_name(x: BookkeepingKey) -> Seq<char> {
    match x {
        BookkeepingKey::NextFullCharge => "NextFullCharge"@,
        BookkeepingKey::AboveSocDate => "AboveSocDate"@,
        BookkeepingKey::PrevEssState => "PrevEssState"@,
        BookkeepingKey::ChargeToFullRequired => "ChargeToFullRequired"@,
    }
}

/// The variant a wire name denotes, if any.
pub open spec fn spec_bookkeeping_key_parse(s: Seq<char>) -> Option<BookkeepingKey> {
    if s == "NextFullCharge"@ {
        Some(BookkeepingKey::NextFullCharge)
    } else if s == "AboveSocDate"@ {
        Some(BookkeepingKey::AboveSocDate)
    } else if s == "PrevEssState"@ {
        Some(BookkeepingKey::PrevEssState)
    } else if s == "ChargeToFullRequired"@ {
        Some(BookkeepingKey::ChargeToFullRequired)
    } else {
        None
    }
}

/// UEBA tag byte of each variant.
pub open spec fn spec_bookkeeping_key_tag(x: BookkeepingKey) -> u8 {
    match x {
        BookkeepingKey::NextFullCharge => 0,
        BookkeepingKey::AboveSocDate => 1,
        BookkeepingKey::PrevEssState => 2,
        BookkeepingKey::ChargeToFullRequired => 3,
    }
}

/// The variant a UEBA tag byte denotes, if any.
pub open spec fn spec_bookkeeping_key_from_tag(t: u8) -> Option<BookkeepingKey> {
    match t {
        0 => Some(BookkeepingKey::NextFullCharge),
        1 => Some(BookkeepingKey::AboveSocDate),
        2 => Some(BookkeepingKey::PrevEssState),
        3 => Some(BookkeepingKey::ChargeToFullRequired),
        _ => None,
    }
}

/// Decoding one value from `input` at `pos`: the value and the position
/// after it.
pub open spec fn spec_bookkeeping_key_decode(input: Seq<u8>, pos: int) -> Result<(BookkeepingKey, int), UebaError> {
    if pos < 0 || pos >= input.len() {
        Err(UebaError::UnexpectedEnd)
    } else {
        match spec_bookkeeping_key_from_tag(input[pos]) {
            Some(v) => Ok((v, pos + 1)),
            None => Err(UebaError::UnknownEnumTag(input[pos])),
        }
    }
}

impl BookkeepingKey {
    /// The variant named `s`; `Err("Unknown variant: <s>")` otherwise.
    pub fn parse(s: &str) -> (r: Result<BookkeepingKey, String>)
        ensures
            match r {
                Ok(v) => spec_bookkeeping_key_parse(s@) == Some(v),
                Err(message) => spec_bookkeeping_key_parse(s@) is None && message@ == "Unknown variant: "@
                    + s@,
            },
    {
        if str_eq(s, "NextFullCharge") {
            Ok(BookkeepingKey::NextFullCharge)
        } else if str_eq(s, "AboveSocDate") {
            Ok(BookkeepingKey::AboveSocDate)
        } else if str_eq(s, "PrevEssState") {
            Ok(BookkeepingKey::PrevEssState)
        } else if str_eq(s, "ChargeToFullRequired") {
            Ok(BookkeepingKey::ChargeToFullRequired)
        } else {
            let mut message = String::from_str("Unknown variant: ");
            message.append(s);
            Err(message)
        }
    }

    /// Every variant, in declaration order.
    pub fn all() -> (v: Vec<BookkeepingKey>)
        ensures
            v@ == seq![BookkeepingKey::NextFullCharge, BookkeepingKey::AboveSocDate, BookkeepingKey::PrevEssState, BookkeepingKey::ChargeToFullRequired],
    {
        let v = vec![BookkeepingKey::NextFullCharge, BookkeepingKey::AboveSocDate, BookkeepingKey::PrevEssState, BookkeepingKey::ChargeToFullRequired];
        assert(v@ =~= seq![BookkeepingKey::NextFullCharge, BookkeepingKey::AboveSocDate, BookkeepingKey::PrevEssState, BookkeepingKey::ChargeToFullRequired]);
        v
    }

    /// Wire name of this variant (what `Display` prints).
    pub fn wire_name(&self) -> (s: &'static str)
        ensures
            s@ == spec_bookkeeping_key_name(*self),
    {
        match self {
            BookkeepingKey::NextFullCharge => "NextFullCharge",
            BookkeepingKey::AboveSocDate => "AboveSocDate",
            BookkeepingKey::PrevEssState => "PrevEssState",
            BookkeepingKey::ChargeToFullRequired => "ChargeToFullRequired",
        }
    }

    /// An enum carries no indexed fields.
    pub fn index_elements_count() -> (n: u16)
        ensures
            n == 0,
    {
        0
    }

    /// Append this value's UEBA encoding, its tag byte, to `out`.
    pub fn encode_ueba(&self, out: &mut Vec<u8>)
        ensures
            final(out)@ == old(out)@.push(spec_bookkeeping_key_tag(*self)),
            *self == BookkeepingKey::NextFullCharge ==> final(out)@ == old(out)@.push(0u8),
            *self == BookkeepingKey::AboveSocDate ==> final(out)@ == old(out)@.push(1u8),
            *self == BookkeepingKey::PrevEssState ==> final(out)@ == old(out)@.push(2u8),
            *self == BookkeepingKey::ChargeToFullRequired ==> final(out)@ == old(out)@.push(3u8),
    {
        let tag: u8 = match self {
            BookkeepingKey::NextFullCharge => 0,
            BookkeepingKey::AboveSocDate => 1,
            BookkeepingKey::PrevEssState => 2,
            BookkeepingKey::ChargeToFullRequired => 3,
        };
        out.push(tag);
    }

    /// Decode one value from `input` at `pos`, returning it with the
    /// position after it.
    pub fn decode_ueba(input: &[u8], pos: usize) -> (r: Result<(BookkeepingKey, usize), UebaError>)
        ensures
            pos >= input@.len() ==> r == Err::<(BookkeepingKey, usize), UebaError>(UebaError::UnexpectedEnd),
            pos < input@.len() && input@[pos as int] == 0u8 ==> r == Ok::<(BookkeepingKey, usize), UebaError>((BookkeepingKey::NextFullCharge, (pos + 1) as usize)),
            pos < input@.len() && input@[pos as int] == 1u8 ==> r == Ok::<(BookkeepingKey, usize), UebaError>((BookkeepingKey::AboveSocDate, (pos + 1) as usize)),
            pos < input@.len() && input@[pos as int] == 2u8 ==> r == Ok::<(BookkeepingKey, usize), UebaError>((BookkeepingKey::PrevEssState, (pos + 1) as usize)),
            pos < input@.len() && input@[pos as int] == 3u8 ==> r == Ok::<(BookkeepingKey, usize), UebaError>((BookkeepingKey::ChargeToFullRequired, (pos + 1) as usize)),
            pos < input@.len() && input@[pos as int] >= 4u8 ==> r == Err::<(BookkeepingKey, usize), UebaError>(UebaError::UnknownEnumTag(input@[pos as int])),
            match spec_bookkeeping_key_decode(input@, pos as int) {
                Ok((v, next)) => r matches Ok((w, n)) && w == v && n == next,
                Err(e) => r == Err::<(BookkeepingKey, usize), UebaError>(e),
            },
    {
        if pos >= input.len() {
            return Err(UebaError::UnexpectedEnd);
        }
        match input[pos] {
            0 => Ok((BookkeepingKey::NextFullCharge, pos + 1)),
            1 => Ok((BookkeepingKey::AboveSocDate, pos + 1)),
            2 => Ok((BookkeepingKey::PrevEssState, pos + 1)),
            3 => Ok((BookkeepingKey::ChargeToFullRequired, pos + 1)),
            t => Err(UebaError::UnknownEnumTag(t)),
        }
    }
}

impl std::str::FromStr for BookkeepingKey {
    type Err = String;

    fn from_str(s: &str) -> (r: Result<Self, Self::Err>)
        ensures
            match r {
                Ok(v) => spec_bookkeeping_key_parse(s@) == Some(v),
                Err(message) => spec_bookkeeping_key_parse(s@) is None && message@ == "Unknown variant: "@ + s@,
            },
    {
        Self::parse(s)
    }
}

/// Every variant's wire name parses back to that variant.
pub proof fn lemma_bookkeeping_key_name_round_trip(x: BookkeepingKey)
    ensures
        spec_bookkeeping_key_parse(spec_bookkeeping_key_name(x)) == Some(x),
{
    reveal_strlit("NextFullCharge");
    assert("NextFullCharge"@.len() == 14);
    assert("NextFullCharge"@[0] == 'N');

    reveal_strlit("AboveSocDate");
    assert("AboveSocDate"@.len() == 12);
    assert("AboveSocDate"@[0] == 'A');

    reveal_strlit("PrevEssState");
    assert("PrevEssState"@.len() == 12);
    assert("PrevEssState"@[0] == 'P');

    reveal_strlit("ChargeToFullRequired");
    assert("ChargeToFullRequired"@.len() == 20);
    assert("ChargeToFullRequired"@[0] == 'C');
}

/// A string parses to a variant only if it is that variant's wire name.
pub proof fn lemma_bookkeeping_key_parse_only_names(s: Seq<char>)
    ensures
        spec_bookkeeping_key_parse(s) matches Some(x) ==> spec_bookkeeping_key_name(x) == s,
{
}

/// Decoding what was just encoded, after any prefix, gives the value back
/// and the position just past it.
pub proof fn lemma_bookkeeping_key_ueba_round_trip(x: BookkeepingKey, prefix: Seq<u8>)
    ensures
        spec_bookkeeping_key_decode(prefix.push(spec_bookkeeping_key_tag(x)), prefix.len() as int) == Ok::<(BookkeepingKey, int), UebaError>((x, prefix.len() as int + 1)),
{
}

/// The UEBA tag of each variant is its declaration index
/// (`NextFullCharge` 0, `AboveSocDate` 1, `PrevEssState` 2, `ChargeToFullRequired` 3), and no other byte
/// names a variant.
pub proof fn lemma_bookkeeping_key_tags_are_declaration_indices(t: u8)
    ensures
        spec_bookkeeping_key_tag(BookkeepingKey::NextFullCharge) == 0u8,
        spec_bookkeeping_key_tag(BookkeepingKey::AboveSocDate) == 1u8,
        spec_bookkeeping_key_tag(BookkeepingKey::PrevEssState) == 2u8,
        spec_bookkeeping_key_tag(BookkeepingKey::ChargeToFullRequired) == 3u8,
        spec_bookkeeping_key_from_tag(0u8) == Some(BookkeepingKey::NextFullCharge),
        spec_bookkeeping_key_from_tag(1u8) == Some(BookkeepingKey::AboveSocDate),
        spec_bookkeeping_key_from_tag(2u8) == Some(BookkeepingKey::PrevEssState),
        spec_bookkeeping_key_from_tag(3u8) == Some(BookkeepingKey::ChargeToFullRequired),
        t >= 4 ==> spec_bookkeeping_key_from_tag(t) is None,
{
}

} // verus!
