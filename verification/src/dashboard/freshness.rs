//! Wire form of an observation's freshness.

use vstd::prelude::*;
use vstd::string::StringExecFns;

use super::ueba::UebaError;
use crate::text::str_eq;

verus! {

#[derive(Clone, Copy, Debug, PartialEq, Eq, Structural, Hash, PartialOrd, Ord)]
pub enum Freshness {
    Unknown,
    Fresh,
    Stale,
    Deprecated,
}

/// Wire name of each variant.
pub open spec fn spec_freshness_name(x: Freshness) -> Seq<char> {
    match x {
        Freshness::Unknown => "Unknown"@,
        Freshness::Fresh => "Fresh"@,
        Freshness::Stale => "Stale"@,
        Freshness::Deprecated => "Deprecated"@,
    }
}

/// The variant a wire name denotes, if any.
pub open spec fn spec_freshness_parse(s: Seq<char>) -> Option<Freshness> {
    if s == "Unknown"@ {
        Some(Freshness::Unknown)
    } else if s == "Fresh"@ {
        Some(Freshness::Fresh)
    } else if s == "Stale"@ {
        Some(Freshness::Stale)
    } else if s == "Deprecated"@ {
        Some(Freshness::Deprecated)
    } else {
        None
    }
}

/// UEBA tag byte of each variant.
pub open spec fn spec_freshness_tag(x: Freshness) -> u8 {
    match x {
        Freshness::Unknown => 0,
        Freshness::Fresh => 1,
        Freshness::Stale => 2,
        Freshness::Deprecated => 3,
    }
}

/// The variant a UEBA tag byte denotes, if any.
pub open spec fn spec_freshness_from_tag(t: u8) -> Option<Freshness> {
    match t {
        0 => Some(Freshness::Unknown),
        1 => Some(Freshness::Fresh),
        2 => Some(Freshness::Stale),
        3 => Some(Freshness::Deprecated),
        _ => None,
    }
}

/// Decoding one value from `input` at `pos`: the value and the position
/// after it.
pub open spec fn spec_freshness_decode(input: Seq<u8>, pos: int) -> Result<(Freshness, int), UebaError> {
    if pos < 0 || pos >= input.len() {
        Err(UebaError::UnexpectedEnd)
    } else {
        match spec_freshness_from_tag(input[pos]) {
            Some(v) => Ok((v, pos + 1)),
            None => Err(UebaError::UnknownEnumTag(input[pos])),
        }
    }
}

impl Freshness {
    /// The variant named `s`; `Err("Unknown variant: <s>")` otherwise.
    pub fn parse(s: &str) -> (r: Result<Freshness, String>)
        ensures
            match r {
                Ok(v) => spec_freshness_parse(s@) == Some(v),
                Err(message) => spec_freshness_parse(s@) is None && message@ == "Unknown variant: "@
                    + s@,
            },
    {
        if str_eq(s, "Unknown") {
            Ok(Freshness::Unknown)
        } else if str_eq(s, "Fresh") {
            Ok(Freshness::Fresh)
        } else if str_eq(s, "Stale") {
            Ok(Freshness::Stale)
        } else if str_eq(s, "Deprecated") {
            Ok(Freshness::Deprecated)
        } else {
            let mut message = String::from_str("Unknown variant: ");
            message.append(s);
            Err(message)
        }
    }

    /// Every variant, in declaration order.
    pub fn all() -> (v: Vec<Freshness>)
        ensures
            v@ == seq![Freshness::Unknown, Freshness::Fresh, Freshness::Stale, Freshness::Deprecated],
    {
        let v = vec![Freshness::Unknown, Freshness::Fresh, Freshness::Stale, Freshness::Deprecated];
        assert(v@ =~= seq![Freshness::Unknown, Freshness::Fresh, Freshness::Stale, Freshness::Deprecated]);
        v
    }

    /// Wire name of this variant (what `Display` prints).
    pub fn wire_name(&self) -> (s: &'static str)
        ensures
            s@ == spec_freshness_name(*self),
    {
        match self {
            Freshness::Unknown => "Unknown",
            Freshness::Fresh => "Fresh",
            Freshness::Stale => "Stale",
            Freshness::Deprecated => "Deprecated",
        }
    }

    /// An enum carries no indexed fields.
    pub fn index_elements_count() -> (n: u16)
        ensures
            n == 0,
    {
        0
    }

    /// Append this value's UEBA encoding, its tag byte, to `out`.
    pub fn encode_ueba(&self, out: &mut Vec<u8>)
        ensures
            final(out)@ == old(out)@.push(spec_freshness_tag(*self)),
            *self == Freshness::Unknown ==> final(out)@ == old(out)@.push(0u8),
            *self == Freshness::Fresh ==> final(out)@ == old(out)@.push(1u8),
            *self == Freshness::Stale ==> final(out)@ == old(out)@.push(2u8),
            *self == Freshness::Deprecated ==> final(out)@ == old(out)@.push(3u8),
    {
        let tag: u8 = match self {
            Freshness::Unknown => 0,
            Freshness::Fresh => 1,
            Freshness::Stale => 2,
            Freshness::Deprecated => 3,
        };
        out.push(tag);
    }

    /// Decode one value from `input` at `pos`, returning it with the
    /// position after it.
    pub fn decode_ueba(input: &[u8], pos: usize) -> (r: Result<(Freshness, usize), UebaError>)
        ensures
            pos >= input@.len() ==> r == Err::<(Freshness, usize), UebaError>(UebaError::UnexpectedEnd),
            pos < input@.len() && input@[pos as int] == 0u8 ==> r == Ok::<(Freshness, usize), UebaError>((Freshness::Unknown, (pos + 1) as usize)),
            pos < input@.len() && input@[pos as int] == 1u8 ==> r == Ok::<(Freshness, usize), UebaError>((Freshness::Fresh, (pos + 1) as usize)),
            pos < input@.len() && input@[pos as int] == 2u8 ==> r == Ok::<(Freshness, usize), UebaError>((Freshness::Stale, (pos + 1) as usize)),
            pos < input@.len() && input@[pos as int] == 3u8 ==> r == Ok::<(Freshness, usize), UebaError>((Freshness::Deprecated, (pos + 1) as usize)),
            pos < input@.len() && input@[pos as int] >= 4u8 ==> r == Err::<(Freshness, usize), UebaError>(UebaError::UnknownEnumTag(input@[pos as int])),
            match spec_freshness_decode(input@, pos as int) {
                Ok((v, next)) => r matches Ok((w, n)) && w == v && n == next,
                Err(e) => r == Err::<(Freshness, usize), UebaError>(e),
            },
    {
        if pos >= input.len() {
            return Err(UebaError::UnexpectedEnd);
        }
        match input[pos] {
            0 => Ok((Freshness::Unknown, pos + 1)),
            1 => Ok((Freshness::Fresh, pos + 1)),
            2 => Ok((Freshness::Stale, pos + 1)),
            3 => Ok((Freshness::Deprecated, pos + 1)),
            t => Err(UebaError::UnknownEnumTag(t)),
        }
    }
}

impl std::str::FromStr for Freshness {
    type Err = String;

    fn from_str(s: &str) -> (r: Result<Self, Self::Err>)
        ensures
            match r {
                Ok(v) => spec_freshness_parse(s@) == Some(v),
                Err(message) => spec_freshness_parse(s@) is None && message@ == "Unknown variant: "@ + s@,
            },
    {
        Self::parse(s)
    }
}

/// Every variant's wire name parses back to that variant.
pub proof fn lemma_freshness_name_round_trip(x: Freshness)
    ensures
        spec_freshness_parse(spec_freshness_name(x)) == Some(x),
{
    reveal_strlit("Unknown");
    assert("Unknown"@.len() == 7);
    assert("Unknown"@[0] == 'U');

    reveal_strlit("Fresh");
    assert("Fresh"@.len() == 5);
    assert("Fresh"@[0] == 'F');

    reveal_strlit("Stale");
    assert("Stale"@.len() == 5);
    assert("Stale"@[0] == 'S');

    reveal_strlit("Deprecated");
    assert("Deprecated"@.len() == 10);
    assert("Deprecated"@[0] == 'D');
}

/// A string parses to a variant only if it is that variant's wire name.
pub proof fn lemma_freshness_parse_only_names(s: Seq<char>)
    ensures
        spec_freshness_parse(s) matches Some(x) ==> spec_freshness_name(x) == s,
{
}

/// Decoding what was just encoded, after any prefix, gives the value back
/// and the position just past it.
pub proof fn lemma_freshness_ueba_round_trip(x: Freshness, prefix: Seq<u8>)
    ensures
        spec_freshness_decode(prefix.push(spec_freshness_tag(x)), prefix.len() as int) == Ok::<(Freshness, int), UebaError>((x, prefix.len() as int + 1)),
{
}

/// The UEBA tag of each variant is its declaration index
/// (`Unknown` 0, `Fresh` 1, `Stale` 2, `Deprecated` 3), and no other byte
/// names a variant.
pub proof fn lemma_freshness_tags_are_declaration_indices(t: u8)
    ensures
        spec_freshness_tag(Freshness::Unknown) == 0u8,
        spec_freshness_tag(Freshness::Fresh) == 1u8,
        spec_freshness_tag(Freshness::Stale) == 2u8,
        spec_freshness_tag(Freshness::Deprecated) == 3u8,
        spec_freshness_from_tag(0u8) == Some(Freshness::Unknown),
        spec_freshness_from_tag(1u8) == Some(Freshness::Fresh),
        spec_freshness_from_tag(2u8) == Some(Freshness::Stale),
        spec_freshness_from_tag(3u8) == Some(Freshness::Deprecated),
        t >= 4 ==> spec_freshness_from_tag(t) is None,
{
}

} // verus!
