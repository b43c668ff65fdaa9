//! Cell-addressing vocabulary for the 6×2 weather-SoC lookup table: the
//! three sibling enums `EnergyBucket` / `TempCol` / `CellField` and the
//! kebab-case wire tokens every plumbing layer uses (MQTT topic tail,
//! dashboard display name, HA discovery id).

use vstd::prelude::*;

use crate::text::str_eq;

verus! {

/// Six energy buckets along the kWh axis; `<=` at the top of each band,
/// `>` at the bottom.
///
/// - VerySunny: `today_energy > very_sunny_threshold`
/// - Sunny: `(too_much, very_sunny_threshold]`
/// - Mid: `(high, too_much]`
/// - Low: `(ok, high]`
/// - Dim: `(low, ok]`
/// - VeryDim: `<= low`
#[derive(Clone, Copy, Debug, PartialEq, Eq, Structural, Hash)]
pub enum EnergyBucket {
    VerySunny,
    Sunny,
    Mid,
    Low,
    Dim,
    VeryDim,
}

/// Two temperature columns: warm (`today_temp > winter_threshold`) and
/// cold (`<= winter_threshold`).
#[derive(Clone, Copy, Debug, PartialEq, Eq, Structural, Hash)]
pub enum TempCol {
    Warm,
    Cold,
}

/// Four operator-tunable fields per cell: three percentages and the
/// `Extended` flag.
#[derive(Clone, Copy, Debug, PartialEq, Eq, Structural, Hash)]
pub enum CellField {
    ExportSocThreshold,
    BatterySocTarget,
    DischargeSocTarget,
    Extended,
}

pub open spec fn spec_bucket_label(b: EnergyBucket) -> Seq<char> {
    match b {
        EnergyBucket::VerySunny => "VerySunny"@,
        EnergyBucket::Sunny => "Sunny"@,
        EnergyBucket::Mid => "Mid"@,
        EnergyBucket::Low => "Low"@,
        EnergyBucket::Dim => "Dim"@,
        EnergyBucket::VeryDim => "VeryDim"@,
    }
}

pub open spec fn spec_bucket_kebab(b: EnergyBucket) -> Seq<char> {
    match b {
        EnergyBucket::VerySunny => "very-sunny"@,
        EnergyBucket::Sunny => "sunny"@,
        EnergyBucket::Mid => "mid"@,
        EnergyBucket::Low => "low"@,
        EnergyBucket::Dim => "dim"@,
        EnergyBucket::VeryDim => "very-dim"@,
    }
}

pub open spec fn spec_bucket_from_kebab(s: Seq<char>) -> Option<EnergyBucket> {
    if s == "very-sunny"@ {
        Some(EnergyBucket::VerySunny)
    } else if s == "sunny"@ {
        Some(EnergyBucket::Sunny)
    } else if s == "mid"@ {
        Some(EnergyBucket::Mid)
    } else if s == "low"@ {
        Some(EnergyBucket::Low)
    } else if s == "dim"@ {
        Some(EnergyBucket::Dim)
    } else if s == "very-dim"@ {
        Some(EnergyBucket::VeryDim)
    } else {
        None
    }
}

pub open spec fn spec_temp_kebab(t: TempCol) -> Seq<char> {
    match t {
        TempCol::Warm => "warm"@,
        TempCol::Cold => "cold"@,
    }
}

pub open spec fn spec_temp_from_kebab(s: Seq<char>) -> Option<TempCol> {
    if s == "warm"@ {
        Some(TempCol::Warm)
    } else if s == "cold"@ {
        Some(TempCol::Cold)
    } else {
        None
    }
}

pub open spec fn spec_field_kebab(f: CellField) -> Seq<char> {
    match f {
        CellField::ExportSocThreshold => "export-soc-threshold"@,
        CellField::BatterySocTarget => "battery-soc-target"@,
        CellField::DischargeSocTarget => "discharge-soc-target"@,
        CellField::Extended => "extended"@,
    }
}

pub open spec fn spec_field_from_kebab(s: Seq<char>) -> Option<CellField> {
    if s == "export-soc-threshold"@ {
        Some(CellField::ExportSocThreshold)
    } else if s == "battery-soc-target"@ {
        Some(CellField::BatterySocTarget)
    } else if s == "discharge-soc-target"@ {
        Some(CellField::DischargeSocTarget)
    } else if s == "extended"@ {
        Some(CellField::Extended)
    } else {
        None
    }
}

impl EnergyBucket {
    /// Every bucket, from the sunniest down.
    pub fn all() -> (v: Vec<EnergyBucket>)
        ensures
            v@ == seq![
                EnergyBucket::VerySunny,
                EnergyBucket::Sunny,
                EnergyBucket::Mid,
                EnergyBucket::Low,
                EnergyBucket::Dim,
                EnergyBucket::VeryDim,
            ],
    {
        let v = vec![
            EnergyBucket::VerySunny,
            EnergyBucket::Sunny,
            EnergyBucket::Mid,
            EnergyBucket::Low,
            EnergyBucket::Dim,
            EnergyBucket::VeryDim,
        ];
        assert(v@ =~= seq![
            EnergyBucket::VerySunny,
            EnergyBucket::Sunny,
            EnergyBucket::Mid,
            EnergyBucket::Low,
            EnergyBucket::Dim,
            EnergyBucket::VeryDim,
        ]);
        v
    }

    /// Display label used in decision summaries.
    pub fn label(self) -> (s: &'static str)
        ensures
            s@ == spec_bucket_label(self),
    {
        match self {
            EnergyBucket::VerySunny => "VerySunny",
            EnergyBucket::Sunny => "Sunny",
            EnergyBucket::Mid => "Mid",
            EnergyBucket::Low => "Low",
            EnergyBucket::Dim => "Dim",
            EnergyBucket::VeryDim => "VeryDim",
        }
    }

    /// Kebab-case wire token.
    pub fn kebab(self) -> (s: &'static str)
        ensures
            s@ == spec_bucket_kebab(self),
    {
        match self {
            EnergyBucket::VerySunny => "very-sunny",
            EnergyBucket::Sunny => "sunny",
            EnergyBucket::Mid => "mid",
            EnergyBucket::Low => "low",
            EnergyBucket::Dim => "dim",
            EnergyBucket::VeryDim => "very-dim",
        }
    }

    /// Inverse of [`Self::kebab`]; `None` for any other token.
    pub fn from_kebab(s: &str) -> (r: Option<EnergyBucket>)
        ensures
            r == spec_bucket_from_kebab(s@),
    {
        if str_eq(s, "very-sunny") {
            Some(EnergyBucket::VerySunny)
        } else if str_eq(s, "sunny") {
            Some(EnergyBucket::Sunny)
        } else if str_eq(s, "mid") {
            Some(EnergyBucket::Mid)
        } else if str_eq(s, "low") {
            Some(EnergyBucket::Low)
        } else if str_eq(s, "dim") {
            Some(EnergyBucket::Dim)
        } else if str_eq(s, "very-dim") {
            Some(EnergyBucket::VeryDim)
        } else {
            None
        }
    }
}

impl TempCol {
    /// Both columns, warm first.
    pub fn all() -> (v: Vec<TempCol>)
        ensures
            v@ == seq![TempCol::Warm, TempCol::Cold],
    {
        let v = vec![TempCol::Warm, TempCol::Cold];
        assert(v@ =~= seq![TempCol::Warm, TempCol::Cold]);
        v
    }

    /// Kebab-case wire token.
    pub fn kebab(self) -> (s: &'static str)
        ensures
            s@ == spec_temp_kebab(self),
    {
        match self {
            TempCol::Warm => "warm",
            TempCol::Cold => "cold",
        }
    }

    /// Inverse of [`Self::kebab`]; `None` for any other token.
    pub fn from_kebab(s: &str) -> (r: Option<TempCol>)
        ensures
            r == spec_temp_from_kebab(s@),
    {
        if str_eq(s, "warm") {
            Some(TempCol::Warm)
        } else if str_eq(s, "cold") {
            Some(TempCol::Cold)
        } else {
            None
        }
    }
}

impl CellField {
    /// Every field, in table order.
    pub fn all() -> (v: Vec<CellField>)
        ensures
            v@ == seq![
                CellField::ExportSocThreshold,
                CellField::BatterySocTarget,
                CellField::DischargeSocTarget,
                CellField::Extended,
            ],
    {
        let v = vec![
            CellField::ExportSocThreshold,
            CellField::BatterySocTarget,
            CellField::DischargeSocTarget,
            CellField::Extended,
        ];
        assert(v@ =~= seq![
            CellField::ExportSocThreshold,
            CellField::BatterySocTarget,
            CellField::DischargeSocTarget,
            CellField::Extended,
        ]);
        v
    }

    /// Kebab-case wire token.
    pub fn kebab(self) -> (s: &'static str)
        ensures
            s@ == spec_field_kebab(self),
    {
        match self {
            CellField::ExportSocThreshold => "export-soc-threshold",
            CellField::BatterySocTarget => "battery-soc-target",
            CellField::DischargeSocTarget => "discharge-soc-target",
            CellField::Extended => "extended",
        }
    }

    /// Inverse of [`Self::kebab`]; `None` for any other token.
    pub fn from_kebab(s: &str) -> (r: Option<CellField>)
        ensures
            r == spec_field_from_kebab(s@),
    {
        if str_eq(s, "export-soc-threshold") {
            Some(CellField::ExportSocThreshold)
        } else if str_eq(s, "battery-soc-target") {
            Some(CellField::BatterySocTarget)
        } else if str_eq(s, "discharge-soc-target") {
            Some(CellField::DischargeSocTarget)
        } else if str_eq(s, "extended") {
            Some(CellField::Extended)
        } else {
            None
        }
    }

    /// True if the field carries a percentage; false for the `Extended`
    /// flag.
    pub fn is_float(self) -> (r: bool)
        ensures
            r <==> !(self is Extended),
    {
        match self {
            CellField::ExportSocThreshold
            | CellField::BatterySocTarget
            | CellField::DischargeSocTarget => true,
            CellField::Extended => false,
        }
    }
}

/// Every bucket's wire token parses back to that bucket, so the tokens
/// are also pairwise distinct.
pub proof fn lemma_bucket_kebab_round_trip(b: EnergyBucket)
    ensures
        spec_bucket_from_kebab(spec_bucket_kebab(b)) == Some(b),
{
    reveal_strlit("very-sunny");
    assert("very-sunny"@.len() == 10);
    assert("very-sunny"@[0] == 'v');
    reveal_strlit("sunny");
    assert("sunny"@.len() == 5);
    assert("sunny"@[0] == 's');
    reveal_strlit("mid");
    assert("mid"@.len() == 3);
    assert("mid"@[0] == 'm');
    reveal_strlit("low");
    assert("low"@.len() == 3);
    assert("low"@[0] == 'l');
    reveal_strlit("dim");
    assert("dim"@.len() == 3);
    assert("dim"@[0] == 'd');
    reveal_strlit("very-dim");
    assert("very-dim"@.len() == 8);
    assert("very-dim"@[0] == 'v');
}

/// A token parses to a bucket only if it is that bucket's wire token.
pub proof fn lemma_bucket_from_kebab_only_tokens(s: Seq<char>)
    ensures
        spec_bucket_from_kebab(s) matches Some(b) ==> spec_bucket_kebab(b) == s,
{
}

/// Every column's wire token parses back to that column.
pub proof fn lemma_temp_kebab_round_trip(t: TempCol)
    ensures
        spec_temp_from_kebab(spec_temp_kebab(t)) == Some(t),
{
    reveal_strlit("warm");
    assert("warm"@.len() == 4);
    assert("warm"@[0] == 'w');
    reveal_strlit("cold");
    assert("cold"@.len() == 4);
    assert("cold"@[0] == 'c');
}

/// A token parses to a column only if it is that column's wire token.
pub proof fn lemma_temp_from_kebab_only_tokens(s: Seq<char>)
    ensures
        spec_temp_from_kebab(s) matches Some(t) ==> spec_temp_kebab(t) == s,
{
}

/// Every field's wire token parses back to that field.
pub proof fn lemma_field_kebab_round_trip(f: CellField)
    ensures
        spec_field_from_kebab(spec_field_kebab(f)) == Some(f),
{
    reveal_strlit("export-soc-threshold");
    assert("export-soc-threshold"@.len() == 20);
    assert("export-soc-threshold"@[0] == 'e');
    reveal_strlit("battery-soc-target");
    assert("battery-soc-target"@.len() == 18);
    assert("battery-soc-target"@[0] == 'b');
    reveal_strlit("discharge-soc-target");
    assert("discharge-soc-target"@.len() == 20);
    assert("discharge-soc-target"@[0] == 'd');
    reveal_strlit("extended");
    assert("extended"@.len() == 8);
    assert("extended"@[0] == 'e');
}

/// A token parses to a field only if it is that field's wire token.
pub proof fn lemma_field_from_kebab_only_tokens(s: Seq<char>)
    ensures
        spec_field_from_kebab(s) matches Some(f) ==> spec_field_kebab(f) == s,
{
}

} // verus!
