use vstd::prelude::*;

verus! {

use crate::errors::SettingField;
use crate::errors::SettingsError;

/// The closed set of selectable backend models.
#[derive(Clone, Copy, Debug, PartialEq, Eq, Structural)]
pub enum OpenAIModel {
    ThreePointFiveTurbo,
    Four,
    FourTurbo,
}

/// The canonical wire identifier of a variant: the stable string used in
/// serialized form and in outbound requests.
pub open spec fn spec_full_name(m: OpenAIModel) -> Seq<char> {
    match m {
        OpenAIModel::ThreePointFiveTurbo => "gpt-3.5-turbo-0613"@,
        OpenAIModel::Four => "gpt-4-0613"@,
        OpenAIModel::FourTurbo => "gpt-4-1106-preview"@,
    }
}

/// The short user-facing label of a variant.
pub open spec fn spec_short_name(m: OpenAIModel) -> Seq<char> {
    match m {
        OpenAIModel::ThreePointFiveTurbo => "gpt-3.5-turbo"@,
        OpenAIModel::Four => "gpt-4"@,
        OpenAIModel::FourTurbo => "gpt-4-turbo"@,
    }
}

/// The successor of a variant in the fixed cyclic order.
pub open spec fn spec_cycle(m: OpenAIModel) -> OpenAIModel {
    match m {
        OpenAIModel::ThreePointFiveTurbo => OpenAIModel::Four,
        OpenAIModel::Four => OpenAIModel::FourTurbo,
        OpenAIModel::FourTurbo => OpenAIModel::ThreePointFiveTurbo,
    }
}

/// Which variant, if any, a wire identifier denotes.
pub open spec fn spec_model_of_id(s: Seq<char>) -> Option<OpenAIModel> {
    if s == spec_full_name(OpenAIModel::ThreePointFiveTurbo) {
        Some(OpenAIModel::ThreePointFiveTurbo)
    } else if s == spec_full_name(OpenAIModel::Four) {
        Some(OpenAIModel::Four)
    } else if s == spec_full_name(OpenAIModel::FourTurbo) {
        Some(OpenAIModel::FourTurbo)
    } else {
        None
    }
}

impl OpenAIModel {
    /// The canonical wire identifier of this variant.
    pub fn full_name(&self) -> (r: &'static str)
        ensures
            r@ == spec_full_name(*self),
    {
        match self {
            OpenAIModel::ThreePointFiveTurbo => "gpt-3.5-turbo-0613",
            OpenAIModel::Four => "gpt-4-0613",
            OpenAIModel::FourTurbo => "gpt-4-1106-preview",
        }
    }

    /// The short user-facing label of this variant.
    pub fn short_name(&self) -> (r: &'static str)
        ensures
            r@ == spec_short_name(*self),
    {
        match self {
            OpenAIModel::ThreePointFiveTurbo => "gpt-3.5-turbo",
            OpenAIModel::Four => "gpt-4",
            OpenAIModel::FourTurbo => "gpt-4-turbo",
        }
    }

    /// The next variant in the fixed cyclic order, wrapping around.
    pub fn cycle(&self) -> (r: OpenAIModel)
        ensures
            r == spec_cycle(*self),
    {
        match self {
            OpenAIModel::ThreePointFiveTurbo => OpenAIModel::Four,
            OpenAIModel::Four => OpenAIModel::FourTurbo,
            OpenAIModel::FourTurbo => OpenAIModel::ThreePointFiveTurbo,
        }
    }

    /// Parses a canonical wire identifier; a string that matches no known
    /// variant is a validation error, never a silent fallback.
    pub fn from_full_name(s: &str) -> (r: Result<OpenAIModel, SettingsError>)
        ensures
            r == match spec_model_of_id(s@) {
                Some(m) => Ok::<OpenAIModel, SettingsError>(m),
                None => Err::<OpenAIModel, SettingsError>(
                    SettingsError::ValidationError { field: SettingField::DefaultOpenAiModel },
                ),
            },
    {
        let t = s.to_owned();
        if t == "gpt-3.5-turbo-0613".to_owned() {
            Ok(OpenAIModel::ThreePointFiveTurbo)
        } else if t == "gpt-4-0613".to_owned() {
            Ok(OpenAIModel::Four)
        } else if t == "gpt-4-1106-preview".to_owned() {
            Ok(OpenAIModel::FourTurbo)
        } else {
            Err(SettingsError::ValidationError { field: SettingField::DefaultOpenAiModel })
        }
    }
}

/// Law: the cyclic successor forms a single cycle through all three
/// variants — three applications return the starting variant, and no
/// shorter number of applications does, from any starting point.
pub proof fn lemma_cycle_full_period(m: OpenAIModel)
    ensures
        spec_cycle(spec_cycle(spec_cycle(m))) == m,
        spec_cycle(m) != m,
        spec_cycle(spec_cycle(m)) != m,
{
}

/// Law: the cyclic successor never sends two distinct variants to the
/// same variant, so iterating it visits every variant once per period.
pub proof fn lemma_cycle_injective(a: OpenAIModel, b: OpenAIModel)
    ensures
        a != b ==> spec_cycle(a) != spec_cycle(b),
{
}

/// Law: round trip — the canonical wire identifier of every variant
/// parses back to that same variant.
pub proof fn lemma_full_name_round_trip(m: OpenAIModel)
    ensures
        spec_model_of_id(spec_full_name(m)) == Some(m),
{
    reveal_strlit("gpt-3.5-turbo-0613");
    reveal_strlit("gpt-4-0613");
    reveal_strlit("gpt-4-1106-preview");
    assert("gpt-3.5-turbo-0613"@.len() == 18);
    assert("gpt-4-0613"@.len() == 10);
    assert("gpt-4-1106-preview"@.len() == 18);
    assert("gpt-3.5-turbo-0613"@[4] == '3');
    assert("gpt-4-1106-preview"@[4] == '4');
    assert("gpt-4-0613"@ != "gpt-3.5-turbo-0613"@);
    assert("gpt-4-1106-preview"@ != "gpt-3.5-turbo-0613"@);
    assert("gpt-4-1106-preview"@ != "gpt-4-0613"@);
}

} // verus!
