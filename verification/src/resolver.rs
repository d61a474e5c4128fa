use vstd::prelude::*;

verus! {

use crate::errors::SettingField;
use crate::errors::SettingsError;
use crate::layer::AssistantDockPosition;
use crate::layer::AssistantSettingsContent;
use crate::model::OpenAIModel;

/// The fully resolved settings value: every field present, dimensions
/// validated as non-negative whole-pixel counts.
#[derive(Clone, Copy, Debug, PartialEq, Eq, Structural)]
pub struct AssistantSettings {
    pub button: bool,
    pub dock: AssistantDockPosition,
    pub default_width: i64,
    pub default_height: i64,
    pub default_open_ai_model: OpenAIModel,
}

/// One merge step: for each field, an opinion of the override layer
/// replaces the accumulator's value; an absent field leaves it untouched.
pub open spec fn spec_merge_layer(
    acc: AssistantSettingsContent,
    over: AssistantSettingsContent,
) -> AssistantSettingsContent {
    AssistantSettingsContent {
        button: if over.button is Some {
            over.button
        } else {
            acc.button
        },
        dock: if over.dock is Some {
            over.dock
        } else {
            acc.dock
        },
        default_width: if over.default_width is Some {
            over.default_width
        } else {
            acc.default_width
        },
        default_height: if over.default_height is Some {
            over.default_height
        } else {
            acc.default_height
        },
        default_open_ai_model: if over.default_open_ai_model is Some {
            over.default_open_ai_model
        } else {
            acc.default_open_ai_model
        },
    }
}

/// The base layer with every override folded on top, in order: later
/// layers take precedence field by field.
pub open spec fn spec_merge_all(
    base: AssistantSettingsContent,
    overrides: Seq<AssistantSettingsContent>,
) -> AssistantSettingsContent
    decreases overrides.len(),
{
    if overrides.len() == 0 {
        base
    } else {
        spec_merge_layer(spec_merge_all(base, overrides.drop_last()), overrides.last())
    }
}

/// Whether a layer expresses an opinion on every field.
pub open spec fn spec_fully_populated(c: AssistantSettingsContent) -> bool {
    &&& c.button is Some
    &&& c.dock is Some
    &&& c.default_width is Some
    &&& c.default_height is Some
    &&& c.default_open_ai_model is Some
}

/// Whether a layer expresses an opinion on one given field.
pub open spec fn spec_field_set(c: AssistantSettingsContent, f: SettingField) -> bool {
    match f {
        SettingField::Button => c.button is Some,
        SettingField::Dock => c.dock is Some,
        SettingField::DefaultWidth => c.default_width is Some,
        SettingField::DefaultHeight => c.default_height is Some,
        SettingField::DefaultOpenAiModel => c.default_open_ai_model is Some,
    }
}

/// Whether two layers hold the same opinion on one given field.
pub open spec fn spec_fields_agree(
    a: AssistantSettingsContent,
    b: AssistantSettingsContent,
    f: SettingField,
) -> bool {
    match f {
        SettingField::Button => a.button == b.button,
        SettingField::Dock => a.dock == b.dock,
        SettingField::DefaultWidth => a.default_width == b.default_width,
        SettingField::DefaultHeight => a.default_height == b.default_height,
        SettingField::DefaultOpenAiModel => a.default_open_ai_model == b.default_open_ai_model,
    }
}

/// The resolved value a fully populated layer denotes.
pub open spec fn spec_settings_of(c: AssistantSettingsContent) -> AssistantSettings {
    AssistantSettings {
        button: c.button.unwrap(),
        dock: c.dock.unwrap(),
        default_width: c.default_width.unwrap(),
        default_height: c.default_height.unwrap(),
        default_open_ai_model: c.default_open_ai_model.unwrap(),
    }
}

/// The meaning of resolution: fold all layers, then demand that every
/// field is populated (in schema order) and that both dimensions are
/// non-negative. Validation applies to the final merged value only.
pub open spec fn spec_resolve(
    base: AssistantSettingsContent,
    overrides: Seq<AssistantSettingsContent>,
) -> Result<AssistantSettings, SettingsError> {
    let m = spec_merge_all(base, overrides);
    if m.button is None {
        Err(SettingsError::ConfigIncompleteError { field: SettingField::Button })
    } else if m.dock is None {
        Err(SettingsError::ConfigIncompleteError { field: SettingField::Dock })
    } else if m.default_width is None {
        Err(SettingsError::ConfigIncompleteError { field: SettingField::DefaultWidth })
    } else if m.default_height is None {
        Err(SettingsError::ConfigIncompleteError { field: SettingField::DefaultHeight })
    } else if m.default_open_ai_model is None {
        Err(SettingsError::ConfigIncompleteError { field: SettingField::DefaultOpenAiModel })
    } else if m.default_width.unwrap() < 0 {
        Err(SettingsError::ValidationError { field: SettingField::DefaultWidth })
    } else if m.default_height.unwrap() < 0 {
        Err(SettingsError::ValidationError { field: SettingField::DefaultHeight })
    } else {
        Ok(spec_settings_of(m))
    }
}

/// One merge step over two layers; reusable wherever partial values are
/// combined by precedence.
pub fn merge_layer(
    acc: &AssistantSettingsContent,
    over: &AssistantSettingsContent,
) -> (r: AssistantSettingsContent)
    ensures
        r == spec_merge_layer(*acc, *over),
{
    AssistantSettingsContent {
        button: if over.button.is_some() {
            over.button
        } else {
            acc.button
        },
        dock: if over.dock.is_some() {
            over.dock
        } else {
            acc.dock
        },
        default_width: if over.default_width.is_some() {
            over.default_width
        } else {
            acc.default_width
        },
        default_height: if over.default_height.is_some() {
            over.default_height
        } else {
            acc.default_height
        },
        default_open_ai_model: if over.default_open_ai_model.is_some() {
            over.default_open_ai_model
        } else {
            acc.default_open_ai_model
        },
    }
}

impl AssistantSettings {
    /// Resolves one base layer and an ordered sequence of override layers
    /// into a fully populated settings value, or reports the first
    /// failure. The result is a function of the arguments alone: the
    /// resolver performs no I/O and has no side effect.
    pub fn resolve(
        base: &AssistantSettingsContent,
        overrides: &Vec<AssistantSettingsContent>,
    ) -> (r: Result<AssistantSettings, SettingsError>)
        ensures
            r == spec_resolve(*base, overrides@),
    {
        let mut acc = *base;
        let mut i: usize = 0;
        while i < overrides.len()
            invariant
                i <= overrides.len(),
                acc == spec_merge_all(*base, overrides@.take(i as int)),
            decreases overrides.len() - i,
        {
            proof {
                assert(overrides@.take(i + 1).drop_last() =~= overrides@.take(i as int));
                assert(overrides@.take(i + 1).last() == overrides@[i as int]);
            }
            acc = merge_layer(&acc, &overrides[i]);
            i += 1;
        }
        proof {
            assert(overrides@.take(i as int) =~= overrides@);
        }
        let button = match acc.button {
            Some(b) => b,
            None => {
                return Err(SettingsError::ConfigIncompleteError { field: SettingField::Button });
            },
        };
        let dock = match acc.dock {
            Some(d) => d,
            None => {
                return Err(SettingsError::ConfigIncompleteError { field: SettingField::Dock });
            },
        };
        let default_width = match acc.default_width {
            Some(w) => w,
            None => {
                return Err(
                    SettingsError::ConfigIncompleteError { field: SettingField::DefaultWidth },
                );
            },
        };
        let default_height = match acc.default_height {
            Some(h) => h,
            None => {
                return Err(
                    SettingsError::ConfigIncompleteError { field: SettingField::DefaultHeight },
                );
            },
        };
        let default_open_ai_model = match acc.default_open_ai_model {
            Some(m) => m,
            None => {
                return Err(
                    SettingsError::ConfigIncompleteError {
                        field: SettingField::DefaultOpenAiModel,
                    },
                );
            },
        };
        if default_width < 0 {
            return Err(SettingsError::ValidationError { field: SettingField::DefaultWidth });
        }
        if default_height < 0 {
            return Err(SettingsError::ValidationError { field: SettingField::DefaultHeight });
        }
        Ok(
            AssistantSettings {
                button,
                dock,
                default_width,
                default_height,
                default_open_ai_model,
            },
        )
    }
}

/// A field on which some layer has an opinion keeps one through every
/// further merge step.
proof fn lemma_merge_all_preserves_set(
    base: AssistantSettingsContent,
    overrides: Seq<AssistantSettingsContent>,
    f: SettingField,
)
    requires
        spec_field_set(base, f),
    ensures
        spec_field_set(spec_merge_all(base, overrides), f),
    decreases overrides.len(),
{
    if overrides.len() > 0 {
        lemma_merge_all_preserves_set(base, overrides.drop_last(), f);
    }
}

/// Law: a fully populated base layer makes an incomplete configuration
/// impossible — whatever the override layers, resolution never reports
/// a missing field.
pub proof fn lemma_complete_base_never_incomplete(
    base: AssistantSettingsContent,
    overrides: Seq<AssistantSettingsContent>,
)
    requires
        spec_fully_populated(base),
    ensures
        !(spec_resolve(base, overrides) matches Err(
            SettingsError::ConfigIncompleteError { .. },
        )),
{
    lemma_merge_all_preserves_set(base, overrides, SettingField::Button);
    lemma_merge_all_preserves_set(base, overrides, SettingField::Dock);
    lemma_merge_all_preserves_set(base, overrides, SettingField::DefaultWidth);
    lemma_merge_all_preserves_set(base, overrides, SettingField::DefaultHeight);
    lemma_merge_all_preserves_set(base, overrides, SettingField::DefaultOpenAiModel);
}

/// Law: last write wins per field — if layer `i` sets a field and no
/// later layer sets it, the merged value of that field is layer `i`'s,
/// independent of every other field.
pub proof fn lemma_last_write_wins(
    base: AssistantSettingsContent,
    overrides: Seq<AssistantSettingsContent>,
    f: SettingField,
    i: int,
)
    requires
        0 <= i < overrides.len(),
        spec_field_set(overrides[i], f),
        forall|j: int| i < j < overrides.len() ==> !spec_field_set(overrides[j], f),
    ensures
        spec_fields_agree(spec_merge_all(base, overrides), overrides[i], f),
    decreases overrides.len(),
{
    if i == overrides.len() - 1 {
    } else {
        assert(overrides.drop_last()[i] == overrides[i]);
        lemma_last_write_wins(base, overrides.drop_last(), f, i);
    }
}

/// Law: with no override layers, resolution returns exactly the value
/// the base layer denotes, provided the base is fully populated and its
/// dimensions are non-negative.
pub proof fn lemma_empty_overrides_resolve_to_base(base: AssistantSettingsContent)
    requires
        spec_fully_populated(base),
        base.default_width.unwrap() >= 0,
        base.default_height.unwrap() >= 0,
    ensures
        spec_resolve(base, Seq::<AssistantSettingsContent>::empty()) == Ok::<
            AssistantSettings,
            SettingsError,
        >(spec_settings_of(base)),
{
}

} // verus!
