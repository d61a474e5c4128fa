use vstd::prelude::*;

verus! {

use crate::errors::SchemaReason;
use crate::errors::SettingField;
use crate::errors::SettingsError;
use crate::errors::spec_field_name;
use crate::model::OpenAIModel;
use crate::model::spec_model_of_id;

/// Where the panel docks.
#[derive(Clone, Copy, Debug, PartialEq, Eq, Structural)]
pub enum AssistantDockPosition {
    Left,
    Right,
    Bottom,
}

/// The wire token of a dock position.
pub open spec fn spec_dock_token(d: AssistantDockPosition) -> Seq<char> {
    match d {
        AssistantDockPosition::Left => "left"@,
        AssistantDockPosition::Right => "right"@,
        AssistantDockPosition::Bottom => "bottom"@,
    }
}

/// Which dock position, if any, a wire token denotes.
pub open spec fn spec_dock_of_token(s: Seq<char>) -> Option<AssistantDockPosition> {
    if s == spec_dock_token(AssistantDockPosition::Left) {
        Some(AssistantDockPosition::Left)
    } else if s == spec_dock_token(AssistantDockPosition::Right) {
        Some(AssistantDockPosition::Right)
    } else if s == spec_dock_token(AssistantDockPosition::Bottom) {
        Some(AssistantDockPosition::Bottom)
    } else {
        None
    }
}

impl AssistantDockPosition {
    /// The wire token of this dock position.
    pub fn token(&self) -> (r: &'static str)
        ensures
            r@ == spec_dock_token(*self),
    {
        match self {
            AssistantDockPosition::Left => "left",
            AssistantDockPosition::Right => "right",
            AssistantDockPosition::Bottom => "bottom",
        }
    }

    /// Parses a wire token; strings outside the three fixed tokens denote
    /// no dock position.
    pub fn from_token(s: &str) -> (r: Option<AssistantDockPosition>)
        ensures
            r == spec_dock_of_token(s@),
    {
        let t = s.to_owned();
        if t == "left".to_owned() {
            Some(AssistantDockPosition::Left)
        } else if t == "right".to_owned() {
            Some(AssistantDockPosition::Right)
        } else if t == "bottom".to_owned() {
            Some(AssistantDockPosition::Bottom)
        } else {
            None
        }
    }
}

/// One partial configuration layer. Every field is optional: an absent
/// field means the layer expresses no opinion on it. Dimensions are plain
/// whole-pixel counts; they become validated lengths only once merged into
/// a resolved value.
#[derive(Clone, Copy, Debug, PartialEq)]
pub struct AssistantSettingsContent {
    pub button: Option<bool>,
    pub dock: Option<AssistantDockPosition>,
    pub default_width: Option<i64>,
    pub default_height: Option<i64>,
    pub default_open_ai_model: Option<OpenAIModel>,
}

/// The layer that expresses no opinion on any field.
pub open spec fn spec_empty_layer() -> AssistantSettingsContent {
    AssistantSettingsContent {
        button: None,
        dock: None,
        default_width: None,
        default_height: None,
        default_open_ai_model: None,
    }
}

impl Default for AssistantSettingsContent {
    /// The empty layer: no field set.
    fn default() -> (c: Self)
        ensures
            c == spec_empty_layer(),
    {
        AssistantSettingsContent {
            button: None,
            dock: None,
            default_width: None,
            default_height: None,
            default_open_ai_model: None,
        }
    }
}

/// One value as a raw, structured configuration source supplies it.
/// `Other` stands for any shape no field of the schema accepts, such as
/// a nested record, a list, or a number that is not a whole pixel count.
#[derive(Clone, Debug, PartialEq)]
pub enum RawValue {
    Bool(bool),
    Int(i64),
    Text(String),
    Other,
}

/// One key/value pair of a raw configuration source.
#[derive(Clone, Debug, PartialEq)]
pub struct RawEntry {
    pub key: String,
    pub value: RawValue,
}

/// Whether a key names a field of the layer schema.
pub open spec fn spec_known_key(k: Seq<char>) -> bool {
    ||| k == spec_field_name(SettingField::Button)
    ||| k == spec_field_name(SettingField::Dock)
    ||| k == spec_field_name(SettingField::DefaultWidth)
    ||| k == spec_field_name(SettingField::DefaultHeight)
    ||| k == spec_field_name(SettingField::DefaultOpenAiModel)
}

/// The schema judgement on one raw entry: `None` if the entry is
/// acceptable, otherwise the error it provokes. An unknown key is a schema
/// error naming that key; a known key with a value of the wrong shape is a
/// schema error too; a model identifier that matches no variant is a
/// validation error.
pub open spec fn spec_entry_error(e: RawEntry) -> Option<SettingsError> {
    if !spec_known_key(e.key@) {
        Some(SettingsError::SchemaError { field: e.key, reason: SchemaReason::UnknownField })
    } else if e.key@ == spec_field_name(SettingField::Button) {
        match e.value {
            RawValue::Bool(_) => None,
            _ => Some(
                SettingsError::SchemaError { field: e.key, reason: SchemaReason::WrongShape },
            ),
        }
    } else if e.key@ == spec_field_name(SettingField::Dock) {
        match e.value {
            RawValue::Text(s) => if spec_dock_of_token(s@) is Some {
                None
            } else {
                Some(SettingsError::SchemaError { field: e.key, reason: SchemaReason::WrongShape })
            },
            _ => Some(
                SettingsError::SchemaError { field: e.key, reason: SchemaReason::WrongShape },
            ),
        }
    } else if e.key@ == spec_field_name(SettingField::DefaultWidth) || e.key@ == spec_field_name(
        SettingField::DefaultHeight,
    ) {
        match e.value {
            RawValue::Int(_) => None,
            _ => Some(
                SettingsError::SchemaError { field: e.key, reason: SchemaReason::WrongShape },
            ),
        }
    } else {
        match e.value {
            RawValue::Text(s) => if spec_model_of_id(s@) is Some {
                None
            } else {
                Some(SettingsError::ValidationError { field: SettingField::DefaultOpenAiModel })
            },
            _ => Some(
                SettingsError::SchemaError { field: e.key, reason: SchemaReason::WrongShape },
            ),
        }
    }
}

/// The effect of one acceptable entry on the layer under construction;
/// a later entry for the same key wins.
pub open spec fn spec_apply_entry(
    c: AssistantSettingsContent,
    e: RawEntry,
) -> AssistantSettingsContent {
    match e.value {
        RawValue::Bool(b) => if e.key@ == spec_field_name(SettingField::Button) {
            AssistantSettingsContent { button: Some(b), ..c }
        } else {
            c
        },
        RawValue::Int(n) => if e.key@ == spec_field_name(SettingField::DefaultWidth) {
            AssistantSettingsContent { default_width: Some(n), ..c }
        } else if e.key@ == spec_field_name(SettingField::DefaultHeight) {
            AssistantSettingsContent { default_height: Some(n), ..c }
        } else {
            c
        },
        RawValue::Text(s) => if e.key@ == spec_field_name(SettingField::Dock) {
            AssistantSettingsContent { dock: spec_dock_of_token(s@), ..c }
        } else if e.key@ == spec_field_name(SettingField::DefaultOpenAiModel) {
            AssistantSettingsContent { default_open_ai_model: spec_model_of_id(s@), ..c }
        } else {
            c
        },
        RawValue::Other => c,
    }
}

/// The meaning of a whole raw source: the layer it denotes, or the error
/// of its first unacceptable entry.
pub open spec fn spec_parse_layer(entries: Seq<RawEntry>) -> Result<
    AssistantSettingsContent,
    SettingsError,
>
    decreases entries.len(),
{
    if entries.len() == 0 {
        Ok(spec_empty_layer())
    } else {
        match spec_parse_layer(entries.drop_last()) {
            Ok(c) => match spec_entry_error(entries.last()) {
                Some(err) => Err(err),
                None => Ok(spec_apply_entry(c, entries.last())),
            },
            Err(err) => Err(err),
        }
    }
}

/// An error in a prefix of a raw source decides the whole source: once an
/// entry is rejected, no later entry is considered.
proof fn lemma_parse_error_persists(entries: Seq<RawEntry>, k: int)
    requires
        0 <= k <= entries.len(),
        spec_parse_layer(entries.take(k)) is Err,
    ensures
        spec_parse_layer(entries) == spec_parse_layer(entries.take(k)),
    decreases entries.len() - k,
{
    if k < entries.len() {
        assert(entries.take(k + 1).drop_last() =~= entries.take(k));
        assert(entries.take(k + 1).last() == entries[k]);
        lemma_parse_error_persists(entries, k + 1);
    } else {
        assert(entries.take(k) =~= entries);
    }
}

/// Checks one raw configuration source against the field schema and
/// builds the partial layer it denotes. The first unacceptable entry
/// decides the result; absent fields are always acceptable.
pub fn parse_layer(entries: &Vec<RawEntry>) -> (r: Result<AssistantSettingsContent, SettingsError>)
    ensures
        r == spec_parse_layer(entries@),
{
    let key_button = "button".to_owned();
    let key_dock = "dock".to_owned();
    let key_width = "default_width".to_owned();
    let key_height = "default_height".to_owned();
    let key_model = "default_open_ai_model".to_owned();
    let mut acc = AssistantSettingsContent::default();
    let mut i: usize = 0;
    while i < entries.len()
        invariant
            i <= entries.len(),
            spec_parse_layer(entries@.take(i as int)) == Ok::<
                AssistantSettingsContent,
                SettingsError,
            >(acc),
            key_button@ == spec_field_name(SettingField::Button),
            key_dock@ == spec_field_name(SettingField::Dock),
            key_width@ == spec_field_name(SettingField::DefaultWidth),
            key_height@ == spec_field_name(SettingField::DefaultHeight),
            key_model@ == spec_field_name(SettingField::DefaultOpenAiModel),
        decreases entries.len() - i,
    {
        let entry = &entries[i];
        let outcome: Result<AssistantSettingsContent, SettingsError> = if entry.key == key_button {
            match &entry.value {
                RawValue::Bool(b) => Ok(AssistantSettingsContent { button: Some(*b), ..acc }),
                _ => Err(
                    SettingsError::SchemaError {
                        field: entry.key.clone(),
                        reason: SchemaReason::WrongShape,
                    },
                ),
            }
        } else if entry.key == key_dock {
            match &entry.value {
                RawValue::Text(s) => match AssistantDockPosition::from_token(s.as_str()) {
                    Some(d) => Ok(AssistantSettingsContent { dock: Some(d), ..acc }),
                    None => Err(
                        SettingsError::SchemaError {
                            field: entry.key.clone(),
                            reason: SchemaReason::WrongShape,
                        },
                    ),
                },
                _ => Err(
                    SettingsError::SchemaError {
                        field: entry.key.clone(),
                        reason: SchemaReason::WrongShape,
                    },
                ),
            }
        } else if entry.key == key_width {
            match &entry.value {
                RawValue::Int(n) => Ok(AssistantSettingsContent { default_width: Some(*n), ..acc }),
                _ => Err(
                    SettingsError::SchemaError {
                        field: entry.key.clone(),
                        reason: SchemaReason::WrongShape,
                    },
                ),
            }
        } else if entry.key == key_height {
            match &entry.value {
                RawValue::Int(n) => Ok(
                    AssistantSettingsContent { default_height: Some(*n), ..acc },
                ),
                _ => Err(
                    SettingsError::SchemaError {
                        field: entry.key.clone(),
                        reason: SchemaReason::WrongShape,
                    },
                ),
            }
        } else if entry.key == key_model {
            match &entry.value {
                RawValue::Text(s) => match OpenAIModel::from_full_name(s.as_str()) {
                    Ok(m) => Ok(AssistantSettingsContent { default_open_ai_model: Some(m), ..acc }),
                    Err(err) => Err(err),
                },
                _ => Err(
                    SettingsError::SchemaError {
                        field: entry.key.clone(),
                        reason: SchemaReason::WrongShape,
                    },
                ),
            }
        } else {
            Err(
                SettingsError::SchemaError {
                    field: entry.key.clone(),
                    reason: SchemaReason::UnknownField,
                },
            )
        };
        proof {
            assert(entries@.take(i + 1).drop_last() =~= entries@.take(i as int));
            assert(entries@.take(i + 1).last() == entries@[i as int]);
        }
        match outcome {
            Ok(next) => {
                acc = next;
            },
            Err(err) => {
                proof {
                    lemma_parse_error_persists(entries@, i + 1);
                }
                return Err(err);
            },
        }
        i += 1;
    }
    proof {
        assert(entries@.take(i as int) =~= entries@);
    }
    Ok(acc)
}

} // verus!
