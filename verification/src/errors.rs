use vstd::prelude::*;

verus! {

/// The five fields a settings layer may populate.
#[derive(Clone, Copy, Debug, PartialEq, Eq, Structural)]
pub enum SettingField {
    Button,
    Dock,
    DefaultWidth,
    DefaultHeight,
    DefaultOpenAiModel,
}

/// Why a raw entry was rejected against the layer schema.
#[derive(Clone, Copy, Debug, PartialEq, Eq, Structural)]
pub enum SchemaReason {
    /// The key names no field of the schema.
    UnknownField,
    /// The key is known but the value has the wrong shape for it.
    WrongShape,
}

/// The structured failures of layer parsing and resolution.
#[derive(Clone, Debug, PartialEq)]
pub enum SettingsError {
    /// A raw layer holds an unrecognized field name, or a value of the
    /// wrong shape for a known field.
    SchemaError { field: String, reason: SchemaReason },
    /// A value breaks a semantic constraint: an unknown model identifier,
    /// or a negative dimension after the merge.
    ValidationError { field: SettingField },
    /// A field was still unset after all layers were folded: the base
    /// layer broke its "fully populated" contract.
    ConfigIncompleteError { field: SettingField },
}

/// The key under which a schema field appears in a raw layer.
pub open spec fn spec_field_name(f: SettingField) -> Seq<char> {
    match f {
        SettingField::Button => "button"@,
        SettingField::Dock => "dock"@,
        SettingField::DefaultWidth => "default_width"@,
        SettingField::DefaultHeight => "default_height"@,
        SettingField::DefaultOpenAiModel => "default_open_ai_model"@,
    }
}

impl SettingField {
    /// The key under which this field appears in a raw layer.
    pub fn name(&self) -> (r: &'static str)
        ensures
            r@ == spec_field_name(*self),
    {
        match self {
            SettingField::Button => "button",
            SettingField::Dock => "dock",
            SettingField::DefaultWidth => "default_width",
            SettingField::DefaultHeight => "default_height",
            SettingField::DefaultOpenAiModel => "default_open_ai_model",
        }
    }
}

} // verus!
