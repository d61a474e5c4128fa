use assistant_settings::errors::{SettingField, SettingsError};
use assistant_settings::model::OpenAIModel;

#[test]
fn full_names_are_canonical() {
    assert_eq!(OpenAIModel::ThreePointFiveTurbo.full_name(), "gpt-3.5-turbo-0613");
    assert_eq!(OpenAIModel::Four.full_name(), "gpt-4-0613");
    assert_eq!(OpenAIModel::FourTurbo.full_name(), "gpt-4-1106-preview");
}

#[test]
fn short_names_are_labels() {
    assert_eq!(OpenAIModel::ThreePointFiveTurbo.short_name(), "gpt-3.5-turbo");
    assert_eq!(OpenAIModel::Four.short_name(), "gpt-4");
    assert_eq!(OpenAIModel::FourTurbo.short_name(), "gpt-4-turbo");
}

#[test]
fn cycle_steps_through_every_variant() {
    assert_eq!(OpenAIModel::ThreePointFiveTurbo.cycle(), OpenAIModel::Four);
    assert_eq!(OpenAIModel::Four.cycle(), OpenAIModel::FourTurbo);
    assert_eq!(OpenAIModel::FourTurbo.cycle(), OpenAIModel::ThreePointFiveTurbo);
}

#[test]
fn cycle_has_full_period_from_every_start() {
    let variants = [
        OpenAIModel::ThreePointFiveTurbo,
        OpenAIModel::Four,
        OpenAIModel::FourTurbo,
    ];
    for m in variants {
        assert_ne!(m.cycle(), m);
        assert_ne!(m.cycle().cycle(), m);
        assert_eq!(m.cycle().cycle().cycle(), m);
    }
}

#[test]
fn canonical_id_round_trips() {
    let variants = [
        OpenAIModel::ThreePointFiveTurbo,
        OpenAIModel::Four,
        OpenAIModel::FourTurbo,
    ];
    for m in variants {
        assert_eq!(OpenAIModel::from_full_name(m.full_name()), Ok(m));
    }
}

#[test]
fn unknown_identifier_is_a_validation_error() {
    let r = OpenAIModel::from_full_name("gpt-5");
    assert_eq!(
        r,
        Err(SettingsError::ValidationError { field: SettingField::DefaultOpenAiModel })
    );
}

#[test]
fn short_name_is_not_accepted_as_identifier() {
    let r = OpenAIModel::from_full_name("gpt-4");
    assert!(matches!(r, Err(SettingsError::ValidationError { .. })));
}
