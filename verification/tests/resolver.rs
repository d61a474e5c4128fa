use assistant_settings::errors::{SettingField, SettingsError};
use assistant_settings::layer::{AssistantDockPosition, AssistantSettingsContent};
use assistant_settings::model::OpenAIModel;
use assistant_settings::resolver::AssistantSettings;

fn full_base() -> AssistantSettingsContent {
    AssistantSettingsContent {
        button: Some(true),
        dock: Some(AssistantDockPosition::Right),
        default_width: Some(640),
        default_height: Some(320),
        default_open_ai_model: Some(OpenAIModel::FourTurbo),
    }
}

fn empty_layer() -> AssistantSettingsContent {
    AssistantSettingsContent::default()
}

#[test]
fn two_overrides_each_win_their_field() {
    let base = full_base();
    let o1 = AssistantSettingsContent { dock: Some(AssistantDockPosition::Left), ..empty_layer() };
    let o2 = AssistantSettingsContent { default_width: Some(800), ..empty_layer() };
    let r = AssistantSettings::resolve(&base, &vec![o1, o2]);
    assert_eq!(
        r,
        Ok(AssistantSettings {
            button: true,
            dock: AssistantDockPosition::Left,
            default_width: 800,
            default_height: 320,
            default_open_ai_model: OpenAIModel::FourTurbo,
        })
    );
}

#[test]
fn no_overrides_returns_base_exactly() {
    let base = full_base();
    let r = AssistantSettings::resolve(&base, &Vec::new());
    assert_eq!(
        r,
        Ok(AssistantSettings {
            button: true,
            dock: AssistantDockPosition::Right,
            default_width: 640,
            default_height: 320,
            default_open_ai_model: OpenAIModel::FourTurbo,
        })
    );
}

#[test]
fn later_layer_wins_over_earlier_on_same_field() {
    let base = full_base();
    let o1 = AssistantSettingsContent { default_width: Some(700), ..empty_layer() };
    let o2 = AssistantSettingsContent { default_width: Some(900), ..empty_layer() };
    let r = AssistantSettings::resolve(&base, &vec![o1, o2]).unwrap();
    assert_eq!(r.default_width, 900);
    assert_eq!(r.default_height, 320);
}

#[test]
fn resolve_is_deterministic() {
    let base = full_base();
    let overrides = vec![
        AssistantSettingsContent { dock: Some(AssistantDockPosition::Bottom), ..empty_layer() },
        AssistantSettingsContent { default_height: Some(200), ..empty_layer() },
    ];
    let first = AssistantSettings::resolve(&base, &overrides);
    let second = AssistantSettings::resolve(&base, &overrides);
    assert_eq!(first, second);
}

#[test]
fn negative_width_after_merge_is_a_validation_error() {
    let base = full_base();
    let o1 = AssistantSettingsContent { default_width: Some(-5), ..empty_layer() };
    let r = AssistantSettings::resolve(&base, &vec![o1]);
    assert_eq!(
        r,
        Err(SettingsError::ValidationError { field: SettingField::DefaultWidth })
    );
}

#[test]
fn negative_height_after_merge_is_a_validation_error() {
    let base = full_base();
    let o1 = AssistantSettingsContent { default_height: Some(-1), ..empty_layer() };
    let r = AssistantSettings::resolve(&base, &vec![o1]);
    assert_eq!(
        r,
        Err(SettingsError::ValidationError { field: SettingField::DefaultHeight })
    );
}

#[test]
fn negative_width_in_base_can_be_overridden_to_valid() {
    let base = AssistantSettingsContent { default_width: Some(-640), ..full_base() };
    let o1 = AssistantSettingsContent { default_width: Some(640), ..empty_layer() };
    let r = AssistantSettings::resolve(&base, &vec![o1]).unwrap();
    assert_eq!(r.default_width, 640);
}

#[test]
fn incomplete_base_reports_the_missing_field() {
    let base = AssistantSettingsContent { dock: None, ..full_base() };
    let r = AssistantSettings::resolve(&base, &Vec::new());
    assert_eq!(
        r,
        Err(SettingsError::ConfigIncompleteError { field: SettingField::Dock })
    );
}

#[test]
fn override_can_complete_an_incomplete_base() {
    let base = AssistantSettingsContent { button: None, ..full_base() };
    let o1 = AssistantSettingsContent { button: Some(false), ..empty_layer() };
    let r = AssistantSettings::resolve(&base, &vec![o1]).unwrap();
    assert!(!r.button);
}

#[test]
fn empty_override_layers_change_nothing() {
    let base = full_base();
    let r = AssistantSettings::resolve(&base, &vec![empty_layer(), empty_layer()]);
    let direct = AssistantSettings::resolve(&base, &Vec::new());
    assert_eq!(r, direct);
}
