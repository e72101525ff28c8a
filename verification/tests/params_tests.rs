use haaslib::error::Error;
use haaslib::lab::ChangeHaasScriptParameterRequest;
use haaslib::lab::update_params;
use haaslib::model::FloatText;
use haaslib::model::UserLabParameter;
use haaslib::model::UserLabParameterOption;

fn parameter(key: &str, options: Vec<UserLabParameterOption>) -> UserLabParameter {
    UserLabParameter {
        key: key.to_string(),
        input_field_type: 0,
        options,
        is_enabled: true,
        is_specific: false,
    }
}

#[test]
fn update_params_replaces_first_match() {
    let mut settings = vec![
        parameter("FastLength", vec![UserLabParameterOption::Digit(9)]),
        parameter("SlowLength", vec![UserLabParameterOption::Digit(21)]),
    ];
    let requests = vec![ChangeHaasScriptParameterRequest::new(
        "fast".to_string(),
        vec![UserLabParameterOption::Digit(12)],
    )];
    assert_eq!(update_params(&mut settings, &requests), Ok(()));
    assert_eq!(settings[0].options, vec![UserLabParameterOption::Digit(12)]);
    assert_eq!(settings[1].options, vec![UserLabParameterOption::Digit(21)]);
    assert_eq!(settings[0].key, "FastLength");
}

#[test]
fn update_params_is_case_insensitive_both_ways() {
    let mut settings = vec![parameter("fastlength", vec![UserLabParameterOption::Digit(9)])];
    let requests = vec![ChangeHaasScriptParameterRequest::new(
        "FAST".to_string(),
        vec![UserLabParameterOption::Digit(7)],
    )];
    assert_eq!(update_params(&mut settings, &requests), Ok(()));
    assert_eq!(settings[0].options, vec![UserLabParameterOption::Digit(7)]);
}

#[test]
fn update_params_missing_target_fails() {
    let mut settings = vec![
        parameter("FastLength", vec![UserLabParameterOption::Digit(9)]),
        parameter("SlowLength", vec![UserLabParameterOption::Digit(21)]),
    ];
    let requests = vec![ChangeHaasScriptParameterRequest::new(
        "missing".to_string(),
        vec![UserLabParameterOption::Digit(1)],
    )];
    assert_eq!(
        update_params(&mut settings, &requests),
        Err(Error::Lab("Failed to find missing in settings".to_string()))
    );
    // nothing was replaced
    assert_eq!(settings[0].options, vec![UserLabParameterOption::Digit(9)]);
    assert_eq!(settings[1].options, vec![UserLabParameterOption::Digit(21)]);
}

#[test]
fn update_params_prefers_list_order_on_ambiguity() {
    let mut settings = vec![
        parameter("Length", vec![UserLabParameterOption::Digit(1)]),
        parameter("FastLength", vec![UserLabParameterOption::Digit(2)]),
    ];
    let requests = vec![ChangeHaasScriptParameterRequest::new(
        "length".to_string(),
        vec![UserLabParameterOption::Digit(5)],
    )];
    assert_eq!(update_params(&mut settings, &requests), Ok(()));
    assert_eq!(settings[0].options, vec![UserLabParameterOption::Digit(5)]);
    assert_eq!(settings[1].options, vec![UserLabParameterOption::Digit(2)]);
}

#[test]
fn update_params_applies_earlier_requests_before_failing() {
    let mut settings = vec![parameter("FastLength", vec![UserLabParameterOption::Digit(9)])];
    let requests = vec![
        ChangeHaasScriptParameterRequest::new(
            "fast".to_string(),
            vec![UserLabParameterOption::Digit(3)],
        ),
        ChangeHaasScriptParameterRequest::new(
            "absent".to_string(),
            vec![UserLabParameterOption::Digit(4)],
        ),
    ];
    assert_eq!(
        update_params(&mut settings, &requests),
        Err(Error::Lab("Failed to find absent in settings".to_string()))
    );
    assert_eq!(settings[0].options, vec![UserLabParameterOption::Digit(3)]);
}

#[test]
fn option_conversions() {
    assert_eq!(
        UserLabParameterOption::from(42i64),
        UserLabParameterOption::Digit(42)
    );
    assert_eq!(
        UserLabParameterOption::from("x".to_string()),
        UserLabParameterOption::String("x".to_string())
    );
}

#[test]
fn option_text_forms() {
    assert_eq!(UserLabParameterOption::Digit(-3).into_text(), "-3");
    assert_eq!(UserLabParameterOption::Bool(true).into_text(), "true");
    assert_eq!(UserLabParameterOption::Bool(false).into_text(), "false");
    assert_eq!(
        UserLabParameterOption::String("abc".to_string()).into_text(),
        "abc"
    );
    assert_eq!(
        UserLabParameterOption::Float(FloatText("0.5".to_string())).into_text(),
        "0.5"
    );
}
