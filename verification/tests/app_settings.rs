use rustrto::data::app_settings::AppSettings;

#[test]
fn test_app_settings_default_values() {
    let settings = AppSettings::default();
    assert_eq!(settings.default_office, "McLean, VA");
    assert_eq!(settings.flex_credit, "Flex Credit");
}

#[test]
fn test_settings_wrapper_default() {
    // a configuration without settings has the default settings
    let settings = AppSettings::default();
    assert_eq!(settings.default_office, "McLean, VA");
    assert_eq!(settings.flex_credit, "Flex Credit");
}

#[test]
fn test_app_settings_clone() {
    let s = AppSettings::default();
    let c = s.clone();
    assert_eq!(c.default_office, s.default_office);
    assert_eq!(c.flex_credit, s.flex_credit);
}

#[test]
fn settings_duplicate_is_a_copy() {
    let s = AppSettings {
        default_office: "Remote HQ".to_string(),
        flex_credit: "Remote Credit".to_string(),
    };
    let c = s.duplicate();
    assert_eq!(c.default_office, "Remote HQ");
    assert_eq!(c.flex_credit, "Remote Credit");
}
