use computex::features::FeatureToggles;
use computex::features::gui_override;
use computex::features::validate_feature;

fn names(list: &[&str]) -> Vec<String> {
    list.iter().map(|s| s.to_string()).collect()
}

#[test]
fn toggles_become_override_lines_in_order() {
    let toggles = FeatureToggles {
        enable: names(&["alpha", "beta"]),
        disable: names(&["gamma"]),
    };
    let known = names(&["alpha", "beta", "gamma"]);
    assert_eq!(
        toggles.to_overrides(&known).unwrap(),
        vec!["features.alpha=true", "features.beta=true", "features.gamma=false"]
    );
}

#[test]
fn empty_toggles_become_no_lines() {
    let toggles = FeatureToggles::default();
    assert_eq!(toggles.to_overrides(&names(&["alpha"])).unwrap(), Vec::<String>::new());
}

#[test]
fn first_unknown_feature_fails_the_conversion() {
    let toggles = FeatureToggles {
        enable: names(&["alpha", "mystery"]),
        disable: names(&["other"]),
    };
    let known = names(&["alpha"]);
    assert_eq!(
        toggles.to_overrides(&known).unwrap_err(),
        "Unknown feature flag: mystery"
    );
}

#[test]
fn unknown_disable_is_reported_too() {
    let toggles = FeatureToggles { enable: names(&[]), disable: names(&["mystery"]) };
    assert_eq!(
        toggles.to_overrides(&names(&["alpha"])).unwrap_err(),
        "Unknown feature flag: mystery"
    );
}

#[test]
fn validate_feature_checks_the_known_set() {
    let known = names(&["alpha"]);
    assert!(validate_feature("alpha", &known).is_ok());
    assert_eq!(
        validate_feature("beta", &known).unwrap_err(),
        "Unknown feature flag: beta"
    );
}

#[test]
fn gui_flag_sets_the_gui_override() {
    assert_eq!(gui_override(true, false), "features.computer_use_gui=true");
}

#[test]
fn headless_flag_disables_gui_tools() {
    assert_eq!(gui_override(false, true), "features.computer_use_gui=false");
    assert_eq!(gui_override(false, false), "features.computer_use_gui=false");
}
