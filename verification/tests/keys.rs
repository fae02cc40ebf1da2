use computex::keys::normalize_key;
use computex::keys::requires_confirmation;
use computex::text::join_with_plus;

fn keys(names: &[&str]) -> Vec<String> {
    names.iter().map(|s| s.to_string()).collect()
}

#[test]
fn alt_f4_needs_confirmation() {
    assert!(requires_confirmation(&keys(&["Alt", "F4"])));
}

#[test]
fn ctrl_shift_q_needs_confirmation() {
    assert!(requires_confirmation(&keys(&["ctrl", "shift", "q"])));
}

#[test]
fn ctrl_c_is_harmless() {
    assert!(!requires_confirmation(&keys(&["ctrl", "c"])));
}

#[test]
fn meta_q_matches_super_q_through_aliases() {
    assert!(requires_confirmation(&keys(&["Meta", "Q"])));
}

#[test]
fn extra_keys_do_not_exempt_a_match() {
    assert!(requires_confirmation(&keys(&["x", "ctrl", "alt", "backspace"])));
}

#[test]
fn order_and_duplicates_are_irrelevant() {
    assert!(requires_confirmation(&keys(&["f4", "alt", "f4"])));
}

#[test]
fn partial_combos_are_harmless() {
    assert!(!requires_confirmation(&keys(&["ctrl", "shift"])));
    assert!(!requires_confirmation(&keys(&["alt"])));
    assert!(!requires_confirmation(&keys(&[])));
}

#[test]
fn normalize_key_trims_folds_and_aliases() {
    assert_eq!(normalize_key(" Control "), "ctrl");
    assert_eq!(normalize_key("CMD"), "super");
    assert_eq!(normalize_key("meta"), "super");
    assert_eq!(normalize_key("super"), "super");
    assert_eq!(normalize_key("F4"), "f4");
    assert_eq!(normalize_key("shift"), "shift");
}

#[test]
fn join_with_plus_joins_tokens() {
    assert_eq!(join_with_plus(&keys(&["alpha", "beta", "gamma"])), "alpha+beta+gamma");
    assert_eq!(join_with_plus(&keys(&["a"])), "a");
    assert_eq!(join_with_plus(&keys(&[])), "");
}
