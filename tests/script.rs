use shellspeed::script::{default_script_for, SCRIPT_REPEATS};

const ION_UNIT: &str = "; let k=$((i+1)); let amt=$((k*i))";
const PLAIN_UNIT: &str = "; k=$((i+1)); amt=$((k*i))";

#[test]
fn ion_script_shape() {
    let s = default_script_for(&"ion".to_string());
    assert!(s.starts_with("let i=1"));
    assert_eq!(s.matches(ION_UNIT).count(), 100);
    assert_eq!(s, format!("let i=1{}", ION_UNIT.repeat(100)));
}

#[test]
fn bash_script_shape() {
    let s = default_script_for(&"bash".to_string());
    assert!(s.starts_with("i=1"));
    assert_eq!(s.matches(PLAIN_UNIT).count(), 100);
    assert_eq!(s, format!("i=1{}", PLAIN_UNIT.repeat(100)));
}

#[test]
fn nu_and_other_shells_share_plain_script() {
    let nu = default_script_for(&"nu".to_string());
    assert_eq!(nu, default_script_for(&"zsh".to_string()));
    assert_eq!(nu, default_script_for(&"".to_string()));
    assert_eq!(nu.len(), 3 + 100 * PLAIN_UNIT.len());
}

#[test]
fn ion_needs_exact_name() {
    let s = default_script_for(&"/usr/bin/ion".to_string());
    assert!(s.starts_with("i=1;"));
}

#[test]
fn repeat_count_is_one_hundred() {
    assert_eq!(SCRIPT_REPEATS, 100);
}
