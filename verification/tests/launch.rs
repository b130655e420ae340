use filesystem_operations::launch::LaunchSpec;

#[test]
fn new_launch_has_no_environment_overrides() {
    let spec = LaunchSpec::new("uv".to_string(), vec!["run".to_string()]);
    assert_eq!(spec.command, "uv");
    assert_eq!(spec.args, vec!["run".to_string()]);
    assert!(spec.env.is_empty());
}

#[test]
fn new_launch_keeps_arguments_in_order() {
    let args = vec!["a".to_string(), "b".to_string(), "a".to_string(), String::new()];
    let spec = LaunchSpec::new("tool".to_string(), args.clone());
    assert_eq!(spec.args, args);
}

#[test]
fn new_launch_accepts_empty_parts() {
    let spec = LaunchSpec::new(String::new(), Vec::new());
    assert_eq!(spec.command, "");
    assert!(spec.args.is_empty());
    assert!(spec.env.is_empty());
}

#[test]
fn launches_compare_by_their_fields() {
    let plain = LaunchSpec::new("uv".to_string(), vec!["run".to_string()]);
    let mut with_env = plain.clone();
    assert_eq!(plain, with_env);
    with_env.env.push(("HOME".to_string(), "/tmp".to_string()));
    assert_ne!(plain, with_env);
}
