use cor::network::{network_setup_args, network_spawn_failure, setup_network_outcome};

#[test]
fn network_args_hold_pid() {
    assert_eq!(network_setup_args(4242), vec!["4242".to_string()]);
    assert_eq!(network_setup_args(0), vec!["0".to_string()]);
}

#[test]
fn network_outcomes() {
    assert_eq!(setup_network_outcome(true, Some(0)), Ok(()));
    assert_eq!(
        setup_network_outcome(false, Some(3)),
        Err("Network setup failed with exit code: Some(3)".to_string())
    );
    assert_eq!(
        setup_network_outcome(false, None),
        Err("Network setup failed with exit code: None".to_string())
    );
    assert_eq!(
        setup_network_outcome(false, Some(-2)),
        Err(format!("Network setup failed with exit code: {:?}", Some(-2)))
    );
}

#[test]
fn network_spawn_failure_message() {
    assert_eq!(
        network_spawn_failure("No such file or directory (os error 2)"),
        "Failed to execute network setup script: No such file or directory (os error 2)"
    );
}
