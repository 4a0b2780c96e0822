use launch_relay::configure;
use launch_relay::relay::Relay;

#[test]
fn empty_list_never_arms() {
    let mut relay = Relay::new(Vec::new());
    assert!(!relay.arms());
    // Readiness signals have no observable effect on an idle relay.
    assert_eq!(relay.on_ready(), None);
    assert_eq!(relay.on_ready(), None);
    assert!(!relay.arms());
}

#[test]
fn armed_relay_fires_exactly_once() {
    let files = vec!["one.txt".to_string()];
    let mut relay = Relay::new(files.clone());
    assert!(relay.arms());
    // The first signal hands back exactly the collected list.
    assert_eq!(relay.on_ready(), Some(files));
    // A second signal is ignored and must not crash.
    assert_eq!(relay.on_ready(), None);
    assert!(!relay.arms());
}

#[test]
fn payload_keeps_order_and_contents() {
    let files = vec!["b".to_string(), "a".to_string(), "b".to_string()];
    let mut relay = Relay::new(files.clone());
    assert_eq!(relay.on_ready(), Some(files));
}

#[test]
fn configure_with_existing_files_arms_and_fires() {
    let args = vec![
        "app".to_string(),
        "src/lib.rs".to_string(),
        "no_such_file_anywhere".to_string(),
        "src/relay.rs".to_string(),
    ];
    let mut relay = configure(&args);
    assert!(relay.arms());
    assert_eq!(
        relay.on_ready(),
        Some(vec!["src/lib.rs".to_string(), "src/relay.rs".to_string()])
    );
    assert_eq!(relay.on_ready(), None);
}

#[test]
fn configure_without_file_arguments_never_arms() {
    let args = vec!["app".to_string(), "no_such_file_anywhere".to_string()];
    let mut relay = configure(&args);
    assert!(!relay.arms());
    assert_eq!(relay.on_ready(), None);
}

#[test]
fn configure_with_one_file_hands_back_the_one() {
    let args = vec!["app".to_string(), "src/args.rs".to_string()];
    let mut relay = configure(&args);
    assert!(relay.arms());
    assert_eq!(relay.on_ready(), Some(vec!["src/args.rs".to_string()]));
    // A second readiness signal has no mandated effect; it must not crash.
    assert_eq!(relay.on_ready(), None);
}
