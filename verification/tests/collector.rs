use launch_relay::args::{collect_file_args, filter_marked};

#[test]
fn filter_keeps_exactly_the_marked() {
    let args = vec!["a".to_string(), "b".to_string(), "c".to_string()];
    let keep = vec![true, false, true];
    assert_eq!(filter_marked(&args, &keep), vec!["a".to_string(), "c".to_string()]);
}

#[test]
fn filter_keeps_duplicates_and_order() {
    let args = vec!["x".to_string(), "y".to_string(), "x".to_string()];
    let keep = vec![true, true, true];
    assert_eq!(filter_marked(&args, &keep), args);
    let none = vec![false, false, false];
    assert_eq!(filter_marked(&args, &none), Vec::<String>::new());
}

#[test]
fn filter_of_nothing_is_nothing() {
    let args: Vec<String> = Vec::new();
    let keep: Vec<bool> = Vec::new();
    assert_eq!(filter_marked(&args, &keep), Vec::<String>::new());
}

#[test]
fn collect_excludes_the_zeroth_argument() {
    // The zeroth argument names an existing regular file, yet is never kept.
    let args = vec!["src/lib.rs".to_string()];
    assert_eq!(collect_file_args(&args), Vec::<String>::new());
}

#[test]
fn collect_keeps_existing_regular_files_in_order() {
    let args = vec![
        "app".to_string(),
        "src/lib.rs".to_string(),
        "no_such_file_anywhere".to_string(),
        "src/relay.rs".to_string(),
    ];
    assert_eq!(
        collect_file_args(&args),
        vec!["src/lib.rs".to_string(), "src/relay.rs".to_string()]
    );
}

#[test]
fn collect_excludes_directories() {
    // "src" exists but is a directory, not a regular file.
    let args = vec!["app".to_string(), "src".to_string(), "src/args.rs".to_string()];
    assert_eq!(collect_file_args(&args), vec!["src/args.rs".to_string()]);
}

#[test]
fn collect_of_empty_vector_is_empty() {
    let args: Vec<String> = Vec::new();
    assert_eq!(collect_file_args(&args), Vec::<String>::new());
}
