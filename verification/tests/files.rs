use rcli::{
    accept_file, accept_input_file, accept_path, verify_file, verify_input_file, verify_path,
};

#[test]
fn mod_test_file_is_not_exist() {
    let result = verify_file("assets/not_exist.csv").unwrap_err();
    assert_eq!(result, "File does not exist");
}

#[test]
fn opts_test_file_is_not_exist() {
    let result = verify_input_file("assets/not_exist.csv").unwrap_err();
    assert_eq!(result, "Input file not found");
}

#[test]
fn standard_input_and_missing_files() {
    assert_eq!(verify_file("-"), Ok("-".into()));
    assert_eq!(verify_file("*"), Err("File does not exist"));
    assert_eq!(verify_file("."), Ok(".".into()));
    assert_eq!(verify_file("not-exist"), Err("File does not exist"));
}

#[test]
fn a_file_is_accepted_when_found_or_standard_input() {
    assert_eq!(accept_file("-", false), Ok("-".to_string()));
    assert_eq!(accept_file("-", true), Ok("-".to_string()));
    assert_eq!(accept_file("a.csv", true), Ok("a.csv".to_string()));
    assert_eq!(accept_file("a.csv", false), Err("File does not exist"));
    assert_eq!(accept_file("--", false), Err("File does not exist"));
    assert_eq!(accept_input_file("a.csv", true), Ok("a.csv".to_string()));
    assert_eq!(accept_input_file("-", false), Err("Input file not found"));
}

#[test]
fn a_path_is_accepted_when_it_is_a_directory() {
    assert_eq!(accept_path("out", true, true), Ok("out".to_string()));
    assert_eq!(accept_path("out", true, false), Err("Path does not exist or is not a directory"));
    assert_eq!(accept_path("out", false, false), Err("Path does not exist or is not a directory"));
    assert_eq!(verify_path("."), Ok(".".to_string()));
    assert_eq!(verify_path("no/such/dir"), Err("Path does not exist or is not a directory"));
    assert_eq!(verify_input_file("."), Ok(".".to_string()));
}
