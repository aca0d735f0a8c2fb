use looker::utils::file_handler::{absolute_path, file_exists, is_existing_file};
use std::path::PathBuf;

#[test]
fn directory_is_no_file() {
    assert!(!file_exists(&PathBuf::from("/")));
}

#[test]
fn missing_path_is_no_file() {
    assert!(!file_exists(&PathBuf::from("/no/such/looker/file.env")));
}

#[test]
fn running_program_is_a_file() {
    // On Linux this path leads to the executable of the running test itself.
    assert!(file_exists(&PathBuf::from("/proc/self/exe")));
}

#[test]
fn existing_file_needs_both_answers() {
    assert!(is_existing_file(true, true));
    assert!(!is_existing_file(true, false));
    assert!(!is_existing_file(false, false));
    assert!(!is_existing_file(false, true));
}

#[test]
fn relative_path_is_joined_with_separator() {
    assert_eq!(absolute_path("/srv/looker", "config/default.env"), "/srv/looker/config/default.env");
}

#[test]
fn root_with_separator_gets_no_second_one() {
    assert_eq!(absolute_path("/srv/looker/", ".env"), "/srv/looker/.env");
}

#[test]
fn absolute_path_replaces_root() {
    assert_eq!(absolute_path("/srv/looker", "/etc/looker.env"), "/etc/looker.env");
}

#[test]
fn empty_root_takes_relative_path() {
    assert_eq!(absolute_path("", "config"), "config");
}

#[test]
fn empty_relative_path_ends_with_separator() {
    assert_eq!(absolute_path("/srv/looker", ""), "/srv/looker/");
}

#[test]
fn joining_agrees_with_std_on_unix() {
    for (root, relative) in [("/a/b", "c"), ("/a/b/", "c/d"), ("/a", "/x"), ("", "y"), ("/a", ""), ("rel", "é/ü")] {
        let expected = std::path::Path::new(root).join(relative);
        assert_eq!(absolute_path(root, relative), expected.to_str().unwrap());
    }
}
