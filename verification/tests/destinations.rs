use log_bootstrap::destination::Destination;

#[test]
fn stdout_routes_to_the_console() {
    assert_eq!(Destination::resolve("stdout"), Destination::Console);
}

#[test]
fn stdout_in_any_case_routes_to_the_console() {
    assert_eq!(Destination::resolve("STDOUT"), Destination::Console);
    assert_eq!(Destination::resolve("StdOut"), Destination::Console);
    assert_eq!(Destination::resolve("sTDOUt"), Destination::Console);
}

#[test]
fn other_texts_route_to_a_directory_of_that_path() {
    for path in ["/var/log/app", "logs", "./stdout", "stdout/", "stdout ", " stdout", "std-out", "stdou", "stdoutt", "stderr"] {
        assert_eq!(Destination::resolve(path), Destination::Directory(path.to_string()));
    }
}

#[test]
fn directory_paths_keep_their_case() {
    assert_eq!(Destination::resolve("/Var/LOG"), Destination::Directory("/Var/LOG".to_string()));
}

#[test]
fn empty_text_routes_to_the_empty_path() {
    assert_eq!(Destination::resolve(""), Destination::Directory(String::new()));
}

#[test]
fn only_ascii_letters_are_folded() {
    assert_eq!(Destination::resolve("ſtdout"), Destination::Directory("ſtdout".to_string()));
    assert_eq!(Destination::resolve("ＳＴＤＯＵＴ"), Destination::Directory("ＳＴＤＯＵＴ".to_string()));
}

#[test]
fn is_console_tells_the_two_sinks_apart() {
    assert!(Destination::Console.is_console());
    assert!(!Destination::Directory("stdout".to_string()).is_console());
    assert!(Destination::resolve("Stdout").is_console());
    assert!(!Destination::resolve("/tmp").is_console());
}
