use ralph::browse::{
    comes_before, convert_failure, directory_entry, equal_ignoring_case, get_common_directories,
    is_hidden, list_directory, path_to_probe, project_folder_candidates, sort_entries,
    validate_project_path, CommonDirectory, DirectoryEntry, DirectoryListing, GitProbe,
    ListingProbe, PathProbe, ProjectPathValidation,
};

fn chars(s: &str) -> Vec<char> {
    s.chars().collect()
}

fn validation(path: &str, exists: bool, is_directory: bool, is_git: bool, message: Option<&str>) -> ProjectPathValidation {
    ProjectPathValidation {
        path: path.to_string(),
        exists,
        is_directory,
        is_git_repository: is_git,
        message: message.map(|m| m.to_string()),
    }
}

#[test]
fn paths_are_validated() {
    assert_eq!(
        validate_project_path("  ".to_string(), PathProbe::Missing),
        validation("  ", false, false, false, Some("Path is empty"))
    );
    assert_eq!(
        validate_project_path(" /nowhere ".to_string(), PathProbe::Missing),
        validation("/nowhere", false, false, false, Some("Path does not exist: /nowhere"))
    );
    assert_eq!(
        validate_project_path("/etc/hosts".to_string(), PathProbe::NotDirectory),
        validation("/etc/hosts", true, false, false, Some("Path is not a directory: /etc/hosts"))
    );
    assert_eq!(
        validate_project_path("/repo".to_string(), PathProbe::Directory(GitProbe::Answered("true\n".to_string()))),
        validation("/repo", true, true, true, None)
    );
    assert_eq!(
        validate_project_path("/repo".to_string(), PathProbe::Directory(GitProbe::Answered(" TRUE ".to_string()))),
        validation("/repo", true, true, true, None)
    );
    assert_eq!(
        validate_project_path("/repo".to_string(), PathProbe::Directory(GitProbe::Answered("false\n".to_string()))),
        validation("/repo", true, true, false, Some("Directory is not a git repository"))
    );
    assert_eq!(
        validate_project_path("/plain".to_string(), PathProbe::Directory(GitProbe::Refused)),
        validation("/plain", true, true, false, Some("Directory is not a git repository"))
    );
    assert_eq!(
        validate_project_path("/plain".to_string(), PathProbe::Directory(GitProbe::Failed("git: not found".to_string()))),
        validation("/plain", true, true, false, Some("Failed to run git for validation: git: not found"))
    );
    assert_eq!(path_to_probe(" /a b "), Some("/a b".to_string()));
    assert_eq!(path_to_probe(" \t"), None);
}

#[test]
fn case_is_ignored_for_latin_letters_only() {
    for (a, b) in [("true", "TRUE"), ("True", "tRUE"), ("tru", "true"), ("", ""), ("\u{e9}", "\u{c9}"), ("k", "\u{212a}"), ("a1", "A1"), ("@", "`"), ("[", "{")] {
        assert_eq!(equal_ignoring_case(&chars(a), &chars(b)), a.eq_ignore_ascii_case(b), "{:?} {:?}", a, b);
    }
}

fn entry(name: &str, is_directory: bool) -> DirectoryEntry {
    DirectoryEntry {
        name: name.to_string(),
        path: format!("/base/{}", name),
        is_directory,
        is_protected: false,
        is_git_repository: false,
    }
}

#[test]
fn entries_are_shown_or_hidden() {
    assert!(is_hidden(".git"));
    assert!(is_hidden("."));
    assert!(!is_hidden("src"));
    assert!(!is_hidden(""));
    assert_eq!(directory_entry(".cache".to_string(), "/h/.cache".to_string(), true, true, false), None);
    assert_eq!(
        directory_entry("repo".to_string(), "/h/repo".to_string(), true, true, true),
        Some(DirectoryEntry {
            name: "repo".to_string(),
            path: "/h/repo".to_string(),
            is_directory: true,
            is_protected: false,
            is_git_repository: true,
        })
    );
    assert_eq!(
        directory_entry("locked".to_string(), "/h/locked".to_string(), true, false, true),
        Some(DirectoryEntry {
            name: "locked".to_string(),
            path: "/h/locked".to_string(),
            is_directory: true,
            is_protected: true,
            is_git_repository: false,
        })
    );
    assert_eq!(
        directory_entry("notes.txt".to_string(), "/h/notes.txt".to_string(), false, false, true),
        Some(DirectoryEntry {
            name: "notes.txt".to_string(),
            path: "/h/notes.txt".to_string(),
            is_directory: false,
            is_protected: false,
            is_git_repository: false,
        })
    );
}

#[test]
fn texts_are_ordered_as_strings_are() {
    let words = ["", "a", "A", "ab", "b", "B", "\u{e9}", "z", "Z", "a b", "a-b", "10", "9", "\u{1f4c4}", "\u{ffff}"];
    for a in words {
        for b in words {
            assert_eq!(comes_before(&chars(a), &chars(b)), a < b, "{:?} {:?}", a, b);
        }
    }
}

#[test]
fn directories_come_first_and_names_are_in_order() {
    let found = vec![
        entry("zeta.txt", false),
        entry("beta", true),
        entry("Alpha", true),
        entry("alpha.md", false),
        entry("alpha", true),
        entry("Makefile", false),
    ];
    let mut expected = vec![
        entry("zeta.txt", false),
        entry("beta", true),
        entry("Alpha", true),
        entry("alpha.md", false),
        entry("alpha", true),
        entry("Makefile", false),
    ];
    expected.sort_by(|a, b| match (a.is_directory, b.is_directory) {
        (true, false) => std::cmp::Ordering::Less,
        (false, true) => std::cmp::Ordering::Greater,
        _ => a.name.cmp(&b.name),
    });
    let sorted = sort_entries(found);
    assert_eq!(sorted, expected);
    assert_eq!(
        sorted.iter().map(|e| e.name.as_str()).collect::<Vec<_>>(),
        vec!["Alpha", "alpha", "beta", "Makefile", "alpha.md", "zeta.txt"]
    );
    assert!(sort_entries(vec![]).is_empty());
}

#[test]
fn equal_entries_keep_the_order_in_which_they_came() {
    let mut first = entry("same", true);
    first.path = "/one/same".to_string();
    let mut second = entry("same", true);
    second.path = "/two/same".to_string();
    let sorted = sort_entries(vec![entry("z", true), first, entry("a", false), second]);
    assert_eq!(
        sorted.iter().map(|e| e.path.as_str()).collect::<Vec<_>>(),
        vec!["/one/same", "/two/same", "/base/z", "/base/a"]
    );
}

#[test]
fn listings_are_made_or_refused() {
    assert_eq!(
        list_directory("/home/u".to_string(), ListingProbe::Readable, vec![entry("b", false), entry("a", true)]),
        Ok(DirectoryListing {
            current_path: "/home/u".to_string(),
            entries: vec![entry("a", true), entry("b", false)],
        })
    );
    assert_eq!(
        list_directory(String::new(), ListingProbe::NoHome, vec![]),
        Err("Could not determine home directory".to_string())
    );
    assert_eq!(
        list_directory("/x".to_string(), ListingProbe::Missing, vec![]),
        Err("Path does not exist: /x".to_string())
    );
    assert_eq!(
        list_directory("/x".to_string(), ListingProbe::NotDirectory, vec![]),
        Err("Path is not a directory: /x".to_string())
    );
    assert_eq!(
        list_directory("/root".to_string(), ListingProbe::PermissionDenied, vec![]),
        Err("Permission denied: You don't have access to read this directory (/root)".to_string())
    );
    assert_eq!(
        list_directory("/x".to_string(), ListingProbe::Unreadable("Input/output error (os error 5)".to_string()), vec![]),
        Err("Error reading directory: Input/output error (os error 5)".to_string())
    );
}

#[test]
fn common_directories_are_offered_in_order() {
    assert!(get_common_directories(None, Some("/d".to_string()), None, None, None).is_empty());
    let offered = get_common_directories(
        Some("/home/u".to_string()),
        Some("/home/u/Documents".to_string()),
        None,
        Some("/home/u/Downloads".to_string()),
        Some(("Code".to_string(), "/home/u/code".to_string())),
    );
    assert_eq!(
        offered.iter().map(|d| (d.name.as_str(), d.path.as_str())).collect::<Vec<_>>(),
        vec![
            ("Home", "/home/u"),
            ("Documents", "/home/u/Documents"),
            ("Downloads", "/home/u/Downloads"),
            ("Code", "/home/u/code"),
        ]
    );
    for directory in &offered {
        assert!(!directory.icon.is_empty());
    }
    let home_only = get_common_directories(Some("/h".to_string()), None, None, None, None);
    assert_eq!(home_only.len(), 1);
    assert_eq!(home_only[0], CommonDirectory { name: "Home".to_string(), path: "/h".to_string(), icon: home_only[0].icon.clone() });
    assert_eq!(
        project_folder_candidates(),
        vec![
            ("Projects".to_string(), "projects".to_string()),
            ("Projects".to_string(), "Projects".to_string()),
            ("Code".to_string(), "code".to_string()),
            ("Code".to_string(), "Code".to_string()),
            ("Workspace".to_string(), "workspace".to_string()),
            ("Workspace".to_string(), "Workspace".to_string()),
            ("Dev".to_string(), "dev".to_string()),
            ("Dev".to_string(), "Dev".to_string()),
        ]
    );
}

#[test]
fn conversion_failure_has_its_text() {
    assert_eq!(convert_failure("No stories found in PRD markdown"), "Failed to parse PRD: No stories found in PRD markdown");
}
