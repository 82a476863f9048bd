use line_limit::{
    count_lines, evaluate, exit_code, get_size, red, report, retain_marked, select_files,
    FileEntry, FileRecord, PatternError, PatternRole,
};

const DIR: &str = "/tmp/testing.x1y2z3";

fn entry(path: &str) -> FileEntry {
    FileEntry { path: path.to_string(), utf8_path: Some(path.to_string()) }
}

/// Runs the check over files given with their contents, as a walk over a
/// directory would find them: the directory itself first, unreadable as text.
fn run(
    files: &[(&str, Option<&str>)],
    include_pattern: &str,
    exclude_pattern: &str,
    max_lines: usize,
) -> Result<Vec<FileRecord>, PatternError> {
    let mut entries = vec![entry(DIR)];
    let mut contents: Vec<(String, Option<String>)> = vec![(DIR.to_string(), None)];
    for (name, text) in files {
        let path = format!("{}/{}", DIR, name);
        entries.push(entry(&path));
        contents.push((path, text.map(|t| t.to_string())));
    }
    let selected = select_files(&entries, include_pattern, exclude_pattern)?;
    let records: Vec<FileRecord> = selected
        .iter()
        .map(|f| {
            let text = contents.iter().find(|c| c.0 == f.path).unwrap().1.clone();
            FileRecord::measured(f.path.clone(), &text)
        })
        .collect();
    Ok(evaluate(&records, max_lines))
}

// A line written with `writeln!` after "1\n2\n3\n".
const THREE_LINES: &str = "1\n2\n3\n\n";

#[test]
fn test_success() {
    let failing_files = run(&[("python.py", Some(THREE_LINES))], "", "", 4).unwrap();
    assert!(failing_files.len() == 0)
}

#[test]
fn test_to_long() {
    let failing_files = run(&[("python.py", Some(THREE_LINES))], "", "", 1).unwrap();
    assert!(failing_files.len() == 1)
}

#[test]
fn test_include_pattern() {
    let failing_files = run(
        &[("python.py", Some(THREE_LINES)), ("test.txt", Some(THREE_LINES))],
        "py$",
        "",
        1,
    )
    .unwrap();
    assert!(failing_files.len() == 1)
}

#[test]
fn test_exclude_pattern() {
    let failing_files = run(
        &[("python.py", Some(THREE_LINES)), ("test.txt", Some(THREE_LINES))],
        "",
        "(py$)|(txt$)",
        1,
    )
    .unwrap();
    assert!(failing_files.len() == 0)
}

#[test]
fn test_bad_regex() {
    let files = vec![FileEntry { path: String::new(), utf8_path: Some(String::new()) }];
    let result = select_files(&files, "\\", "");
    assert!(result.is_err());
    let result = select_files(&files, "", "\\");
    assert!(result.is_err());
}

#[test]
fn bad_regex_names_the_pattern() {
    let files: Vec<FileEntry> = Vec::new();
    assert_eq!(select_files(&files, "\\", "").unwrap_err().role, PatternRole::Include);
    assert_eq!(select_files(&files, "", "\\").unwrap_err().role, PatternRole::Exclude);
    assert_eq!(select_files(&files, "(", "\\").unwrap_err().role, PatternRole::Include);
    assert!(select_files(&files, "py$", "txt$").unwrap().is_empty());
}

#[test]
fn bad_regex_fails_on_missing_paths() {
    let files = vec![entry("/no/such/place")];
    assert!(select_files(&files, "[", "").is_err());
    assert!(select_files(&files, "", "a{").is_err());
}

#[test]
fn include_keeps_only_python_with_its_count() {
    let failing = run(
        &[("python.py", Some(THREE_LINES)), ("test.txt", Some(THREE_LINES))],
        "py$",
        "",
        1,
    )
    .unwrap();
    assert_eq!(failing.len(), 1);
    assert_eq!(failing[0].path, format!("{}/python.py", DIR));
    assert_eq!(failing[0].line_count, 4);
}

#[test]
fn include_and_exclude_together() {
    let failing = run(
        &[("a.py", Some("x\ny\n")), ("b.py", Some("x\ny\n")), ("c.txt", Some("x\ny\n"))],
        "py$",
        "^.*/b",
        1,
    )
    .unwrap();
    assert_eq!(failing.len(), 1);
    assert_eq!(failing[0].path, format!("{}/a.py", DIR));
}

#[test]
fn all_within_limit_passes() {
    let failing = run(
        &[("a.rs", Some("1\n2\n")), ("b.rs", Some("1\n2\n3")), ("c.rs", Some(""))],
        "",
        "",
        3,
    )
    .unwrap();
    assert!(failing.is_empty());
    assert_eq!(exit_code(&failing), 0);
    assert_eq!(report(&failing), "All fine! \u{1f389}");
}

#[test]
fn over_limit_reported_in_order() {
    let failing = run(
        &[("a.rs", Some("1\n2\n3\n4\n")), ("b.rs", Some("1\n")), ("c.rs", Some("1\n2\n3"))],
        "",
        "",
        2,
    )
    .unwrap();
    assert_eq!(failing.len(), 2);
    assert_eq!((failing[0].path.as_str(), failing[0].line_count), ("/tmp/testing.x1y2z3/a.rs", 4));
    assert_eq!((failing[1].path.as_str(), failing[1].line_count), ("/tmp/testing.x1y2z3/c.rs", 3));
    assert_eq!(exit_code(&failing), 1);
}

#[test]
fn limit_is_inclusive() {
    assert!(run(&[("a.rs", Some("1\n2\n3\n"))], "", "", 3).unwrap().is_empty());
    assert_eq!(run(&[("a.rs", Some("1\n2\n3\n"))], "", "", 2).unwrap().len(), 1);
}

#[test]
fn unreadable_files_never_fail() {
    let failing = run(&[("gone.rs", None), ("bin.dat", None)], "", "", 0).unwrap();
    assert!(failing.is_empty());
    assert_eq!(get_size(&None), 0);
}

#[test]
fn repeated_check_is_identical() {
    let files = [("a.rs", Some("1\n2\n3\n")), ("b.rs", Some("1\n2\n")), ("c.rs", Some("x\ny\nz"))];
    let first = run(&files, "rs$", "b", 1).unwrap();
    let second = run(&files, "rs$", "b", 1).unwrap();
    let pairs = |v: &Vec<FileRecord>| {
        v.iter().map(|r| (r.path.clone(), r.line_count)).collect::<Vec<_>>()
    };
    assert_eq!(pairs(&first), pairs(&second));
    assert_eq!(first.len(), 2);
    assert_eq!(pairs(&evaluate(&first, 1)), pairs(&first));
}

#[test]
fn non_utf8_path_matches_as_empty_text() {
    let files = vec![FileEntry { path: "bad\u{fffd}.py".to_string(), utf8_path: None }];
    assert!(select_files(&files, "py$", "").unwrap().is_empty());
    assert_eq!(select_files(&files, "", "py$").unwrap().len(), 1);
    assert_eq!(select_files(&files, "^$", "").unwrap().len(), 1);
}

#[test]
fn count_lines_follows_line_splitting() {
    assert_eq!(count_lines(""), 0);
    assert_eq!(count_lines("a"), 1);
    assert_eq!(count_lines("a\n"), 1);
    assert_eq!(count_lines("\n"), 1);
    assert_eq!(count_lines("\n\n"), 2);
    assert_eq!(count_lines("a\n\nb"), 3);
    assert_eq!(count_lines("a\r\nb\r\n"), 2);
    assert_eq!(count_lines("1\n2\n3\n\n"), 4);
    assert_eq!(count_lines("\u{e9}t\u{e9}\nna\u{ef}ve"), 2);
}

#[test]
fn get_size_of_read_text() {
    assert_eq!(get_size(&Some("x\ny\nz\n".to_string())), 3);
    assert_eq!(get_size(&Some(String::new())), 0);
}

#[test]
fn red_wraps_in_color_codes() {
    assert_eq!(red("oops"), "\x1b[0;31moops\x1b[0m");
    assert_eq!(red(""), "\x1b[0;31m\x1b[0m");
}

#[test]
fn report_lists_failing_files() {
    let failing = vec![
        FileRecord { path: "src/a.rs".to_string(), line_count: 1203 },
        FileRecord { path: "b.py".to_string(), line_count: 7 },
    ];
    assert_eq!(
        report(&failing),
        "\x1b[0;31mNo good! \u{1f46e} \u{1f6a8} Some files are too long.\x1b[0m\n src/a.rs:1203\n b.py:7"
    );
    assert_eq!(exit_code(&failing), 1);
    assert_eq!(exit_code(&Vec::new()), 0);
}

#[test]
fn retain_marked_keeps_marked_in_order() {
    let files = vec![entry("a"), entry("b"), entry("c"), entry("d")];
    let kept = retain_marked(&files, &vec![true, false, false, true]);
    let paths: Vec<&str> = kept.iter().map(|f| f.path.as_str()).collect();
    assert_eq!(paths, vec!["a", "d"]);
    assert!(retain_marked(&files, &vec![false; 4]).is_empty());
}

#[test]
fn measured_record_keeps_path() {
    let r = FileRecord::measured("x.rs".to_string(), &Some("a\nb".to_string()));
    assert_eq!(r.path, "x.rs");
    assert_eq!(r.line_count, 2);
    let r = FileRecord::measured("y.rs".to_string(), &None);
    assert_eq!(r.line_count, 0);
}
