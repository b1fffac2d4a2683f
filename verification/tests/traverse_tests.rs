use std::io::Write;

use grepr::matcher::Matcher;
use grepr::runner::run_targets;
use grepr::runner::FileData;
use grepr::runner::TargetData;
use grepr::traverse::is_stdin_sentinel;
use grepr::traverse::resolve;
use grepr::traverse::resolve_decision;
use grepr::traverse::ResolveDecision;
use grepr::traverse::ResolveError;
use grepr::traverse::TargetKind;

#[test]
fn stdin_sentinel_is_recognised() {
    assert!(is_stdin_sentinel("-"));
    assert!(!is_stdin_sentinel("--"));
    assert!(!is_stdin_sentinel("a"));
    assert!(!is_stdin_sentinel(""));
}

#[test]
fn sentinel_resolves_to_itself() {
    let r = resolve("-", false).unwrap();
    assert_eq!(r, vec!["-".to_string()]);
    let r = resolve("-", true).unwrap();
    assert_eq!(r, vec!["-".to_string()]);
}

#[test]
fn decision_table_is_exact() {
    assert_eq!(resolve_decision(TargetKind::RegularFile, false), ResolveDecision::ScanSelf);
    assert_eq!(resolve_decision(TargetKind::RegularFile, true), ResolveDecision::ScanSelf);
    assert_eq!(resolve_decision(TargetKind::Directory, true), ResolveDecision::WalkTree);
    assert_eq!(
        resolve_decision(TargetKind::Directory, false),
        ResolveDecision::Reject(ResolveError::IsADirectory)
    );
    assert_eq!(
        resolve_decision(TargetKind::Missing, true),
        ResolveDecision::Reject(ResolveError::NotFound)
    );
    assert_eq!(
        resolve_decision(TargetKind::Other, false),
        ResolveDecision::Reject(ResolveError::NotFound)
    );
}

#[test]
fn missing_target_is_not_found() {
    let dir = tempfile::tempdir().unwrap();
    let gone = dir.path().join("no-such-file.txt");
    let r = resolve(gone.to_str().unwrap(), false);
    assert_eq!(r, Err(ResolveError::NotFound));
    assert_eq!(ResolveError::NotFound.reason(), "No such file or directory");
}

#[test]
fn file_target_resolves_to_itself() {
    let mut file = tempfile::Builder::new().suffix(".txt").tempfile().unwrap();
    file.write_all(b"hello\n").unwrap();
    file.flush().unwrap();
    let path = file.path().to_str().unwrap().to_string();
    let r = resolve(&path, false).unwrap();
    assert_eq!(r, vec![path]);
}

#[test]
fn recursive_traversal_finds_nested_files() {
    let root = tempfile::tempdir().unwrap();
    let sub = tempfile::Builder::new().prefix("sub").tempdir_in(root.path()).unwrap();
    let mut a = tempfile::Builder::new().suffix(".txt").tempfile_in(root.path()).unwrap();
    let mut b = tempfile::Builder::new().suffix(".txt").tempfile_in(sub.path()).unwrap();
    a.write_all(b"error one\nok\n").unwrap();
    a.flush().unwrap();
    b.write_all(b"fine\nanother error\n").unwrap();
    b.flush().unwrap();

    let root_path = root.path().to_str().unwrap().to_string();
    let a_path = a.path().to_str().unwrap().to_string();
    let b_path = b.path().to_str().unwrap().to_string();

    let with_recursion = resolve(&root_path, true).unwrap();
    assert_eq!(with_recursion.len(), 2);
    assert!(with_recursion.contains(&a_path));
    assert!(with_recursion.contains(&b_path));

    let without = resolve(&root_path, false);
    assert_eq!(without, Err(ResolveError::IsADirectory));
    assert_eq!(ResolveError::IsADirectory.reason(), "is a directory");
}

#[test]
fn recursive_run_scans_every_discovered_file() {
    let root = tempfile::tempdir().unwrap();
    let sub = tempfile::Builder::new().prefix("sub").tempdir_in(root.path()).unwrap();
    let mut a = tempfile::Builder::new().suffix(".txt").tempfile_in(root.path()).unwrap();
    let mut b = tempfile::Builder::new().suffix(".txt").tempfile_in(sub.path()).unwrap();
    let a_content = "error one\nok\n";
    let b_content = "fine\nanother error\n";
    a.write_all(a_content.as_bytes()).unwrap();
    a.flush().unwrap();
    b.write_all(b_content.as_bytes()).unwrap();
    b.flush().unwrap();

    let root_path = root.path().to_str().unwrap().to_string();
    let files = resolve(&root_path, true).unwrap();
    let m = Matcher::build("error", false).unwrap();
    let file_data: Vec<FileData> = files
        .iter()
        .map(|p| {
            let content = if *p == a.path().to_str().unwrap() { a_content } else { b_content };
            FileData { label: p.clone(), content: Ok(content.to_string()) }
        })
        .collect();
    let targets = vec![TargetData { label: root_path, outcome: Ok(file_data) }];
    let r = run_targets(&m, false, true, &targets);
    assert_eq!(r.ok_targets, 1);
    let mut count_lines: Vec<&str> = r.out.lines().collect();
    count_lines.sort();
    let mut expected = vec![
        format!("{}:1", a.path().to_str().unwrap()),
        format!("{}:1", b.path().to_str().unwrap()),
    ];
    expected.sort();
    let expected_refs: Vec<&str> = expected.iter().map(|s| s.as_str()).collect();
    assert_eq!(count_lines, expected_refs);
}
