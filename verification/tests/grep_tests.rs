use grepr::format::concat_emitted;
use grepr::format::format_count;
use grepr::format::format_count_line;
use grepr::format::format_error_line;
use grepr::lines::split_lines;
use grepr::matcher::Matcher;
use grepr::runner::exit_code;
use grepr::runner::process_file;
use grepr::runner::run_targets;
use grepr::runner::FileData;
use grepr::runner::TargetData;
use grepr::scan::scan_lines;
use grepr::traverse::ResolveError;

fn matcher(pattern: &str, case_insensitive: bool) -> Matcher {
    Matcher::build(pattern, case_insensitive).unwrap()
}

#[test]
fn build_rejects_invalid_pattern() {
    let r = Matcher::build("*foo", false);
    assert!(r.is_err());
    assert!(!r.err().unwrap().message.is_empty());
}

#[test]
fn build_accepts_plain_pattern() {
    assert!(Matcher::build("err", false).is_ok());
    assert!(Matcher::build("a.c+[xyz]$", true).is_ok());
}

#[test]
fn case_insensitive_matching() {
    let m = matcher("abc", true);
    assert!(m.matches("ABC"));
    assert!(m.matches("AbC"));
    assert!(m.matches("xabcx"));
    let exact = matcher("abc", false);
    assert!(!exact.matches("ABC"));
    assert!(exact.matches("xabcx"));
}

#[test]
fn split_keeps_newlines() {
    let lines = split_lines("ok\nerror\n");
    assert_eq!(lines, vec!["ok\n".to_string(), "error\n".to_string()]);
}

#[test]
fn split_final_unterminated_line() {
    let lines = split_lines("a\nb");
    assert_eq!(lines, vec!["a\n".to_string(), "b".to_string()]);
    assert_eq!(split_lines(""), Vec::<String>::new());
    assert_eq!(split_lines("\n"), vec!["\n".to_string()]);
}

#[test]
fn matching_lines_are_emitted_and_nothing_else() {
    let m = matcher("err", false);
    let lines = split_lines("ok\nerror\nOK\nERR\n");
    let outcome = scan_lines(&m, &lines, false, false);
    assert_eq!(outcome.emitted, vec!["error\n".to_string()]);
    assert_eq!(outcome.match_count, 1);
    assert_eq!(outcome.invert_count, 0);
}

#[test]
fn match_count_is_kept_in_both_modes() {
    let m = matcher("err", true);
    let lines = split_lines("ok\nerror\nOK\nERR\n");
    let per_line = scan_lines(&m, &lines, false, false);
    let count_only = scan_lines(&m, &lines, false, true);
    assert_eq!(per_line.match_count, 2);
    assert_eq!(count_only.match_count, 2);
    assert!(count_only.emitted.is_empty());
}

#[test]
fn invert_count_counts_non_matching_lines() {
    let m = matcher("err", false);
    let lines = split_lines("ok\nerror\nOK\nERR\n");
    let outcome = scan_lines(&m, &lines, true, true);
    assert_eq!(outcome.match_count, 1);
    assert_eq!(outcome.invert_count, 3);
    let printed = process_file(&m, "f.txt", "ok\nerror\nOK\nERR\n", true, true);
    assert_eq!(printed, "f.txt:3\n");
}

#[test]
fn end_to_end_example() {
    let content = "ok\nerror\nOK\nERR\n";
    let plain = matcher("err", false);
    assert_eq!(process_file(&plain, "path", content, false, false), "error\n");
    let folded = matcher("err", true);
    assert_eq!(process_file(&folded, "path", content, false, false), "error\nERR\n");
    assert_eq!(process_file(&folded, "path", content, false, true), "path:2\n");
}

#[test]
fn format_count_renders_decimal() {
    assert_eq!(format_count(0), "0");
    assert_eq!(format_count(7), "7");
    assert_eq!(format_count(10), "10");
    assert_eq!(format_count(90210), "90210");
}

#[test]
fn format_lines_have_fixed_shape() {
    assert_eq!(format_count_line("d/a.txt", 12), "d/a.txt:12\n");
    assert_eq!(format_error_line("gone.txt", "No such file or directory"), "gone.txt: No such file or directory\n");
}

#[test]
fn concat_emitted_is_verbatim() {
    let lines = vec!["a\n".to_string(), "b".to_string()];
    assert_eq!(concat_emitted(&lines), "a\nb");
}

#[test]
fn multi_target_isolation() {
    let m = matcher("err", false);
    let targets = vec![
        TargetData { label: "missing.txt".to_string(), outcome: Err(ResolveError::NotFound) },
        TargetData {
            label: "real.txt".to_string(),
            outcome: Ok(vec![FileData {
                label: "real.txt".to_string(),
                content: Ok("fine\nerror here\n".to_string()),
            }]),
        },
    ];
    let r = run_targets(&m, false, false, &targets);
    assert_eq!(r.out, "error here\n");
    assert_eq!(r.err, "missing.txt: No such file or directory\n");
    assert_eq!(r.ok_targets, 1);
    assert_eq!(exit_code(r.ok_targets), 0);
}

#[test]
fn read_error_discards_file_output() {
    let m = matcher("err", false);
    let targets = vec![TargetData {
        label: "bad.txt".to_string(),
        outcome: Ok(vec![FileData {
            label: "bad.txt".to_string(),
            content: Err("stream did not contain valid UTF-8".to_string()),
        }]),
    }];
    let r = run_targets(&m, false, true, &targets);
    assert_eq!(r.out, "");
    assert_eq!(r.err, "bad.txt: stream did not contain valid UTF-8\n");
    assert_eq!(r.ok_targets, 0);
    assert_eq!(exit_code(r.ok_targets), 1);
}

#[test]
fn directory_error_is_reported_per_target() {
    let m = matcher("x", false);
    let targets = vec![TargetData {
        label: "d".to_string(),
        outcome: Err(ResolveError::IsADirectory),
    }];
    let r = run_targets(&m, false, false, &targets);
    assert_eq!(r.out, "");
    assert_eq!(r.err, "d: is a directory\n");
}

#[test]
fn runs_are_idempotent() {
    let m = matcher("e", true);
    let targets = vec![TargetData {
        label: "a".to_string(),
        outcome: Ok(vec![FileData {
            label: "a".to_string(),
            content: Ok("one\ntwo\nthree".to_string()),
        }]),
    }];
    let first = run_targets(&m, true, false, &targets);
    let second = run_targets(&m, true, false, &targets);
    assert_eq!(first.out, second.out);
    assert_eq!(first.err, second.err);
    assert_eq!(first.ok_targets, second.ok_targets);
}

#[test]
fn invert_emits_only_non_matching_lines() {
    let m = matcher("err", false);
    let lines = split_lines("ok\nerror\n");
    let outcome = scan_lines(&m, &lines, true, false);
    assert_eq!(outcome.emitted, vec!["ok\n".to_string()]);
    assert_eq!(outcome.match_count, 1);
    assert_eq!(outcome.invert_count, 1);
    let printed = process_file(&m, "f.txt", "ok\nerror\n", true, false);
    assert_eq!(printed, "ok\n");
}
