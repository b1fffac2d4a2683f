use grepr::findr;
use grepr::headr::parse_positive_int;
use grepr::wcr::count;
use grepr::wcr::FileInfo;

#[test]
fn parses_plain_positive_numbers() {
    assert_eq!(parse_positive_int("3"), Ok(3));
    assert_eq!(parse_positive_int("10"), Ok(10));
    assert_eq!(parse_positive_int("+7"), Ok(7));
}

#[test]
fn rejects_zero_and_garbage() {
    assert_eq!(parse_positive_int("0"), Err("0".to_string()));
    assert_eq!(parse_positive_int("foo"), Err("foo".to_string()));
    assert_eq!(parse_positive_int(""), Err("".to_string()));
    assert_eq!(parse_positive_int("+"), Err("+".to_string()));
    assert_eq!(parse_positive_int("12a"), Err("12a".to_string()));
    assert_eq!(parse_positive_int("-4"), Err("-4".to_string()));
    assert_eq!(parse_positive_int("4 "), Err("4 ".to_string()));
}

#[test]
fn rejects_out_of_range_numbers() {
    let huge = "99999999999999999999999999999999";
    assert_eq!(parse_positive_int(huge), Err(huge.to_string()));
}

#[test]
fn word_count_is_still_a_stub() {
    let lines = vec!["one two\n".to_string(), "three\n".to_string()];
    let info = count(&lines);
    assert_eq!(info, FileInfo { num_lines: 0, num_words: 0, num_bytes: 0, num_chars: 0 });
}

#[test]
fn finder_run_succeeds() {
    assert_eq!(findr::run(), Ok(()));
}
