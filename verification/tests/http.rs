use bldr::error::BldrError;
use bldr::http::{after_read, after_write, file_name, final_path, length_label, progress, progress_line, temp_path, Step};
use bldr::text::{decimal_string, from_char, natural_string};

#[test]
fn file_name_returns_filename_from_url() {
    assert_eq!(
        "rise.bldr".to_string(),
        file_name("http://example.com/done_asking/rise.bldr").unwrap()
    );
}

#[test]
fn file_name_returns_filename_from_just_name() {
    assert_eq!("rise.bldr", file_name("rise.bldr").unwrap());
}

#[test]
fn from_char_returns_the_correct_string() {
    assert_eq!("xxxx", from_char(4, 'x'));
}

#[test]
fn from_char_of_nothing_is_empty() {
    assert_eq!("", from_char(0, 'x'));
    assert_eq!("y", from_char(1, 'y'));
}

#[test]
fn file_name_derivation() {
    assert_eq!(file_name("http://host/path/name.ext"), Ok("name.ext"));
    assert_eq!(file_name("name.ext"), Ok("name.ext"));
    assert_eq!(file_name(""), Err(BldrError::CannotParseFileName));
    assert_eq!(file_name("http://host/path/"), Err(BldrError::CannotParseFileName));
    assert_eq!(file_name("/"), Err(BldrError::CannotParseFileName));
    assert_eq!(file_name("http://h\u{e9}te/d\u{e9}p\u{f4}t/n\u{e9}.ext"), Ok("n\u{e9}.ext"));
}

#[test]
fn download_paths() {
    assert_eq!(temp_path("/opt/cache", "rise.bldr"), "/opt/cache/rise.bldr.tmp");
    assert_eq!(final_path("/opt/cache", "rise.bldr"), "/opt/cache/rise.bldr");
}

#[test]
fn length_labels() {
    assert_eq!(length_label(None), "Unknown");
    assert_eq!(length_label(Some(0)), "0");
    assert_eq!(length_label(Some(123456)), "123456");
}

#[test]
fn progress_lines() {
    assert_eq!(progress_line("fetch", 10, "100"), "   fetch: 10/100");
    assert_eq!(progress_line("fetch", 0, "Unknown"), "   fetch: 0/Unknown");
    let line = "   fetch: 10/100";
    assert_eq!(progress("fetch", 10, "100", false), format!("{}{}", "\x08".repeat(line.len()), line));
    assert_eq!(progress("fetch", 10, "100", true), format!("{}{}\n", "\x08".repeat(line.len()), line));
    let wide = "   f\u{e9}: 1/2";
    assert_eq!(progress("f\u{e9}", 1, "2", false), format!("{}{}", "\x08".repeat(wide.len()), wide));
}

#[test]
fn chunk_bookkeeping() {
    assert_eq!(after_write(0, 100000), Ok(100000));
    assert_eq!(after_write(100000, 1), Ok(100001));
    assert_eq!(after_write(5, 0), Err(BldrError::WriteSyncFailed));
    assert_eq!(after_read(0), Step::Finish);
    assert_eq!(after_read(17), Step::Write);
}

#[test]
fn decimal_numerals() {
    assert_eq!(decimal_string(0), "0");
    assert_eq!(decimal_string(9), "9");
    assert_eq!(decimal_string(10), "10");
    assert_eq!(decimal_string(-1), "-1");
    assert_eq!(decimal_string(1000200), "1000200");
    assert_eq!(natural_string(u64::MAX), u64::MAX.to_string());
}
