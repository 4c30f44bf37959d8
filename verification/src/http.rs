//! The decisions of an artifact download: the file's name, its paths, the
//! progress line and the bookkeeping of each chunk.

use vstd::prelude::*;
use vstd::string::*;
use vstd::utf8::encode_utf8;
use crate::error::BldrError;
use crate::text::{decimal_string, decimal_text, from_char, natural_string, natural_text, repeated};

verus! {

/// Where the last `/`-separated segment of the first `end` characters of `s`
/// begins: just behind the last `/`, or at 0 where there is none.
pub open spec fn segment_start(s: Seq<char>, end: int) -> int
    decreases end,
{
    if end <= 0 {
        0
    } else if s[end - 1] == '/' {
        end
    } else {
        segment_start(s, end - 1)
    }
}

/// The last `/`-separated segment of `s`.
pub open spec fn last_segment(s: Seq<char>) -> Seq<char> {
    s.subrange(segment_start(s, s.len() as int), s.len() as int)
}

/// The last segment begins inside the text, holds no `/`, and stands at the
/// start of the text or right behind a `/`.
pub proof fn last_segment_is_tail(s: Seq<char>, end: int)
    requires
        0 <= end <= s.len(),
    ensures
        0 <= segment_start(s, end) <= end,
        forall|j: int| segment_start(s, end) <= j < end ==> s[j] != '/',
        segment_start(s, end) == 0 || s[segment_start(s, end) - 1] == '/',
    decreases end,
{
    if end > 0 && s[end - 1] != '/' {
        last_segment_is_tail(s, end - 1);
    }
}

/// The file name that a URL ends in: its last `/`-separated segment. A URL
/// whose last segment is empty names no file.
pub fn file_name<'a>(url: &'a str) -> (out: Result<&'a str, BldrError>)
    ensures
        match out {
            Ok(name) => name@ == last_segment(url@) && name@.len() > 0,
            Err(e) => e is CannotParseFileName && last_segment(url@).len() == 0,
        },
{
    let len = url.unicode_len();
    let mut start: usize = len;
    while start > 0 && url.get_char(start - 1) != '/'
        invariant
            0 <= start <= len,
            len == url@.len(),
            segment_start(url@, len as int) == segment_start(url@, start as int),
        decreases start,
    {
        start -= 1;
    }
    if start == len {
        Err(BldrError::CannotParseFileName)
    } else {
        Ok(url.substring_char(start, len))
    }
}

/// The path of the file while it is being written.
pub fn temp_path(dir: &str, name: &str) -> (out: String)
    ensures
        out@ == dir@ + "/"@ + name@ + ".tmp"@,
{
    dir.to_owned().concat("/").concat(name).concat(".tmp")
}

/// The path of the file once the transfer is complete.
pub fn final_path(dir: &str, name: &str) -> (out: String)
    ensures
        out@ == dir@ + "/"@ + name@,
{
    dir.to_owned().concat("/").concat(name)
}

/// How the total size is shown: the advertised length as a decimal numeral,
/// or `Unknown` where none is advertised.
pub fn length_label(advertised: Option<u64>) -> (out: String)
    ensures
        out@ == match advertised {
            Some(n) => natural_text(n as nat),
            None => "Unknown"@,
        },
{
    match advertised {
        Some(n) => natural_string(n),
        None => "Unknown".to_owned(),
    }
}

/// The text of a progress line.
pub open spec fn progress_text(status: Seq<char>, written: int, length: Seq<char>) -> Seq<char> {
    "   "@ + status + ": "@ + decimal_text(written) + "/"@ + length
}

/// The progress line: the label, the bytes written so far and the total.
pub fn progress_line(status: &str, written: i64, length: &str) -> (out: String)
    ensures
        out@ == progress_text(status@, written as int, length@),
{
    let count = decimal_string(written);
    "   ".to_owned().concat(status).concat(": ").concat(count.as_str()).concat("/").concat(length)
}

/// What is written to the terminal for one progress report: one backspace for
/// each byte of the line, then the line, and a line break once the transfer
/// has finished.
pub fn progress(status: &str, written: i64, length: &str, finished: bool) -> (out: String)
    ensures
        out@ == repeated(
            encode_utf8(progress_text(status@, written as int, length@)).len(),
            '\x08',
        ) + progress_text(status@, written as int, length@) + (if finished {
            "\n"@
        } else {
            Seq::<char>::empty()
        }),
{
    let line = progress_line(status, written, length);
    let width = line.as_str().as_bytes().len();
    let erase = from_char(width, '\x08');
    let shown = erase.concat(line.as_str());
    if finished {
        shown.concat("\n")
    } else {
        assert(shown@ + Seq::<char>::empty() =~= shown@);
        shown
    }
}

/// The count of bytes written after one more chunk. A write of zero bytes
/// while data remained is a stalled writer.
pub fn after_write(written: i64, bytes_written: usize) -> (out: Result<i64, BldrError>)
    requires
        0 <= written,
        written + bytes_written <= i64::MAX,
    ensures
        match out {
            Ok(total) => bytes_written > 0 && total == written + bytes_written,
            Err(e) => bytes_written == 0 && e is WriteSyncFailed,
        },
{
    if bytes_written == 0 {
        Err(BldrError::WriteSyncFailed)
    } else {
        Ok(written + (bytes_written as i64))
    }
}

/// What a download does next.
#[derive(Debug, Clone, PartialEq, Eq)]
pub enum Step {
    /// The stream has ended: report the final progress and rename the file.
    Finish,
    /// Write the chunk that was read.
    Write,
}

/// What follows a read of `len` bytes: a read of nothing is the end of the
/// stream, anything else is a chunk to write.
pub fn after_read(len: usize) -> (out: Step)
    ensures
        out is Finish <==> len == 0,
{
    if len == 0 {
        Step::Finish
    } else {
        Step::Write
    }
}

} // verus!
