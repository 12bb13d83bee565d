//! The file-detail column: name, byte size and timestamps as labelled lines.
//!
//! The host reads the file's metadata (or fails to) and hands over plain
//! numbers; this module renders them.  Timestamps arrive as seconds since
//! the Unix epoch and are formatted `YYYY-MM-DD HH:MM:SS` in UTC.
use vstd::prelude::*;

verus! {

/// The decimal digit character for `d`.
pub open spec fn dec_digit(d: int) -> char {
    if d == 0 {
        '0'
    } else if d == 1 {
        '1'
    } else if d == 2 {
        '2'
    } else if d == 3 {
        '3'
    } else if d == 4 {
        '4'
    } else if d == 5 {
        '5'
    } else if d == 6 {
        '6'
    } else if d == 7 {
        '7'
    } else if d == 8 {
        '8'
    } else {
        '9'
    }
}

/// The decimal digits of `n`, most significant first.
pub open spec fn dec_str(n: int) -> Seq<char>
    recommends
        n >= 0,
    decreases n,
{
    if n < 10 {
        seq![dec_digit(n)]
    } else {
        dec_str(n / 10).push(dec_digit(n % 10))
    }
}

fn dec_digit_char(d: u64) -> (c: char)
    requires
        d < 10,
    ensures
        c == dec_digit(d as int),
{
    if d == 0 {
        '0'
    } else if d == 1 {
        '1'
    } else if d == 2 {
        '2'
    } else if d == 3 {
        '3'
    } else if d == 4 {
        '4'
    } else if d == 5 {
        '5'
    } else if d == 6 {
        '6'
    } else if d == 7 {
        '7'
    } else if d == 8 {
        '8'
    } else {
        '9'
    }
}

/// `n` in decimal.
pub fn u64_to_string(n: u64) -> (r: String)
    ensures
        r@ == dec_str(n as int),
{
    let mut m: u64 = n;
    let mut rev: Vec<char> = Vec::new();
    proof {
        assert(dec_str(n as int) =~= dec_str(n as int) + rev@.reverse());
    }
    while m >= 10
        invariant
            dec_str(n as int) == dec_str(m as int) + rev@.reverse(),
        decreases m,
    {
        let d = m % 10;
        let ghost prev = rev@;
        rev.push(dec_digit_char(d));
        proof {
            assert(rev@.reverse() =~= seq![dec_digit(d as int)] + prev.reverse());
            assert(dec_str(m as int) + prev.reverse() =~= dec_str(m as int / 10) + rev@.reverse());
        }
        m = m / 10;
    }
    let ghost prev = rev@;
    rev.push(dec_digit_char(m));
    proof {
        assert(rev@.reverse() =~= seq![dec_digit(m as int)] + prev.reverse());
        assert(dec_str(m as int) =~= seq![dec_digit(m as int)]);
        assert(dec_str(n as int) =~= rev@.reverse());
    }
    let fwd = crate::text::reversed_chars(&rev);
    crate::text::string_of_chars(&fwd)
}

/// What the host could read of a file's metadata.
#[derive(Clone, Copy, Debug)]
pub struct FileMeta {
    /// Size in bytes.
    pub size: u64,
    /// Creation time, seconds since the Unix epoch.
    pub created_secs: i64,
    /// Modification time, seconds since the Unix epoch.
    pub modified_secs: i64,
}

/// The text `YYYY-MM-DD HH:MM:SS` (UTC) for a Unix timestamp.  Named only:
/// the civil-calendar rendering is chrono's.
pub uninterp spec fn datetime_text_of(secs: i64) -> Seq<char>;

/// Latest second of year 9999, the last the four-digit rendering covers.
pub const MAX_RENDERED_SECS: i64 = 253402300799;

/// Relies on `chrono::DateTime::from_timestamp` and `DateTime::format` with
/// `%Y-%m-%d %H:%M:%S`: a pure rendering of the timestamp, in UTC, with no
/// dependence on locale or machine time zone.
#[verifier::external_body]
fn format_datetime(secs: i64) -> (r: String)
    requires
        0 <= secs <= MAX_RENDERED_SECS,
    ensures
        r@ == datetime_text_of(secs),
{
    match chrono::DateTime::from_timestamp(secs, 0) {
        Some(dt) => dt.format("%Y-%m-%d %H:%M:%S").to_string(),
        None => String::new(),
    }
}

/// The timestamp line text for a Unix timestamp within the rendered range.
pub fn system_time_to_datetime_string(secs: i64) -> (r: String)
    requires
        0 <= secs <= MAX_RENDERED_SECS,
    ensures
        r@ == datetime_text_of(secs),
{
    format_datetime(secs)
}

/// The lines of a file-detail column.  When the metadata could not be read
/// the lines are simply absent; otherwise the name, byte size, creation
/// time and modification time each appear as `label: value`.
pub fn detail_lines(filename: &str, meta: Option<&FileMeta>) -> (r: Vec<String>)
    requires
        match meta {
            Some(m) => 0 <= m.created_secs <= MAX_RENDERED_SECS && 0 <= m.modified_secs
                <= MAX_RENDERED_SECS,
            None => true,
        },
    ensures
        meta is None ==> r@.len() == 0,
        match meta {
            Some(m) => r@.len() == 4 && r@[0]@ == "filename: "@ + filename@ && r@[1]@ == "size: "@
                + dec_str(m.size as int) && r@[2]@ == "created_time: "@ + datetime_text_of(
                m.created_secs,
            ) && r@[3]@ == "modified_time: "@ + datetime_text_of(m.modified_secs),
            None => true,
        },
{
    let mut r: Vec<String> = Vec::new();
    match meta {
        Some(m) => {
            let mut line0 = "filename: ".to_owned();
            line0.append(filename);
            r.push(line0);
            let mut line1 = "size: ".to_owned();
            let size_text = u64_to_string(m.size);
            line1.append(size_text.as_str());
            r.push(line1);
            let mut line2 = "created_time: ".to_owned();
            let created_text = format_datetime(m.created_secs);
            line2.append(created_text.as_str());
            r.push(line2);
            let mut line3 = "modified_time: ".to_owned();
            let modified_text = format_datetime(m.modified_secs);
            line3.append(modified_text.as_str());
            r.push(line3);
        },
        None => {},
    }
    r
}

} // verus!
