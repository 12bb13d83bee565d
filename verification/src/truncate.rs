//! Middle truncation of file names for fixed-width dialog columns.
//!
//! A name that fits its column is shown unchanged.  A longer name keeps its
//! extension and is elided in the middle, so that both the start and the end
//! of the name stay readable.
use crate::text::{
    append_range, char_width, greedy_prefix, greedy_suffix, str_chars, string_of_chars, take_fit,
    width_of, width_range,
};
use vstd::prelude::*;

verus! {

/// Index of the last `.` in `s`, or -1 if there is none.
pub open spec fn last_dot(s: Seq<char>) -> int
    decreases s.len(),
{
    if s.len() == 0 {
        -1
    } else if s.last() == '.' {
        s.len() - 1
    } else {
        last_dot(s.drop_last())
    }
}

pub proof fn lemma_last_dot_bounds(s: Seq<char>)
    ensures
        -1 <= last_dot(s) < s.len(),
    decreases s.len(),
{
    if s.len() > 0 && s.last() != '.' {
        lemma_last_dot_bounds(s.drop_last());
    }
}

/// A name has an extension when a `.` stands after the first character and
/// at least one character follows it.  A lone leading dot marks a hidden
/// name, not an extension.
pub open spec fn has_extension(s: Seq<char>) -> bool {
    1 <= last_dot(s) && last_dot(s) < s.len() - 1
}

/// The characters after the last dot.
pub open spec fn extension_of(s: Seq<char>) -> Seq<char>
    recommends
        has_extension(s),
{
    s.skip(last_dot(s) + 1)
}

/// The characters before the last dot.
pub open spec fn stem_of(s: Seq<char>) -> Seq<char>
    recommends
        has_extension(s),
{
    s.take(last_dot(s))
}

/// Middle elision within `avail` display cells: a greedy head taking at most
/// half the budget, then a greedy tail from the end taking what is left, with
/// `...` in between (the dots are not counted against `avail`).
pub open spec fn elided(s: Seq<char>, avail: int) -> Seq<char> {
    let h = take_fit(s, avail / 2);
    let head = s.take(h);
    let rest = s.skip(h);
    let t = take_fit(rest.reverse(), avail - width_of(head));
    head + seq!['.', '.', '.'] + rest.skip(rest.len() - t)
}

/// The truncated form of `name` for a column `max` display cells wide.
///
/// A name within the budget is unchanged.  Otherwise, a name with an
/// extension keeps it: the stem is elided in the middle inside the budget
/// left after `...` and `.extension`; if no such budget remains, a plain
/// prefix of the whole name plus `..` and the extension is used, or just
/// `.extension` when even that does not fit.  A name without an extension is
/// elided in the middle inside `max - 3` cells.
pub open spec fn truncated(name: Seq<char>, max: int) -> Seq<char> {
    if width_of(name) <= max {
        name
    } else if has_extension(name) {
        let ext = extension_of(name);
        let ew = width_of(ext);
        let avail = if max - ew - 4 >= 0 {
            max - ew - 4
        } else {
            0
        };
        if avail > 0 && stem_of(name).len() > 0 {
            elided(stem_of(name), avail) + seq!['.'] + ext
        } else {
            let dl = if max - ew - 2 >= 0 {
                max - ew - 2
            } else {
                0
            };
            if dl > 0 {
                name.take(take_fit(name, dl)) + seq!['.', '.'] + ext
            } else {
                seq!['.'] + ext
            }
        }
    } else {
        elided(name, max - 3)
    }
}

/// Index of the last `.` of the name, if any.
fn find_last_dot(v: &Vec<char>) -> (r: Option<usize>)
    ensures
        match r {
            Some(d) => last_dot(v@) == d && d < v@.len(),
            None => last_dot(v@) == -1,
        },
{
    let mut i: usize = v.len();
    assert(v@.take(v@.len() as int) =~= v@);
    while i > 0
        invariant
            i <= v@.len(),
            last_dot(v@) == last_dot(v@.take(i as int)),
        decreases i,
    {
        assert(v@.take(i as int).last() == v@[i - 1]);
        if v[i - 1] == '.' {
            return Some(i - 1);
        }
        assert(v@.take(i as int).drop_last() =~= v@.take(i - 1));
        i = i - 1;
    }
    None
}

/// `name` cut down to at most `max_length` display cells, keeping its
/// extension and eliding the middle, exactly as [`truncated`] describes.
/// A name without an extension needs a budget of at least the three cells
/// the elision mark takes.
#[verifier::rlimit(80)]
pub fn truncate_filename(filename: &str, max_length: usize) -> (r: String)
    requires
        3 <= max_length || has_extension(filename@) || width_of(filename@) <= max_length,
        2 * filename@.len() + 8 <= usize::MAX,
    ensures
        r@ == truncated(filename@, max_length as int),
{
    let chars = str_chars(filename);
    let n = chars.len();
    assert(chars@.subrange(0, n as int) =~= filename@);
    let total = width_range(&chars, 0, n);
    if total <= max_length {
        return filename.to_owned();
    }
    let ld = find_last_dot(&chars);
    let is_ext = match &ld {
        Some(d) => 1 <= *d && *d + 1 < n,
        None => false,
    };
    if is_ext {
        let d = ld.unwrap();
        let ghost ext = extension_of(filename@);
        let ghost stem = stem_of(filename@);
        assert(ext =~= chars@.subrange(d + 1, n as int));
        assert(stem =~= chars@.subrange(0, d as int));
        let ew = width_range(&chars, d + 1, n);
        let avail = if max_length >= ew + 4 {
            max_length - (ew + 4)
        } else {
            0
        };
        let mut out: Vec<char> = Vec::new();
        if avail > 0 && d > 0 {
            let (h, used) = greedy_prefix(&chars, 0, d, avail / 2);
            proof {
                assert(stem.take(h as int) =~= chars@.subrange(0, d as int).take(h as int));
            }
            let rem = avail - used;
            let t = greedy_suffix(&chars, h, d, rem);
            proof {
                assert(chars@.subrange(h as int, d as int) =~= stem.skip(h as int));
            }
            append_range(&mut out, &chars, 0, h);
            out.push('.');
            out.push('.');
            out.push('.');
            append_range(&mut out, &chars, d - t, d);
            out.push('.');
            append_range(&mut out, &chars, d + 1, n);
            proof {
                let rest = stem.skip(h as int);
                assert(rest.skip(rest.len() - t) =~= chars@.subrange(d - t, d as int));
                assert(out@ =~= stem.take(take_fit(stem, (avail as int) / 2)) + seq!['.', '.', '.']
                    + rest.skip(rest.len() - t) + seq!['.'] + ext);
                assert(out@ =~= truncated(filename@, max_length as int));
            }
            string_of_chars(&out)
        } else {
            let dl = if max_length >= ew + 2 {
                max_length - (ew + 2)
            } else {
                0
            };
            if dl > 0 {
                let (p, _pw) = greedy_prefix(&chars, 0, n, dl);
                append_range(&mut out, &chars, 0, p);
                out.push('.');
                out.push('.');
                append_range(&mut out, &chars, d + 1, n);
                proof {
                        assert(chars@.subrange(0, p as int) =~= filename@.take(
                        take_fit(filename@, dl as int),
                    ));
                    assert(out@ =~= truncated(filename@, max_length as int));
                }
            } else {
                out.push('.');
                append_range(&mut out, &chars, d + 1, n);
                proof {
                    assert(out@ =~= seq!['.'] + ext);
                    assert(out@ =~= truncated(filename@, max_length as int));
                }
            }
            string_of_chars(&out)
        }
    } else {
        proof {
            lemma_last_dot_bounds(filename@);
            assert(!has_extension(filename@));
        }
        let avail = max_length - 3;
        let (h, used) = greedy_prefix(&chars, 0, n, avail / 2);
        let rem = avail - used;
        let t = greedy_suffix(&chars, h, n, rem);
        let mut out: Vec<char> = Vec::new();
        append_range(&mut out, &chars, 0, h);
        out.push('.');
        out.push('.');
        out.push('.');
        append_range(&mut out, &chars, n - t, n);
        proof {
            let rest = filename@.skip(h as int);
            assert(chars@.subrange(h as int, n as int) =~= rest);
            assert(chars@.subrange(0, h as int) =~= filename@.take(h as int));
            assert(rest.skip(rest.len() - t) =~= chars@.subrange(n - t, n as int));
            assert(out@ =~= truncated(filename@, max_length as int));
        }
        string_of_chars(&out)
    }
}

} // verus!
