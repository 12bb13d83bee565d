//! Character and string helpers shared by the display-layer modules.
//!
//! Display width is the column count a monospace renderer uses for a name:
//! ASCII characters are one cell wide, every other code point counts as two.
use vstd::prelude::*;

verus! {

/// Width in display cells of one character: 1 for ASCII, 2 otherwise.
pub open spec fn char_width(c: char) -> int {
    if c as u32 <= 127 {
        1
    } else {
        2
    }
}

/// Width in display cells of a character sequence.
pub open spec fn width_of(s: Seq<char>) -> int
    decreases s.len(),
{
    if s.len() == 0 {
        0
    } else {
        char_width(s[0]) + width_of(s.drop_first())
    }
}

pub proof fn lemma_width_concat(a: Seq<char>, b: Seq<char>)
    ensures
        width_of(a + b) == width_of(a) + width_of(b),
    decreases a.len(),
{
    if a.len() == 0 {
        assert(a + b =~= b);
    } else {
        assert((a + b).drop_first() =~= a.drop_first() + b);
        lemma_width_concat(a.drop_first(), b);
    }
}

pub proof fn lemma_width_push(s: Seq<char>, c: char)
    ensures
        width_of(s.push(c)) == width_of(s) + char_width(c),
{
    assert(s.push(c) =~= s + seq![c]);
    lemma_width_concat(s, seq![c]);
    assert(width_of(seq![c]) == char_width(c)) by {
        assert(seq![c][0] == c);
        assert(seq![c].drop_first() =~= Seq::<char>::empty());
        assert(width_of(Seq::<char>::empty()) == 0);
    }
}

/// How many leading characters of `s` a greedy scan takes before the next
/// character would push the consumed display width past `budget`.
pub open spec fn take_fit(s: Seq<char>, budget: int) -> int
    decreases s.len(),
{
    if s.len() == 0 || char_width(s[0]) > budget {
        0
    } else {
        1 + take_fit(s.drop_first(), budget - char_width(s[0]))
    }
}

/// Exact display width of one character.
pub fn char_display_width(ch: char) -> (w: usize)
    ensures
        w == char_width(ch),
{
    if (ch as u32) <= 127 {
        1
    } else {
        2
    }
}

/// The characters of a string slice, as a vector.
pub fn str_chars(s: &str) -> (v: Vec<char>)
    ensures
        v@ == s@,
{
    let n = s.unicode_len();
    let mut v: Vec<char> = Vec::new();
    let mut i: usize = 0;
    while i < n
        invariant
            i <= n,
            n == s@.len(),
            v@ == s@.take(i as int),
        decreases n - i,
    {
        v.push(s.get_char(i));
        assert(s@.take(i + 1) =~= s@.take(i as int).push(s@[i as int]));
        i = i + 1;
    }
    assert(s@.take(n as int) =~= s@);
    v
}

/// Relies on `String::push` from std: appends one character to the string.
#[verifier::external_body]
pub fn push_char(s: &mut String, c: char)
    ensures
        final(s)@ == old(s)@.push(c),
{
    s.push(c);
}

/// A string holding exactly the given characters.
pub fn string_of_chars(v: &Vec<char>) -> (s: String)
    ensures
        s@ == v@,
{
    let mut s = String::new();
    let mut i: usize = 0;
    while i < v.len()
        invariant
            i <= v@.len(),
            s@ == v@.take(i as int),
        decreases v@.len() - i,
    {
        push_char(&mut s, v[i]);
        assert(v@.take(i + 1) =~= v@.take(i as int).push(v@[i as int]));
        i = i + 1;
    }
    assert(v@.take(v@.len() as int) =~= v@);
    s
}

/// Appends `v[from..to]` to `out`.
pub fn append_range(out: &mut Vec<char>, v: &Vec<char>, from: usize, to: usize)
    requires
        from <= to <= v@.len(),
    ensures
        final(out)@ == old(out)@ + v@.subrange(from as int, to as int),
{
    let mut i: usize = from;
    while i < to
        invariant
            from <= i <= to <= v@.len(),
            out@ == old(out)@ + v@.subrange(from as int, i as int),
        decreases to - i,
    {
        out.push(v[i]);
        assert(v@.subrange(from as int, i + 1) =~= v@.subrange(from as int, i as int).push(
            v@[i as int],
        ));
        i = i + 1;
    }
}

/// Display width of `v[from..to]`.
pub fn width_range(v: &Vec<char>, from: usize, to: usize) -> (w: usize)
    requires
        from <= to <= v@.len(),
        2 * v@.len() <= usize::MAX,
    ensures
        w == width_of(v@.subrange(from as int, to as int)),
        w <= 2 * (to - from),
{
    let sub = Ghost(v@.subrange(from as int, to as int));
    let mut w: usize = 0;
    let mut i: usize = from;
    while i < to
        invariant
            from <= i <= to <= v@.len(),
            2 * v@.len() <= usize::MAX,
            sub@ == v@.subrange(from as int, to as int),
            w == width_of(sub@.take(i - from)),
            w <= 2 * (i - from),
        decreases to - i,
    {
        proof {
            lemma_width_push(sub@.take(i - from), v@[i as int]);
            assert(sub@.take(i + 1 - from) =~= sub@.take(i - from).push(v@[i as int]));
        }
        w = w + char_display_width(v[i]);
        i = i + 1;
    }
    proof {
        assert(sub@.take(to - from) =~= sub@);
    }
    w
}

/// Greedy forward scan over `v[from..to]`: takes characters while they fit in
/// `budget` display cells.  Returns how many were taken and their total width.
pub fn greedy_prefix(v: &Vec<char>, from: usize, to: usize, budget: usize) -> (r: (usize, usize))
    requires
        from <= to <= v@.len(),
    ensures
        r.0 == take_fit(v@.subrange(from as int, to as int), budget as int),
        r.1 == width_of(v@.subrange(from as int, to as int).take(r.0 as int)),
        r.1 <= budget,
        r.0 <= to - from,
    decreases to - from,
{
    let sub = Ghost(v@.subrange(from as int, to as int));
    let mut k: usize = 0;
    let mut used: usize = 0;
    proof {
        assert(sub@.skip(0) =~= sub@);
        assert(sub@.take(0) =~= Seq::<char>::empty());
    }
    loop
        invariant
            from <= to <= v@.len(),
            sub@ == v@.subrange(from as int, to as int),
            k <= to - from,
            used <= budget,
            used == width_of(sub@.take(k as int)),
            take_fit(sub@, budget as int) == k + take_fit(
                sub@.skip(k as int),
                budget - used,
            ),
        ensures
            k == take_fit(sub@, budget as int),
            used == width_of(sub@.take(k as int)),
            used <= budget,
            k <= to - from,
        decreases to - from - k,
    {
        if from + k == to {
            assert(sub@.skip(k as int) =~= Seq::<char>::empty());
            break ;
        }
        let cw = char_display_width(v[from + k]);
        assert(sub@.skip(k as int)[0] == sub@[k as int]);
        if cw > budget - used {
            break ;
        }
        proof {
            assert(sub@.skip(k as int).drop_first() =~= sub@.skip(k + 1));
            lemma_width_push(sub@.take(k as int), sub@[k as int]);
            assert(sub@.take(k + 1) =~= sub@.take(k as int).push(sub@[k as int]));
        }
        used = used + cw;
        k = k + 1;
    }
    (k, used)
}

/// Greedy backward scan over `v[from..to]`: takes characters from the end
/// while they fit in `budget` display cells.  Returns how many were taken.
pub fn greedy_suffix(v: &Vec<char>, from: usize, to: usize, budget: usize) -> (t: usize)
    requires
        from <= to <= v@.len(),
    ensures
        t == take_fit(v@.subrange(from as int, to as int).reverse(), budget as int),
        t <= to - from,
{
    let sub = Ghost(v@.subrange(from as int, to as int));
    let rev = Ghost(sub@.reverse());
    let mut t: usize = 0;
    let mut used: usize = 0;
    proof {
        assert(rev@.skip(0) =~= rev@);
        assert(rev@.take(0) =~= Seq::<char>::empty());
    }
    loop
        invariant
            from <= to <= v@.len(),
            sub@ == v@.subrange(from as int, to as int),
            rev@ == sub@.reverse(),
            t <= to - from,
            used <= budget,
            used == width_of(rev@.take(t as int)),
            take_fit(rev@, budget as int) == t + take_fit(
                rev@.skip(t as int),
                budget - used,
            ),
        ensures
            t == take_fit(rev@, budget as int),
            t <= to - from,
        decreases to - from - t,
    {
        if t == to - from {
            assert(rev@.skip(t as int) =~= Seq::<char>::empty());
            break ;
        }
        let cw = char_display_width(v[to - 1 - t]);
        assert(rev@.skip(t as int)[0] == rev@[t as int]);
        assert(rev@[t as int] == sub@[sub@.len() - 1 - t]);
        if cw > budget - used {
            break ;
        }
        proof {
            assert(rev@.skip(t as int).drop_first() =~= rev@.skip(t + 1));
            lemma_width_push(rev@.take(t as int), rev@[t as int]);
            assert(rev@.take(t + 1) =~= rev@.take(t as int).push(rev@[t as int]));
        }
        used = used + cw;
        t = t + 1;
    }
    t
}

/// The characters of `v`, in reverse order.
pub fn reversed_chars(v: &Vec<char>) -> (r: Vec<char>)
    ensures
        r@ == v@.reverse(),
{
    let mut r: Vec<char> = Vec::new();
    let mut i: usize = v.len();
    while i > 0
        invariant
            i <= v@.len(),
            r@ == v@.subrange(i as int, v@.len() as int).reverse(),
        decreases i,
    {
        r.push(v[i - 1]);
        assert(v@.subrange(i - 1, v@.len() as int).reverse() =~= v@.subrange(
            i as int,
            v@.len() as int,
        ).reverse().push(v@[i - 1]));
        i = i - 1;
    }
    assert(v@.subrange(0, v@.len() as int) =~= v@);
    r
}

} // verus!
