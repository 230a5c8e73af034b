//! The output handshake with the renderer script: the image path it declares
//! is the last line of its standard output, with surrounding white space
//! removed.

use vstd::prelude::*;

verus! {

/// Unicode `White_Space`: the chars that `str::trim` removes.
pub open spec fn is_white_space(c: char) -> bool {
    let u = c as u32;
    (0x9 <= u <= 0xd) || u == 0x20 || u == 0x85 || u == 0xa0 || u == 0x1680 || (0x2000 <= u
        <= 0x200a) || u == 0x2028 || u == 0x2029 || u == 0x202f || u == 0x205f || u == 0x3000
}

/// `s` without its leading white space.
pub open spec fn trim_start(s: Seq<char>) -> Seq<char>
    decreases s.len(),
{
    if s.len() > 0 && is_white_space(s[0]) {
        trim_start(s.skip(1))
    } else {
        s
    }
}

/// `s` without its trailing white space.
pub open spec fn trim_end(s: Seq<char>) -> Seq<char>
    decreases s.len(),
{
    if s.len() > 0 && is_white_space(s.last()) {
        trim_end(s.drop_last())
    } else {
        s
    }
}

/// `s` without white space at either end.
pub open spec fn trimmed(s: Seq<char>) -> Seq<char> {
    trim_end(trim_start(s))
}

/// The chars of `s` after its last `'\n'` (all of `s` when it has none).
pub open spec fn after_last_newline(s: Seq<char>) -> Seq<char>
    decreases s.len(),
{
    if s.len() == 0 {
        s
    } else if s.last() == '\n' {
        Seq::empty()
    } else {
        after_last_newline(s.drop_last()).push(s.last())
    }
}

/// The last line of `s`: one final `'\n'` ends a line and opens none, and
/// text without any line gives the empty sequence.
pub open spec fn last_line(s: Seq<char>) -> Seq<char> {
    if s.len() > 0 && s.last() == '\n' {
        after_last_newline(s.drop_last())
    } else {
        after_last_newline(s)
    }
}

/// The path that a script's standard output declares: its last line, trimmed.
/// A `'\r'` before the final `'\n'` is white space, so it goes with the trim.
pub open spec fn declared_path(stdout: Seq<char>) -> Seq<char> {
    trimmed(last_line(stdout))
}

proof fn lemma_white_space_trims_away(s: Seq<char>)
    requires
        forall|i: int| 0 <= i < s.len() ==> is_white_space(#[trigger] s[i]),
    ensures
        trim_start(s).len() == 0,
    decreases s.len(),
{
    if s.len() > 0 {
        assert(forall|i: int| 0 <= i < s.len() - 1 ==> #[trigger] s.skip(1)[i] == s[i + 1]);
        lemma_white_space_trims_away(s.skip(1));
    }
}

/// An output whose last line is empty or holds only white space declares no
/// path, whatever came before it.
pub proof fn lemma_blank_last_line_declares_nothing(stdout: Seq<char>)
    requires
        forall|i: int|
            0 <= i < last_line(stdout).len() ==> is_white_space(#[trigger] last_line(stdout)[i]),
    ensures
        declared_path(stdout).len() == 0,
{
    lemma_white_space_trims_away(last_line(stdout));
    assert(trim_start(last_line(stdout)) =~= Seq::<char>::empty());
}

/// Whether `c` is Unicode white space.
pub fn is_white_space_char(c: char) -> (r: bool)
    ensures
        r == is_white_space(c),
{
    let u = c as u32;
    (0x9 <= u && u <= 0xd) || u == 0x20 || u == 0x85 || u == 0xa0 || u == 0x1680 || (0x2000 <= u
        && u <= 0x200a) || u == 0x2028 || u == 0x2029 || u == 0x202f || u == 0x205f || u == 0x3000
}

/// The image path declared on the last line of `stdout`, or `None` when that
/// line is missing or blank. Earlier lines (logging, progress) are ignored.
pub fn declared_output_path(stdout: &str) -> (r: Option<String>)
    ensures
        match r {
            Some(p) => p@ == declared_path(stdout@) && p@.len() > 0,
            None => declared_path(stdout@).len() == 0,
        },
{
    let ghost s = stdout@;
    let n = stdout.unicode_len();
    let mut end: usize = n;
    if end > 0 && stdout.get_char(end - 1) == '\n' {
        end = end - 1;
        assert(s.drop_last() =~= s.take(end as int));
    } else {
        assert(s =~= s.take(end as int));
    }
    let mut start: usize = end;
    assert(s.subrange(start as int, end as int) =~= Seq::<char>::empty());
    while start > 0 && stdout.get_char(start - 1) != '\n'
        invariant
            start <= end <= n,
            n == s.len(),
            s == stdout@,
            after_last_newline(s.take(end as int)) == after_last_newline(s.take(start as int))
                + s.subrange(start as int, end as int),
        decreases start,
    {
        let ghost prev = s.take(start as int);
        assert(prev.drop_last() =~= s.take(start - 1));
        assert(after_last_newline(prev) == after_last_newline(s.take(start - 1)).push(
            s[start - 1],
        ));
        assert(after_last_newline(s.take(start - 1)).push(s[start - 1]) + s.subrange(
            start as int,
            end as int,
        ) =~= after_last_newline(s.take(start - 1)) + s.subrange(start - 1, end as int));
        start = start - 1;
    }
    assert(after_last_newline(s.take(start as int)) =~= Seq::<char>::empty());
    assert(last_line(s) =~= s.subrange(start as int, end as int));
    let mut lo: usize = start;
    while lo < end && is_white_space_char(stdout.get_char(lo))
        invariant
            start <= lo <= end <= n,
            n == s.len(),
            s == stdout@,
            trim_start(last_line(s)) == trim_start(s.subrange(lo as int, end as int)),
        decreases end - lo,
    {
        assert(s.subrange(lo as int, end as int).skip(1) =~= s.subrange(lo + 1, end as int));
        lo = lo + 1;
    }
    let mut hi: usize = end;
    while hi > lo && is_white_space_char(stdout.get_char(hi - 1))
        invariant
            lo <= hi <= end <= n,
            n == s.len(),
            s == stdout@,
            declared_path(s) == trim_end(s.subrange(lo as int, hi as int)),
        decreases hi,
    {
        assert(s.subrange(lo as int, hi as int).drop_last() =~= s.subrange(lo as int, hi - 1));
        hi = hi - 1;
    }
    if lo == hi {
        None
    } else {
        Some(String::from_str(stdout.substring_char(lo, hi)))
    }
}

} // verus!
