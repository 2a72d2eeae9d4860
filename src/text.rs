//! Character-level helpers: Unicode whitespace, trimming and line joining.

use vstd::prelude::*;

verus! {

/// The Unicode `White_Space` property, as `char::is_whitespace` reports it.
pub open spec fn is_space(c: char) -> bool {
    let v = c as u32;
    (0x09 <= v && v <= 0x0d) || v == 0x20 || v == 0x85 || v == 0xa0 || v == 0x1680
        || (0x2000 <= v && v <= 0x200a) || v == 0x2028 || v == 0x2029 || v == 0x202f
        || v == 0x205f || v == 0x3000
}

/// `s` without its trailing whitespace.
pub open spec fn trim_end(s: Seq<char>) -> Seq<char>
    decreases s.len(),
{
    if s.len() > 0 && is_space(s.last()) {
        trim_end(s.drop_last())
    } else {
        s
    }
}

/// `s` without its leading whitespace.
pub open spec fn trim_start(s: Seq<char>) -> Seq<char>
    decreases s.len(),
{
    if s.len() > 0 && is_space(s[0]) {
        trim_start(s.subrange(1, s.len() as int))
    } else {
        s
    }
}

/// The parts joined with a newline between each two of them.
pub open spec fn join_lines(parts: Seq<Seq<char>>) -> Seq<char>
    decreases parts.len(),
{
    if parts.len() == 0 {
        Seq::empty()
    } else if parts.len() == 1 {
        parts[0]
    } else {
        join_lines(parts.drop_last()) + seq!['\n'] + parts.last()
    }
}

/// The character views of a list of strings.
pub open spec fn views_of(v: Seq<String>) -> Seq<Seq<char>> {
    v.map_values(|s: String| s@)
}

pub fn is_space_char(c: char) -> (r: bool)
    ensures
        r == is_space(c),
{
    let v = c as u32;
    (0x09 <= v && v <= 0x0d) || v == 0x20 || v == 0x85 || v == 0xa0 || v == 0x1680
        || (0x2000 <= v && v <= 0x200a) || v == 0x2028 || v == 0x2029 || v == 0x202f
        || v == 0x205f || v == 0x3000
}

/// Number of characters that remain once trailing whitespace is removed.
pub fn trimmed_end_len(s: &str) -> (r: usize)
    ensures
        r <= s@.len(),
        trim_end(s@) == s@.subrange(0, r as int),
{
    let n = s.unicode_len();
    let mut end: usize = n;
    assert(s@.subrange(0, n as int) =~= s@);
    while end > 0 && is_space_char(s.get_char(end - 1))
        invariant
            n == s@.len(),
            end <= n,
            trim_end(s@) == trim_end(s@.subrange(0, end as int)),
        decreases end,
    {
        assert(s@.subrange(0, end as int).drop_last() =~= s@.subrange(0, end - 1));
        end = end - 1;
    }
    end
}

/// Index of the first character at or after `from` that is not whitespace.
pub fn skip_spaces(s: &str, from: usize) -> (r: usize)
    requires
        from <= s@.len(),
    ensures
        from <= r <= s@.len(),
        trim_start(s@.subrange(from as int, s@.len() as int)) == s@.subrange(
            r as int,
            s@.len() as int,
        ),
{
    let n = s.unicode_len();
    let mut start: usize = from;
    while start < n && is_space_char(s.get_char(start))
        invariant
            n == s@.len(),
            from <= start <= n,
            trim_start(s@.subrange(from as int, n as int)) == trim_start(
                s@.subrange(start as int, n as int),
            ),
        decreases n - start,
    {
        let ghost rest = s@.subrange(start as int, n as int);
        assert(rest.subrange(1, rest.len() as int) =~= s@.subrange(start + 1, n as int));
        start = start + 1;
    }
    start
}

/// The strings of `parts` joined with a newline between each two of them.
pub fn join_with_newlines(parts: &Vec<String>) -> (r: String)
    ensures
        r@ == join_lines(views_of(parts@)),
{
    let ghost whole = views_of(parts@);
    if parts.len() == 0 {
        return String::new();
    }
    let mut acc = parts[0].clone();
    assert(whole.subrange(0, 1) =~= seq![whole[0]]);
    let mut i: usize = 1;
    while i < parts.len()
        invariant
            1 <= i <= parts.len(),
            whole == views_of(parts@),
            acc@ == join_lines(whole.subrange(0, i as int)),
        decreases parts.len() - i,
    {
        let ghost prev = acc@;
        acc.append("\n");
        acc.append(parts[i].as_str());
        proof {
            reveal_strlit("\n");
        }
        assert(acc@ == prev + seq!['\n'] + whole[i as int]);
        assert(whole.subrange(0, i + 1).drop_last() =~= whole.subrange(0, i as int));
        i = i + 1;
    }
    assert(whole.subrange(0, parts.len() as int) =~= whole);
    acc
}

} // verus!
