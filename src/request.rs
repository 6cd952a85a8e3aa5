use vstd::prelude::*;

verus! {

/// The index of the first space in `s` at or after `from`, or `s.len()` if
/// there is none.
pub open spec fn space_from(s: Seq<char>, from: int) -> int
    recommends
        0 <= from,
    decreases s.len() - from,
{
    if from >= s.len() {
        s.len() as int
    } else if s[from] == ' ' {
        from
    } else {
        space_from(s, from + 1)
    }
}

/// The method and path of a request line: the first two of its
/// single-space-separated tokens. A line without a space has only one token
/// and is malformed.
pub open spec fn request_target(line: Seq<char>) -> Option<(Seq<char>, Seq<char>)> {
    let a = space_from(line, 0);
    if a >= line.len() {
        None
    } else {
        Some((line.subrange(0, a), line.subrange(a + 1, space_from(line, a + 1))))
    }
}

fn find_space(s: &str, n: usize, from: usize) -> (r: usize)
    requires
        n == s@.len(),
        from <= n,
    ensures
        r as int == space_from(s@, from as int),
        from <= r <= n,
{
    let mut i: usize = from;
    while i < n
        invariant
            from <= i <= n,
            n == s@.len(),
            space_from(s@, from as int) == space_from(s@, i as int),
        decreases n - i,
    {
        if s.get_char(i) == ' ' {
            return i;
        }
        i = i + 1;
    }
    i
}

/// Splits a request line into its method and path, or `None` when the line
/// holds fewer than two tokens.
pub fn parse_request_line(line: &str) -> (r: Option<(String, String)>)
    ensures
        match r {
            None => request_target(line@) is None,
            Some((m, p)) => request_target(line@) == Some((m@, p@)),
        },
{
    let n = line.unicode_len();
    let a = find_space(line, n, 0);
    if a >= n {
        return None;
    }
    let b = find_space(line, n, a + 1);
    let method = line.substring_char(0, a).to_owned();
    let path = line.substring_char(a + 1, b).to_owned();
    Some((method, path))
}

} // verus!
