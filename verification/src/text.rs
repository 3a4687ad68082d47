//! Text processing for the scan: splitting the listing backend's output into
//! one path per line, testing the fixed file suffix, and trimming the root
//! from a path for display.

use vstd::prelude::*;
use vstd::string::*;

verus! {

/// The views of a sequence of owned strings.
pub open spec fn views_of(lines: Seq<String>) -> Seq<Seq<char>> {
    lines.map_values(|l: String| l@)
}

/// A line with a single trailing carriage return removed, as a line ending in
/// a carriage return and line feed pair has once the line feed is split off.
pub open spec fn strip_cr(line: Seq<char>) -> Seq<char> {
    if line.len() > 0 && line.last() == '\r' {
        line.drop_last()
    } else {
        line
    }
}

/// The lines of `s` that remain to be emitted, with `cur` the partial line
/// read so far. A line feed ends a line; a final line without one is kept as
/// it stands, and an empty tail after a final line feed yields no extra line.
pub open spec fn spec_lines_from(s: Seq<char>, cur: Seq<char>) -> Seq<Seq<char>>
    decreases s.len(),
{
    if s.len() == 0 {
        if cur.len() == 0 {
            seq![]
        } else {
            seq![cur]
        }
    } else if s[0] == '\n' {
        seq![strip_cr(cur)] + spec_lines_from(s.drop_first(), seq![])
    } else {
        spec_lines_from(s.drop_first(), cur.push(s[0]))
    }
}

/// The lines of `s`: split at line feeds, each line stripped of a trailing
/// carriage return, the final line ending optional.
pub open spec fn spec_lines(s: Seq<char>) -> Seq<Seq<char>> {
    spec_lines_from(s, seq![])
}

/// Splits text into its lines.
pub fn split_lines(s: &str) -> (lines: Vec<String>)
    ensures
        views_of(lines@) == spec_lines(s@),
{
    let n = s.unicode_len();
    let mut lines: Vec<String> = Vec::new();
    let mut start: usize = 0;
    let mut i: usize = 0;
    proof {
        assert(s@.skip(0) =~= s@);
        assert(s@.subrange(0, 0) =~= Seq::<char>::empty());
        assert(views_of(lines@) =~~= Seq::<Seq<char>>::empty());
        assert(views_of(lines@) + spec_lines_from(s@, Seq::<char>::empty()) =~~= spec_lines_from(
            s@,
            Seq::<char>::empty(),
        ));
    }
    while i < n
        invariant
            start <= i <= n,
            n == s@.len(),
            spec_lines(s@) == views_of(lines@) + spec_lines_from(
                s@.skip(i as int),
                s@.subrange(start as int, i as int),
            ),
        decreases n - i,
    {
        let ghost prev = lines@;
        let ghost cur = s@.subrange(start as int, i as int);
        proof {
            assert(s@.skip(i as int).drop_first() =~= s@.skip(i + 1));
            assert(s@.skip(i as int)[0] == s@[i as int]);
        }
        let c = s.get_char(i);
        if c == '\n' {
            let end = if i > start && s.get_char(i - 1) == '\r' {
                i - 1
            } else {
                i
            };
            proof {
                if i > start && s@[i - 1] == '\r' {
                    assert(cur.len() > 0 && cur.last() == '\r');
                    assert(strip_cr(cur) =~= s@.subrange(start as int, end as int));
                } else {
                    assert(strip_cr(cur) =~= s@.subrange(start as int, end as int));
                }
            }
            let line = s.substring_char(start, end).to_owned();
            lines.push(line);
            proof {
                assert(views_of(lines@) =~~= views_of(prev).push(line@));
                assert(s@.subrange(i + 1, i + 1) =~= Seq::<char>::empty());
                assert(views_of(prev).push(line@) + spec_lines_from(s@.skip(i + 1), seq![])
                    =~~= views_of(prev) + (seq![strip_cr(cur)] + spec_lines_from(
                    s@.skip(i + 1),
                    seq![],
                )));
            }
            start = i + 1;
        } else {
            proof {
                assert(s@.subrange(start as int, i + 1) =~= cur.push(s@[i as int]));
            }
        }
        i += 1;
    }
    proof {
        assert(s@.skip(n as int) =~= Seq::<char>::empty());
    }
    if start < n {
        let ghost prev = lines@;
        let line = s.substring_char(start, n).to_owned();
        lines.push(line);
        proof {
            assert(views_of(lines@) =~~= views_of(prev).push(line@));
            assert(views_of(prev).push(line@) =~~= views_of(prev) + seq![
                s@.subrange(start as int, n as int),
            ]);
        }
    } else {
        proof {
            assert(views_of(lines@) + seq![] =~~= views_of(lines@));
        }
    }
    lines
}

/// True of a file name that carries the fixed target suffix ".asd",
/// case-sensitively.
pub open spec fn spec_matches_extension(name: Seq<char>) -> bool {
    name.len() >= 4 && name[name.len() - 4] == '.' && name[name.len() - 3] == 'a' && name[name.len()
        - 2] == 's' && name[name.len() - 1] == 'd'
}

/// Tests whether a file name ends with the target suffix ".asd".
pub fn matches_extension(name: &str) -> (b: bool)
    ensures
        b == spec_matches_extension(name@),
{
    let n = name.unicode_len();
    if n < 4 {
        false
    } else {
        name.get_char(n - 4) == '.' && name.get_char(n - 3) == 'a' && name.get_char(n - 2) == 's'
            && name.get_char(n - 1) == 'd'
    }
}

/// A path with the root trimmed off the front when the root really is a
/// prefix of it; otherwise the path unchanged.
pub open spec fn spec_strip_prefix(path: Seq<char>, root: Seq<char>) -> Seq<char> {
    if root.len() <= path.len() && path.subrange(0, root.len() as int) == root {
        path.skip(root.len() as int)
    } else {
        path
    }
}

/// Trims the root from the front of a path for display.
pub fn strip_root_prefix(path: &str, root: &str) -> (r: String)
    ensures
        r@ == spec_strip_prefix(path@, root@),
{
    let np = path.unicode_len();
    let nr = root.unicode_len();
    if nr > np {
        return path.to_owned();
    }
    let mut i: usize = 0;
    while i < nr
        invariant
            i <= nr <= np,
            np == path@.len(),
            nr == root@.len(),
            forall|j: int| 0 <= j < i ==> path@[j] == root@[j],
        decreases nr - i,
    {
        if path.get_char(i) != root.get_char(i) {
            proof {
                assert(path@.subrange(0, nr as int)[i as int] != root@[i as int]);
            }
            return path.to_owned();
        }
        i += 1;
    }
    proof {
        assert(path@.subrange(0, nr as int) =~= root@);
    }
    path.substring_char(nr, np).to_owned()
}

} // verus!
