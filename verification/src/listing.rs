//! Process ids in the output of the system's process tools.
//!
//! The tools print one process id per line, some of them under a header
//! line. Whatever else a line holds makes it count for nothing.

use vstd::prelude::*;
use crate::decimal::{parse_u32, parsed_u32};
use crate::text::{chars_of, trim, trim_bounds, CharClass};

verus! {

/// The lines of `s`: what stands between its line feeds. There is always at
/// least one, and the last is empty where `s` ends in a line feed.
pub open spec fn lines(s: Seq<char>) -> Seq<Seq<char>>
    decreases s.len(),
{
    if s.len() == 0 {
        seq![Seq::empty()]
    } else {
        let before = lines(s.drop_last());
        if s.last() == '\n' {
            before.push(Seq::empty())
        } else {
            before.drop_last().push(before.last().push(s.last()))
        }
    }
}

/// The process id that a line holds: the line is a number once the blanks at
/// its ends are removed. Any other line holds none.
pub open spec fn pid_on_line(line: Seq<char>) -> Seq<u32> {
    match parsed_u32(trim(line, CharClass::Whitespace)) {
        Some(pid) => seq![pid],
        None => Seq::empty(),
    }
}

/// The process ids that the lines hold, in their order.
pub open spec fn pids_on_lines(ls: Seq<Seq<char>>) -> Seq<u32>
    decreases ls.len(),
{
    if ls.len() == 0 {
        Seq::empty()
    } else {
        pids_on_lines(ls.drop_last()) + pid_on_line(ls.last())
    }
}

/// The lines that count: all of them, or all but a header line.
pub open spec fn counted(ls: Seq<Seq<char>>, skip_header: bool) -> Seq<Seq<char>> {
    if skip_header && ls.len() > 0 {
        ls.drop_first()
    } else {
        ls
    }
}

/// The process ids listed in `text`, one per line; with `skip_header` the
/// first line is passed over.
pub open spec fn listed_pids(text: Seq<char>, skip_header: bool) -> Seq<u32> {
    pids_on_lines(counted(lines(text), skip_header))
}

fn take_line(v: &Vec<char>, lo: usize, hi: usize, out: &mut Vec<u32>)
    requires
        lo <= hi <= v.len(),
    ensures
        final(out)@ == old(out)@ + pid_on_line(v@.subrange(lo as int, hi as int)),
{
    let (a, b) = trim_bounds(v, lo, hi, CharClass::Whitespace);
    match parse_u32(v, a, b) {
        Some(pid) => {
            out.push(pid);
            assert(out@ =~= old(out)@ + seq![pid]);
        },
        None => {
            assert(out@ =~= old(out)@ + Seq::<u32>::empty());
        },
    }
}

/// Reads the process ids that a tool has printed, one per line. With
/// `skip_header` the first line is a header and is passed over.
pub fn parse_pid_listing(text: &str, skip_header: bool) -> (pids: Vec<u32>)
    ensures
        pids@ == listed_pids(text@, skip_header),
{
    let v = chars_of(text);
    let n: usize = v.len();
    let mut out: Vec<u32> = Vec::new();
    let mut header: bool = skip_header;
    let mut pos: usize = 0;
    let mut i: usize = 0;
    let ghost mut done: Seq<Seq<char>> = Seq::empty();
    assert(v@.subrange(0, 0) =~= Seq::<char>::empty());
    assert(v@.take(0).len() == 0);
    assert(lines(v@.take(0)) =~= done.push(v@.subrange(0, 0)));
    while i < n
        invariant
            pos <= i <= n,
            n == v.len(),
            lines(v@.take(i as int)) == done.push(v@.subrange(pos as int, i as int)),
            header ==> skip_header && done.len() == 0,
            !header && skip_header ==> done.len() > 0,
            !header ==> out@ == pids_on_lines(counted(done, skip_header)),
            header ==> out@.len() == 0,
        decreases n - i,
    {
        let c = v[i];
        let ghost line = v@.subrange(pos as int, i as int);
        assert(v@.take(i + 1).drop_last() =~= v@.take(i as int));
        assert(v@.take(i + 1).last() == c);
        if c == '\n' {
            if header {
                header = false;
                assert(counted(done.push(line), skip_header) =~= Seq::<Seq<char>>::empty());
            } else {
                take_line(&v, pos, i, &mut out);
                assert(counted(done.push(line), skip_header).drop_last() =~= counted(
                    done,
                    skip_header,
                ));
            }
            proof {
                done = done.push(line);
            }
            pos = i + 1;
            assert(v@.subrange(pos as int, pos as int) =~= Seq::<char>::empty());
        } else {
            assert(done.push(line).drop_last() =~= done);
            assert(line.push(c) =~= v@.subrange(pos as int, i + 1));
        }
        i += 1;
    }
    assert(v@.take(n as int) =~= v@);
    let ghost line = v@.subrange(pos as int, n as int);
    if header {
        assert(counted(done.push(line), skip_header) =~= Seq::<Seq<char>>::empty());
    } else {
        take_line(&v, pos, n, &mut out);
        assert(counted(done.push(line), skip_header).drop_last() =~= counted(done, skip_header));
        assert(counted(done.push(line), skip_header).last() == line);
    }
    out
}

} // verus!
