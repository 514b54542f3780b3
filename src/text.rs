use vstd::prelude::*;
use vstd::string::StrSliceExecFns;
use vstd::string::StringExecFns;

verus! {

/// The text of an optional string.
pub open spec fn opt_view(o: Option<String>) -> Option<Seq<char>> {
    match o {
        Some(s) => Some(s@),
        None => None,
    }
}

/// The pieces of `s` between newline characters: one more piece than there
/// are newlines, the last one possibly empty.
pub open spec fn split_newlines(s: Seq<char>) -> Seq<Seq<char>>
    decreases s.len(),
{
    if s.len() == 0 {
        seq![Seq::<char>::empty()]
    } else {
        let rest = split_newlines(s.drop_last());
        if s.last() == '\n' {
            rest.push(Seq::<char>::empty())
        } else {
            rest.update(rest.len() - 1, rest.last().push(s.last()))
        }
    }
}

/// A piece that was ended by a newline loses one carriage return before it.
pub open spec fn strip_carriage_return(p: Seq<char>) -> Seq<char> {
    if p.len() > 0 && p.last() == '\r' {
        p.drop_last()
    } else {
        p
    }
}

/// The lines of a text: split at `\n` or `\r\n`; the line ending of the last
/// line is optional, so a text that ends in a newline has no empty last line.
pub open spec fn lines_of(s: Seq<char>) -> Seq<Seq<char>> {
    let parts = split_newlines(s);
    let ended = parts.take(parts.len() - 1).map_values(|p: Seq<char>| strip_carriage_return(p));
    if parts.last().len() == 0 {
        ended
    } else {
        ended.push(parts.last())
    }
}

pub proof fn lemma_split_newlines_nonempty(s: Seq<char>)
    ensures
        split_newlines(s).len() >= 1,
    decreases s.len(),
{
    if s.len() > 0 {
        lemma_split_newlines_nonempty(s.drop_last());
    }
}

/// The characters of `s`, in order.
pub fn chars_of(s: &str) -> (r: Vec<char>)
    ensures
        r@ == s@,
{
    let mut r: Vec<char> = Vec::new();
    for c in it: s.chars()
        invariant
            r@ == it.seq().take(it.index() as int),
    {
        r.push(c);
    }
    r
}

/// Splits a text into its lines as `str::lines` does: at `\n` or `\r\n`,
/// with no empty line after a final line ending.
pub fn lines(s: &str) -> (r: Vec<String>)
    ensures
        r.len() == lines_of(s@).len(),
        forall|k: int| 0 <= k < r.len() ==> #[trigger] r[k]@ == lines_of(s@)[k],
{
    let cs = chars_of(s);
    let n = cs.len();
    let mut out: Vec<String> = Vec::new();
    let mut start: usize = 0;
    let mut i: usize = 0;
    proof {
        assert(s@.take(0) =~= Seq::<char>::empty());
    }
    while i < n
        invariant
            cs@ == s@,
            n == cs.len(),
            start <= i <= n,
            split_newlines(s@.take(i as int)).last() == s@.subrange(start as int, i as int),
            out.len() + 1 == split_newlines(s@.take(i as int)).len(),
            forall|k: int|
                0 <= k < out.len() ==> #[trigger] out[k]@ == strip_carriage_return(
                    split_newlines(s@.take(i as int))[k],
                ),
        decreases n - i,
    {
        let ghost before = split_newlines(s@.take(i as int));
        proof {
            assert(s@.take(i + 1).drop_last() =~= s@.take(i as int));
            lemma_split_newlines_nonempty(s@.take(i as int));
        }
        if cs[i] == '\n' {
            let end = if i > start && cs[i - 1] == '\r' {
                i - 1
            } else {
                i
            };
            let piece = String::from_str(s.substring_char(start, end));
            proof {
                assert(piece@ =~= strip_carriage_return(before.last()));
            }
            out.push(piece);
            start = i + 1;
            proof {
                assert(s@.subrange(start as int, i + 1) =~= Seq::<char>::empty());
            }
        } else {
            proof {
                assert(s@.subrange(start as int, i + 1) =~= s@.subrange(start as int, i as int).push(
                    cs[i as int],
                ));
            }
        }
        i = i + 1;
    }
    proof {
        assert(s@.take(n as int) =~= s@);
        lemma_split_newlines_nonempty(s@);
    }
    let ghost parts = split_newlines(s@);
    let ghost ended = parts.take(parts.len() - 1).map_values(
        |p: Seq<char>| strip_carriage_return(p),
    );
    assert(out@.map_values(|x: String| x@) =~= ended);
    if start < n {
        out.push(String::from_str(s.substring_char(start, n)));
    }
    proof {
        assert(out@.map_values(|x: String| x@) =~= lines_of(s@));
    }
    out
}

} // verus!
