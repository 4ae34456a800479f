use vstd::prelude::*;

verus! {

/// Splits `s` at every `'\n'`; the result always holds at least one segment.
pub open spec fn segments(s: Seq<char>) -> Seq<Seq<char>>
    decreases s.len(),
{
    if s.len() == 0 {
        seq![Seq::<char>::empty()]
    } else if s.last() == '\n' {
        segments(s.drop_last()).push(Seq::<char>::empty())
    } else {
        let p = segments(s.drop_last());
        p.update(p.len() - 1, p.last().push(s.last()))
    }
}

/// A line as a line ending leaves it: one `'\r'` right before the `'\n'` is
/// part of the ending.
pub open spec fn strip_cr(l: Seq<char>) -> Seq<char> {
    if l.len() > 0 && l.last() == '\r' {
        l.drop_last()
    } else {
        l
    }
}

/// The lines of `s`: each segment that a `'\n'` ends, without a `'\r'` just
/// before that `'\n'`, then the unterminated rest, if it is nonempty, as it is.
pub open spec fn lines_of(s: Seq<char>) -> Seq<Seq<char>> {
    let p = segments(s);
    let ended = p.drop_last().map_values(|l: Seq<char>| strip_cr(l));
    if p.last().len() == 0 {
        ended
    } else {
        ended.push(p.last())
    }
}

pub proof fn lemma_segments_nonempty(s: Seq<char>)
    ensures
        segments(s).len() >= 1,
    decreases s.len(),
{
    if s.len() > 0 {
        lemma_segments_nonempty(s.drop_last());
    }
}

/// The entry names that `text` lists, one per line, in the order they appear.
pub fn entry_names(text: &String) -> (r: Vec<String>)
    ensures
        r.deep_view() == lines_of(text@),
{
    let s: &str = text.as_str();
    let n: usize = s.unicode_len();
    let mut names: Vec<String> = Vec::new();
    let mut start: usize = 0;
    let mut i: usize = 0;
    proof {
        assert(s@.subrange(0, 0) =~= Seq::<char>::empty());
        assert(segments(s@.subrange(0, 0)).drop_last().map_values(|l: Seq<char>| strip_cr(l))
            =~= names.deep_view());
    }
    while i < n
        invariant
            n == s@.len(),
            s@ == text@,
            start <= i <= n,
            segments(s@.subrange(0, i as int)).len() >= 1,
            segments(s@.subrange(0, i as int)).last() == s@.subrange(start as int, i as int),
            names.deep_view() == segments(s@.subrange(0, i as int)).drop_last().map_values(
                |l: Seq<char>| strip_cr(l),
            ),
        decreases n - i,
    {
        let ghost before = segments(s@.subrange(0, i as int));
        let c = s.get_char(i);
        proof {
            assert(s@.subrange(0, i + 1).drop_last() =~= s@.subrange(0, i as int));
        }
        if c == '\n' {
            let line: String;
            if i > start && s.get_char(i - 1) == '\r' {
                line = s.substring_char(start, i - 1).to_owned();
                proof {
                    assert(line@ =~= strip_cr(before.last()));
                }
            } else {
                line = s.substring_char(start, i).to_owned();
                proof {
                    assert(line@ =~= strip_cr(before.last()));
                }
            }
            let ghost old_names = names.deep_view();
            names.push(line);
            start = i + 1;
            proof {
                assert(names.deep_view() =~= old_names.push(line@));
                assert(before.drop_last().push(before.last()) =~= before);
                assert(before.map_values(|l: Seq<char>| strip_cr(l)) =~= before.drop_last().map_values(
                    |l: Seq<char>| strip_cr(l),
                ).push(strip_cr(before.last())));
                let after = segments(s@.subrange(0, i + 1));
                assert(after == before.push(Seq::<char>::empty()));
                assert(after.drop_last() =~= before);
                assert(names.deep_view() =~= before.map_values(|l: Seq<char>| strip_cr(l)));
                assert(s@.subrange(start as int, i + 1) =~= Seq::<char>::empty());
            }
        } else {
            proof {
                let after = segments(s@.subrange(0, i + 1));
                assert(after.drop_last() =~= before.drop_last());
                assert(s@.subrange(start as int, i + 1) =~= s@.subrange(start as int, i as int).push(c));
            }
        }
        i = i + 1;
    }
    proof {
        assert(s@.subrange(0, n as int) =~= s@);
    }
    if start < n {
        let line = s.substring_char(start, n).to_owned();
        names.push(line);
        proof {
            assert(names.deep_view() =~= lines_of(s@));
        }
    } else {
        proof {
            assert(names.deep_view() =~= lines_of(s@));
        }
    }
    names
}

} // verus!
