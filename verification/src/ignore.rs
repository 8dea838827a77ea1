//! The patterns of an ignore file: one per line, blank lines and lines
//! starting with '#' left out.

use vstd::prelude::*;
use crate::text::{chars_of, is_white_space, lemma_trim_clean, string_from_chars, trim, trimmed};

verus! {

/// The pieces of `s` between newlines; a text without newlines is one piece.
pub open spec fn split_lines(s: Seq<char>) -> Seq<Seq<char>>
    decreases s.len(),
{
    if s.len() == 0 {
        seq![Seq::<char>::empty()]
    } else {
        let prev = split_lines(s.drop_last());
        if s.last() == '\n' {
            prev.push(Seq::<char>::empty())
        } else {
            prev.update(prev.len() - 1, prev.last().push(s.last()))
        }
    }
}

/// A trimmed line is a pattern when it is not empty and not a comment.
pub open spec fn is_pattern_line(line: Seq<char>) -> bool {
    line.len() > 0 && line[0] != '#'
}

/// The patterns of an ignore file's text: each line trimmed of white space,
/// the empty ones and those starting with '#' left out, in file order.
pub open spec fn ignore_patterns(content: Seq<char>) -> Seq<Seq<char>> {
    split_lines(content).map_values(|l: Seq<char>| trim(l)).filter(|l: Seq<char>| is_pattern_line(l))
}

/// The trimmed, kept lines of `lines`.
spec fn kept(lines: Seq<Seq<char>>) -> Seq<Seq<char>> {
    lines.map_values(|l: Seq<char>| trim(l)).filter(|l: Seq<char>| is_pattern_line(l))
}

proof fn lemma_kept_push(lines: Seq<Seq<char>>, l: Seq<char>)
    ensures
        kept(lines.push(l)) == if is_pattern_line(trim(l)) {
            kept(lines).push(trim(l))
        } else {
            kept(lines)
        },
{
    let f = |x: Seq<char>| trim(x);
    let g = |x: Seq<char>| is_pattern_line(x);
    assert(lines.push(l).map_values(f) =~= lines.map_values(f).push(trim(l)));
    assert(lines.map_values(f).push(trim(l)).drop_last() =~= lines.map_values(f));
    reveal_with_fuel(Seq::filter, 1);
}

/// Adds a finished line to the patterns when it is one.
fn keep_line(patterns: &mut Vec<String>, line: &Vec<char>)
    ensures
        final(patterns)@.map_values(|p: String| p@) == if is_pattern_line(trim(line@)) {
            old(patterns)@.map_values(|p: String| p@).push(trim(line@))
        } else {
            old(patterns)@.map_values(|p: String| p@)
        },
{
    let t = trimmed(line);
    if t.len() > 0 && t[0] != '#' {
        let ghost before = patterns@.map_values(|p: String| p@);
        patterns.push(string_from_chars(&t));
        assert(patterns@.map_values(|p: String| p@) =~= before.push(trim(line@)));
    }
}

/// The patterns in the text of an ignore file: each line trimmed, blank
/// lines and lines starting with '#' left out.
pub fn parse_ignore_patterns(content: &str) -> (r: Vec<String>)
    ensures
        r@.map_values(|p: String| p@) == ignore_patterns(content@),
{
    let cs = chars_of(content);
    let mut patterns: Vec<String> = Vec::new();
    let mut cur: Vec<char> = Vec::new();
    let ghost mut done: Seq<Seq<char>> = Seq::empty();
    let mut i: usize = 0;
    assert(cs@.take(0) =~= Seq::<char>::empty());
    assert(patterns@.map_values(|p: String| p@) =~= kept(done));
    while i < cs.len()
        invariant
            cs@ == content@,
            i <= cs.len(),
            split_lines(cs@.take(i as int)) == done.push(cur@),
            patterns@.map_values(|p: String| p@) == kept(done),
        decreases cs.len() - i,
    {
        let c = cs[i];
        assert(cs@.take(i + 1).drop_last() =~= cs@.take(i as int));
        if c == '\n' {
            proof {
                lemma_kept_push(done, cur@);
            }
            keep_line(&mut patterns, &cur);
            proof {
                done = done.push(cur@);
            }
            cur = Vec::new();
            assert(split_lines(cs@.take(i + 1)) =~= done.push(cur@));
        } else {
            cur.push(c);
            assert(split_lines(cs@.take(i + 1)) =~= done.push(cur@));
        }
        i = i + 1;
    }
    assert(cs@.take(cs.len() as int) =~= cs@);
    proof {
        lemma_kept_push(done, cur@);
    }
    keep_line(&mut patterns, &cur);
    patterns
}

/// Every pattern read from an ignore file is a non-empty line that is not a
/// comment and has no white space at either end.
pub proof fn lemma_patterns_are_clean(content: Seq<char>)
    ensures
        forall|i: int|
            0 <= i < ignore_patterns(content).len() ==> {
                let p = #[trigger] ignore_patterns(content)[i];
                &&& is_pattern_line(p)
                &&& !is_white_space(p[0])
                &&& !is_white_space(p.last())
            },
{
    let trimmed_lines = split_lines(content).map_values(|l: Seq<char>| trim(l));
    let keep = |l: Seq<char>| is_pattern_line(l);
    assert forall|i: int| 0 <= i < ignore_patterns(content).len() implies {
        let p = #[trigger] ignore_patterns(content)[i];
        &&& is_pattern_line(p)
        &&& !is_white_space(p[0])
        &&& !is_white_space(p.last())
    } by {
        let p = ignore_patterns(content)[i];
        trimmed_lines.lemma_filter_pred(keep, i);
        assert(trimmed_lines.filter(keep).contains(p));
        trimmed_lines.lemma_filter_contains_rev(keep, p);
        let k = choose|k: int| 0 <= k < trimmed_lines.len() && trimmed_lines[k] == p;
        lemma_trim_clean(split_lines(content)[k]);
    }
}

} // verus!
