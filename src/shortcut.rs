//! The command line of a launchable item, as its desktop entry writes it.

use vstd::prelude::*;

use crate::commands::{is_space, is_whitespace};

verus! {

/// The white-space separated words of `s`, in order.
pub open spec fn words(s: Seq<char>) -> Seq<Seq<char>>
    decreases s.len(),
{
    if s.len() == 0 {
        Seq::empty()
    } else {
        let rest = words(s.drop_last());
        let c = s.last();
        if is_space(c) {
            rest
        } else if s.len() > 1 && !is_space(s.drop_last().last()) {
            rest.drop_last().push(rest.last().push(c))
        } else {
            rest.push(seq![c])
        }
    }
}

/// The views of a list of strings.
pub open spec fn string_views(v: Seq<String>) -> Seq<Seq<char>> {
    v.map_values(|x: String| x@)
}

/// Splits the `Exec` field of a desktop entry into the program and its
/// arguments; a field with no word gives `None`.
pub fn split_exec(exec: &str) -> (r: Option<(String, Vec<String>)>)
    ensures
        match r {
            None => words(exec@).len() == 0,
            Some((program, args)) => {
                &&& words(exec@).len() > 0
                &&& program@ == words(exec@)[0]
                &&& string_views(args@) == words(exec@).drop_first()
            },
        },
{
    let n = exec.unicode_len();
    let mut done: Vec<String> = Vec::new();
    let mut start: usize = 0;
    let mut in_word = false;
    let mut i: usize = 0;
    while i < n
        invariant
            n == exec@.len(),
            0 <= start <= i <= n,
            in_word ==> start < i && !is_space(exec@[i - 1]) && words(exec@.take(i as int))
                == string_views(done@).push(exec@.subrange(start as int, i as int)),
            in_word ==> forall|j: int| start <= j < i ==> !is_space(#[trigger] exec@[j]),
            !in_word ==> (i == 0 || is_space(exec@[i - 1])) && words(exec@.take(i as int))
                == string_views(done@),
        decreases n - i,
    {
        let c = exec.get_char(i);
        let ghost pre = exec@.take(i as int);
        let ghost next = exec@.take(i + 1);
        assert(next.drop_last() =~= pre);
        assert(next.last() == c);
        if is_whitespace(c) {
            if in_word {
                let word = String::from_str(exec.substring_char(start, i));
                done.push(word);
                assert(string_views(done@) =~= words(pre));
            }
            in_word = false;
            assert(words(next) == words(pre));
        } else {
            if in_word {
                assert(pre.last() == exec@[i - 1]);
                assert(exec@.subrange(start as int, i + 1) =~= exec@.subrange(
                    start as int,
                    i as int,
                ).push(c));
                assert(words(next) =~= string_views(done@).push(
                    exec@.subrange(start as int, i + 1),
                ));
            } else {
                start = i;
                in_word = true;
                assert(exec@.subrange(start as int, i + 1) =~= seq![c]);
                if i > 0 {
                    assert(pre.last() == exec@[i - 1]);
                }
                assert(words(next) =~= string_views(done@).push(
                    exec@.subrange(start as int, i + 1),
                ));
            }
        }
        i = i + 1;
    }
    if in_word {
        let word = String::from_str(exec.substring_char(start, n));
        done.push(word);
    }
    assert(exec@.take(n as int) =~= exec@);
    assert(words(exec@) =~= string_views(done@));
    if done.len() == 0 {
        return None;
    }
    let program = done.remove(0);
    assert(string_views(done@) =~= words(exec@).drop_first());
    Some((program, done))
}

} // verus!
