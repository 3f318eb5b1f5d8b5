//! The operator console: how a typed line splits into a command name and its
//! arguments.
use crate::utils::push_char;
use vstd::prelude::*;

verus! {

/// The command name and the arguments of a console line: the text before the
/// first space and the text after it, or the whole line and no arguments where
/// it has no space.
pub open spec fn spec_split_command(line: Seq<char>) -> (Seq<char>, Seq<char>) {
    if exists|i: int| 0 <= i < line.len() && line[i] == ' ' {
        let i = choose|i: int|
            0 <= i < line.len() && line[i] == ' ' && forall|j: int| 0 <= j < i ==> line[j] != ' ';
        (line.take(i), line.skip(i + 1))
    } else {
        (line, Seq::empty())
    }
}

/// Splits a console line at its first space into the command name and the
/// arguments.
pub fn split_command(line: &str) -> (r: (String, String))
    ensures
        (r.0@, r.1@) == spec_split_command(line@),
{
    let mut command = String::new();
    let mut args = String::new();
    let mut found = false;
    let ghost mut at: int = 0;
    for c in it: line.chars()
        invariant
            it.seq() == line@,
            0 <= it.index() <= line@.len(),
            !found ==> command@ == line@.take(it.index() as int) && args@.len() == 0
                && forall|j: int| 0 <= j < it.index() ==> line@[j] != ' ',
            found ==> 0 <= at < it.index() && line@[at] == ' ' && (forall|j: int|
                0 <= j < at ==> line@[j] != ' ') && command@ == line@.take(at) && args@
                == line@.subrange(at + 1, it.index() as int),
    {
        let ghost k = it.index() as int;
        if found {
            push_char(&mut args, c);
            proof {
                assert(line@.subrange(at + 1, k + 1) =~= line@.subrange(at + 1, k).push(c));
            }
        } else if c == ' ' {
            found = true;
            proof {
                at = k;
                assert(line@.subrange(at + 1, k + 1) =~= Seq::<char>::empty());
            }
        } else {
            push_char(&mut command, c);
            proof {
                assert(line@.take(k + 1) =~= line@.take(k).push(c));
            }
        }
    }
    proof {
        if found {
            assert(line@.subrange(at + 1, line@.len() as int) =~= line@.skip(at + 1));
            let i = choose|i: int|
                0 <= i < line@.len() && line@[i] == ' ' && forall|j: int|
                    0 <= j < i ==> line@[j] != ' ';
            assert(i == at) by {
                if i < at {
                    assert(line@[i] != ' ');
                }
                if at < i {
                    assert(line@[at] != ' ');
                }
            }
        } else {
            assert(line@.take(line@.len() as int) =~= line@);
        }
    }
    (command, args)
}

} // verus!
