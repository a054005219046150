//! The command line: one flag is for the supervisor, the rest is for the
//! work it supervises.

use vstd::prelude::*;

verus! {

/// The flag that disables the fork.
pub const NO_FORK_FLAG: &'static str = "--no-fork";

/// Whether an argument is for the work, that is, not the supervisor's flag.
pub open spec fn is_forwarded(argument: Seq<char>) -> bool {
    argument != NO_FORK_FLAG@
}

/// The arguments that are passed on: all but the supervisor's flag, each as
/// it was given and in the order given.
pub open spec fn forwarded(arguments: Seq<Seq<char>>) -> Seq<Seq<char>> {
    arguments.filter(|argument: Seq<char>| is_forwarded(argument))
}

/// A command line, taken apart.
#[derive(Debug, PartialEq, Eq)]
pub struct Invocation {
    /// Whether the flag that disables the fork was given.
    pub skip_fork: bool,
    /// The arguments for the work.
    pub forwarded: Vec<String>,
}

/// What is passed on of a sequence that grew by one argument.
proof fn lemma_forwarded_push(arguments: Seq<Seq<char>>, argument: Seq<char>)
    ensures
        forwarded(arguments.push(argument)) == if is_forwarded(argument) {
            forwarded(arguments).push(argument)
        } else {
            forwarded(arguments)
        },
{
    reveal(Seq::filter);
    assert(arguments.push(argument).drop_last() =~= arguments);
}

/// What a sequence that grew by one argument contains.
proof fn lemma_contains_push(arguments: Seq<Seq<char>>, argument: Seq<char>, sought: Seq<char>)
    ensures
        arguments.push(argument).contains(sought) <==> arguments.contains(sought) || argument
            == sought,
{
    let grown = arguments.push(argument);
    if arguments.contains(sought) {
        let k = choose|k: int| 0 <= k < arguments.len() && arguments[k] == sought;
        assert(grown[k] == sought);
    }
    if argument == sought {
        assert(grown[arguments.len() as int] == sought);
    }
}

/// The flag is never among the arguments that are passed on.
pub proof fn lemma_forwarded_holds_no_flag(arguments: Seq<Seq<char>>)
    ensures
        !forwarded(arguments).contains(NO_FORK_FLAG@),
{
    let kept = forwarded(arguments);
    if kept.contains(NO_FORK_FLAG@) {
        let k = choose|k: int| 0 <= k < kept.len() && kept[k] == NO_FORK_FLAG@;
        arguments.lemma_filter_pred(|argument: Seq<char>| is_forwarded(argument), k);
    }
}

/// Takes the arguments that follow the program's name apart.
pub fn parse_arguments(arguments: &Vec<String>) -> (invocation: Invocation)
    ensures
        invocation.skip_fork <==> arguments.deep_view().contains(NO_FORK_FLAG@),
        invocation.forwarded.deep_view() == forwarded(arguments.deep_view()),
        !invocation.forwarded.deep_view().contains(NO_FORK_FLAG@),
{
    let flag = NO_FORK_FLAG.to_owned();
    let mut skip_fork = false;
    let mut kept: Vec<String> = Vec::new();
    let ghost all = arguments.deep_view();
    assert(kept.deep_view() =~= forwarded(all.take(0)));
    let mut i: usize = 0;
    while i < arguments.len()
        invariant
            i <= arguments.len(),
            all == arguments.deep_view(),
            flag@ == NO_FORK_FLAG@,
            skip_fork <==> all.take(i as int).contains(NO_FORK_FLAG@),
            kept.deep_view() == forwarded(all.take(i as int)),
        decreases arguments.len() - i,
    {
        let ghost seen = all.take(i as int);
        let ghost argument = arguments[i as int]@;
        let ghost before = kept.deep_view();
        proof {
            assert(all.take(i + 1) =~= seen.push(argument));
            lemma_forwarded_push(seen, argument);
            lemma_contains_push(seen, argument, NO_FORK_FLAG@);
        }
        if arguments[i] == flag {
            skip_fork = true;
        } else {
            kept.push(arguments[i].clone());
            assert(kept.deep_view() =~= before.push(argument));
        }
        i = i + 1;
    }
    proof {
        assert(all.take(i as int) =~= all);
        lemma_forwarded_holds_no_flag(all);
    }
    Invocation { skip_fork, forwarded: kept }
}

} // verus!
