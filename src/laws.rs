//! Properties that hold of every builder configuration.
use vstd::prelude::*;

use crate::builder::{arguments, payload, policy_token, BuilderOptions, ExecutionPolicy};

verus! {

/// The flag tokens differ from each other, from every policy token and from
/// the payload tokens.
proof fn lemma_flags_distinct(p: ExecutionPolicy)
    ensures
        "-NoProfile" != "-ExecutionPolicy",
        "-NoProfile" != "-NonInteractive",
        "-NoProfile" != policy_token(p),
        "-NonInteractive" != "-ExecutionPolicy",
        "-NonInteractive" != policy_token(p),
        "-ExecutionPolicy" != "-Command",
        "-ExecutionPolicy" != "-",
{
    reveal_strlit("-NoProfile");
    reveal_strlit("-NonInteractive");
    reveal_strlit("-ExecutionPolicy");
    reveal_strlit("-Command");
    reveal_strlit("-");
    match p {
        ExecutionPolicy::AllSigned => reveal_strlit("AllSigned"),
        ExecutionPolicy::Bypass => reveal_strlit("Bypass"),
        ExecutionPolicy::Default => reveal_strlit("Default"),
        ExecutionPolicy::RemoteSigned => reveal_strlit("RemoteSigned"),
        ExecutionPolicy::Restricted => reveal_strlit("Restricted"),
        ExecutionPolicy::Undefined => reveal_strlit("Undefined"),
        ExecutionPolicy::Unrestricted => reveal_strlit("Unrestricted"),
    }
    assert("-NoProfile"@[1] != "-ExecutionPolicy"@[1]);
    assert("-NoProfile"@[3] != "-NonInteractive"@[3]);
    assert("-NoProfile"@[0] != policy_token(p)@[0]);
    assert("-NonInteractive"@[1] != "-ExecutionPolicy"@[1]);
    assert("-NonInteractive"@[0] != policy_token(p)@[0]);
    assert("-ExecutionPolicy"@[1] != "-Command"@[1]);
    assert("-ExecutionPolicy"@.len() != "-"@.len());
}

/// Whatever the options, the argument list ends with the payload
/// `-Command -`, which makes the interpreter read its script from stdin.
pub proof fn lemma_arguments_end_with_payload(o: BuilderOptions)
    ensures
        arguments(o).len() >= 2,
        arguments(o).subrange(arguments(o).len() - 2, arguments(o).len() as int) == payload(),
{
    let a = arguments(o);
    assert(a.subrange(a.len() - 2, a.len() as int) =~= payload());
}

/// The window and echo hints never change the argument list: options that
/// differ in them alone give the same arguments, in the same order.
pub proof fn lemma_hints_leave_arguments(o: BuilderOptions, hidden: bool, print_commands: bool)
    ensures
        arguments(BuilderOptions { hidden, print_commands, ..o }) == arguments(o),
{
}

/// With an execution policy set, the list opens with `-ExecutionPolicy`
/// immediately followed by the policy's token, and `-NoProfile` and
/// `-NonInteractive`, where they occur, come after that pair.
pub proof fn lemma_policy_pair_comes_first(o: BuilderOptions, p: ExecutionPolicy)
    requires
        o.execution_policy == Some(p),
    ensures
        arguments(o).len() >= 4,
        arguments(o)[0] == "-ExecutionPolicy",
        arguments(o)[1] == policy_token(p),
        o.no_profile ==> arguments(o).contains("-NoProfile"),
        o.non_interactive ==> arguments(o).contains("-NonInteractive"),
        forall|j: int|
            0 <= j < arguments(o).len() && (arguments(o)[j] == "-NoProfile" || arguments(o)[j]
                == "-NonInteractive") ==> j >= 2,
{
    lemma_flags_distinct(p);
    let a = arguments(o);
    if o.no_profile {
        assert(a[2] == "-NoProfile");
    }
    if o.non_interactive {
        if o.no_profile {
            assert(a[3] == "-NonInteractive");
        } else {
            assert(a[2] == "-NonInteractive");
        }
    }
}

/// Setting `no_profile` to a value twice in a row has the effect of setting
/// it once.
pub proof fn lemma_no_profile_idempotent(o: BuilderOptions, flag: bool)
    ensures
        (BuilderOptions { no_profile: flag, ..BuilderOptions { no_profile: flag, ..o } }) == (
        BuilderOptions { no_profile: flag, ..o }),
        arguments(BuilderOptions { no_profile: flag, ..BuilderOptions { no_profile: flag, ..o } })
            == arguments(BuilderOptions { no_profile: flag, ..o }),
{
}

/// Without an execution policy the list never holds `-ExecutionPolicy`.
pub proof fn lemma_no_policy_no_flag(o: BuilderOptions)
    requires
        o.execution_policy is None,
    ensures
        !arguments(o).contains("-ExecutionPolicy"),
{
    lemma_flags_distinct(ExecutionPolicy::Bypass);
    let a = arguments(o);
    assert forall|j: int| 0 <= j < a.len() implies a[j] != "-ExecutionPolicy" by {
        assert(a[j] == "-NoProfile" || a[j] == "-NonInteractive" || a[j] == "-Command" || a[j]
            == "-");
    }
}

} // verus!
