use std::collections::VecDeque;

use vstd::prelude::*;

use crate::script::PsScript;

verus! {

/// The security levels under which PowerShell may run scripts.
#[derive(Clone, Copy, Debug, PartialEq, Eq, Structural)]
pub enum ExecutionPolicy {
    AllSigned,
    Bypass,
    Default,
    RemoteSigned,
    Restricted,
    Undefined,
    Unrestricted,
}

/// The token that names a policy on PowerShell's command line.
pub open spec fn policy_token(p: ExecutionPolicy) -> &'static str {
    match p {
        ExecutionPolicy::AllSigned => "AllSigned",
        ExecutionPolicy::Bypass => "Bypass",
        ExecutionPolicy::Default => "Default",
        ExecutionPolicy::RemoteSigned => "RemoteSigned",
        ExecutionPolicy::Restricted => "Restricted",
        ExecutionPolicy::Undefined => "Undefined",
        ExecutionPolicy::Unrestricted => "Unrestricted",
    }
}

impl ExecutionPolicy {
    /// The command-line token of this policy.
    pub fn as_str(&self) -> (r: &'static str)
        ensures
            r == policy_token(*self),
    {
        match self {
            ExecutionPolicy::AllSigned => "AllSigned",
            ExecutionPolicy::Bypass => "Bypass",
            ExecutionPolicy::Default => "Default",
            ExecutionPolicy::RemoteSigned => "RemoteSigned",
            ExecutionPolicy::Restricted => "Restricted",
            ExecutionPolicy::Undefined => "Undefined",
            ExecutionPolicy::Unrestricted => "Unrestricted",
        }
    }
}

/// The options that a builder holds, as plain values.
pub struct BuilderOptions {
    pub no_profile: bool,
    pub non_interactive: bool,
    pub hidden: bool,
    pub print_commands: bool,
    pub execution_policy: Option<ExecutionPolicy>,
}

/// The options of a fresh builder.
pub open spec fn default_options() -> BuilderOptions {
    BuilderOptions {
        no_profile: true,
        non_interactive: true,
        hidden: true,
        print_commands: false,
        execution_policy: None,
    }
}

/// The trailing tokens that make PowerShell read its script from stdin.
pub open spec fn payload() -> Seq<&'static str> {
    seq!["-Command", "-"]
}

/// The tokens that select an execution policy, if one is set.
pub open spec fn policy_flags(policy: Option<ExecutionPolicy>) -> Seq<&'static str> {
    match policy {
        Some(p) => seq!["-ExecutionPolicy", policy_token(p)],
        None => seq![],
    }
}

/// The argument list that a builder with the given options produces.
pub open spec fn arguments(o: BuilderOptions) -> Seq<&'static str> {
    let profile: Seq<&'static str> = if o.no_profile { seq!["-NoProfile"] } else { seq![] };
    let interactive: Seq<&'static str> = if o.non_interactive {
        seq!["-NonInteractive"]
    } else {
        seq![]
    };
    policy_flags(o.execution_policy) + profile + interactive + payload()
}

/// Builds a `PsScript` with configurable options for running a script.
pub struct PsScriptBuilder {
    args: VecDeque<&'static str>,
    no_profile: bool,
    non_interactive: bool,
    hidden: bool,
    print_commands: bool,
    execution_policy: Option<ExecutionPolicy>,
}

impl View for PsScriptBuilder {
    type V = BuilderOptions;

    closed spec fn view(&self) -> BuilderOptions {
        BuilderOptions {
            no_profile: self.no_profile,
            non_interactive: self.non_interactive,
            hidden: self.hidden,
            print_commands: self.print_commands,
            execution_policy: self.execution_policy,
        }
    }
}

impl PsScriptBuilder {
    /// The queued arguments are always the payload, which `build` prefixes.
    #[verifier::type_invariant]
    spec fn holds_payload(self) -> bool {
        self.args@ == payload()
    }

    /// Creates a builder with `no_profile`, `non_interactive` and `hidden` set
    /// to `true`, `print_commands` set to `false` and no execution policy.
    pub fn new() -> (r: Self)
        ensures
            r@ == default_options(),
    {
        Self::default()
    }

    /// Sets whether profile scripts are skipped (`-NoProfile`).
    pub fn no_profile(self, flag: bool) -> (r: Self)
        ensures
            r@ == (BuilderOptions { no_profile: flag, ..self@ }),
    {
        proof {
            use_type_invariant(&self);
        }
        let mut b = self;
        b.no_profile = flag;
        b
    }

    /// Sets whether the script runs without an interactive prompt
    /// (`-NonInteractive`).
    pub fn non_interactive(self, flag: bool) -> (r: Self)
        ensures
            r@ == (BuilderOptions { non_interactive: flag, ..self@ }),
    {
        proof {
            use_type_invariant(&self);
        }
        let mut b = self;
        b.non_interactive = flag;
        b
    }

    /// Sets whether the interpreter's window is suppressed; where the platform
    /// has no such window this has no effect.
    pub fn hidden(self, flag: bool) -> (r: Self)
        ensures
            r@ == (BuilderOptions { hidden: flag, ..self@ }),
    {
        proof {
            use_type_invariant(&self);
        }
        let mut b = self;
        b.hidden = flag;
        b
    }

    /// Sets whether each command is echoed to stdout as it runs.
    pub fn print_commands(self, flag: bool) -> (r: Self)
        ensures
            r@ == (BuilderOptions { print_commands: flag, ..self@ }),
    {
        proof {
            use_type_invariant(&self);
        }
        let mut b = self;
        b.print_commands = flag;
        b
    }

    /// Selects the execution policy, replacing any earlier choice.
    pub fn execution_policy(self, policy: ExecutionPolicy) -> (r: Self)
        ensures
            r@ == (BuilderOptions { execution_policy: Some(policy), ..self@ }),
    {
        proof {
            use_type_invariant(&self);
        }
        let mut b = self;
        b.execution_policy = Some(policy);
        b
    }

    /// Produces the invocation: the flags of the options, then the payload.
    pub fn build(self) -> (r: PsScript)
        ensures
            r.args@ == arguments(self@),
            r.hidden == self@.hidden,
            r.print_commands == self@.print_commands,
    {
        proof {
            use_type_invariant(&self);
        }
        let PsScriptBuilder {
            args: mut queue,
            no_profile,
            non_interactive,
            hidden,
            print_commands,
            execution_policy,
        } = self;
        if non_interactive {
            queue.push_front("-NonInteractive");
        }
        if no_profile {
            queue.push_front("-NoProfile");
        }
        if let Some(policy) = execution_policy {
            queue.push_front(policy.as_str());
            queue.push_front("-ExecutionPolicy");
        }
        assert(queue@ =~= arguments(self@));
        let mut args: Vec<&'static str> = Vec::new();
        let mut i: usize = 0;
        while i < queue.len()
            invariant
                i <= queue@.len(),
                args@ == queue@.subrange(0, i as int),
            decreases queue@.len() - i,
        {
            args.push(queue[i]);
            i = i + 1;
            assert(args@ =~= queue@.subrange(0, i as int));
        }
        assert(args@ =~= queue@);
        PsScript { args, hidden, print_commands }
    }
}

impl Default for PsScriptBuilder {
    /// Creates a builder with `no_profile`, `non_interactive` and `hidden` set
    /// to `true`, `print_commands` set to `false` and no execution policy.
    fn default() -> (r: Self)
        ensures
            r@ == default_options(),
    {
        let mut args: VecDeque<&'static str> = VecDeque::new();
        args.push_back("-Command");
        args.push_back("-");
        assert(args@ =~= payload());
        PsScriptBuilder {
            args,
            no_profile: true,
            non_interactive: true,
            hidden: true,
            print_commands: false,
            execution_policy: None,
        }
    }
}

} // verus!
