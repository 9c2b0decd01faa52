use vstd::prelude::*;

verus! {

/// The arguments and working directory that the process was started with,
/// captured once and never changed afterwards.
pub struct LaunchContext {
    args: Vec<String>,
    cwd: String,
}

impl LaunchContext {
    /// The captured argument list.
    pub closed spec fn spec_args(&self) -> Seq<String> {
        self.args@
    }

    /// The captured working directory.
    pub closed spec fn spec_cwd(&self) -> Seq<char> {
        self.cwd@
    }

    /// Records the launch context. A working directory that could not be
    /// determined is recorded as the empty string.
    pub fn capture(args: Vec<String>, cwd: Option<String>) -> (r: LaunchContext)
        ensures
            r.spec_args() == args@,
            r.spec_cwd() == (match cwd {
                Some(d) => d@,
                None => Seq::<char>::empty(),
            }),
    {
        let cwd = match cwd {
            Some(d) => d,
            None => String::new(),
        };
        LaunchContext { args, cwd }
    }

    /// Returns a copy of the captured arguments and working directory: the
    /// same value on every call, since the context never changes.
    pub fn get_cli_args(&self) -> (r: (Vec<String>, String))
        ensures
            r.0@ == self.spec_args(),
            r.1@ == self.spec_cwd(),
    {
        let args = self.args.clone();
        assert(args@ =~= self.args@);
        (args, self.cwd.clone())
    }
}

} // verus!
