//! Description of the external commands the adapters and renderers
//! want run.  This crate only builds these values; the caller executes
//! them and reports outcomes back.

use vstd::prelude::*;
use crate::text::str_views;
use crate::types::{concat_str, Error};

verus! {

/// Mathematical view of an `Invocation`.
#[verifier::ext_equal]
pub struct InvocationView {
    pub program: Seq<char>,
    pub args: Seq<Seq<char>>,
}

/// One external command line: a program and its arguments, in order.
#[derive(Clone, Debug)]
pub struct Invocation {
    pub program: String,
    pub args: Vec<String>,
}

impl View for Invocation {
    type V = InvocationView;

    open spec fn view(&self) -> InvocationView {
        InvocationView { program: self.program@, args: str_views(self.args@) }
    }
}

impl Invocation {
    /// The argument list as a sequence of character sequences.
    pub open spec fn args_views(&self) -> Seq<Seq<char>> {
        str_views(self.args@)
    }

    pub fn new(program: &str) -> (r: Invocation)
        ensures
            r.program@ == program@,
            r.args_views() =~= Seq::<Seq<char>>::empty(),
    {
        Invocation { program: program.to_owned(), args: Vec::new() }
    }

    /// Append one argument.
    pub fn arg(&mut self, a: &str)
        ensures
            final(self).program == old(self).program,
            final(self).args_views() =~= old(self).args_views().push(a@),
    {
        self.arg_owned(a.to_owned());
    }

    /// Append one owned argument.
    pub fn arg_owned(&mut self, a: String)
        ensures
            final(self).program == old(self).program,
            final(self).args_views() =~= old(self).args_views().push(a@),
    {
        let ghost old_args = self.args@;
        self.args.push(a);
        proof {
            assert(str_views(self.args@) =~= str_views(old_args).push(a@));
        }
    }
}

/// One action of a command plan, to be carried out by the caller in
/// order.
#[derive(Clone, Debug)]
pub enum Step {
    /// Run the command, wait for it, and fail loudly on a non-zero
    /// exit (report the outcome through `command_outcome`).
    Run(Invocation),
    /// Run the command, wait for it, and ignore its result (a
    /// non-critical secondary effect).
    RunQuiet(Invocation),
    /// Start the command in the background without waiting.
    Spawn(Invocation),
    /// Sleep for the given number of milliseconds (daemon warm-up).
    SleepMs(u64),
    /// Kill every process with exactly this name, ignoring the result.
    KillByName(String),
}

/// Mathematical view of a `Step`.
#[verifier::ext_equal]
pub enum StepView {
    Run(InvocationView),
    RunQuiet(InvocationView),
    Spawn(InvocationView),
    SleepMs(u64),
    KillByName(Seq<char>),
}

impl View for Step {
    type V = StepView;

    open spec fn view(&self) -> StepView {
        match self {
            Step::Run(inv) => StepView::Run(inv@),
            Step::RunQuiet(inv) => StepView::RunQuiet(inv@),
            Step::Spawn(inv) => StepView::Spawn(inv@),
            Step::SleepMs(ms) => StepView::SleepMs(*ms),
            Step::KillByName(n) => StepView::KillByName(n@),
        }
    }
}

/// Views of a vector of steps.
pub open spec fn step_views(v: Seq<Step>) -> Seq<StepView> {
    v.map_values(|s: Step| s@)
}

/// A command plan or an error, seen mathematically.
pub open spec fn plan_view(r: Result<Vec<Step>, crate::types::Error>) -> Result<
    Seq<StepView>,
    crate::types::ErrorView,
> {
    match r {
        Ok(v) => Ok(step_views(v@)),
        Err(e) => Err(e@),
    }
}

/// A `Run` step of the given program and arguments.
pub open spec fn run_step(program: Seq<char>, args: Seq<Seq<char>>) -> StepView {
    StepView::Run(InvocationView { program, args })
}

/// A `RunQuiet` step of the given program and arguments.
pub open spec fn run_quiet_step(program: Seq<char>, args: Seq<Seq<char>>) -> StepView {
    StepView::RunQuiet(InvocationView { program, args })
}

/// A `Spawn` step of the given program and arguments.
pub open spec fn spawn_step(program: Seq<char>, args: Seq<Seq<char>>) -> StepView {
    StepView::Spawn(InvocationView { program, args })
}

/// The view of an optional borrowed string.
pub open spec fn opt_str_view(o: Option<&str>) -> Option<Seq<char>> {
    match o {
        Some(s) => Some(s@),
        None => None,
    }
}

/// What the caller observed after running one command.
#[derive(Clone, Debug)]
pub struct CmdOutput {
    /// Whether the process exited with status zero.
    pub success: bool,
    pub stdout: String,
    pub stderr: String,
}

/// Turn the outcome of a `Run` step into this crate's error taxonomy:
/// a failure carries the tool's stderr verbatim, behind the given
/// prefix.
pub fn command_outcome(prefix: &str, out: &CmdOutput) -> (r: Result<(), Error>)
    ensures
        out.success ==> r is Ok,
        !out.success ==> (r matches Err(Error::Renderer(m)) && m@ == prefix@ + out.stderr@),
{
    if out.success {
        Ok(())
    } else {
        let e = concat_str_owned(prefix, &out.stderr);
        Err(Error::Renderer(e))
    }
}

/// Append a borrowed string to an owned one.
pub fn append_str(s: String, tail: &str) -> (r: String)
    ensures
        r@ == s@ + tail@,
{
    let mut s = s;
    s.append(tail);
    s
}

/// Concatenation with an owned right-hand side.
fn concat_str_owned(a: &str, b: &String) -> (r: String)
    ensures
        r@ == a@ + b@,
{
    concat_str(a, b.as_str())
}

} // verus!
