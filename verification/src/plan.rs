//! A plan is the list of effects that a command has on the host, in the
//! order in which they are carried out. The library decides the plan; the
//! program around it carries each step out.

use vstd::prelude::*;

verus! {

/// A program to start, with its arguments.
#[derive(Debug, Clone, PartialEq, Eq)]
pub struct Invocation {
    pub program: String,
    pub args: Vec<String>,
}

/// An invocation as character sequences.
pub struct InvocationView {
    pub program: Seq<char>,
    pub args: Seq<Seq<char>>,
}

impl View for Invocation {
    type V = InvocationView;

    open spec fn view(&self) -> InvocationView {
        InvocationView { program: self.program@, args: self.args@.map_values(|a: String| a@) }
    }
}

/// One effect on the host.
#[derive(Debug, Clone, PartialEq, Eq)]
pub enum Step {
    /// Print a line on standard output.
    Say(String),
    /// Print a line on standard error and stop with exit status 1.
    Fail(String),
    /// Copy the running executable to this path; if that fails, report the
    /// failure and stop with exit status 1.
    CopySelfTo(String),
    /// Create this directory and its parents; a failure is ignored.
    CreateDirAll(String),
    /// Write this content to this file; a failure aborts the program.
    WriteFile { path: String, content: String },
    /// Write the configuration to this file; if that fails, report the
    /// failure and stop with exit status 1.
    WriteConfig { path: String, content: String },
    /// Run a program and wait for it; its exit status is ignored.
    Run(Invocation),
    /// Run `first`; only if it cannot be started, run `fallback`.
    RunOrElse { first: Invocation, fallback: Invocation },
    /// Remove this file; a failure is ignored.
    RemoveFile(String),
    /// Remove this directory with its contents; a failure is ignored.
    RemoveDirAll(String),
}

/// A step as character sequences.
pub enum StepView {
    Say(Seq<char>),
    Fail(Seq<char>),
    CopySelfTo(Seq<char>),
    CreateDirAll(Seq<char>),
    WriteFile { path: Seq<char>, content: Seq<char> },
    WriteConfig { path: Seq<char>, content: Seq<char> },
    Run(InvocationView),
    RunOrElse { first: InvocationView, fallback: InvocationView },
    RemoveFile(Seq<char>),
    RemoveDirAll(Seq<char>),
}

impl View for Step {
    type V = StepView;

    open spec fn view(&self) -> StepView {
        match self {
            Step::Say(s) => StepView::Say(s@),
            Step::Fail(s) => StepView::Fail(s@),
            Step::CopySelfTo(p) => StepView::CopySelfTo(p@),
            Step::CreateDirAll(p) => StepView::CreateDirAll(p@),
            Step::WriteFile { path, content } => StepView::WriteFile {
                path: path@,
                content: content@,
            },
            Step::WriteConfig { path, content } => StepView::WriteConfig {
                path: path@,
                content: content@,
            },
            Step::Run(i) => StepView::Run(i@),
            Step::RunOrElse { first, fallback } => StepView::RunOrElse {
                first: first@,
                fallback: fallback@,
            },
            Step::RemoveFile(p) => StepView::RemoveFile(p@),
            Step::RemoveDirAll(p) => StepView::RemoveDirAll(p@),
        }
    }
}

/// The steps of a plan as character sequences.
pub open spec fn steps_view(steps: Seq<Step>) -> Seq<StepView> {
    steps.map_values(|s: Step| s@)
}

/// The invocation of `program` with `args`.
pub open spec fn call(program: Seq<char>, args: Seq<Seq<char>>) -> InvocationView {
    InvocationView { program, args }
}

/// An invocation of `program` with the given arguments.
pub fn invocation(program: &str, args: Vec<&str>) -> (r: Invocation)
    ensures
        r@ == call(program@, args@.map_values(|a: &str| a@)),
{
    let mut owned: Vec<String> = Vec::new();
    let n = args.len();
    for i in 0..n
        invariant
            n == args@.len(),
            owned@.len() == i,
            forall|j: int| 0 <= j < i ==> #[trigger] owned@[j]@ == args@[j]@,
    {
        owned.push(String::from_str(args[i]));
    }
    let r = Invocation { program: String::from_str(program), args: owned };
    assert(r@.args =~= args@.map_values(|a: &str| a@));
    r
}

/// Appends `step` to `plan`.
pub fn push_step(plan: &mut Vec<Step>, step: Step)
    ensures
        steps_view(final(plan)@) == steps_view(old(plan)@).push(step@),
{
    let ghost before = plan@;
    plan.push(step);
    assert(steps_view(plan@) =~= steps_view(before).push(step@));
}

/// A step that prints `line`.
pub fn say(line: &str) -> (r: Step)
    ensures
        r@ == StepView::Say(line@),
{
    Step::Say(String::from_str(line))
}

/// A step that runs `program` with `args`.
pub fn run(program: &str, args: Vec<&str>) -> (r: Step)
    ensures
        r@ == StepView::Run(call(program@, args@.map_values(|a: &str| a@))),
{
    Step::Run(invocation(program, args))
}

/// A step that removes the file at `path`.
pub fn remove_file(path: &str) -> (r: Step)
    ensures
        r@ == StepView::RemoveFile(path@),
{
    Step::RemoveFile(String::from_str(path))
}

/// A step that removes the directory tree at `path`.
pub fn remove_dir_all(path: &str) -> (r: Step)
    ensures
        r@ == StepView::RemoveDirAll(path@),
{
    Step::RemoveDirAll(String::from_str(path))
}

/// A step that prints `line` on standard error and stops.
pub fn fail(line: &str) -> (r: Step)
    ensures
        r@ == StepView::Fail(line@),
{
    Step::Fail(String::from_str(line))
}

/// A step that creates the directory tree at `path`.
pub fn create_dir_all(path: &str) -> (r: Step)
    ensures
        r@ == StepView::CreateDirAll(path@),
{
    Step::CreateDirAll(String::from_str(path))
}

/// A step that writes `content` to the file at `path`.
pub fn write_file(path: &str, content: String) -> (r: Step)
    ensures
        r@ == (StepView::WriteFile { path: path@, content: content@ }),
{
    Step::WriteFile { path: String::from_str(path), content }
}

/// Appends the steps of `more` to `plan`.
pub fn append_steps(plan: &mut Vec<Step>, more: Vec<Step>)
    ensures
        steps_view(final(plan)@) == steps_view(old(plan)@) + steps_view(more@),
{
    let ghost before = plan@;
    let ghost added = more@;
    let mut more = more;
    plan.append(&mut more);
    assert(steps_view(plan@) =~= steps_view(before) + steps_view(added));
}

/// What the program does once a step has been carried out.
#[derive(Debug, Clone, Copy, PartialEq, Eq, Structural)]
pub enum NextAction {
    /// Go on with the next step.
    Continue,
    /// Run the fallback of a `RunOrElse`, whatever it gives, then go on.
    RunFallback,
    /// Stop with exit status 1.
    Exit,
    /// Abort the program (a panic).
    Abort,
}

/// What follows `s`, given whether it succeeded. For a step that runs a
/// program, success means that the program could be started; its exit
/// status is not looked at.
pub open spec fn next_action(s: StepView, succeeded: bool) -> NextAction {
    match s {
        StepView::Fail(_) => NextAction::Exit,
        StepView::CopySelfTo(_) | StepView::WriteConfig { .. } => if succeeded {
            NextAction::Continue
        } else {
            NextAction::Exit
        },
        StepView::WriteFile { .. } => if succeeded {
            NextAction::Continue
        } else {
            NextAction::Abort
        },
        StepView::RunOrElse { .. } => if succeeded {
            NextAction::Continue
        } else {
            NextAction::RunFallback
        },
        _ => NextAction::Continue,
    }
}

/// What follows `step`, given whether it succeeded: a failed copy of the
/// binary or of the configuration stops the program, a failed write aborts it, a first program that
/// cannot be started hands over to its fallback, a `Fail` always stops, and
/// every other failure is ignored.
pub fn after_step(step: &Step, succeeded: bool) -> (r: NextAction)
    ensures
        r == next_action(step@, succeeded),
{
    match step {
        Step::Fail(_) => NextAction::Exit,
        Step::CopySelfTo(_) | Step::WriteConfig { .. } => if succeeded {
            NextAction::Continue
        } else {
            NextAction::Exit
        },
        Step::WriteFile { .. } => if succeeded {
            NextAction::Continue
        } else {
            NextAction::Abort
        },
        Step::RunOrElse { .. } => if succeeded {
            NextAction::Continue
        } else {
            NextAction::RunFallback
        },
        _ => NextAction::Continue,
    }
}

/// The line printed on standard error when `s` failed with the system's
/// error text `error`, for the steps whose failure is reported.
pub open spec fn failure_text(s: StepView, error: Seq<char>) -> Option<Seq<char>> {
    match s {
        StepView::CopySelfTo(dest) => Some(
            "[x] Failed to copy binary to "@ + dest + ": "@ + error,
        ),
        StepView::WriteConfig { .. } => Some(
            "[x] Failed to write configuration file: "@ + error + "."@,
        ),
        _ => None,
    }
}

/// The line printed on standard error when `step` failed with the system's
/// error text `error`; nothing for the steps whose failure is not reported.
pub fn failure_report(step: &Step, error: &str) -> (r: Option<String>)
    ensures
        match (r, failure_text(step@, error@)) {
            (Some(line), Some(expected)) => line@ == expected,
            (None, None) => true,
            _ => false,
        },
{
    match step {
        Step::CopySelfTo(dest) => {
            let mut line = String::from_str("[x] Failed to copy binary to ");
            line.append(dest.as_str());
            line.append(": ");
            line.append(error);
            Some(line)
        },
        Step::WriteConfig { .. } => {
            let mut line = String::from_str("[x] Failed to write configuration file: ");
            line.append(error);
            line.append(".");
            Some(line)
        },
        _ => None,
    }
}

/// `p` is the directory `dir` or lies inside it.
pub open spec fn within(p: Seq<char>, dir: Seq<char>) -> bool {
    ||| p == dir
    ||| (dir.len() < p.len() && p.subrange(0, dir.len() as int) == dir && p[dir.len() as int] == '/')
}

/// The path that a step brings into being: the copied binary, a created
/// directory, a written file, or the link that `ln -s <target> <link>` makes.
pub open spec fn created_path(s: StepView) -> Option<Seq<char>> {
    match s {
        StepView::CopySelfTo(p) => Some(p),
        StepView::CreateDirAll(p) => Some(p),
        StepView::WriteFile { path, .. } => Some(path),
        StepView::WriteConfig { path, .. } => Some(path),
        StepView::Run(c) => if c.program == "ln"@ && c.args.len() == 3 && c.args[0] == "-s"@ {
            Some(c.args[2])
        } else {
            None
        },
        _ => None,
    }
}

/// The step removes the path `p`, itself or a directory that holds it.
pub open spec fn clears(s: StepView, p: Seq<char>) -> bool {
    match s {
        StepView::RemoveFile(q) => q == p,
        StepView::RemoveDirAll(d) => within(p, d),
        _ => false,
    }
}

/// Some step of `steps` removes the path `p`.
pub open spec fn cleared_by(steps: Seq<StepView>, p: Seq<char>) -> bool {
    exists|j: int| 0 <= j < steps.len() && #[trigger] clears(steps[j], p)
}

/// The paths that exist after `s` succeeded on a host where the paths `fs`
/// existed. The model follows the paths that sentinel creates and removes
/// itself; what other programs that a step runs do to the host is not in it.
pub open spec fn step_effect(s: StepView, fs: Set<Seq<char>>) -> Set<Seq<char>> {
    match created_path(s) {
        Some(p) => fs.insert(p),
        None => fs.filter(|q: Seq<char>| !clears(s, q)),
    }
}

/// The paths that exist after a plan ran on a host where the paths `fs`
/// existed, every step succeeding: the steps take effect in order, up to the
/// first `Fail`, which stops the program.
pub open spec fn plan_effect(steps: Seq<StepView>, fs: Set<Seq<char>>) -> Set<Seq<char>>
    decreases steps.len(),
{
    if steps.len() == 0 || steps[0] is Fail {
        fs
    } else {
        plan_effect(steps.drop_first(), step_effect(steps[0], fs))
    }
}

/// No step of `steps` stops the program or creates a path.
pub open spec fn removes_only(steps: Seq<StepView>) -> bool {
    forall|i: int|
        0 <= i < steps.len() ==> !(steps[i] is Fail) && (#[trigger] created_path(steps[i])) is None
}

/// A plan that only removes leaves exactly the paths that none of its steps removes.
pub proof fn lemma_removals_only(steps: Seq<StepView>, fs: Set<Seq<char>>)
    requires
        removes_only(steps),
    ensures
        plan_effect(steps, fs) == fs.filter(|q: Seq<char>| !cleared_by(steps, q)),
    decreases steps.len(),
{
    if steps.len() == 0 {
        assert(fs.filter(|q: Seq<char>| !cleared_by(steps, q)) =~= fs);
    } else {
        let rest = steps.drop_first();
        assert(removes_only(rest)) by {
            assert forall|i: int| 0 <= i < rest.len() implies !(rest[i] is Fail) && (
            #[trigger] created_path(rest[i])) is None by {
                assert(rest[i] == steps[i + 1]);
                assert(created_path(steps[i + 1]) is None);
            }
        }
        assert(created_path(steps[0]) is None);
        let mid = step_effect(steps[0], fs);
        lemma_removals_only(rest, mid);
        assert forall|q: Seq<char>| cleared_by(steps, q) == (clears(steps[0], q) || cleared_by(rest, q)) by {
            if cleared_by(steps, q) {
                let j = choose|j: int| 0 <= j < steps.len() && #[trigger] clears(steps[j], q);
                if j > 0 {
                    assert(rest[j - 1] == steps[j]);
                    assert(clears(rest[j - 1], q));
                }
            }
            if cleared_by(rest, q) {
                let j = choose|j: int| 0 <= j < rest.len() && #[trigger] clears(rest[j], q);
                assert(rest[j] == steps[j + 1]);
                assert(clears(steps[j + 1], q));
            }
        }
        assert(plan_effect(rest, mid) =~= fs.filter(|q: Seq<char>| !cleared_by(steps, q)));
    }
}

} // verus!
