//! Effects handed out by the workflows and the observations fed back to them.

use vstd::prelude::*;

verus! {

/// A program to run with its argument list and, optionally, a working directory.
#[derive(Debug, Clone, PartialEq, Eq)]
pub struct Invocation {
    pub program: String,
    pub args: Vec<String>,
    pub dir: Option<String>,
}

/// Mathematical view of an [`Invocation`].
pub struct InvocationView {
    pub program: Seq<char>,
    pub args: Seq<Seq<char>>,
    pub dir: Option<Seq<char>>,
}

/// The views of a vector of strings.
pub open spec fn strings_view(v: Seq<String>) -> Seq<Seq<char>> {
    v.map_values(|s: String| s@)
}

pub open spec fn opt_string_view(o: Option<String>) -> Option<Seq<char>> {
    match o {
        Some(s) => Some(s@),
        None => None,
    }
}

impl View for Invocation {
    type V = InvocationView;

    open spec fn view(&self) -> InvocationView {
        InvocationView {
            program: self.program@,
            args: strings_view(self.args@),
            dir: opt_string_view(self.dir),
        }
    }
}

/// Copies a vector of strings.
pub fn clone_strings(v: &Vec<String>) -> (r: Vec<String>)
    ensures
        strings_view(r@) == strings_view(v@),
{
    let mut r: Vec<String> = Vec::new();
    let mut i: usize = 0;
    while i < v.len()
        invariant
            i <= v@.len(),
            r@.len() == i,
            forall|j: int| 0 <= j < i ==> #[trigger] r@[j]@ == v@[j]@,
        decreases v@.len() - i,
    {
        r.push(v[i].clone());
        i = i + 1;
    }
    assert(strings_view(r@) =~= strings_view(v@));
    r
}


/// Something for the caller to do on behalf of a workflow.
#[derive(Debug, Clone, PartialEq, Eq)]
pub enum Effect {
    /// Report whether the path exists.
    CheckExists(String),
    /// Create the directory and all of its missing ancestors.
    CreateDirAll(String),
    /// Run a program to completion.
    Run(Invocation),
    /// Run the first program with its standard output piped into the second.
    RunPiped(Invocation, Invocation),
    /// Rename (move) the first path to the second.
    Rename(String, String),
}

/// Mathematical view of an [`Effect`].
pub enum EffectView {
    CheckExists(Seq<char>),
    CreateDirAll(Seq<char>),
    Run(InvocationView),
    RunPiped(InvocationView, InvocationView),
    Rename(Seq<char>, Seq<char>),
}

impl View for Effect {
    type V = EffectView;

    open spec fn view(&self) -> EffectView {
        match self {
            Effect::CheckExists(p) => EffectView::CheckExists(p@),
            Effect::CreateDirAll(p) => EffectView::CreateDirAll(p@),
            Effect::Run(i) => EffectView::Run(i@),
            Effect::RunPiped(a, b) => EffectView::RunPiped(a@, b@),
            Effect::Rename(a, b) => EffectView::Rename(a@, b@),
        }
    }
}

impl EffectView {
    /// The effect starts an external program.
    pub open spec fn invokes_program(self) -> bool {
        self is Run || self is RunPiped
    }
}

/// What happened when the last effect was performed.
#[derive(Debug, Clone, PartialEq, Eq)]
pub enum Observation {
    /// No effect has been performed yet: the first resumption of a workflow.
    Start,
    /// Answer to [`Effect::CheckExists`].
    Exists(bool),
    /// The effect succeeded; for a program, it exited with status zero.
    Completed,
    /// The program ran and exited unsuccessfully, with its exit code if it had one.
    ExitedWith(Option<i32>),
    /// The effect could not be performed: the program could not be started, or
    /// the filesystem refused; the text is the underlying error message.
    Failed(String),
}

/// The observation reports success of a directory creation, rename or program run.
pub open spec fn succeeded(obs: Observation) -> bool {
    obs is Completed
}

/// The observation reports that a checked path exists.
pub open spec fn found(obs: Observation) -> bool {
    obs matches Observation::Exists(b) && b
}

/// The exit code that an unsuccessful program run reported, if any.
pub open spec fn exit_code_of(obs: Observation) -> Option<i32> {
    match obs {
        Observation::ExitedWith(c) => c,
        _ => None,
    }
}

impl Observation {
    pub fn is_success(&self) -> (r: bool)
        ensures
            r == succeeded(*self),
    {
        match self {
            Observation::Completed => true,
            _ => false,
        }
    }

    pub fn is_found(&self) -> (r: bool)
        ensures
            r == found(*self),
    {
        match self {
            Observation::Exists(b) => *b,
            _ => false,
        }
    }

    pub fn exit_code(&self) -> (r: Option<i32>)
        ensures
            r == exit_code_of(*self),
    {
        match self {
            Observation::ExitedWith(c) => *c,
            _ => None,
        }
    }
}

/// The kind of observation that a workflow waits for.
#[derive(Debug, Clone, Copy, PartialEq, Eq)]
pub enum Awaiting {
    /// Its first resumption: [`Observation::Start`].
    Start,
    /// The answer to an existence check: [`Observation::Exists`].
    Check,
    /// The outcome of a directory creation or a rename: `Completed` or `Failed`.
    FsOutcome,
    /// The outcome of a program run: `Completed`, `ExitedWith` or `Failed`.
    RunOutcome,
    /// Nothing: the workflow is over.
    Nothing,
}

/// The observation answers what the workflow waits for.
pub open spec fn fits(a: Awaiting, obs: Observation) -> bool {
    match a {
        Awaiting::Start => obs is Start,
        Awaiting::Check => obs is Exists,
        Awaiting::FsOutcome => obs is Completed || obs is Failed,
        Awaiting::RunOutcome => obs is Completed || obs is ExitedWith || obs is Failed,
        Awaiting::Nothing => false,
    }
}

/// Executable form of [`fits`].
pub fn fits_exec(a: &Awaiting, obs: &Observation) -> (r: bool)
    ensures
        r == fits(*a, *obs),
{
    match a {
        Awaiting::Start => matches!(obs, Observation::Start),
        Awaiting::Check => matches!(obs, Observation::Exists(_)),
        Awaiting::FsOutcome => matches!(obs, Observation::Completed | Observation::Failed(_)),
        Awaiting::RunOutcome => matches!(
            obs,
            Observation::Completed | Observation::ExitedWith(_) | Observation::Failed(_)
        ),
        Awaiting::Nothing => false,
    }
}

/// Where a workflow stands after one resumption.
#[derive(Debug, Clone, PartialEq, Eq)]
pub enum Progress<R> {
    /// Perform this effect and resume the workflow with its observation.
    Perform(Effect),
    /// The workflow is over, with this result.
    Finished(R),
}

/// Mathematical view of a [`Progress`].
pub enum ProgressView<R> {
    Perform(EffectView),
    Finished(R),
}

impl<R> View for Progress<R> {
    type V = ProgressView<R>;

    open spec fn view(&self) -> ProgressView<R> {
        match self {
            Progress::Perform(e) => ProgressView::Perform(e@),
            Progress::Finished(r) => ProgressView::Finished(*r),
        }
    }
}

/// What a workflow with transition function `step` hands out when it stands at
/// `s` and is resumed with each of `obs` in turn.
pub open spec fn trace<S, R>(step: spec_fn(S, Observation) -> (S, ProgressView<R>), s: S, obs: Seq<Observation>) -> Seq<ProgressView<R>>
    decreases obs.len(),
{
    if obs.len() == 0 {
        Seq::empty()
    } else {
        let (next, p) = step(s, obs[0]);
        seq![p] + trace(step, next, obs.drop_first())
    }
}

pub proof fn lemma_trace_len<S, R>(step: spec_fn(S, Observation) -> (S, ProgressView<R>), s: S, obs: Seq<Observation>)
    ensures
        trace(step, s, obs).len() == obs.len(),
    decreases obs.len(),
{
    if obs.len() > 0 {
        lemma_trace_len(step, step(s, obs[0]).0, obs.drop_first());
    }
}

/// A trace is the first step followed by the trace of the rest.
pub proof fn lemma_trace_index<S, R>(step: spec_fn(S, Observation) -> (S, ProgressView<R>), s: S, obs: Seq<Observation>, i: int)
    requires
        0 <= i < obs.len(),
    ensures
        i >= 1 ==> trace(step, s, obs)[i] == trace(step, step(s, obs[0]).0, obs.drop_first())[i - 1],
        trace(step, s, obs)[0] == step(s, obs[0]).1,
{
    lemma_trace_len(step, step(s, obs[0]).0, obs.drop_first());
}

/// A workflow state that only ever finishes, and stays where it is.
pub open spec fn is_terminal<S, R>(step: spec_fn(S, Observation) -> (S, ProgressView<R>), s: S) -> bool {
    forall|o: Observation| #[trigger] step(s, o).0 == s && step(s, o).1 is Finished
}

/// From a terminal state nothing but finishing is handed out.
pub proof fn lemma_trace_from_terminal<S, R>(step: spec_fn(S, Observation) -> (S, ProgressView<R>), s: S, obs: Seq<Observation>)
    requires
        is_terminal(step, s),
    ensures
        trace(step, s, obs).len() == obs.len(),
        forall|i: int| 0 <= i < obs.len() ==> (#[trigger] trace(step, s, obs)[i]) is Finished,
    decreases obs.len(),
{
    lemma_trace_len(step, s, obs);
    if obs.len() > 0 {
        assert(step(s, obs[0]).0 == s);
        lemma_trace_from_terminal(step, s, obs.drop_first());
        assert forall|i: int| 0 <= i < obs.len() implies (#[trigger] trace(step, s, obs)[i]) is Finished by {
            lemma_trace_index(step, s, obs, i);
        }
    }
}

/// The paths present once `e` has taken effect on a filesystem that holds the
/// paths `fs`: a created directory is present, a renamed file has left its
/// source for its target. Checks and program runs are not modelled here.
pub open spec fn apply_effect(fs: Set<Seq<char>>, e: EffectView) -> Set<Seq<char>> {
    match e {
        EffectView::CreateDirAll(d) => fs.insert(d),
        EffectView::Rename(a, b) => fs.remove(a).insert(b),
        _ => fs,
    }
}

/// Builds an invocation without a working directory from a program and its arguments.
pub fn invocation(program: &str, args: Vec<String>) -> (r: Invocation)
    ensures
        r@.program == program@,
        r.args == args,
        r@.dir is None,
{
    Invocation { program: String::from_str(program), args, dir: None }
}

/// A string from a string slice.
pub fn text(s: &str) -> (r: String)
    ensures
        r@ == s@,
{
    String::from_str(s)
}

} // verus!
