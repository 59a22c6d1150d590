//! The integration pipeline: what is done to one file of LLVM IR.
//!
//! A task is bound to one IR file and moves through stages. It starts
//! pending; the decision whether to integrate makes it rewriting or skipped;
//! the end of that work makes it compiling; the end of the compilation makes
//! it done. A failure of any work puts it in error. The work itself, running
//! a tool or copying a file, is done outside: the task says what is to be
//! done next, and is told how it ended.

use crate::cargo::is_listed;
use crate::config::Config;
use crate::error::Error;
use crate::paths::{append_suffix_chars, suffixed, with_extension_chars, with_extension_of};
use crate::text::{chars_of, occurs_in, owned, same, string_from};
use crate::units::{crate_name_chars, crate_name_of, normalized};
use crate::words::swap_char;
use vstd::prelude::*;

verus! {

/// The stage of a task.
#[derive(Clone, Copy, Debug, PartialEq, Eq, Structural)]
pub enum Stage {
    /// Nothing has been decided yet.
    Pending,
    /// The rewrite pass is at work.
    Rewriting,
    /// The file is not integrated; it is copied forward as it is.
    Skipped,
    /// The IR-to-object compiler is at work.
    Compiling,
    /// The object file is there.
    Done,
    /// A piece of work has failed.
    Error,
}

/// What a task is told.
#[derive(Clone, Copy, Debug, PartialEq, Eq, Structural)]
pub enum SignalKind {
    /// Whether the file is to be integrated.
    Decided(bool),
    /// The work of the current stage has ended well.
    Succeeded,
    /// The work of the current stage has failed.
    Failed,
}

/// How far a stage is along the way. `Done` and `Error` are the ends.
pub open spec fn rank(stage: Stage) -> nat {
    match stage {
        Stage::Pending => 0,
        Stage::Rewriting => 1,
        Stage::Skipped => 1,
        Stage::Compiling => 2,
        Stage::Done => 3,
        Stage::Error => 3,
    }
}

/// The stage that follows `stage` on `signal`. A signal that the stage does
/// not wait for changes nothing.
pub open spec fn next_stage(stage: Stage, signal: SignalKind) -> Stage {
    match (stage, signal) {
        (Stage::Pending, SignalKind::Decided(true)) => Stage::Rewriting,
        (Stage::Pending, SignalKind::Decided(false)) => Stage::Skipped,
        (Stage::Rewriting, SignalKind::Succeeded) => Stage::Compiling,
        (Stage::Skipped, SignalKind::Succeeded) => Stage::Compiling,
        (Stage::Compiling, SignalKind::Succeeded) => Stage::Done,
        (Stage::Rewriting, SignalKind::Failed) => Stage::Error,
        (Stage::Skipped, SignalKind::Failed) => Stage::Error,
        (Stage::Compiling, SignalKind::Failed) => Stage::Error,
        _ => stage,
    }
}

/// The stage reached from `stage` after all of `signals`, in order.
pub open spec fn stage_after(stage: Stage, signals: Seq<SignalKind>) -> Stage
    decreases signals.len(),
{
    if signals.len() == 0 {
        stage
    } else {
        next_stage(stage_after(stage, signals.drop_last()), signals.last())
    }
}

/// Stages only move forward: a signal leaves the stage as it is or moves the
/// task to a stage further along.
pub proof fn lemma_step_forward(stage: Stage, signal: SignalKind)
    ensures
        next_stage(stage, signal) == stage || rank(next_stage(stage, signal)) > rank(stage),
{
}

/// No sequence of signals takes a task back to an earlier stage.
pub proof fn lemma_never_back(stage: Stage, signals: Seq<SignalKind>)
    ensures
        rank(stage_after(stage, signals)) >= rank(stage),
    decreases signals.len(),
{
    if signals.len() > 0 {
        lemma_never_back(stage, signals.drop_last());
        lemma_step_forward(stage_after(stage, signals.drop_last()), signals.last());
    }
}

/// A task that was decided not to be integrated never reaches the rewriting
/// stage, whatever it is told afterwards.
pub proof fn lemma_skipped_never_rewrites(signals: Seq<SignalKind>)
    ensures
        stage_after(Stage::Skipped, signals) != Stage::Rewriting,
        stage_after(Stage::Skipped, signals) != Stage::Pending,
    decreases signals.len(),
{
    if signals.len() > 0 {
        lemma_skipped_never_rewrites(signals.drop_last());
    }
}

/// The two ends are final: a task that is done or in error stays so.
pub proof fn lemma_ends_are_final(stage: Stage, signals: Seq<SignalKind>)
    requires
        stage == Stage::Done || stage == Stage::Error,
    ensures
        stage_after(stage, signals) == stage,
    decreases signals.len(),
{
    if signals.len() > 0 {
        lemma_ends_are_final(stage, signals.drop_last());
    }
}

/// The symbol by which the object file of the Compiler Interrupts runtime is
/// known.
pub open spec fn runtime_marker() -> Seq<char> {
    "intvActionHook"@
}

/// Whether the listed symbols are those of the runtime itself.
pub open spec fn is_runtime(symbols: Seq<char>) -> bool {
    occurs_in(runtime_marker(), symbols)
}

/// Whether the skip list names the crate: one of its entries, hyphens read
/// as underscores, is the crate's name. An entry that only holds the name, as
/// `foobar` holds `foo`, names another crate.
pub open spec fn is_skip_listed(skip: Seq<Seq<char>>, crate_name: Seq<char>) -> bool {
    exists|i: int| 0 <= i < skip.len() && normalized(#[trigger] skip[i]) == crate_name
}

/// The views of an optional list of texts; no list is an empty one.
pub open spec fn skip_view(skip: Option<Vec<String>>) -> Seq<Seq<char>> {
    match skip {
        Some(list) => list.deep_view(),
        None => Seq::empty(),
    }
}

/// The integration decision: a file is integrated unless its object is the
/// runtime itself or its crate is on the skip list.
pub open spec fn integrates(symbols: Seq<char>, skip: Seq<Seq<char>>, crate_name: Seq<char>) -> bool {
    !is_runtime(symbols) && !is_skip_listed(skip, crate_name)
}

/// Whether the skip list names the crate.
pub fn skip_listed(skip: &Option<Vec<String>>, crate_name: &str) -> (r: bool)
    ensures
        r == is_skip_listed(skip_view(*skip), crate_name@),
{
    match skip {
        Some(list) => {
            let name = chars_of(crate_name);
            let mut i: usize = 0;
            while i < list.len()
                invariant
                    i <= list.len(),
                    name@ == crate_name@,
                    skip_view(*skip) == list.deep_view(),
                    forall|j: int|
                        0 <= j < i ==> normalized(#[trigger] list.deep_view()[j]) != crate_name@,
                decreases list.len() - i,
            {
                let entry = swap_char(&chars_of(list[i].as_str()), '-', '_');
                assert(entry@ == normalized(list.deep_view()[i as int]));
                if same(&entry, &name) {
                    return true;
                }
                i += 1;
            }
            false
        },
        None => false,
    }
}

/// Decides whether a file is integrated, from the symbols of its object file
/// and the skip list.
///
/// The object of the runtime itself is never integrated, whatever the skip
/// list holds; nor is a file of a crate that the skip list names.
pub fn integrate(symbols: &str, skip: &Option<Vec<String>>, crate_name: &str) -> (r: bool)
    ensures
        r == integrates(symbols@, skip_view(*skip), crate_name@),
        is_runtime(symbols@) ==> !r,
        is_skip_listed(skip_view(*skip), crate_name@) ==> !r,
{
    if crate::text::contains(symbols, "intvActionHook") {
        return false;
    }
    !skip_listed(skip, crate_name)
}

/// Signals told one after another take a task where telling the first and
/// then the others takes it.
pub proof fn lemma_stage_after_first(stage: Stage, first: SignalKind, others: Seq<SignalKind>)
    ensures
        stage_after(stage, seq![first] + others) == stage_after(next_stage(stage, first), others),
    decreases others.len(),
{
    let all = seq![first] + others;
    if others.len() == 0 {
        assert(all.drop_last() =~= Seq::<SignalKind>::empty());
        assert(stage_after(stage, all.drop_last()) == stage);
    } else {
        assert(all.drop_last() =~= seq![first] + others.drop_last());
        assert(all.last() == others.last());
        lemma_stage_after_first(stage, first, others.drop_last());
    }
}

/// A file of a crate on the skip list is never rewritten: the decision made
/// for it takes its task from pending to skipped, and whatever the task is
/// told afterwards, it does not reach the rewriting stage.
pub proof fn lemma_skip_listed_never_rewritten(
    symbols: Seq<char>,
    skip: Seq<Seq<char>>,
    crate_name: Seq<char>,
    later: Seq<SignalKind>,
)
    requires
        is_skip_listed(skip, crate_name),
    ensures
        !integrates(symbols, skip, crate_name),
        next_stage(Stage::Pending, SignalKind::Decided(integrates(symbols, skip, crate_name)))
            == Stage::Skipped,
        stage_after(
            Stage::Pending,
            seq![SignalKind::Decided(integrates(symbols, skip, crate_name))] + later,
        ) != Stage::Rewriting,
{
    let decided = SignalKind::Decided(integrates(symbols, skip, crate_name));
    lemma_stage_after_first(Stage::Pending, decided, later);
    lemma_skipped_never_rewrites(later);
}

/// The runtime itself is always skipped: where the symbols are those of the
/// runtime, the decision takes the task from pending to skipped whatever the
/// skip list holds, and the task never reaches the rewriting stage.
pub proof fn lemma_runtime_always_skipped(
    symbols: Seq<char>,
    skip: Seq<Seq<char>>,
    crate_name: Seq<char>,
    later: Seq<SignalKind>,
)
    requires
        is_runtime(symbols),
    ensures
        !integrates(symbols, skip, crate_name),
        next_stage(Stage::Pending, SignalKind::Decided(integrates(symbols, skip, crate_name)))
            == Stage::Skipped,
        stage_after(
            Stage::Pending,
            seq![SignalKind::Decided(integrates(symbols, skip, crate_name))] + later,
        ) != Stage::Rewriting,
{
    let decided = SignalKind::Decided(integrates(symbols, skip, crate_name));
    lemma_stage_after_first(Stage::Pending, decided, later);
    lemma_skipped_never_rewrites(later);
}

/// The arguments with which the symbol lister is asked for the symbols that
/// an object file defines.
pub open spec fn probe_args(object: Seq<char>) -> Seq<Seq<char>> {
    seq!["-jU"@, object]
}

/// The flag that tells the rewrite pass whether to define the logical clock:
/// it does for a file of a binary target, which owns the clock that the
/// libraries it depends on share.
pub open spec fn clock_flag(define: bool) -> Seq<char> {
    if define {
        "-defclock=1"@
    } else {
        "-defclock=0"@
    }
}

/// The arguments of the rewrite pass: textual output, the plugin to load, the
/// pass and its clock flag, the library's own arguments, the file to read and
/// the file to write.
pub open spec fn rewrite_args(
    library_path: Seq<char>,
    library_args: Seq<Seq<char>>,
    define_clock: bool,
    file: Seq<char>,
    ci_file: Seq<char>,
) -> Seq<Seq<char>> {
    seq!["-S"@, "-load"@, library_path, "-logicalclock"@, clock_flag(define_clock)] + library_args
        + seq![file, "-o"@, ci_file]
}

/// The arguments of the IR-to-object compiler: the kind of output, the file
/// to read, and the large code model where the platform needs it.
pub open spec fn compile_args(ci_file: Seq<char>, large_code_model: bool) -> Seq<Seq<char>> {
    if large_code_model {
        seq!["-filetype=obj"@, ci_file, "-code-model=large"@]
    } else {
        seq!["-filetype=obj"@, ci_file]
    }
}

/// Whether the platform needs the large code model: on Linux relocations of
/// the default size do not fit.
pub open spec fn needs_large_code_model(os: Seq<char>) -> bool {
    os == "linux"@
}

/// Whether the platform needs the large code model.
pub fn large_code_model(os: &str) -> (r: bool)
    ensures
        r == needs_large_code_model(os@),
{
    crate::text::str_eq(os, "linux")
}

/// The arguments with which the symbol lister is asked for the symbols that
/// an object file defines.
pub fn symbol_listing_args(object: &str) -> (args: Vec<String>)
    ensures
        args.deep_view() == probe_args(object@),
{
    let mut args: Vec<String> = Vec::new();
    args.push(owned("-jU"));
    args.push(owned(object));
    assert(args.deep_view() =~= probe_args(object@));
    args
}

/// What a task asks to be done.
#[derive(Debug)]
pub enum Work {
    /// List the symbols of the object file with these arguments, then decide.
    Probe(Vec<String>),
    /// Run the rewrite pass with these arguments.
    Rewrite(Vec<String>),
    /// Copy the first file to the second.
    CopyForward(String, String),
    /// Run the IR-to-object compiler with these arguments.
    Compile(Vec<String>),
    /// Nothing: the task has ended.
    Nothing,
}

/// The mathematical value of a `Work`.
pub enum WorkView {
    Probe(Seq<Seq<char>>),
    Rewrite(Seq<Seq<char>>),
    CopyForward(Seq<char>, Seq<char>),
    Compile(Seq<Seq<char>>),
    Nothing,
}

impl View for Work {
    type V = WorkView;

    open spec fn view(&self) -> WorkView {
        match self {
            Work::Probe(args) => WorkView::Probe(args.deep_view()),
            Work::Rewrite(args) => WorkView::Rewrite(args.deep_view()),
            Work::CopyForward(from, to) => WorkView::CopyForward(from@, to@),
            Work::Compile(args) => WorkView::Compile(args.deep_view()),
            Work::Nothing => WorkView::Nothing,
        }
    }
}

/// What a failure tells: a notice for the user, and the error itself.
#[derive(Debug)]
pub struct Failure {
    /// What the user is shown at once.
    pub notice: String,
    /// The error that ends the run.
    pub error: Error,
}

/// What a task is told, with what a failure tells.
#[derive(Debug)]
pub enum Signal {
    /// Whether the file is to be integrated.
    Decided(bool),
    /// The work of the current stage has ended well.
    Succeeded,
    /// The work of the current stage has failed.
    Failed(Failure),
}

impl Signal {
    /// The signal without what a failure tells.
    pub open spec fn kind(&self) -> SignalKind {
        match self {
            Signal::Decided(integrate) => SignalKind::Decided(*integrate),
            Signal::Succeeded => SignalKind::Succeeded,
            Signal::Failed(_) => SignalKind::Failed,
        }
    }
}

/// State of the integration.
#[derive(Debug)]
pub enum State {
    /// Running `opt`; the flag tells whether it has finished.
    Opt(bool),
    /// Running `llc`; the flag tells whether it has finished.
    Llc(bool),
    /// Running linker; the flag tells whether it has finished.
    Ld(bool),
    /// Crate is skipped.
    Skipped,
    /// An error occurred.
    Error(String),
}

/// The mathematical value of a `State`.
pub enum StateView {
    Opt(bool),
    Llc(bool),
    Ld(bool),
    Skipped,
    Error(Seq<char>),
}

impl View for State {
    type V = StateView;

    open spec fn view(&self) -> StateView {
        match self {
            State::Opt(finished) => StateView::Opt(*finished),
            State::Llc(finished) => StateView::Llc(*finished),
            State::Ld(finished) => StateView::Ld(*finished),
            State::Skipped => StateView::Skipped,
            State::Error(message) => StateView::Error(message@),
        }
    }
}

/// Shared context of the integration: a stage transition of one crate.
#[derive(Debug)]
pub struct IntegrationCx {
    /// Name of the crate.
    pub crate_name: String,
    /// Current state.
    pub state: State,
}

/// The states of a list of transitions.
pub open spec fn states_of(events: Seq<IntegrationCx>) -> Seq<StateView> {
    Seq::new(events.len(), |i: int| events[i].state@)
}

/// What is made known when a task in `stage` is told `signal`: each piece of
/// outside work is announced before it starts and after it has ended, a skip
/// is announced once, and a failure is announced with its notice.
pub open spec fn published(stage: Stage, signal: SignalKind, notice: Seq<char>) -> Seq<StateView> {
    match (stage, signal) {
        (Stage::Pending, SignalKind::Decided(true)) => seq![StateView::Opt(false)],
        (Stage::Pending, SignalKind::Decided(false)) => seq![StateView::Skipped],
        (Stage::Rewriting, SignalKind::Succeeded) => seq![
            StateView::Opt(true),
            StateView::Llc(false),
        ],
        (Stage::Skipped, SignalKind::Succeeded) => seq![StateView::Llc(false)],
        (Stage::Compiling, SignalKind::Succeeded) => seq![StateView::Llc(true)],
        (Stage::Rewriting, SignalKind::Failed) => seq![StateView::Error(notice)],
        (Stage::Skipped, SignalKind::Failed) => seq![StateView::Error(notice)],
        (Stage::Compiling, SignalKind::Failed) => seq![StateView::Error(notice)],
        _ => Seq::empty(),
    }
}

/// A unit of pipeline work tied to one IR file.
#[derive(Debug)]
pub struct PipelineTask {
    /// The IR file.
    pub file: String,
    /// The file that holds the IR once it is integrated or copied forward.
    pub ci_file: String,
    /// The object file that the compiler made of the IR file.
    pub object_file: String,
    /// Name of the crate that the file belongs to.
    pub crate_name: String,
    /// Current stage.
    pub stage: Stage,
    /// The error that made the task fail.
    pub error: Option<Error>,
    /// The stage whose work failed.
    pub failed_at: Option<Stage>,
}

/// What a task in `stage` asks to be done.
pub open spec fn planned(
    stage: Stage,
    file: Seq<char>,
    ci_file: Seq<char>,
    object_file: Seq<char>,
    library_path: Seq<char>,
    library_args: Seq<Seq<char>>,
    define_clock: bool,
    large: bool,
) -> WorkView {
    match stage {
        Stage::Pending => WorkView::Probe(probe_args(object_file)),
        Stage::Rewriting => WorkView::Rewrite(
            rewrite_args(library_path, library_args, define_clock, file, ci_file),
        ),
        Stage::Skipped => WorkView::CopyForward(file, ci_file),
        Stage::Compiling => WorkView::Compile(compile_args(ci_file, large)),
        Stage::Done => WorkView::Nothing,
        Stage::Error => WorkView::Nothing,
    }
}

impl PipelineTask {
    /// The task for an IR file, pending. A path without a file name gives an
    /// error.
    pub fn new(file: &str) -> (r: Result<PipelineTask, Error>)
        ensures
            match suffixed(file@, "ci"@) {
                Some(ci_file) => r matches Ok(task) && task.file@ == file@ && task.ci_file@
                    == ci_file && task.object_file@ == with_extension_of(file@, "o"@)
                    && task.crate_name@ == crate_name_of(file@) && task.stage == Stage::Pending
                    && task.error is None && task.failed_at is None,
                None => r matches Err(Error::FileStem(p)) && p@ == file@,
            },
    {
        let path = chars_of(file);
        match append_suffix_chars(&path, &chars_of("ci")) {
            Some(ci_file) => Ok(
                PipelineTask {
                    file: string_from(&path),
                    ci_file: string_from(&ci_file),
                    object_file: string_from(&with_extension_chars(&path, &chars_of("o"))),
                    crate_name: string_from(&crate_name_chars(&path)),
                    stage: Stage::Pending,
                    error: None,
                    failed_at: None,
                },
            ),
            None => Err(Error::FileStem(string_from(&path))),
        }
    }

    /// What is to be done next for the task. `crate_names` are the crates of
    /// the package's binary targets; `large` tells whether the platform needs
    /// the large code model.
    pub fn work(&self, config: &Config, crate_names: &Vec<String>, large: bool) -> (work: Work)
        ensures
            work@ == planned(
                self.stage,
                self.file@,
                self.ci_file@,
                self.object_file@,
                config@.library_path,
                config@.library_args,
                crate_names.deep_view().contains(self.crate_name@),
                large,
            ),
            !(self.stage is Rewriting) ==> !(work is Rewrite),
    {
        match self.stage {
            Stage::Pending => Work::Probe(symbol_listing_args(self.object_file.as_str())),
            Stage::Rewriting => {
                let define = is_listed(crate_names, self.crate_name.as_str());
                let mut args: Vec<String> = Vec::new();
                args.push(owned("-S"));
                args.push(owned("-load"));
                args.push(config.library_path.clone());
                args.push(owned("-logicalclock"));
                args.push(
                    if define {
                        owned("-defclock=1")
                    } else {
                        owned("-defclock=0")
                    },
                );
                let ghost head = args.deep_view();
                assert(head =~= seq![
                    "-S"@,
                    "-load"@,
                    config@.library_path,
                    "-logicalclock"@,
                    clock_flag(define),
                ]);
                let mut i: usize = 0;
                assert(config.library_args.deep_view().take(0) =~= Seq::<Seq<char>>::empty());
                assert(args.deep_view() =~= head + config.library_args.deep_view().take(0));
                while i < config.library_args.len()
                    invariant
                        i <= config.library_args.len(),
                        args.deep_view() == head + config.library_args.deep_view().take(i as int),
                    decreases config.library_args.len() - i,
                {
                    let ghost before = args.deep_view();
                    args.push(config.library_args[i].clone());
                    i += 1;
                    assert(args.deep_view() =~= before.push(config.library_args@[i - 1]@));
                    assert(config.library_args.deep_view().take(i as int)
                        =~= config.library_args.deep_view().take(i - 1).push(
                        config.library_args@[i - 1]@,
                    ));
                    assert(args.deep_view() =~= head + config.library_args.deep_view().take(
                        i as int,
                    ));
                }
                assert(config.library_args.deep_view().take(config.library_args.len() as int)
                    =~= config.library_args.deep_view());
                let ghost middle = args.deep_view();
                args.push(self.file.clone());
                args.push(owned("-o"));
                args.push(self.ci_file.clone());
                assert(args.deep_view() =~= middle + seq![self.file@, "-o"@, self.ci_file@]);
                Work::Rewrite(args)
            },
            Stage::Skipped => Work::CopyForward(self.file.clone(), self.ci_file.clone()),
            Stage::Compiling => {
                let mut args: Vec<String> = Vec::new();
                args.push(owned("-filetype=obj"));
                args.push(self.ci_file.clone());
                if large {
                    args.push(owned("-code-model=large"));
                }
                assert(args.deep_view() =~= compile_args(self.ci_file@, large));
                Work::Compile(args)
            },
            Stage::Done => Work::Nothing,
            Stage::Error => Work::Nothing,
        }
    }

    /// Tells the task how the work of its stage ended, or what was decided.
    /// The task moves to the stage that follows, and the transitions to make
    /// known are handed out. A signal that the stage does not wait for
    /// changes nothing and makes nothing known.
    pub fn advance(&mut self, signal: Signal) -> (events: Vec<IntegrationCx>)
        ensures
            final(self).stage == next_stage(old(self).stage, signal.kind()),
            rank(final(self).stage) >= rank(old(self).stage),
            final(self).file == old(self).file,
            final(self).ci_file == old(self).ci_file,
            final(self).object_file == old(self).object_file,
            final(self).crate_name == old(self).crate_name,
            states_of(events@) == published(
                old(self).stage,
                signal.kind(),
                match signal {
                    Signal::Failed(failure) => failure.notice@,
                    _ => Seq::empty(),
                },
            ),
            forall|i: int|
                0 <= i < events.len() ==> (#[trigger] events[i]).crate_name@ == old(
                    self,
                ).crate_name@,
            match signal {
                Signal::Failed(failure) => if final(self).stage != old(self).stage {
                    final(self).error == Some(failure.error) && final(self).failed_at == Some(
                        old(self).stage,
                    )
                } else {
                    final(self).error == old(self).error && final(self).failed_at == old(
                        self,
                    ).failed_at
                },
                _ => final(self).error == old(self).error && final(self).failed_at == old(
                    self,
                ).failed_at,
            },
    {
        let mut events: Vec<IntegrationCx> = Vec::new();
        let ghost before = self.stage;
        match signal {
            Signal::Decided(integrate) => {
                match self.stage {
                    Stage::Pending => {
                        if integrate {
                            self.stage = Stage::Rewriting;
                            events.push(
                                IntegrationCx {
                                    crate_name: self.crate_name.clone(),
                                    state: State::Opt(false),
                                },
                            );
                        } else {
                            self.stage = Stage::Skipped;
                            events.push(
                                IntegrationCx {
                                    crate_name: self.crate_name.clone(),
                                    state: State::Skipped,
                                },
                            );
                        }
                    },
                    _ => {},
                }
            },
            Signal::Succeeded => {
                match self.stage {
                    Stage::Rewriting => {
                        self.stage = Stage::Compiling;
                        events.push(
                            IntegrationCx {
                                crate_name: self.crate_name.clone(),
                                state: State::Opt(true),
                            },
                        );
                        events.push(
                            IntegrationCx {
                                crate_name: self.crate_name.clone(),
                                state: State::Llc(false),
                            },
                        );
                    },
                    Stage::Skipped => {
                        self.stage = Stage::Compiling;
                        events.push(
                            IntegrationCx {
                                crate_name: self.crate_name.clone(),
                                state: State::Llc(false),
                            },
                        );
                    },
                    Stage::Compiling => {
                        self.stage = Stage::Done;
                        events.push(
                            IntegrationCx {
                                crate_name: self.crate_name.clone(),
                                state: State::Llc(true),
                            },
                        );
                    },
                    _ => {},
                }
            },
            Signal::Failed(failure) => {
                match self.stage {
                    Stage::Rewriting | Stage::Skipped | Stage::Compiling => {
                        self.failed_at = Some(self.stage);
                        self.stage = Stage::Error;
                        events.push(
                            IntegrationCx {
                                crate_name: self.crate_name.clone(),
                                state: State::Error(failure.notice),
                            },
                        );
                        self.error = Some(failure.error);
                    },
                    _ => {},
                }
            },
        }
        assert(states_of(events@) =~= published(
            before,
            signal.kind(),
            match signal {
                Signal::Failed(failure) => failure.notice@,
                _ => Seq::empty(),
            },
        ));
        events
    }
}

/// The name of the work of a stage, as the user is told it.
pub open spec fn stage_name(stage: Stage) -> Seq<char> {
    match stage {
        Stage::Pending => "probe"@,
        Stage::Rewriting => "opt"@,
        Stage::Skipped => "copy"@,
        Stage::Compiling => "llc"@,
        Stage::Done => "done"@,
        Stage::Error => "failed"@,
    }
}

/// What the user is told of a failed task: the crate, the stage whose work
/// failed, and the error in words.
pub open spec fn failure_text(crate_name: Seq<char>, stage: Stage, error: Seq<char>) -> Seq<char> {
    "integration of `"@ + crate_name + "` failed at `"@ + stage_name(stage) + "`: "@ + error
}

impl PipelineTask {
    /// What the user is told of the task's failure; nothing where it has not
    /// failed.
    pub fn failure(&self) -> (out: Option<String>)
        ensures
            match (self.error, self.failed_at) {
                (Some(error), Some(stage)) => out matches Some(text) && text@ == failure_text(
                    self.crate_name@,
                    stage,
                    error@.message(),
                ),
                _ => out is None,
            },
    {
        match (&self.error, &self.failed_at) {
            (Some(error), Some(stage)) => {
                let mut chars = chars_of("integration of `");
                crate::text::push_str(&mut chars, self.crate_name.as_str());
                crate::text::push_str(&mut chars, "` failed at `");
                crate::text::push_str(
                    &mut chars,
                    match stage {
                        Stage::Pending => "probe",
                        Stage::Rewriting => "opt",
                        Stage::Skipped => "copy",
                        Stage::Compiling => "llc",
                        Stage::Done => "done",
                        Stage::Error => "failed",
                    },
                );
                crate::text::push_str(&mut chars, "`: ");
                crate::text::push_str(&mut chars, error.message().as_str());
                Some(string_from(&chars))
            },
            _ => None,
        }
    }
}

/// Whether every task has reached the end of the pipeline with its object
/// file made. Only then may the linkers run.
pub open spec fn all_done(tasks: Seq<PipelineTask>) -> bool {
    forall|i: int| 0 <= i < tasks.len() ==> (#[trigger] tasks[i]).stage == Stage::Done
}

/// Whether the linkers may run: every task is done. A task that has failed,
/// or has not ended yet, holds them back.
pub fn may_link(tasks: &Vec<PipelineTask>) -> (r: bool)
    ensures
        r == all_done(tasks@),
{
    let mut i: usize = 0;
    while i < tasks.len()
        invariant
            i <= tasks.len(),
            forall|j: int| 0 <= j < i ==> (#[trigger] tasks[j]).stage == Stage::Done,
        decreases tasks.len() - i,
    {
        match tasks[i].stage {
            Stage::Done => {},
            _ => {
                return false;
            },
        }
        i += 1;
    }
    true
}

/// A cursor over a list of work that several workers share: each call
/// claims the next item, so that no item is claimed twice.
#[derive(Debug)]
pub struct Cursor {
    /// The index of the next item to claim.
    pub next: usize,
    /// The number of items.
    pub len: usize,
}

impl Cursor {
    /// A cursor at the start of `len` items.
    pub fn new(len: usize) -> (cursor: Cursor)
        ensures
            cursor.next == 0,
            cursor.len == len,
    {
        Cursor { next: 0, len }
    }

    /// Claims the next item: its index, or nothing where all are claimed.
    /// An index handed out is never handed out again: the cursor has moved
    /// past it.
    pub fn claim(&mut self) -> (item: Option<usize>)
        ensures
            final(self).len == old(self).len,
            if old(self).next < old(self).len {
                item == Some(old(self).next) && final(self).next == old(self).next + 1
            } else {
                item is None && final(self).next == old(self).next
            },
    {
        if self.next < self.len {
            let item = self.next;
            self.next = self.next + 1;
            Some(item)
        } else {
            None
        }
    }
}

} // verus!
