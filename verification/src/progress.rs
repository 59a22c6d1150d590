//! The progress reporter: what the user is shown while the pipeline runs.
//!
//! The reporter takes in the stage transitions of all tasks, one at a time,
//! and keeps the list of what is at work, the latest first. For each
//! transition it says what to draw. After an error it draws nothing more,
//! but goes on taking transitions in, so that no task waits for it.

use crate::lists::{position_of, without_first};
use crate::pipeline::{IntegrationCx, State, StateView};
use crate::text::{chars_of, push_chars, push_str, same, string_from};
use vstd::prelude::*;

verus! {

/// The word that stands before a crate's name in a status line.
#[derive(Clone, Copy, Debug, PartialEq, Eq, Structural)]
pub enum Status {
    /// The crate's code is being integrated.
    Integrating,
    /// The crate's binary is being linked.
    Linking,
    /// The crate is not integrated.
    Skipped,
}

/// The layout of the progress line.
#[derive(Clone, Copy, Debug, PartialEq, Eq, Structural)]
pub enum Layout {
    /// With a bar, for terminals wider than eighty columns.
    Wide,
    /// Without a bar.
    Narrow,
}

/// Something to draw.
#[derive(Debug)]
pub enum Render {
    /// Print a status line: the status word and the crate's name.
    Status(Status, String),
    /// Move the progress bar one step on.
    Advance,
    /// Show this message in the progress line, in this layout.
    Message(String, Layout),
    /// Stop the progress bar and warn the user with this message.
    Fail(String),
}

/// The mathematical value of a `Render`.
pub enum RenderView {
    Status(Status, Seq<char>),
    Advance,
    Message(Seq<char>, Layout),
    Fail(Seq<char>),
}

impl View for Render {
    type V = RenderView;

    open spec fn view(&self) -> RenderView {
        match self {
            Render::Status(status, name) => RenderView::Status(*status, name@),
            Render::Advance => RenderView::Advance,
            Render::Message(message, layout) => RenderView::Message(message@, *layout),
            Render::Fail(message) => RenderView::Fail(message@),
        }
    }
}

/// The views of a list of things to draw.
pub open spec fn render_views(all: Seq<Render>) -> Seq<RenderView> {
    Seq::new(all.len(), |i: int| all[i]@)
}

/// The consumer of the stage transitions.
#[derive(Debug)]
pub struct Reporter {
    /// What is at work, the latest first.
    pub names: Vec<String>,
    /// Whether an error was reported.
    pub failed: bool,
}

/// The mathematical value of a `Reporter`.
pub struct ReporterView {
    pub names: Seq<Seq<char>>,
    pub failed: bool,
}

impl View for Reporter {
    type V = ReporterView;

    open spec fn view(&self) -> ReporterView {
        ReporterView { names: self.names.deep_view(), failed: self.failed }
    }
}

/// The label under which a piece of work is listed: the crate's name, with
/// `(llc)` after it for a compilation and `(bin)` for a link.
pub open spec fn label(name: Seq<char>, state: StateView) -> Seq<char> {
    match state {
        StateView::Llc(_) => name + "(llc)"@,
        StateView::Ld(_) => name + "(bin)"@,
        _ => name,
    }
}

/// What is at work after a transition: work that starts is put in front,
/// work that has finished is taken out.
pub open spec fn names_after(names: Seq<Seq<char>>, name: Seq<char>, state: StateView) -> Seq<
    Seq<char>,
> {
    match state {
        StateView::Opt(finished) | StateView::Llc(finished) | StateView::Ld(finished) => if finished {
            without_first(names, label(name, state))
        } else {
            seq![label(name, state)] + names
        },
        _ => names,
    }
}

/// The layout for a terminal of the given width.
pub open spec fn layout_for(width: int) -> Layout {
    if width > 80 {
        Layout::Wide
    } else {
        Layout::Narrow
    }
}

/// How long the message may grow before it is cut: the width of the
/// terminal less the room for the prefix and the padding.
pub open spec fn message_limit(width: int) -> int {
    width - (if width > 80 {
        50int
    } else {
        20int
    }) - 15
}

/// The message `so_far` with the names from index `at` on, each after a
/// comma; where the next name would not fit below `limit`, an ellipsis ends
/// the message.
pub open spec fn message_from(names: Seq<Seq<char>>, at: int, so_far: Seq<char>, limit: int) -> Seq<
    char,
>
    decreases names.len() - at,
{
    if at < 0 || at >= names.len() {
        so_far
    } else {
        let next = so_far + ", "@;
        if next.len() + names[at].len() < limit {
            message_from(names, at + 1, next + names[at], limit)
        } else {
            next + "..."@
        }
    }
}

/// The message of the progress line: what is at work, the latest first, cut
/// to the width of the terminal.
pub open spec fn status_message(names: Seq<Seq<char>>, width: int) -> Seq<char> {
    if names.len() == 0 {
        Seq::empty()
    } else {
        message_from(names, 1, names[0], message_limit(width))
    }
}

/// What is drawn for a transition, before the message of the progress line.
pub open spec fn drawn_first(name: Seq<char>, state: StateView) -> Seq<RenderView> {
    match state {
        StateView::Opt(false) => seq![
            RenderView::Status(Status::Integrating, name),
            RenderView::Advance,
        ],
        StateView::Opt(true) => Seq::empty(),
        StateView::Llc(false) => seq![RenderView::Advance],
        StateView::Llc(true) => Seq::empty(),
        StateView::Ld(false) => seq![RenderView::Status(Status::Linking, name), RenderView::Advance],
        StateView::Ld(true) => Seq::empty(),
        StateView::Skipped => if name == "compiler_interrupts"@ {
            seq![RenderView::Advance]
        } else {
            seq![RenderView::Status(Status::Skipped, name), RenderView::Advance]
        },
        StateView::Error(message) => seq![RenderView::Fail(message)],
    }
}

/// All that is drawn for a transition: nothing once an error was reported;
/// for an error its warning alone; else what the transition calls for, and
/// then the message of the progress line.
pub open spec fn drawn(reporter: ReporterView, name: Seq<char>, state: StateView, width: int) -> Seq<
    RenderView,
> {
    if reporter.failed {
        Seq::empty()
    } else if state is Error {
        drawn_first(name, state)
    } else {
        drawn_first(name, state).push(
            RenderView::Message(
                status_message(names_after(reporter.names, name, state), width),
                layout_for(width),
            ),
        )
    }
}

/// The reporter after a transition.
pub open spec fn reported(reporter: ReporterView, name: Seq<char>, state: StateView) -> ReporterView {
    if reporter.failed {
        reporter
    } else if state is Error {
        ReporterView { names: reporter.names, failed: true }
    } else {
        ReporterView { names: names_after(reporter.names, name, state), failed: false }
    }
}

/// The number of steps of the progress bar: two for each IR file, one for
/// each linker and one for the end; the largest number there is where that
/// is too many.
pub open spec fn steps(ir_files: int, linkers: int) -> int {
    if 2 * ir_files + linkers + 1 <= u64::MAX {
        2 * ir_files + linkers + 1
    } else {
        u64::MAX as int
    }
}

/// The number of steps of the progress bar.
pub fn progress_len(ir_files: usize, linkers: usize) -> (n: u64)
    ensures
        n == steps(ir_files as int, linkers as int),
{
    let total: u128 = 2 * (ir_files as u128) + (linkers as u128) + 1;
    if total <= u64::MAX as u128 {
        total as u64
    } else {
        u64::MAX
    }
}

/// The message of the progress line.
pub fn message(names: &Vec<String>, width: usize) -> (out: String)
    ensures
        out@ == status_message(names.deep_view(), width as int),
{
    let mut msg: Vec<char> = Vec::new();
    if names.len() == 0 {
        assert(msg@ =~= Seq::<char>::empty());
        return string_from(&msg);
    }
    push_str(&mut msg, names[0].as_str());
    assert(msg@ =~= names.deep_view()[0]);
    let limit: i128 = (width as i128) - (if width > 80 {
        50i128
    } else {
        20i128
    }) - 15;
    let mut i: usize = 1;
    while i < names.len()
        invariant
            1 <= i <= names.len(),
            limit == message_limit(width as int),
            status_message(names.deep_view(), width as int) == message_from(
                names.deep_view(),
                i as int,
                msg@,
                limit as int,
            ),
        decreases names.len() - i,
    {
        let name = chars_of(names[i].as_str());
        assert(name@ == names.deep_view()[i as int]);
        push_str(&mut msg, ", ");
        if (msg.len() as i128) + (name.len() as i128) < limit {
            push_chars(&mut msg, &name);
            i += 1;
        } else {
            push_str(&mut msg, "...");
            return string_from(&msg);
        }
    }
    string_from(&msg)
}

fn remove_first(names: &mut Vec<String>, label: &Vec<char>)
    ensures
        final(names).deep_view() == without_first(old(names).deep_view(), label@),
{
    let ghost all = names.deep_view();
    let mut i: usize = 0;
    while i < names.len()
        invariant
            i <= names.len(),
            names == old(names),
            all == names.deep_view(),
            position_of(all, label@, 0) == position_of(all, label@, i as int),
        decreases names.len() - i,
    {
        if same(&chars_of(names[i].as_str()), label) {
            assert(all[i as int] == label@);
            names.remove(i);
            assert(names.deep_view() =~= all.remove(i as int));
            return ;
        }
        assert(all[i as int] != label@);
        i += 1;
    }
}

impl Reporter {
    /// A reporter with nothing at work.
    pub fn new() -> (reporter: Reporter)
        ensures
            reporter@ == (ReporterView { names: Seq::empty(), failed: false }),
    {
        let reporter = Reporter { names: Vec::new(), failed: false };
        assert(reporter.names.deep_view() =~= Seq::<Seq<char>>::empty());
        reporter
    }

    /// Takes a stage transition in and says what to draw for it, given the
    /// width of the terminal.
    pub fn handle(&mut self, event: IntegrationCx, width: usize) -> (out: Vec<Render>)
        ensures
            final(self)@ == reported(old(self)@, event.crate_name@, event.state@),
            render_views(out@) == drawn(old(self)@, event.crate_name@, event.state@, width as int),
            old(self).failed ==> final(self).failed && out.len() == 0,
    {
        let mut out: Vec<Render> = Vec::new();
        if self.failed {
            assert(render_views(out@) =~= Seq::<RenderView>::empty());
            return out;
        }
        let ghost before = self.names.deep_view();
        let name = event.crate_name;
        match event.state {
            State::Opt(finished) => {
                let label = chars_of(name.as_str());
                if finished {
                    remove_first(&mut self.names, &label);
                } else {
                    out.push(Render::Status(Status::Integrating, name));
                    out.push(Render::Advance);
                    self.names.insert(0, string_from(&label));
                    assert(self.names.deep_view() =~= seq![label@] + before);
                }
            },
            State::Llc(finished) => {
                let mut label = chars_of(name.as_str());
                push_str(&mut label, "(llc)");
                if finished {
                    remove_first(&mut self.names, &label);
                } else {
                    out.push(Render::Advance);
                    self.names.insert(0, string_from(&label));
                    assert(self.names.deep_view() =~= seq![label@] + before);
                }
            },
            State::Ld(finished) => {
                let mut label = chars_of(name.as_str());
                push_str(&mut label, "(bin)");
                if finished {
                    remove_first(&mut self.names, &label);
                } else {
                    out.push(Render::Status(Status::Linking, name));
                    out.push(Render::Advance);
                    self.names.insert(0, string_from(&label));
                    assert(self.names.deep_view() =~= seq![label@] + before);
                }
            },
            State::Skipped => {
                if !crate::text::str_eq(name.as_str(), "compiler_interrupts") {
                    out.push(Render::Status(Status::Skipped, name));
                }
                out.push(Render::Advance);
            },
            State::Error(message) => {
                out.push(Render::Fail(message));
                self.failed = true;
                assert(render_views(out@) =~= drawn(
                    old(self)@,
                    event.crate_name@,
                    event.state@,
                    width as int,
                ));
                return out;
            },
        }
        let ghost first = render_views(out@);
        assert(first =~= drawn_first(event.crate_name@, event.state@));
        let layout = if width > 80 {
            Layout::Wide
        } else {
            Layout::Narrow
        };
        let text = message(&self.names, width);
        out.push(Render::Message(text, layout));
        assert(render_views(out@) =~= first.push(
            RenderView::Message(
                status_message(self.names.deep_view(), width as int),
                layout_for(width as int),
            ),
        ));
        out
    }

    /// What to draw when all tasks have ended: the last step of the bar,
    /// unless an error was reported.
    pub fn finish(&self) -> (out: Vec<Render>)
        ensures
            render_views(out@) == if self.failed {
                Seq::<RenderView>::empty()
            } else {
                seq![RenderView::Advance]
            },
    {
        let mut out: Vec<Render> = Vec::new();
        if !self.failed {
            out.push(Render::Advance);
        }
        assert(render_views(out@) =~= if self.failed {
            Seq::<RenderView>::empty()
        } else {
            seq![RenderView::Advance]
        });
        out
    }
}

} // verus!
