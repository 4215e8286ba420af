//! The backend of the interface: what it does to the terminal, and how
//! it turns the terminal's notifications and the render timer into one
//! ordered stream of events.
//!
//! Nothing here touches the terminal. Entering and leaving the interface
//! are given as the commands to issue, in order; the producer of the
//! event stream is given as the decision it takes each time one of its
//! two sources is ready.

use crate::event::{Event, KeyCode, KeyEvent, KeyEventKind, TerminalEvent};
use vstd::prelude::*;

verus! {

/// The key that ends the session whatever the key bindings say.
pub const QUIT_KEY: char = 'q';

/// One thing to do to the terminal or to the process.
#[derive(Debug, Clone, Copy, PartialEq, Eq, Hash)]
pub enum TerminalCommand {
    /// Hand every key to the program as it is typed.
    EnableRawMode,
    /// Give the terminal back its line discipline.
    DisableRawMode,
    /// Switch to the alternate screen.
    EnterAlternateScreen,
    /// Switch back to the main screen.
    LeaveAlternateScreen,
    /// Hide the cursor.
    HideCursor,
    /// Show the cursor.
    ShowCursor,
    /// Have the terminal report the pointer.
    EnableMouseCapture,
    /// Have the terminal keep the pointer to itself.
    DisableMouseCapture,
    /// Have the terminal mark pasted text.
    EnableBracketedPaste,
    /// Have the terminal paste text as if it were typed.
    DisableBracketedPaste,
    /// Start the task that produces the events.
    StartEvents,
    /// Stop the process, as the shell's job control does.
    RaiseStop,
}

/// The commands that take the terminal into the interface: raw mode,
/// the alternate screen without a cursor, the captures that were asked
/// for, and then the event stream.
pub open spec fn enter_commands(mouse: bool, paste: bool) -> Seq<TerminalCommand> {
    seq![
        TerminalCommand::EnableRawMode,
        TerminalCommand::EnterAlternateScreen,
        TerminalCommand::HideCursor,
    ] + (if mouse {
        seq![TerminalCommand::EnableMouseCapture]
    } else {
        Seq::empty()
    }) + (if paste {
        seq![TerminalCommand::EnableBracketedPaste]
    } else {
        Seq::empty()
    }) + seq![TerminalCommand::StartEvents]
}

/// The commands that give the terminal back: cooked mode, the main
/// screen with its cursor, and the captures off that were asked for.
/// The event stream is not stopped.
pub open spec fn exit_commands(mouse: bool, paste: bool) -> Seq<TerminalCommand> {
    seq![
        TerminalCommand::DisableRawMode,
        TerminalCommand::LeaveAlternateScreen,
        TerminalCommand::ShowCursor,
    ] + (if mouse {
        seq![TerminalCommand::DisableMouseCapture]
    } else {
        Seq::empty()
    }) + (if paste {
        seq![TerminalCommand::DisableBracketedPaste]
    } else {
        Seq::empty()
    })
}

/// The command that takes back what `command` did to the terminal, for
/// the commands that change the terminal's mode.
pub open spec fn undoing(command: TerminalCommand) -> TerminalCommand {
    match command {
        TerminalCommand::EnableRawMode => TerminalCommand::DisableRawMode,
        TerminalCommand::EnterAlternateScreen => TerminalCommand::LeaveAlternateScreen,
        TerminalCommand::HideCursor => TerminalCommand::ShowCursor,
        TerminalCommand::EnableMouseCapture => TerminalCommand::DisableMouseCapture,
        TerminalCommand::EnableBracketedPaste => TerminalCommand::DisableBracketedPaste,
        other => other,
    }
}

/// `TuiBackend` holds what is fixed about the interface when it is
/// made: which captures the terminal is asked for.
#[derive(Debug, Clone, Copy, PartialEq, Eq)]
pub struct TuiBackend {
    /// A boolean flag that represents whether the mouse is enabled or not.
    pub mouse: bool,
    /// A boolean flag that represents whether the paste mode is enabled or not.
    pub paste: bool,
}

impl TuiBackend {
    /// Create a new instance of the `TuiBackend` struct, with the mouse
    /// and the paste mode disabled.
    pub fn new() -> (backend: Self)
        ensures
            backend == (TuiBackend { mouse: false, paste: false }),
    {
        TuiBackend { mouse: false, paste: false }
    }

    /// Enable or disable the mouse for the user interface.
    pub fn with_mouse(self, mouse: bool) -> (backend: Self)
        ensures
            backend == (TuiBackend { mouse, ..self }),
    {
        TuiBackend { mouse, paste: self.paste }
    }

    /// Enable or disable the paste mode for the user interface.
    pub fn with_paste(self, paste: bool) -> (backend: Self)
        ensures
            backend == (TuiBackend { paste, ..self }),
    {
        TuiBackend { mouse: self.mouse, paste }
    }

    /// Enter the user interface and start processing events: the
    /// commands to issue, in order. The first one that fails ends the
    /// run, so that the events start only on a terminal that was set up.
    pub fn enter(&self) -> (commands: Vec<TerminalCommand>)
        ensures
            commands@ == enter_commands(self.mouse, self.paste),
    {
        let mut commands = Vec::new();
        commands.push(TerminalCommand::EnableRawMode);
        commands.push(TerminalCommand::EnterAlternateScreen);
        commands.push(TerminalCommand::HideCursor);
        if self.mouse {
            commands.push(TerminalCommand::EnableMouseCapture);
        }
        if self.paste {
            commands.push(TerminalCommand::EnableBracketedPaste);
        }
        commands.push(TerminalCommand::StartEvents);
        assert(commands@ =~= enter_commands(self.mouse, self.paste));
        commands
    }

    /// Exit the user interface: the commands to issue, in order. The
    /// first one that fails ends the run.
    pub fn exit(&self) -> (commands: Vec<TerminalCommand>)
        ensures
            commands@ == exit_commands(self.mouse, self.paste),
    {
        let mut commands = Vec::new();
        commands.push(TerminalCommand::DisableRawMode);
        commands.push(TerminalCommand::LeaveAlternateScreen);
        commands.push(TerminalCommand::ShowCursor);
        if self.mouse {
            commands.push(TerminalCommand::DisableMouseCapture);
        }
        if self.paste {
            commands.push(TerminalCommand::DisableBracketedPaste);
        }
        assert(commands@ =~= exit_commands(self.mouse, self.paste));
        commands
    }

    /// Suspend the user interface: leave it as [`TuiBackend::exit`]
    /// does, then stop the process.
    pub fn suspend(&self) -> (commands: Vec<TerminalCommand>)
        ensures
            commands@ == exit_commands(self.mouse, self.paste).push(TerminalCommand::RaiseStop),
    {
        let mut commands = self.exit();
        commands.push(TerminalCommand::RaiseStop);
        commands
    }

    /// Resume the user interface: enter it again, as
    /// [`TuiBackend::enter`] does.
    pub fn resume(&self) -> (commands: Vec<TerminalCommand>)
        ensures
            commands@ == enter_commands(self.mouse, self.paste),
    {
        self.enter()
    }
}

/// Leaving takes back, step by step and in the same order, every change
/// that entering made to the terminal; entering does one thing more,
/// which is to start the events.
pub proof fn lemma_exit_undoes_enter(mouse: bool, paste: bool)
    ensures
        enter_commands(mouse, paste).len() == exit_commands(mouse, paste).len() + 1,
        enter_commands(mouse, paste).last() == TerminalCommand::StartEvents,
        forall|i: int|
            0 <= i < exit_commands(mouse, paste).len() ==> #[trigger] exit_commands(mouse, paste)[i]
                == undoing(enter_commands(mouse, paste)[i]),
{
}

/// What a source of the producer had to tell when it became ready. The
/// producer waits on the terminal and on the render timer at once, and
/// takes whichever is ready first; the other is waited for again.
#[derive(Debug, Clone, PartialEq, Eq)]
pub enum Ready {
    /// The terminal delivered a notification.
    Notification(TerminalEvent),
    /// The terminal could not be read.
    ReadFailed,
    /// The terminal will deliver nothing more.
    StreamEnded,
    /// The render timer ticked.
    Tick,
}

/// Why the producer could make no event of what a source told it.
#[derive(Debug, Clone, Copy, PartialEq, Eq, Hash)]
pub enum Diagnostic {
    /// Text was pasted, which no event stands for.
    UnexpectedPaste,
    /// The terminal could not be read.
    ReadFailed,
    /// The terminal will deliver nothing more.
    StreamEnded,
}

impl Diagnostic {
    /// Whether the terminal is not to be waited for any more after this
    /// diagnostic: true of the end of its stream only, after which the
    /// render timer is the one source left.
    pub fn ends_terminal_input(&self) -> (ends: bool)
        ensures
            ends == (*self is StreamEnded),
    {
        match self {
            Diagnostic::StreamEnded => true,
            _ => false,
        }
    }
}

/// What the producer does about a source that became ready.
#[derive(Debug, Clone, Copy, PartialEq, Eq, Hash)]
pub enum Step {
    /// Put this event on the channel. If the channel does not take it,
    /// the producer ends with that failure and does not try again.
    Send(Event),
    /// Put nothing on the channel.
    Skip,
    /// Put nothing on the channel, and report why; the producer goes on.
    Report(Diagnostic),
}

/// Whether a keyboard notification is the reserved quit key.
pub open spec fn is_quit_key(key: KeyEvent) -> bool {
    key.code == KeyCode::Char(QUIT_KEY)
}

/// The producer's rule. Of the keyboard only keys going down pass, and
/// the quit key passes as `Quit`; the pointer and a change of size pass
/// as they are; a change of focus passes nothing; a tick passes as
/// `Render`; everything else is reported.
pub open spec fn decision(ready: Ready) -> Step {
    match ready {
        Ready::Notification(TerminalEvent::Key(key)) => if key.kind is Press {
            if is_quit_key(key) {
                Step::Send(Event::Quit)
            } else {
                Step::Send(Event::Key(key))
            }
        } else {
            Step::Skip
        },
        Ready::Notification(TerminalEvent::Mouse(mouse)) => Step::Send(Event::Mouse(mouse)),
        Ready::Notification(TerminalEvent::Resize(width, height)) => Step::Send(
            Event::Resize(width, height),
        ),
        Ready::Notification(TerminalEvent::FocusLost) => Step::Skip,
        Ready::Notification(TerminalEvent::FocusGained) => Step::Skip,
        Ready::Notification(TerminalEvent::Paste(_)) => Step::Report(Diagnostic::UnexpectedPaste),
        Ready::ReadFailed => Step::Report(Diagnostic::ReadFailed),
        Ready::StreamEnded => Step::Report(Diagnostic::StreamEnded),
        Ready::Tick => Step::Send(Event::Render),
    }
}

/// The event that a ready source puts on the channel, if it puts one.
pub open spec fn emitted(ready: Ready) -> Option<Event> {
    match decision(ready) {
        Step::Send(event) => Some(event),
        _ => None,
    }
}

/// The events that a run of ready sources puts on the channel, in the
/// order in which the sources became ready.
pub open spec fn forwarded(run: Seq<Ready>) -> Seq<Event>
    decreases run.len(),
{
    if run.len() == 0 {
        Seq::empty()
    } else {
        match emitted(run.last()) {
            Some(event) => forwarded(run.drop_last()).push(event),
            None => forwarded(run.drop_last()),
        }
    }
}

/// Whether a ready source is one that is never filtered: a tick of the
/// render timer, a change of size, or a notification of the pointer.
pub open spec fn unfiltered(ready: Ready) -> bool {
    match ready {
        Ready::Tick => true,
        Ready::Notification(TerminalEvent::Resize(_, _)) => true,
        Ready::Notification(TerminalEvent::Mouse(_)) => true,
        _ => false,
    }
}

impl TuiBackend {
    /// Start processing events: the event that opens the stream, before
    /// either source is waited for.
    pub fn start(&self) -> (first: Event)
        ensures
            first == Event::Init,
    {
        Event::Init
    }
}

/// Decides what to do about a source that became ready: see
/// [`decision`].
pub fn decide(ready: &Ready) -> (step: Step)
    ensures
        step == decision(*ready),
{
    match ready {
        Ready::Notification(event) => match event {
            TerminalEvent::Key(key) => match key.kind {
                KeyEventKind::Press => {
                    let quit = match key.code {
                        KeyCode::Char(c) => c == QUIT_KEY,
                        _ => false,
                    };
                    if quit {
                        Step::Send(Event::Quit)
                    } else {
                        Step::Send(Event::Key(*key))
                    }
                },
                _ => Step::Skip,
            },
            TerminalEvent::Mouse(mouse) => Step::Send(Event::Mouse(*mouse)),
            TerminalEvent::Resize(width, height) => Step::Send(Event::Resize(*width, *height)),
            TerminalEvent::FocusLost => Step::Skip,
            TerminalEvent::FocusGained => Step::Skip,
            TerminalEvent::Paste(_) => Step::Report(Diagnostic::UnexpectedPaste),
        },
        Ready::ReadFailed => Step::Report(Diagnostic::ReadFailed),
        Ready::StreamEnded => Step::Report(Diagnostic::StreamEnded),
        Ready::Tick => Step::Send(Event::Render),
    }
}

/// Takes a whole run of ready sources through the producer's rule and
/// collects what it puts on the channel: see [`forwarded`].
pub fn forward_all(run: &Vec<Ready>) -> (events: Vec<Event>)
    ensures
        events@ == forwarded(run@),
{
    let mut events: Vec<Event> = Vec::new();
    let mut i: usize = 0;
    while i < run.len()
        invariant
            i <= run.len(),
            events@ == forwarded(run@.take(i as int)),
        decreases run.len() - i,
    {
        let step = decide(&run[i]);
        proof {
            let next = run@.take(i + 1);
            assert(next.drop_last() =~= run@.take(i as int));
            assert(next.last() == run@[i as int]);
        }
        match step {
            Step::Send(event) => {
                events.push(event);
            },
            _ => {},
        }
        i += 1;
    }
    assert(run@.take(run.len() as int) =~= run@);
    events
}

/// The stream keeps the order of the run: what two runs put on the
/// channel one after the other is what each of them puts there, one
/// after the other.
pub proof fn lemma_forwarded_concat(first: Seq<Ready>, second: Seq<Ready>)
    ensures
        forwarded(first + second) == forwarded(first) + forwarded(second),
    decreases second.len(),
{
    if second.len() == 0 {
        assert(first + second =~= first);
        assert(forwarded(first) + forwarded(second) =~= forwarded(first));
    } else {
        lemma_forwarded_concat(first, second.drop_last());
        assert((first + second).drop_last() =~= first + second.drop_last());
        assert((first + second).last() == second.last());
        match emitted(second.last()) {
            Some(event) => {
                assert((forwarded(first) + forwarded(second.drop_last())).push(event) =~= forwarded(
                    first,
                ) + forwarded(second.drop_last()).push(event));
            },
            None => {},
        }
    }
}

/// No tick, change of size or notification of the pointer is ever
/// dropped or doubled: a run made of these alone, however its ticks and
/// notifications are interleaved, puts exactly one event on the channel
/// for each of them, in the order of the run.
pub proof fn lemma_unfiltered_run_is_forwarded_whole(run: Seq<Ready>)
    requires
        forall|i: int| 0 <= i < run.len() ==> unfiltered(#[trigger] run[i]),
    ensures
        forwarded(run).len() == run.len(),
        forall|i: int| 0 <= i < run.len() ==> emitted(run[i]) == Some(#[trigger] forwarded(run)[i]),
    decreases run.len(),
{
    if run.len() > 0 {
        let init = run.drop_last();
        assert forall|i: int| 0 <= i < init.len() implies unfiltered(#[trigger] init[i]) by {
            assert(init[i] == run[i]);
        }
        lemma_unfiltered_run_is_forwarded_whole(init);
        assert(unfiltered(run.last()));
        assert forall|i: int| 0 <= i < run.len() implies emitted(run[i]) == Some(
            #[trigger] forwarded(run)[i],
        ) by {
            if i < init.len() {
                assert(init[i] == run[i]);
                assert(forwarded(run)[i] == forwarded(init)[i]);
            }
        }
    }
}

/// Whether a ready source is the render timer.
pub open spec fn is_tick(ready: Ready) -> bool {
    ready is Tick
}

/// Whether a ready source is the terminal.
pub open spec fn is_terminal(ready: Ready) -> bool {
    !(ready is Tick)
}

/// Whether an event is a render tick.
pub open spec fn is_render(event: Event) -> bool {
    event is Render
}

/// Whether an event came from the terminal.
pub open spec fn is_input(event: Event) -> bool {
    !(event is Render)
}

/// Each source keeps its own order, whatever the other does: the render
/// events of the stream are those of the run's ticks alone, and the
/// other events of the stream are those of the run's terminal
/// notifications alone, each in its order.
pub proof fn lemma_forwarded_per_source(run: Seq<Ready>)
    ensures
        forwarded(run).filter(|event: Event| is_render(event)) == forwarded(
            run.filter(|ready: Ready| is_tick(ready)),
        ),
        forwarded(run).filter(|event: Event| is_input(event)) == forwarded(
            run.filter(|ready: Ready| is_terminal(ready)),
        ),
        forwarded(run.filter(|ready: Ready| is_tick(ready))).len() == run.filter(
            |ready: Ready| is_tick(ready),
        ).len(),
    decreases run.len(),
{
    reveal(Seq::filter);
    let render = |event: Event| is_render(event);
    let input = |event: Event| is_input(event);
    let tick = |ready: Ready| is_tick(ready);
    let terminal = |ready: Ready| is_terminal(ready);
    if run.len() > 0 {
        let init = run.drop_last();
        let last = run.last();
        lemma_forwarded_per_source(init);
        match emitted(last) {
            Some(event) => {
                assert(forwarded(run) == forwarded(init).push(event));
                assert(forwarded(run).drop_last() =~= forwarded(init));
                assert(forwarded(run).last() == event);
                if is_tick(last) {
                    assert(run.filter(tick) == init.filter(tick).push(last));
                    assert(run.filter(tick).drop_last() =~= init.filter(tick));
                    assert(run.filter(terminal) == init.filter(terminal));
                } else {
                    assert(run.filter(terminal) == init.filter(terminal).push(last));
                    assert(run.filter(terminal).drop_last() =~= init.filter(terminal));
                    assert(run.filter(tick) == init.filter(tick));
                }
            },
            None => {
                assert(forwarded(run) == forwarded(init));
                assert(run.filter(tick) == init.filter(tick));
                assert(run.filter(terminal) == init.filter(terminal).push(last));
                assert(run.filter(terminal).drop_last() =~= init.filter(terminal));
            },
        }
    }
}

} // verus!
