//! The terminal session: which commands the caller performs, in which order,
//! from the first switch of the terminal to the last.
//!
//! The caller owns the terminal and the UI tree. It asks the session for a
//! command, performs it, and hands back how it went; the session answers with
//! the next command. A session switches the terminal to raw mode and to the
//! alternate screen, runs the event loop, and switches both back, on every
//! path to its end.

use crate::content::Content;
use crate::event_loop::{LoopState, Reaction, Stimulus};
use crate::frame::{is_frame, selection_after, shows_caption, Panes, TuiState};
use crate::toolkit::buffer_cells;
use crate::grid::Area;
use crate::input::InputEvent;
use crate::selection::Selection;
use ratatui::buffer::Buffer;
use vstd::prelude::*;

verus! {

/// How a session ended.
#[derive(Clone, Copy, Debug, PartialEq, Eq, Structural)]
pub enum Exit {
    /// The quit key was pressed, and every command succeeded.
    Quit,
    /// A command failed with an I/O error.
    IoError,
}

/// One thing for the caller to do.
#[derive(Clone, Copy, Debug, PartialEq, Eq, Structural)]
pub enum Command {
    /// Switch the terminal to raw input mode.
    EnableRawMode,
    /// Switch the terminal to the alternate screen.
    EnterAlternateScreen,
    /// Open the drawing surface on the terminal.
    OpenTerminal,
    /// Tell the UI tree that its root needs an update.
    MarkRootDirty,
    /// Draw a frame and show it.
    Draw,
    /// Wait for pending work of the UI tree or an event of the terminal,
    /// whichever comes first.
    Wait,
    /// Have the UI tree apply its pending work.
    ApplyUiWork,
    /// Switch the terminal back from raw input mode.
    DisableRawMode,
    /// Switch the terminal back to the primary screen.
    LeaveAlternateScreen,
    /// Nothing is left to do: return to the caller of the session.
    Finish(Exit),
}

/// How a command went.
#[derive(Clone, Copy, Debug, PartialEq, Eq, Structural)]
pub enum Outcome {
    /// The command succeeded and has nothing to report.
    Done,
    /// The command failed with an I/O error.
    Failed,
    /// The wait ended because the UI tree has pending work.
    UiReady,
    /// The wait ended with an event of the terminal.
    Input(InputEvent),
}

/// The two switches of the terminal that a session makes.
#[derive(Clone, Copy, Debug, PartialEq, Eq, Structural)]
pub struct TerminalMode {
    /// Keys are delivered unprocessed.
    pub raw: bool,
    /// The alternate screen is shown.
    pub alternate_screen: bool,
}

impl Command {
    /// The commands before a session starts to switch the terminal back.
    pub open spec fn is_forward(self) -> bool {
        !(self is DisableRawMode || self is LeaveAlternateScreen || self is Finish)
    }
}

impl Outcome {
    /// The stimulus of the event loop that an outcome of a wait carries.
    pub open spec fn stimulus(self) -> Option<Stimulus> {
        match self {
            Outcome::UiReady => Some(Stimulus::UiReady),
            Outcome::Input(event) => Some(Stimulus::Input(event)),
            _ => None,
        }
    }

    /// The outcomes that can end the event loop: a failure, and a press of
    /// the quit key.
    pub open spec fn ends_loop(self) -> bool {
        self == Outcome::Failed || (self.stimulus() matches Some(stimulus) && stimulus.is_quit())
    }
}

impl TerminalMode {
    /// The mode of a terminal that no session has touched.
    pub open spec fn spec_normal() -> TerminalMode {
        TerminalMode { raw: false, alternate_screen: false }
    }

    /// The mode after a command that succeeded. Only the four switches change
    /// it.
    pub open spec fn spec_after(self, command: Command) -> TerminalMode {
        match command {
            Command::EnableRawMode => TerminalMode { raw: true, ..self },
            Command::EnterAlternateScreen => TerminalMode { alternate_screen: true, ..self },
            Command::DisableRawMode => TerminalMode { raw: false, ..self },
            Command::LeaveAlternateScreen => TerminalMode { alternate_screen: false, ..self },
            _ => self,
        }
    }

    /// The mode after a session has entered the terminal.
    pub open spec fn entered(self) -> TerminalMode {
        self.spec_after(Command::EnableRawMode).spec_after(Command::EnterAlternateScreen)
    }

    /// The mode after a session has left the terminal.
    pub open spec fn exited(self) -> TerminalMode {
        self.spec_after(Command::DisableRawMode).spec_after(Command::LeaveAlternateScreen)
    }

    /// The mode of a terminal that no session has touched.
    #[verifier::when_used_as_spec(spec_normal)]
    pub fn normal() -> (mode: TerminalMode)
        ensures
            mode == TerminalMode::spec_normal(),
    {
        TerminalMode { raw: false, alternate_screen: false }
    }

    /// The mode after a command that succeeded.
    #[verifier::when_used_as_spec(spec_after)]
    pub fn after(self, command: Command) -> (mode: TerminalMode)
        ensures
            mode == self.spec_after(command),
    {
        match command {
            Command::EnableRawMode => TerminalMode { raw: true, alternate_screen: self.alternate_screen },
            Command::EnterAlternateScreen => TerminalMode { raw: self.raw, alternate_screen: true },
            Command::DisableRawMode => TerminalMode { raw: false, alternate_screen: self.alternate_screen },
            Command::LeaveAlternateScreen => TerminalMode { raw: self.raw, alternate_screen: false },
            _ => self,
        }
    }
}

/// Entering and then leaving puts a terminal into its normal mode, whatever
/// its mode was.
pub proof fn lemma_exit_restores(mode: TerminalMode)
    ensures
        mode.entered().exited() == TerminalMode::spec_normal(),
{
}

/// Two sessions in a row leave a terminal that was in its normal mode as it
/// was: after the first the second starts from the same mode, and ends in it.
pub proof fn lemma_enter_exit_twice(mode: TerminalMode)
    requires
        mode == TerminalMode::spec_normal(),
    ensures
        mode.entered().exited() == mode,
        mode.entered().exited().entered().exited() == mode,
{
}

/// A session as its contracts see it.
pub struct SessionView {
    /// The command that the caller was last handed, if any.
    pub pending: Option<Command>,
    /// The mode of the terminal, as far as the commands that succeeded tell.
    pub mode: TerminalMode,
    /// Some command has failed.
    pub failed: bool,
    /// A command that switches the terminal back has failed.
    pub unrestored: bool,
    /// The state of the event loop.
    pub state: LoopState,
    /// The selection of the command list.
    pub selection: (Option<usize>, usize),
}

impl SessionView {
    /// The session before its first command.
    pub open spec fn start() -> SessionView {
        SessionView {
            pending: None,
            mode: TerminalMode::spec_normal(),
            failed: false,
            unrestored: false,
            state: LoopState::Running,
            selection: (None, 0),
        }
    }

    /// The command that follows, once the pending command went as `outcome`
    /// says.
    ///
    /// A failure of any command before the terminal is switched back starts
    /// switching it back. Both switches back are made whatever their outcome.
    /// The session ends with an I/O error if any command failed.
    pub open spec fn next_command(self, outcome: Outcome) -> Command {
        match self.pending {
            None => Command::EnableRawMode,
            Some(Command::Finish(exit)) => Command::Finish(exit),
            Some(Command::DisableRawMode) => Command::LeaveAlternateScreen,
            Some(Command::LeaveAlternateScreen) => Command::Finish(
                if self.failed || outcome == Outcome::Failed {
                    Exit::IoError
                } else {
                    Exit::Quit
                },
            ),
            Some(command) => if outcome == Outcome::Failed {
                Command::DisableRawMode
            } else {
                match command {
                    Command::EnableRawMode => Command::EnterAlternateScreen,
                    Command::EnterAlternateScreen => Command::OpenTerminal,
                    Command::OpenTerminal => Command::MarkRootDirty,
                    Command::Wait => match outcome.stimulus() {
                        Some(stimulus) => match self.state.reaction_to(stimulus) {
                            Reaction::ApplyUiWork => Command::ApplyUiWork,
                            Reaction::Redraw => Command::Draw,
                            Reaction::Leave => Command::DisableRawMode,
                        },
                        None => Command::Draw,
                    },
                    Command::Draw => Command::Wait,
                    _ => Command::Draw,
                }
            },
        }
    }

    /// The session after its pending command went as `outcome` says.
    pub open spec fn advanced(self, outcome: Outcome) -> SessionView {
        let failure = outcome == Outcome::Failed && self.pending.is_some() && !(
        self.pending->0 is Finish);
        SessionView {
            pending: Some(self.next_command(outcome)),
            mode: if self.pending.is_some() && outcome != Outcome::Failed {
                self.mode.spec_after(self.pending->0)
            } else {
                self.mode
            },
            failed: self.failed || failure,
            unrestored: self.unrestored || (failure && !self.pending->0.is_forward()),
            state: if self.pending == Some(Command::Wait) && outcome.stimulus().is_some() {
                self.state.after(outcome.stimulus()->0)
            } else {
                self.state
            },
            selection: self.selection,
        }
    }

    /// The session after its commands went as `outcomes` say, one after the
    /// other.
    pub open spec fn advanced_all(self, outcomes: Seq<Outcome>) -> SessionView
        decreases outcomes.len(),
    {
        if outcomes.len() == 0 {
            self
        } else {
            self.advanced_all(outcomes.drop_last()).advanced(outcomes.last())
        }
    }

    /// The session has not begun to switch the terminal back.
    pub open spec fn is_forward(self) -> bool {
        self.pending matches Some(command) ==> command.is_forward()
    }

    /// What holds of every session from its start on.
    pub open spec fn wf(self) -> bool {
        &&& self.unrestored ==> self.failed
        &&& match self.pending {
            None | Some(Command::EnableRawMode) => self.mode == TerminalMode::spec_normal(),
            Some(Command::EnterAlternateScreen) => self.mode == (TerminalMode {
                raw: true,
                alternate_screen: false,
            }),
            Some(Command::DisableRawMode) => !self.unrestored,
            Some(Command::LeaveAlternateScreen) => !self.unrestored ==> !self.mode.raw,
            Some(Command::Finish(exit)) => {
                &&& exit == Exit::IoError <==> self.failed
                &&& !self.unrestored ==> self.mode == TerminalMode::spec_normal()
            },
            Some(_) => self.mode == TerminalMode::spec_normal().entered(),
        }
        &&& match self.pending {
            Some(command) if !command.is_forward() => self.failed || self.state
                == LoopState::Stopped,
            _ => !self.failed && self.state == LoopState::Running,
        }
    }
}

/// Every step of a session keeps what holds of sessions.
pub proof fn lemma_advance_keeps_wf(session: SessionView, outcome: Outcome)
    requires
        session.wf(),
    ensures
        session.advanced(outcome).wf(),
{
}

/// As long as no command fails and the quit key is not pressed, the event
/// loop keeps running, however many commands the session hands out: it does
/// not begin to switch the terminal back, and it leaves the selection alone.
pub proof fn lemma_session_runs_without_quit(session: SessionView, outcomes: Seq<Outcome>)
    requires
        session.wf(),
        session.is_forward(),
        forall|i: int| 0 <= i < outcomes.len() ==> !(#[trigger] outcomes[i]).ends_loop(),
    ensures
        ({
            let end = session.advanced_all(outcomes);
            &&& end.wf()
            &&& end.is_forward()
            &&& end.state == LoopState::Running
            &&& !end.failed
            &&& end.selection == session.selection
        }),
    decreases outcomes.len(),
{
    if outcomes.len() > 0 {
        lemma_session_runs_without_quit(session, outcomes.drop_last());
        assert(!outcomes[outcomes.len() - 1].ends_loop());
    }
}

/// A failure of any command before the terminal is switched back ends the
/// session with an I/O error, and not before both switches back were made. If
/// those two succeed, the terminal is in its normal mode at the end.
pub proof fn lemma_failure_restores_terminal(
    session: SessionView,
    disabled: Outcome,
    left: Outcome,
)
    requires
        session.wf(),
        session.pending matches Some(command) && command.is_forward(),
    ensures
        ({
            let first = session.advanced(Outcome::Failed);
            let second = first.advanced(disabled);
            let third = second.advanced(left);
            &&& first.pending == Some(Command::DisableRawMode)
            &&& second.pending == Some(Command::LeaveAlternateScreen)
            &&& third.pending == Some(Command::Finish(Exit::IoError))
            &&& disabled != Outcome::Failed && left != Outcome::Failed ==> third.mode
                == TerminalMode::spec_normal()
        }),
{
}

/// A press of the quit key that ends a wait stops the loop and starts
/// switching the terminal back, whatever the selection is; any other
/// stimulus keeps the loop running.
pub proof fn lemma_wait_ends(session: SessionView, stimulus: Stimulus)
    requires
        session.wf(),
        session.pending == Some(Command::Wait),
    ensures
        ({
            let outcome = match stimulus {
                Stimulus::UiReady => Outcome::UiReady,
                Stimulus::Input(event) => Outcome::Input(event),
            };
            let next = session.advanced(outcome);
            &&& next.selection == session.selection
            &&& stimulus.is_quit() ==> next.state == LoopState::Stopped && next.pending == Some(
                Command::DisableRawMode,
            )
            &&& !stimulus.is_quit() ==> next.state == LoopState::Running && next.pending->0.is_forward()
        }),
{
}

/// A session that has ended without an I/O error ended because the quit key
/// was pressed, and has left the terminal in its normal mode.
pub proof fn lemma_clean_exit(session: SessionView)
    requires
        session.wf(),
        session.pending == Some(Command::Finish(Exit::Quit)),
    ensures
        session.state == LoopState::Stopped,
        session.mode == TerminalMode::spec_normal(),
{
}

/// A terminal session in progress.
pub struct Session {
    pending: Option<Command>,
    mode: TerminalMode,
    failed: bool,
    unrestored: bool,
    state: LoopState,
    screen: TuiState,
}

impl View for Session {
    type V = SessionView;

    closed spec fn view(&self) -> SessionView {
        SessionView {
            pending: self.pending,
            mode: self.mode,
            failed: self.failed,
            unrestored: self.unrestored,
            state: self.state,
            selection: self.screen@,
        }
    }
}

impl Session {
    #[verifier::type_invariant]
    spec fn inv(&self) -> bool {
        self@.wf()
    }

    /// A session before its first command, with no command highlighted.
    pub fn new() -> (session: Session)
        ensures
            session@ == SessionView::start(),
            session@.wf(),
    {
        Session::with_screen(TuiState::new())
    }

    /// A session before its first command, with the given state of the
    /// screen.
    pub fn with_screen(screen: TuiState) -> (session: Session)
        ensures
            session@ == (SessionView { selection: screen@, ..SessionView::start() }),
            session@.wf(),
    {
        Session {
            pending: None,
            mode: TerminalMode::normal(),
            failed: false,
            unrestored: false,
            state: LoopState::Running,
            screen,
        }
    }

    /// Takes the outcome of the pending command and returns the command to
    /// perform next. The first call returns the first command, whatever
    /// outcome it is given.
    pub fn advance(&mut self, outcome: Outcome) -> (command: Command)
        ensures
            final(self)@ == old(self)@.advanced(outcome),
            command == old(self)@.next_command(outcome),
            final(self)@.pending == Some(command),
            final(self)@.wf(),
    {
        proof {
            use_type_invariant(&*self);
            lemma_advance_keeps_wf(self@, outcome);
        }
        let failed_now = matches!(outcome, Outcome::Failed);
        let mut state = self.state;
        let mut failed = self.failed;
        let mut unrestored = self.unrestored;
        let mut mode = self.mode;
        let command = match self.pending {
            None => Command::EnableRawMode,
            Some(Command::Finish(exit)) => Command::Finish(exit),
            Some(pending) => {
                if failed_now {
                    failed = true;
                } else {
                    mode = mode.after(pending);
                }
                match pending {
                    Command::DisableRawMode => {
                        unrestored = unrestored || failed_now;
                        Command::LeaveAlternateScreen
                    },
                    Command::LeaveAlternateScreen => {
                        unrestored = unrestored || failed_now;
                        Command::Finish(if failed { Exit::IoError } else { Exit::Quit })
                    },
                    _ => if failed_now {
                        Command::DisableRawMode
                    } else {
                        match pending {
                            Command::EnableRawMode => Command::EnterAlternateScreen,
                            Command::EnterAlternateScreen => Command::OpenTerminal,
                            Command::OpenTerminal => Command::MarkRootDirty,
                            Command::Draw => Command::Wait,
                            Command::Wait => {
                                let stimulus = match outcome {
                                    Outcome::UiReady => Some(Stimulus::UiReady),
                                    Outcome::Input(event) => Some(Stimulus::Input(event)),
                                    _ => None,
                                };
                                match stimulus {
                                    Some(stimulus) => {
                                        let (next, reaction) = state.react(&stimulus);
                                        state = next;
                                        match reaction {
                                            Reaction::ApplyUiWork => Command::ApplyUiWork,
                                            Reaction::Redraw => Command::Draw,
                                            Reaction::Leave => Command::DisableRawMode,
                                        }
                                    },
                                    None => Command::Draw,
                                }
                            },
                            _ => Command::Draw,
                        }
                    },
                }
            },
        };
        *self = Session { pending: Some(command), mode, failed, unrestored, state, screen: self.screen };
        command
    }

    /// The command that the caller was last handed, if any.
    pub fn pending(&self) -> (pending: Option<Command>)
        ensures
            pending == self@.pending,
    {
        self.pending
    }

    /// The mode of the terminal, as far as the commands that succeeded tell.
    pub fn mode(&self) -> (mode: TerminalMode)
        ensures
            mode == self@.mode,
    {
        self.mode
    }

    /// The state of the event loop.
    pub fn loop_state(&self) -> (state: LoopState)
        ensures
            state == self@.state,
    {
        self.state
    }

    /// The state of the screen.
    pub fn screen(&self) -> (screen: TuiState)
        ensures
            screen@ == self@.selection,
    {
        self.screen
    }

    /// Renders the frame that a `Draw` command asks for: one frame of
    /// `content` into a new grid that covers `frame`, as `TuiState::render`
    /// does. Of the session only the selection of the command list changes.
    pub fn draw(&mut self, content: &Content, frame: Area) -> (grid: Buffer)
        requires
            frame.spec_fits(),
        ensures
            is_frame(grid, frame, Panes::spec_tiling(frame), *content, old(self)@.selection),
            shows_caption(buffer_cells(grid), frame, content.caption()),
            final(self)@ == (SessionView {
                selection: selection_after(
                    frame,
                    Panes::spec_tiling(frame),
                    content.caption(),
                    content.commands(),
                    old(self)@.selection,
                ),
                ..old(self)@
            }),
            Selection::in_bounds(final(self)@.selection, content.commands().len() + 1),
            final(self)@.wf(),
    {
        proof {
            use_type_invariant(&*self);
        }
        let mut screen = self.screen;
        let grid = screen.render(content, frame);
        *self = Session {
            pending: self.pending,
            mode: self.mode,
            failed: self.failed,
            unrestored: self.unrestored,
            state: self.state,
            screen,
        };
        grid
    }
}

} // verus!
