//! The event loop: what one stimulus does to the loop.
//!
//! The loop is either running or stopped. Each turn it draws a frame and then
//! waits for whichever comes first, pending work of the UI tree or an event of
//! the terminal. Only a press of the quit key stops it.

use crate::input::InputEvent;
use vstd::prelude::*;

verus! {

/// The state of the loop.
#[derive(Clone, Copy, Debug, PartialEq, Eq, Structural)]
pub enum LoopState {
    Running,
    /// The loop has ended, and stays so.
    Stopped,
}

/// What ended a wait of the loop.
#[derive(Clone, Copy, Debug, PartialEq, Eq, Structural)]
pub enum Stimulus {
    /// The UI tree has pending work.
    UiReady,
    /// The terminal produced an event.
    Input(InputEvent),
}

/// What the loop does about a stimulus.
#[derive(Clone, Copy, Debug, PartialEq, Eq, Structural)]
pub enum Reaction {
    /// Have the UI tree apply its pending work, then draw again.
    ApplyUiWork,
    /// Draw again.
    Redraw,
    /// Leave the loop.
    Leave,
}

impl Stimulus {
    /// Whether the stimulus is a press of the quit key.
    pub open spec fn is_quit(self) -> bool {
        self matches Stimulus::Input(event) && event.is_quit()
    }
}

impl LoopState {
    /// The state of the loop after one stimulus: a stopped loop stays
    /// stopped, and a running loop stops on a press of the quit key and on
    /// nothing else.
    pub open spec fn after(self, stimulus: Stimulus) -> LoopState {
        if self == LoopState::Stopped || stimulus.is_quit() {
            LoopState::Stopped
        } else {
            LoopState::Running
        }
    }

    /// The state of the loop after a sequence of stimuli, in their order.
    pub open spec fn after_all(self, stimuli: Seq<Stimulus>) -> LoopState
        decreases stimuli.len(),
    {
        if stimuli.len() == 0 {
            self
        } else {
            self.after_all(stimuli.drop_last()).after(stimuli.last())
        }
    }

    /// What the loop does about a stimulus that reaches it in this state.
    pub open spec fn reaction_to(self, stimulus: Stimulus) -> Reaction {
        if self.after(stimulus) == LoopState::Stopped {
            Reaction::Leave
        } else if stimulus == Stimulus::UiReady {
            Reaction::ApplyUiWork
        } else {
            Reaction::Redraw
        }
    }

    /// Takes one stimulus: returns the state of the loop after it, and what
    /// the loop does next.
    pub fn react(self, stimulus: &Stimulus) -> (next: (LoopState, Reaction))
        ensures
            next.0 == self.after(*stimulus),
            next.1 == self.reaction_to(*stimulus),
    {
        match self {
            LoopState::Stopped => (LoopState::Stopped, Reaction::Leave),
            LoopState::Running => match stimulus {
                Stimulus::UiReady => (LoopState::Running, Reaction::ApplyUiWork),
                Stimulus::Input(event) => if event.quits() {
                    (LoopState::Stopped, Reaction::Leave)
                } else {
                    (LoopState::Running, Reaction::Redraw)
                },
            },
        }
    }
}

/// As long as no stimulus is a press of the quit key, a running loop keeps
/// running, however many stimuli it takes.
pub proof fn lemma_runs_without_quit(stimuli: Seq<Stimulus>)
    requires
        forall|i: int| 0 <= i < stimuli.len() ==> !(#[trigger] stimuli[i]).is_quit(),
    ensures
        LoopState::Running.after_all(stimuli) == LoopState::Running,
    decreases stimuli.len(),
{
    if stimuli.len() > 0 {
        lemma_runs_without_quit(stimuli.drop_last());
    }
}

/// A press of the quit key stops the loop at once, whatever its state was.
pub proof fn lemma_quit_stops(state: LoopState, stimulus: Stimulus)
    requires
        stimulus.is_quit(),
    ensures
        state.after(stimulus) == LoopState::Stopped,
        state.reaction_to(stimulus) == Reaction::Leave,
{
}

/// A loop that was running is stopped after a sequence of stimuli exactly
/// when one of them was a press of the quit key.
pub proof fn lemma_stopped_only_by_quit(stimuli: Seq<Stimulus>)
    ensures
        LoopState::Running.after_all(stimuli) == LoopState::Stopped <==> exists|i: int|
            0 <= i < stimuli.len() && (#[trigger] stimuli[i]).is_quit(),
    decreases stimuli.len(),
{
    if stimuli.len() > 0 {
        let front = stimuli.drop_last();
        lemma_stopped_only_by_quit(front);
        if LoopState::Running.after_all(stimuli) == LoopState::Stopped {
            if stimuli.last().is_quit() {
                assert(stimuli[stimuli.len() - 1].is_quit());
            } else {
                let i = choose|i: int| 0 <= i < front.len() && (#[trigger] front[i]).is_quit();
                assert(stimuli[i].is_quit());
            }
        } else {
            assert forall|i: int| 0 <= i < stimuli.len() implies !(#[trigger] stimuli[i]).is_quit() by {
                if i < front.len() {
                    assert(front[i] == stimuli[i]);
                }
            }
        }
    }
}

} // verus!
