//! The tick scheduler's decision logic. The run loop itself — drawing,
//! polling the keyboard, sleeping to the next tick — lives with the
//! caller; this module decides what each decoded command does to the
//! store and when the loop ends.

use vstd::prelude::*;

use crate::state::StateStore;
use crate::state::StateView;
use crate::state::spec_move_selection;

verus! {

/// A navigation command decoded from input; everything else is ignored
/// by the decoder and never reaches the store.
#[derive(Debug, Clone, Copy, PartialEq, Eq, Structural)]
pub enum Command {
    MoveSelectionUp,
    MoveSelectionDown,
    Exit,
}

/// The run loop's state machine: it starts `Running`, stays `Running`
/// on every navigation command, and `Exiting` is terminal — the loop
/// ends and control returns to the caller for teardown.
#[derive(Debug, Clone, Copy, PartialEq, Eq, Structural)]
pub enum RunState {
    Running,
    Exiting,
}

/// What a command leaves in the store: `Exit` touches nothing, the move
/// commands move the selection one row, saturating.
pub open spec fn spec_handle_command(v: StateView, cmd: Command) -> StateView {
    match cmd {
        Command::Exit => v,
        Command::MoveSelectionUp => StateView {
            selected: spec_move_selection(v.selected, v.processes.len(), -1),
            ..v
        },
        Command::MoveSelectionDown => StateView {
            selected: spec_move_selection(v.selected, v.processes.len(), 1),
            ..v
        },
    }
}

/// Applies one decoded command to the store and says whether the loop
/// goes on: `Exit` is the only command that transitions to `Exiting`.
pub fn handle_command(store: &mut StateStore, cmd: Command) -> (next: RunState)
    ensures
        final(store)@ == spec_handle_command(old(store)@, cmd),
        next == (match cmd {
            Command::Exit => RunState::Exiting,
            _ => RunState::Running,
        }),
{
    match cmd {
        Command::Exit => RunState::Exiting,
        Command::MoveSelectionUp => {
            store.move_selection(-1);
            RunState::Running
        },
        Command::MoveSelectionDown => {
            store.move_selection(1);
            RunState::Running
        },
    }
}

} // verus!
