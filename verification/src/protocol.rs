//! What passes between the steering loop and its caller, and the rules by
//! which the loop goes from one state to the next.
//!
//! The rules are written down as functions on [`Steering`], a plain record of
//! what a ready loop remembers. The loop itself is held to them.

use crate::direction::Direction;
use crate::engine::{left_taps, right_taps};
use sofar::filter::Filter;
use vstd::prelude::*;

verus! {

/// The length, in samples, of one partition of the convolution.
pub const PARTITION_LEN: usize = 32;

/// Why a block ended in an error.
#[derive(Clone, Copy, Debug, PartialEq, Eq, Structural)]
pub enum BlockError {
    /// The engine did not take the filter fetched for the new position, or the
    /// filter has not the length fixed at initialization.
    FilterInstall,
    /// The engine failed while rendering the block.
    Render,
    /// The block holds more samples than the loop was initialized for.
    BlockTooLong,
    /// The loop was told of something it was not waiting for.
    OutOfTurn,
}

/// How a block ended.
#[derive(Clone, Copy, Debug, PartialEq, Eq, Structural)]
pub enum Status {
    /// The block was rendered, or there was nothing to do.
    Normal,
    /// The block failed.
    Error(BlockError),
}

/// What there is to say of a finished block.
#[derive(Clone, Copy, Debug, PartialEq, Eq, Structural)]
pub struct BlockReport {
    /// How the block ended.
    pub status: Status,
    /// No filter could be fetched for the new position: the block went on
    /// with the filter in place.
    pub lookup_failed: bool,
}

/// What the caller is to do next.
#[derive(Clone, Copy, Debug, PartialEq, Eq, Structural)]
pub enum Action {
    /// Fetch the filter for this position and report with `filter_fetched`.
    Lookup(Direction),
    /// Take the engine with `stage_block`, render, and report with
    /// `block_rendered`.
    Render,
    /// Nothing: the block is over.
    Finish(BlockReport),
}

/// Something done outside the loop at its request, or by the loop to the
/// engine.
#[derive(Clone, Copy, Debug, PartialEq, Eq, Structural)]
pub enum Effect {
    /// A filter was asked for, for this position.
    Lookup(Direction),
    /// A filter was handed to the engine.
    Install,
    /// The engine was lent out to render a block.
    Render,
}

/// How far the current block has come.
#[derive(Clone, Copy, Debug, PartialEq, Eq, Structural)]
pub enum Phase {
    /// No block is open.
    Idle,
    /// A filter was asked for, for this position.
    AwaitingFilter(Direction),
    /// The block is ready to be rendered; the flag says whether a lookup
    /// failed on the way.
    AwaitingRender(bool),
    /// The engine was lent out; the flag is that of `AwaitingRender`.
    Rendering(bool),
}

/// Why the loop could not be made ready.
#[derive(Clone, Copy, Debug, PartialEq, Eq, Structural)]
pub enum InitializationError {
    /// The dataset of filters could not be opened.
    Dataset,
    /// The convolution engine could not be built.
    Engine,
    /// The engine did not take the filter for the initial position, or the
    /// filter's two impulse responses differ in length.
    InitialFilter,
}

/// There is something to render, and somewhere to render it to: the host
/// offers both output channels, and the block holds at least one sample.
pub open spec fn renderable(channels: nat, samples: nat) -> bool {
    channels >= 2 && samples > 0
}

/// The report of a block that ended with `status`.
pub open spec fn report(status: Status, lookup_failed: bool) -> BlockReport {
    BlockReport { status, lookup_failed }
}

/// The report of a call that came out of turn.
pub open spec fn out_of_turn() -> Action {
    Action::Finish(report(Status::Error(BlockError::OutOfTurn), false))
}

/// The filter's two impulse responses both have `taps` coefficients.
pub open spec fn fits(filter: Filter, taps: nat) -> bool {
    left_taps(filter) == taps && right_taps(filter) == taps
}

/// What a ready loop remembers, and what it has caused since it was made
/// ready. The engine and the scratch buffer are not part of it.
pub struct Steering {
    /// How far the current block has come.
    pub phase: Phase,
    /// The position that the filter in place was fetched for.
    pub last_direction: Direction,
    /// The filter in place: the last one that the engine took.
    pub filter: Filter,
    /// The length of every filter's impulse responses.
    pub taps: nat,
    /// The lookups, installs and renders so far, oldest first.
    pub history: Seq<Effect>,
}

/// A transition of the loop: its next state, what it asks for, and the filter
/// that it hands back.
pub struct Step {
    /// The state after the transition.
    pub state: Steering,
    /// What the caller is to do next.
    pub action: Action,
    /// A filter that the loop has no use for, for the caller to fill again.
    pub spare: Option<Filter>,
}

impl Steering {
    /// The state of a loop that has just been made ready.
    pub open spec fn fresh(filter: Filter, direction: Direction) -> Steering {
        Steering {
            phase: Phase::Idle,
            last_direction: direction,
            filter,
            taps: left_taps(filter),
            history: Seq::empty(),
        }
    }

    /// The same state in another phase.
    pub open spec fn in_phase(self, phase: Phase) -> Steering {
        Steering { phase, ..self }
    }

    /// The same state with one more effect on record.
    pub open spec fn having(self, effect: Effect) -> Steering {
        Steering { history: self.history.push(effect), ..self }
    }

    /// A block opens with the source at `direction`. Where that is the
    /// position of the filter in place, the block can be rendered at once;
    /// otherwise a filter is asked for.
    pub open spec fn begin(self, direction: Direction) -> Step {
        if self.last_direction.coincides(direction) {
            Step {
                state: self.in_phase(Phase::AwaitingRender(false)),
                action: Action::Render,
                spare: None,
            }
        } else {
            Step {
                state: self.in_phase(Phase::AwaitingFilter(direction)).having(
                    Effect::Lookup(direction),
                ),
                action: Action::Lookup(direction),
                spare: None,
            }
        }
    }

    /// No filter could be fetched: the block goes on with the filter in place,
    /// and the position stays the old one.
    pub open spec fn lookup_failed(self) -> Step {
        if self.phase is AwaitingFilter {
            Step {
                state: self.in_phase(Phase::AwaitingRender(true)),
                action: Action::Render,
                spare: None,
            }
        } else {
            Step { state: self, action: out_of_turn(), spare: None }
        }
    }

    /// The loop is waiting for a filter and `candidate` has the right length:
    /// only then is it handed to the engine.
    pub open spec fn admits(self, candidate: Filter) -> bool {
        self.phase is AwaitingFilter && fits(candidate, self.taps)
    }

    /// The engine has been asked to take `candidate` and `accepted` says
    /// whether it did. A filter that the engine took replaces the one in place,
    /// which is handed back, and the position becomes the one it was fetched
    /// for. A filter that it did not take is handed back, the block ends in an
    /// error, and filter and position stay as they were.
    pub open spec fn settle(self, candidate: Filter, accepted: bool) -> Step {
        if !(self.phase is AwaitingFilter) {
            Step { state: self, action: out_of_turn(), spare: Some(candidate) }
        } else if accepted && fits(candidate, self.taps) {
            Step {
                state: Steering {
                    phase: Phase::AwaitingRender(false),
                    last_direction: self.phase->AwaitingFilter_0,
                    filter: candidate,
                    ..self
                },
                action: Action::Render,
                spare: Some(self.filter),
            }
        } else {
            Step {
                state: self.in_phase(Phase::Idle),
                action: Action::Finish(report(Status::Error(BlockError::FilterInstall), false)),
                spare: Some(candidate),
            }
        }
    }

    /// A filter was fetched and is dealt with: handed to the engine if the
    /// loop admits it, and settled by what the engine said.
    pub open spec fn fetched(self, candidate: Filter, accepted: bool) -> Step {
        if self.admits(candidate) {
            self.having(Effect::Install).settle(candidate, accepted)
        } else {
            self.settle(candidate, false)
        }
    }

    /// The input of the block is to be copied and the engine lent out. The
    /// block is rendered only if it is `renderable` and its input is within
    /// the scratch buffer's limit, which `fitting` says; otherwise it is over.
    pub open spec fn stage(self, renderable: bool, fitting: bool) -> Steering {
        if !(self.phase is AwaitingRender) {
            self
        } else if renderable && fitting {
            self.in_phase(Phase::Rendering(self.phase->AwaitingRender_0)).having(Effect::Render)
        } else {
            self.in_phase(Phase::Idle)
        }
    }

    /// The report that ends the block where the engine is not lent out, or
    /// nothing, where it is lent. A block that is not renderable ends as a
    /// normal one; a block beyond the limit ends in an error.
    pub open spec fn stage_refusal(self, renderable: bool, fitting: bool) -> Option<BlockReport> {
        if !(self.phase is AwaitingRender) {
            Some(report(Status::Error(BlockError::OutOfTurn), false))
        } else if !renderable {
            Some(report(Status::Normal, self.phase->AwaitingRender_0))
        } else if fitting {
            None
        } else {
            Some(report(Status::Error(BlockError::BlockTooLong), self.phase->AwaitingRender_0))
        }
    }

    /// The engine is back and `rendered` says whether it rendered the block.
    /// Filter and position stay as they are either way.
    pub open spec fn finish(self, rendered: bool) -> Step {
        if self.phase is Rendering {
            Step {
                state: self.in_phase(Phase::Idle),
                action: Action::Finish(
                    report(
                        if rendered {
                            Status::Normal
                        } else {
                            Status::Error(BlockError::Render)
                        },
                        self.phase->Rendering_0,
                    ),
                ),
                spare: None,
            }
        } else {
            Step { state: self, action: out_of_turn(), spare: None }
        }
    }
}

} // verus!
