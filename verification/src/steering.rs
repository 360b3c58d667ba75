//! The steering loop: what is done in one block, and in which order.
//!
//! The loop does not fetch filters or render audio itself. Each of its methods
//! takes what has just happened and answers with what is to be done next:
//! [`SteeringLoop::begin_block`] opens a block, [`SteeringLoop::filter_fetched`]
//! takes the result of a lookup and installs the filter,
//! [`SteeringLoop::stage_block`] copies the input and lends the engine out, and
//! [`SteeringLoop::block_rendered`] closes the block.

use crate::direction::Direction;
use crate::engine::{install, left_len, left_taps, right_len, right_taps, takes};
use crate::protocol::{
    fits, out_of_turn, renderable, report, Action, BlockError, BlockReport, Effect,
    InitializationError, Phase, Status, Steering, Step,
};
use crate::scratch::ScratchBuffer;
use sofar::filter::Filter;
use sofar::render::Renderer;
use vstd::prelude::*;

verus! {

/// What was built for the loop before it is made ready.
pub enum Construction {
    /// The dataset of filters could not be opened.
    DatasetFailed,
    /// The dataset was opened and a filter fetched for the initial position.
    Built {
        /// The engine, with no filter installed yet, or why it could not be
        /// built.
        engine: Result<Renderer, sofar::render::Error>,
        /// The filter for the initial position.
        filter: Filter,
        /// The initial position.
        direction: Direction,
    },
}

/// All that a ready loop owns.
pub struct EngineState<T> {
    /// The convolution engine.
    engine: Renderer,
    /// The filter in place: the last one that the engine took.
    filter: Filter,
    /// The length of every filter's impulse responses.
    taps: usize,
    /// The position that the filter in place was fetched for.
    last_direction: Direction,
    /// The input of the current block.
    scratch: ScratchBuffer<T>,
    /// How far the current block has come.
    phase: Phase,
    /// The lookups, installs and renders so far.
    history: Ghost<Seq<Effect>>,
}

/// The steering loop. It renders nothing until it has been initialized.
pub enum SteeringLoop<T> {
    /// Not initialized: every block is a no-op.
    Uninitialized,
    /// Initialized: blocks are steered and rendered.
    Ready(EngineState<T>),
}

impl<T> EngineState<T> {
    /// What the state remembers and has caused.
    pub closed spec fn model(&self) -> Steering {
        Steering {
            phase: self.phase,
            last_direction: self.last_direction,
            filter: self.filter,
            taps: self.taps as nat,
            history: self.history@,
        }
    }

    /// The samples held in the scratch buffer.
    pub closed spec fn block(&self) -> Seq<T> {
        self.scratch@
    }

    /// The largest block that the scratch buffer can hold.
    pub closed spec fn block_limit(&self) -> nat {
        self.scratch.limit()
    }

    /// The convolution engine.
    pub closed spec fn engine(&self) -> Renderer {
        self.engine
    }

    /// The filter in place has the fixed length, and the scratch buffer is in
    /// order.
    pub closed spec fn wf(&self) -> bool {
        fits(self.filter, self.taps as nat) && self.scratch.wf()
    }
}

impl<T> SteeringLoop<T> {
    /// The loop has been initialized.
    pub open spec fn ready(&self) -> bool {
        self is Ready
    }

    /// What a ready loop remembers and has caused.
    pub open spec fn model(&self) -> Steering
        recommends
            self.ready(),
    {
        self->Ready_0.model()
    }

    /// The samples held in a ready loop's scratch buffer.
    pub open spec fn block(&self) -> Seq<T>
        recommends
            self.ready(),
    {
        self->Ready_0.block()
    }

    /// The largest block that a ready loop's scratch buffer can hold.
    pub open spec fn block_limit(&self) -> nat
        recommends
            self.ready(),
    {
        self->Ready_0.block_limit()
    }

    /// A ready loop's state is in order.
    pub open spec fn wf(&self) -> bool {
        self.ready() ==> self->Ready_0.wf()
    }

    /// A ready loop's convolution engine.
    pub open spec fn engine(&self) -> Renderer
        recommends
            self.ready(),
    {
        self->Ready_0.engine()
    }

    /// The two loops hold the same samples in buffers of the same capacity.
    pub open spec fn same_buffer(&self, other: &Self) -> bool {
        self.block() == other.block() && self.block_limit() == other.block_limit()
    }

    /// The two loops have the same engine and the same buffer.
    pub open spec fn same_equipment(&self, other: &Self) -> bool {
        self.engine() == other.engine() && self.same_buffer(other)
    }

    /// The loop is ready, in the state that `step` leads to, and `answer` is
    /// what `step` hands out.
    pub open spec fn took(&self, step: Step, answer: (Action, Option<Filter>)) -> bool {
        &&& self.ready()
        &&& self.model() == step.state
        &&& answer == (step.action, step.spare)
    }
}

/// In a ready loop that is in order, the filter in place has the fixed length.
pub proof fn lemma_filter_in_place_fits<T>(steering: SteeringLoop<T>)
    requires
        steering.ready(),
        steering.wf(),
    ensures
        fits(steering.model().filter, steering.model().taps),
{
}

/// In a ready loop that is in order, the block held in the scratch buffer is
/// within the buffer's limit.
pub proof fn lemma_block_within_limit<T>(steering: SteeringLoop<T>)
    requires
        steering.ready(),
        steering.wf(),
    ensures
        steering.block().len() <= steering.block_limit(),
{
    steering->Ready_0.scratch.lemma_within_limit();
}

impl<T: Copy> SteeringLoop<T> {
    /// A loop that has not been initialized.
    pub fn new() -> (steering: Self)
        ensures
            !steering.ready(),
            steering.wf(),
    {
        SteeringLoop::Uninitialized
    }

    /// Whether the loop has been initialized.
    pub fn is_ready(&self) -> (ready: bool)
        ensures
            ready == self.ready(),
    {
        match self {
            SteeringLoop::Uninitialized => false,
            SteeringLoop::Ready(_) => true,
        }
    }

    /// Makes the loop ready around an engine that was asked to take `filter`;
    /// `installed` says whether it did. The loop becomes ready if it did and
    /// the filter's two impulse responses have one length, which is from then
    /// on the length of every filter. Otherwise the loop stays as it was.
    pub fn make_ready(
        &mut self,
        engine: Renderer,
        filter: Filter,
        direction: Direction,
        installed: bool,
        max_block: usize,
        silence: T,
    ) -> (outcome: Result<(), InitializationError>)
        requires
            old(self).wf(),
        ensures
            final(self).wf(),
            installed && left_taps(filter) == right_taps(filter) ==> {
                &&& outcome is Ok
                &&& final(self).ready()
                &&& final(self).model() == Steering::fresh(filter, direction)
                &&& final(self).engine() == engine
                &&& final(self).block() == Seq::new(max_block as nat, |i: int| silence)
                &&& final(self).block_limit() == max_block
            },
            !(installed && left_taps(filter) == right_taps(filter)) ==> {
                &&& outcome == Err::<(), InitializationError>(InitializationError::InitialFilter)
                &&& *final(self) == *old(self)
            },
    {
        let taps: usize = left_len(&filter);
        if !installed || taps != right_len(&filter) {
            return Err(InitializationError::InitialFilter);
        }
        *self = SteeringLoop::Ready(
            EngineState {
                engine,
                filter,
                taps,
                last_direction: direction,
                scratch: ScratchBuffer::new(max_block, silence),
                phase: Phase::Idle,
                history: Ghost(Seq::empty()),
            },
        );
        Ok(())
    }

    /// Makes the loop ready from what was built for it: installs the initial
    /// filter in the engine and sizes the scratch buffer for blocks of up to
    /// `max_block` samples. The loop becomes ready exactly where the engine was
    /// built, the filter's two impulse responses have one length, and the
    /// engine takes the filter. Otherwise the loop stays as it was.
    pub fn initialize(&mut self, construction: Construction, max_block: usize, silence: T) -> (outcome:
        Result<(), InitializationError>)
        requires
            old(self).wf(),
        ensures
            final(self).wf(),
            construction is DatasetFailed ==> outcome == Err::<(), InitializationError>(
                InitializationError::Dataset,
            ),
            construction is Built && construction->Built_engine is Err ==> outcome == Err::<
                (),
                InitializationError,
            >(InitializationError::Engine),
            construction is Built && construction->Built_engine is Ok ==> outcome is Ok || outcome
                == Err::<(), InitializationError>(InitializationError::InitialFilter),
            construction is Built && construction->Built_engine is Ok ==> (outcome is Ok <==> {
                &&& left_taps(construction->Built_filter) == right_taps(
                    construction->Built_filter,
                )
                &&& takes(construction->Built_engine->Ok_0, construction->Built_filter)
            }),
            outcome is Err ==> *final(self) == *old(self),
            outcome is Ok ==> {
                &&& construction is Built
                &&& final(self).ready()
                &&& final(self).model() == Steering::fresh(
                    construction->Built_filter,
                    construction->Built_direction,
                )
                &&& final(self).block() == Seq::new(max_block as nat, |i: int| silence)
                &&& final(self).block_limit() == max_block
            },
    {
        match construction {
            Construction::DatasetFailed => Err(InitializationError::Dataset),
            Construction::Built { engine: Err(_), .. } => Err(InitializationError::Engine),
            Construction::Built { engine: Ok(engine), filter, direction } => {
                let mut engine = engine;
                let installed = if left_len(&filter) == right_len(&filter) {
                    install(&mut engine, &filter).is_ok()
                } else {
                    false
                };
                self.make_ready(engine, filter, direction, installed, max_block, silence)
            },
        }
    }

    /// Opens a block with the source at `direction`, whatever became of the
    /// block before. A loop that is not ready has nothing to do. A ready loop
    /// asks for a filter if the position is not the one of the filter in
    /// place, and for the rendering otherwise.
    pub fn begin_block(&mut self, direction: Direction) -> (action: Action)
        requires
            old(self).wf(),
        ensures
            final(self).wf(),
            !old(self).ready() ==> {
                &&& action == Action::Finish(report(Status::Normal, false))
                &&& *final(self) == *old(self)
            },
            old(self).ready() ==> {
                &&& final(self).ready()
                &&& final(self).model() == old(self).model().begin(direction).state
                &&& action == old(self).model().begin(direction).action
                &&& final(self).same_equipment(old(self))
            },
    {
        match self {
            SteeringLoop::Uninitialized => Action::Finish(
                BlockReport { status: Status::Normal, lookup_failed: false },
            ),
            SteeringLoop::Ready(state) => {
                if state.last_direction.same_position(&direction) {
                    state.phase = Phase::AwaitingRender(false);
                    Action::Render
                } else {
                    state.phase = Phase::AwaitingFilter(direction);
                    state.history = Ghost(state.history@.push(Effect::Lookup(direction)));
                    Action::Lookup(direction)
                }
            },
        }
    }

    /// Takes what the engine said to `candidate`: `accepted` tells whether it
    /// took the filter. A filter that was taken, and has the fixed length,
    /// becomes the filter in place, and the one it replaces is handed back.
    /// Any other is handed back itself, and the block is over.
    pub fn settle_install(&mut self, candidate: Filter, accepted: bool) -> (answer: (
        Action,
        Option<Filter>,
    ))
        requires
            old(self).wf(),
        ensures
            final(self).wf(),
            !old(self).ready() ==> {
                &&& answer == (out_of_turn(), Some(candidate))
                &&& *final(self) == *old(self)
            },
            old(self).ready() ==> {
                &&& final(self).took(old(self).model().settle(candidate, accepted), answer)
                &&& final(self).same_equipment(old(self))
            },
    {
        let out_of_turn = Action::Finish(
            BlockReport { status: Status::Error(BlockError::OutOfTurn), lookup_failed: false },
        );
        match self {
            SteeringLoop::Uninitialized => (out_of_turn, Some(candidate)),
            SteeringLoop::Ready(state) => {
                match state.phase {
                    Phase::AwaitingFilter(direction) => {
                        if accepted && left_len(&candidate) == state.taps && right_len(&candidate)
                            == state.taps {
                            let mut previous = candidate;
                            std::mem::swap(&mut state.filter, &mut previous);
                            state.last_direction = direction;
                            state.phase = Phase::AwaitingRender(false);
                            (Action::Render, Some(previous))
                        } else {
                            state.phase = Phase::Idle;
                            (
                                Action::Finish(
                                    BlockReport {
                                        status: Status::Error(BlockError::FilterInstall),
                                        lookup_failed: false,
                                    },
                                ),
                                Some(candidate),
                            )
                        }
                    },
                    _ => (out_of_turn, Some(candidate)),
                }
            },
        }
    }

    /// Takes the result of the lookup that the loop asked for: the filter
    /// fetched, or none if the lookup failed.
    ///
    /// Without a filter the block goes on with the filter in place. A filter
    /// of the fixed length is handed to the engine, once, and becomes the
    /// filter in place exactly where the engine takes it, as by
    /// [`SteeringLoop::settle_install`]. A filter of another length, or one
    /// that the loop did not ask for, never reaches the engine.
    pub fn filter_fetched(&mut self, outcome: Option<Filter>) -> (answer: (Action, Option<Filter>))
        requires
            old(self).wf(),
        ensures
            final(self).wf(),
            !old(self).ready() ==> {
                &&& answer == (out_of_turn(), outcome)
                &&& *final(self) == *old(self)
            },
            old(self).ready() ==> final(self).ready() && final(self).same_buffer(old(self)),
            old(self).ready() && outcome is None ==> {
                &&& final(self).took(old(self).model().lookup_failed(), answer)
                &&& final(self).engine() == old(self).engine()
            },
            old(self).ready() && outcome is Some ==> {
                let candidate = outcome->Some_0;
                let model = old(self).model();
                &&& final(self).took(
                    model.fetched(candidate, takes(old(self).engine(), candidate)),
                    answer,
                )
                &&& !model.admits(candidate) ==> final(self).engine() == old(self).engine()
            },
    {
        let candidate = match outcome {
            Some(candidate) => candidate,
            None => {
                return match self {
                    SteeringLoop::Ready(state) => {
                        match state.phase {
                            Phase::AwaitingFilter(_) => {
                                state.phase = Phase::AwaitingRender(true);
                                (Action::Render, None)
                            },
                            _ => (
                                Action::Finish(
                                    BlockReport {
                                        status: Status::Error(BlockError::OutOfTurn),
                                        lookup_failed: false,
                                    },
                                ),
                                None,
                            ),
                        }
                    },
                    SteeringLoop::Uninitialized => (
                        Action::Finish(
                            BlockReport {
                                status: Status::Error(BlockError::OutOfTurn),
                                lookup_failed: false,
                            },
                        ),
                        None,
                    ),
                };
            },
        };
        let accepted = match self {
            SteeringLoop::Ready(state) => {
                match state.phase {
                    Phase::AwaitingFilter(_) => {
                        if left_len(&candidate) == state.taps && right_len(&candidate)
                            == state.taps {
                            state.history = Ghost(state.history@.push(Effect::Install));
                            install(&mut state.engine, &candidate).is_ok()
                        } else {
                            false
                        }
                    },
                    _ => false,
                }
            },
            SteeringLoop::Uninitialized => false,
        };
        self.settle_install(candidate, accepted)
    }

    /// Copies the input of the block into the scratch buffer and lends out the
    /// engine together with the copy, for the caller to render. `channels` is
    /// the number of channels that the host offers; the first of them holds
    /// `input`.
    ///
    /// The engine is lent only to a loop that has asked for the rendering. A
    /// block with fewer than two channels, or without samples, is over at once
    /// and is a normal one. A block beyond the buffer's limit ends in an
    /// error. The buffer keeps its capacity in every case.
    pub fn stage_block<'a>(&'a mut self, channels: usize, input: &[T]) -> (staged: Result<
        (&'a mut Renderer, &'a [T]),
        BlockReport,
    >)
        requires
            old(self).wf(),
        ensures
            final(self).wf(),
            !old(self).ready() ==> {
                &&& staged matches Err(refusal)
                &&& Action::Finish(refusal) == out_of_turn()
                &&& *final(self) == *old(self)
            },
            old(self).ready() ==> {
                let rendering = renderable(channels as nat, input@.len());
                let fitting = input@.len() <= old(self).block_limit();
                let model = old(self).model();
                &&& final(self).ready()
                &&& final(self).model() == model.stage(rendering, fitting)
                &&& final(self).block_limit() == old(self).block_limit()
                &&& match staged {
                    Ok(parts) => {
                        &&& model.stage_refusal(rendering, fitting) is None
                        &&& *parts.0 == old(self).engine()
                        &&& final(self).engine() == *final(parts.0)
                        &&& parts.1@ == input@
                        &&& final(self).block() == input@
                    },
                    Err(refusal) => {
                        &&& model.stage_refusal(rendering, fitting) == Some(refusal)
                        &&& final(self).same_equipment(old(self))
                    },
                }
            },
    {
        let out_of_turn = BlockReport {
            status: Status::Error(BlockError::OutOfTurn),
            lookup_failed: false,
        };
        match self {
            SteeringLoop::Uninitialized => Err(out_of_turn),
            SteeringLoop::Ready(state) => {
                match state.phase {
                    Phase::AwaitingRender(lookup_failed) => {
                        if channels < 2 || input.len() == 0 {
                            state.phase = Phase::Idle;
                            Err(BlockReport { status: Status::Normal, lookup_failed })
                        } else if state.scratch.refill(input) {
                            state.phase = Phase::Rendering(lookup_failed);
                            state.history = Ghost(state.history@.push(Effect::Render));
                            Ok((&mut state.engine, state.scratch.as_slice()))
                        } else {
                            state.phase = Phase::Idle;
                            Err(
                                BlockReport {
                                    status: Status::Error(BlockError::BlockTooLong),
                                    lookup_failed,
                                },
                            )
                        }
                    },
                    _ => Err(out_of_turn),
                }
            },
        }
    }

    /// Closes the block: the engine is back, and `outcome` is what it answered
    /// to the block. Filter and position are not touched, so that the next
    /// block goes on from the last filter that the engine took.
    pub fn block_rendered(&mut self, outcome: Result<(), sofar::render::Error>) -> (action: Action)
        requires
            old(self).wf(),
        ensures
            final(self).wf(),
            !old(self).ready() ==> {
                &&& action == out_of_turn()
                &&& *final(self) == *old(self)
            },
            old(self).ready() ==> {
                &&& final(self).ready()
                &&& final(self).model() == old(self).model().finish(outcome is Ok).state
                &&& action == old(self).model().finish(outcome is Ok).action
                &&& final(self).same_equipment(old(self))
            },
    {
        let out_of_turn = Action::Finish(
            BlockReport { status: Status::Error(BlockError::OutOfTurn), lookup_failed: false },
        );
        match self {
            SteeringLoop::Uninitialized => out_of_turn,
            SteeringLoop::Ready(state) => {
                match state.phase {
                    Phase::Rendering(lookup_failed) => {
                        state.phase = Phase::Idle;
                        let status = match outcome {
                            Ok(_) => Status::Normal,
                            Err(_) => Status::Error(BlockError::Render),
                        };
                        Action::Finish(BlockReport { status, lookup_failed })
                    },
                    _ => out_of_turn,
                }
            },
        }
    }

    /// The position that the filter in place was fetched for, if the loop is
    /// ready.
    pub fn last_direction(&self) -> (direction: Option<Direction>)
        ensures
            direction == if self.ready() {
                Some(self.model().last_direction)
            } else {
                None
            },
    {
        match self {
            SteeringLoop::Uninitialized => None,
            SteeringLoop::Ready(state) => Some(state.last_direction),
        }
    }

    /// How far the current block has come, if the loop is ready.
    pub fn phase(&self) -> (phase: Option<Phase>)
        ensures
            phase == if self.ready() {
                Some(self.model().phase)
            } else {
                None
            },
    {
        match self {
            SteeringLoop::Uninitialized => None,
            SteeringLoop::Ready(state) => Some(state.phase),
        }
    }

    /// The filter in place, if the loop is ready.
    pub fn current_filter(&self) -> (filter: Option<&Filter>)
        ensures
            self.ready() ==> (filter matches Some(held) && *held == self.model().filter),
            !self.ready() ==> filter is None,
    {
        match self {
            SteeringLoop::Uninitialized => None,
            SteeringLoop::Ready(state) => Some(&state.filter),
        }
    }

    /// The length of every filter's impulse responses, if the loop is ready.
    pub fn filter_len(&self) -> (taps: Option<usize>)
        ensures
            self.ready() ==> (taps matches Some(count) && count == self.model().taps),
            !self.ready() ==> taps is None,
    {
        match self {
            SteeringLoop::Uninitialized => None,
            SteeringLoop::Ready(state) => Some(state.taps),
        }
    }

    /// The largest block that the loop can take, if it is ready.
    pub fn max_block_len(&self) -> (limit: Option<usize>)
        ensures
            self.ready() ==> (limit matches Some(count) && count == self.block_limit()),
            !self.ready() ==> limit is None,
    {
        match self {
            SteeringLoop::Uninitialized => None,
            SteeringLoop::Ready(state) => Some(state.scratch.capacity()),
        }
    }
}

impl<T: Copy> Default for SteeringLoop<T> {
    /// A loop that has not been initialized.
    fn default() -> (steering: Self)
        ensures
            !steering.ready(),
            steering.wf(),
    {
        SteeringLoop::Uninitialized
    }
}

} // verus!