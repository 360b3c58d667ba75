//! What holds of whole blocks, whatever the dataset and the engine do.
//!
//! A block is the chain of steps from `begin` to the report that ends it. What
//! happens outside the loop on the way is gathered in [`Outcomes`]; the laws
//! below hold for each of them.

use crate::direction::Direction;
use crate::protocol::{fits, report, Action, BlockError, BlockReport, Effect, Status, Steering};
use sofar::filter::Filter;
use vstd::prelude::*;

verus! {

/// What the dataset, the engine and the host do in the course of one block.
pub struct Outcomes {
    /// What a lookup gives: a filter, or none if it fails.
    pub fetched: Option<Filter>,
    /// Whether the engine takes a filter that is handed to it.
    pub accepted: bool,
    /// Whether the host offers two channels and at least one sample.
    pub renderable: bool,
    /// Whether the block's input is within the scratch buffer's limit.
    pub fitting: bool,
    /// Whether the engine renders the block.
    pub rendered: bool,
}

/// A finished block: the state it leaves, and its report.
pub struct Finished {
    /// The state after the block.
    pub state: Steering,
    /// The report of the block.
    pub report: BlockReport,
}

/// The part of a block from the request to render up to its report.
pub open spec fn render_block(state: Steering, outcomes: Outcomes) -> Finished {
    let staged = state.stage(outcomes.renderable, outcomes.fitting);
    match state.stage_refusal(outcomes.renderable, outcomes.fitting) {
        Some(refusal) => Finished { state: staged, report: refusal },
        None => {
            let step = staged.finish(outcomes.rendered);
            Finished { state: step.state, report: step.action->Finish_0 }
        },
    }
}

/// One block with the source at `direction`, from `begin` to its report.
pub open spec fn run_block(state: Steering, direction: Direction, outcomes: Outcomes) -> Finished {
    let begun = state.begin(direction);
    if begun.action is Lookup {
        let step = match outcomes.fetched {
            Some(candidate) => begun.state.fetched(candidate, outcomes.accepted),
            None => begun.state.lookup_failed(),
        };
        match step.action {
            Action::Finish(report) => Finished { state: step.state, report },
            _ => render_block(step.state, outcomes),
        }
    } else {
        render_block(begun.state, outcomes)
    }
}

/// The rendering on record, if there is something to render and the block's
/// input fits the buffer.
pub open spec fn rendering(outcomes: Outcomes) -> Seq<Effect> {
    if outcomes.renderable && outcomes.fitting {
        seq![Effect::Render]
    } else {
        Seq::empty()
    }
}

/// The block puts the filter for `direction` in place, or finds it there.
pub open spec fn settles(state: Steering, direction: Direction, outcomes: Outcomes) -> bool {
    ||| state.last_direction.coincides(direction)
    ||| (outcomes.fetched matches Some(candidate) && outcomes.accepted && fits(
        candidate,
        state.taps,
    ))
}

/// A block with the source where the filter in place was fetched for asks for
/// no lookup and installs nothing: all it causes is the rendering. Filter and
/// position are as before.
pub proof fn law_settled_position_only_renders(
    state: Steering,
    direction: Direction,
    outcomes: Outcomes,
)
    requires
        state.last_direction.coincides(direction),
    ensures
        run_block(state, direction, outcomes).state.history == state.history + rendering(outcomes),
        run_block(state, direction, outcomes).state.filter == state.filter,
        run_block(state, direction, outcomes).state.last_direction == state.last_direction,
{
    assert(state.history.push(Effect::Render) =~= state.history + seq![Effect::Render]);
    assert(state.history =~= state.history + Seq::<Effect>::empty());
}

/// Of two blocks in a row with the source at one position, a position that
/// holds no NaN, the second asks for no lookup and installs nothing, provided
/// that the first put the filter for that position in place or found it there.
pub proof fn law_unchanged_position_is_not_fetched_again(
    state: Steering,
    direction: Direction,
    first: Outcomes,
    second: Outcomes,
)
    requires
        direction.is_numeric(),
        settles(state, direction, first),
    ensures
        ({
            let between = run_block(state, direction, first).state;
            let after = run_block(between, direction, second).state;
            &&& between.last_direction.coincides(direction)
            &&& after.history == between.history + rendering(second)
            &&& after.filter == between.filter
        }),
{
    let between = run_block(state, direction, first).state;
    assert(between.last_direction.coincides(direction));
    law_settled_position_only_renders(between, direction, second);
}

/// A block with the source at a new position asks for exactly one lookup, for
/// that position, before anything else. A filter of the fixed length is then
/// handed to the engine exactly once; where the engine takes it, or where the
/// lookup failed, the rendering follows, last. A filter that the engine does
/// not take ends the block, and one of another length ends it without reaching
/// the engine.
pub proof fn law_changed_position_is_fetched_once(
    state: Steering,
    direction: Direction,
    outcomes: Outcomes,
)
    requires
        !state.last_direction.coincides(direction),
    ensures
        ({
            let after = run_block(state, direction, outcomes).state;
            let lookup = state.history.push(Effect::Lookup(direction));
            match outcomes.fetched {
                None => after.history == lookup + rendering(outcomes),
                Some(candidate) => if !fits(candidate, state.taps) {
                    after.history == lookup
                } else if outcomes.accepted {
                    after.history == lookup.push(Effect::Install) + rendering(outcomes)
                } else {
                    after.history == lookup.push(Effect::Install)
                },
            }
        }),
{
    let after = run_block(state, direction, outcomes).state;
    let lookup = state.history.push(Effect::Lookup(direction));
    assert(lookup.push(Effect::Render) =~= lookup + seq![Effect::Render]);
    assert(lookup =~= lookup + Seq::<Effect>::empty());
    let installed = lookup.push(Effect::Install);
    assert(installed.push(Effect::Render) =~= installed + seq![Effect::Render]);
    assert(installed =~= installed + Seq::<Effect>::empty());
}

/// Where the lookup for a new position fails, a block that can be rendered is
/// rendered all the same, with the filter in place, and comes to its report
/// with the failure noted. The position stays the old one.
pub proof fn law_failed_lookup_still_renders(
    state: Steering,
    direction: Direction,
    outcomes: Outcomes,
)
    requires
        !state.last_direction.coincides(direction),
        outcomes.fetched is None,
        outcomes.renderable,
        outcomes.fitting,
    ensures
        ({
            let finished = run_block(state, direction, outcomes);
            &&& finished.state.history == state.history.push(Effect::Lookup(direction)).push(
                Effect::Render,
            )
            &&& finished.state.filter == state.filter
            &&& finished.state.last_direction == state.last_direction
            &&& finished.report.lookup_failed
            &&& finished.report.status == if outcomes.rendered {
                Status::Normal
            } else {
                Status::Error(BlockError::Render)
            }
        }),
{
}

/// Where the filter fetched for a new position is not installed, the block
/// reports that error, filter and position stay as they were, and the next
/// block with the source at that position asks for the lookup again.
pub proof fn law_failed_install_is_retried(
    state: Steering,
    direction: Direction,
    outcomes: Outcomes,
)
    requires
        !state.last_direction.coincides(direction),
        outcomes.fetched matches Some(candidate) && !(outcomes.accepted && fits(
            candidate,
            state.taps,
        )),
    ensures
        ({
            let finished = run_block(state, direction, outcomes);
            &&& finished.report == report(Status::Error(BlockError::FilterInstall), false)
            &&& finished.state.filter == state.filter
            &&& finished.state.last_direction == state.last_direction
            &&& finished.state.begin(direction).action == Action::Lookup(direction)
        }),
{
}

/// A block that the host gives no second channel or no samples for, with the
/// source where the filter in place was fetched for, is a normal block that
/// causes nothing.
pub proof fn law_unrenderable_block_is_normal(
    state: Steering,
    direction: Direction,
    outcomes: Outcomes,
)
    requires
        state.last_direction.coincides(direction),
        !outcomes.renderable,
    ensures
        run_block(state, direction, outcomes).report == report(Status::Normal, false),
        run_block(state, direction, outcomes).state == state.in_phase(crate::protocol::Phase::Idle),
{
}

/// A failure of the engine while rendering touches neither the filter in place
/// nor its position.
pub proof fn law_failed_render_keeps_the_filter(
    state: Steering,
    direction: Direction,
    outcomes: Outcomes,
)
    requires
        !outcomes.rendered,
    ensures
        ({
            let with_failure = run_block(state, direction, outcomes).state;
            let without = run_block(
                state,
                direction,
                Outcomes { rendered: true, ..outcomes },
            ).state;
            &&& with_failure == without
        }),
{
}

/// Every block leaves the loop idle, with a filter of the fixed length in
/// place.
pub proof fn law_block_leaves_a_fitting_filter(
    state: Steering,
    direction: Direction,
    outcomes: Outcomes,
)
    requires
        fits(state.filter, state.taps),
    ensures
        ({
            let after = run_block(state, direction, outcomes).state;
            &&& fits(after.filter, after.taps)
            &&& after.taps == state.taps
            &&& after.phase == crate::protocol::Phase::Idle
        }),
{
}

} // verus!
