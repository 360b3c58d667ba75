//! The convolution engine and its filters, as far as the steering loop deals
//! with them.
//!
//! Both are values of the `sofar` crate. Nothing here is proved about them:
//! each item below states what the loop takes for granted.

use sofar::filter::Filter;
use sofar::render::Renderer;
use vstd::prelude::*;

verus! {

/// `sofar::filter::Filter`: the impulse responses for the left and the right
/// ear, with their delays. The loop carries filters around and asks for the
/// lengths of their responses; it never looks at a coefficient.
#[verifier::external_type_specification]
#[verifier::external_body]
pub struct ExFilter(sofar::filter::Filter);

/// `sofar::render::Renderer`: the partitioned convolution engine. It is opaque
/// to the loop.
#[verifier::external_type_specification]
#[verifier::external_body]
pub struct ExRenderer(sofar::render::Renderer);

/// `sofar::render::Error`: why the engine refused a filter or a block. It is
/// opaque to the loop, which only tells success from failure.
#[verifier::external_type_specification]
#[verifier::external_body]
pub struct ExRenderError(sofar::render::Error);

/// The number of coefficients of a filter's left impulse response: the length
/// of its field `left`.
pub uninterp spec fn left_taps(filter: Filter) -> nat;

/// The number of coefficients of a filter's right impulse response: the length
/// of its field `right`.
pub uninterp spec fn right_taps(filter: Filter) -> nat;

/// Reads the length of the field `left` of a `sofar::filter::Filter`, which is
/// what `left_taps` names.
#[verifier::external_body]
pub(crate) fn left_len(filter: &Filter) -> (len: usize)
    ensures
        len == left_taps(*filter),
{
    filter.left.len()
}

/// Reads the length of the field `right` of a `sofar::filter::Filter`, which
/// is what `right_taps` names.
#[verifier::external_body]
pub(crate) fn right_len(filter: &Filter) -> (len: usize)
    ensures
        len == right_taps(*filter),
{
    filter.right.len()
}

/// Whether `sofar::render::Renderer::set_filter` answers `Ok` when this engine
/// is handed this filter. The answer follows from the engine and the filter
/// alone: the method refuses a filter of another length than the engine was
/// built for, and passes on an error of its transforms.
pub uninterp spec fn takes(engine: Renderer, filter: Filter) -> bool;

/// Calls `sofar::render::Renderer::set_filter`. That method panics when the
/// two impulse responses differ in length, so such a filter is left out. Its
/// answer is `Ok` exactly where `takes` says so. What the call does to the
/// engine is not stated.
///
/// An engine that was built with a delay for one of its channels also resizes
/// its delay line to the delay that the filter carries. The loop is meant for
/// engines without delay lines, which is how `Renderer::builder` makes them
/// unless it is told otherwise.
#[verifier::external_body]
pub(crate) fn install(engine: &mut Renderer, filter: &Filter) -> (outcome: Result<
    (),
    sofar::render::Error,
>)
    requires
        left_taps(*filter) == right_taps(*filter),
    ensures
        (outcome is Ok) == takes(*old(engine), *filter),
{
    engine.set_filter(filter)
}

} // verus!
