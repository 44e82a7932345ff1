//! The sampling rule of the tracing setup: a span with a parent that has an
//! active span follows the parent's sampling; any other span is sampled
//! when a uniform draw from `[0, 1]` falls at or below the configured
//! probability.

use vstd::prelude::*;

verus! {

/// Whether a span is recorded and exported.
#[derive(Clone, Copy, Debug, PartialEq, Eq, Structural)]
pub enum SamplingDecision {
    Drop,
    RecordAndSample,
}

/// What the sampler reads of a parent context.
#[derive(Clone, Copy, Debug)]
pub struct ParentContext {
    /// The context holds an active span.
    pub has_active_span: bool,
    /// The span of the context is sampled.
    pub is_sampled: bool,
}

/// The outcome of sampling one span.
#[derive(Clone, Copy, Debug)]
pub struct SamplingPlan {
    pub decision: SamplingDecision,
    /// The span takes over the trace state of its parent context (else it
    /// starts with an empty one).
    pub inherit_trace_state: bool,
}

/// The decision of `should_sample` for a parent and the outcome of the draw.
pub open spec fn sampling_decision(parent: Option<ParentContext>, draw_within_probability: bool) -> SamplingDecision {
    match parent {
        Some(p) if p.has_active_span => if p.is_sampled {
            SamplingDecision::RecordAndSample
        } else {
            SamplingDecision::Drop
        },
        _ => if draw_within_probability {
            SamplingDecision::RecordAndSample
        } else {
            SamplingDecision::Drop
        },
    }
}

/// Samples a span. `draw_within_probability` tells whether the uniform draw
/// from `[0, 1]` made for this span is at most the sampling probability; it
/// decides only where there is no parent with an active span.
pub fn should_sample(parent: Option<ParentContext>, draw_within_probability: bool) -> (plan: SamplingPlan)
    ensures
        plan.decision == sampling_decision(parent, draw_within_probability),
        plan.inherit_trace_state == parent is Some,
{
    let decision = match parent {
        Some(p) if p.has_active_span => if p.is_sampled {
            SamplingDecision::RecordAndSample
        } else {
            SamplingDecision::Drop
        },
        _ => if draw_within_probability {
            SamplingDecision::RecordAndSample
        } else {
            SamplingDecision::Drop
        },
    };
    let inherit_trace_state = match parent {
        Some(_) => true,
        None => false,
    };
    SamplingPlan { decision, inherit_trace_state }
}

} // verus!
