//! The render context model: the outcome table of capability negotiation,
//! the record of what a successfully constructed context owns, and the order
//! in which teardown destroys it.

use crate::negotiation::InstanceRequest;
use vstd::prelude::*;

verus! {

/// The flat error taxonomy of the startup sequence. Every variant is terminal
/// for the negotiation attempt.
#[derive(Clone, Copy, Debug, PartialEq, Eq, Structural)]
pub enum RenderContextError {
    MissingExtension,
    MissingLayer,
    MissingExtensionAndLayer,
    UnableToLoadLib,
    InstanceCreationFailed,
}

/// The outcome table: which error, if any, follows from which capabilities
/// are missing. `None` means negotiation proceeds to instance creation.
pub open spec fn spec_outcome(extensions_missing: bool, layers_missing: bool) -> Option<
    RenderContextError,
> {
    if extensions_missing && layers_missing {
        Some(RenderContextError::MissingExtensionAndLayer)
    } else if layers_missing {
        Some(RenderContextError::MissingLayer)
    } else if extensions_missing {
        Some(RenderContextError::MissingExtension)
    } else {
        None
    }
}

/// Decide the negotiation outcome from whether any required extension and any
/// required layer is missing.
pub fn decide_outcome(extensions_missing: bool, layers_missing: bool) -> (outcome: Option<
    RenderContextError,
>)
    ensures
        outcome == spec_outcome(extensions_missing, layers_missing),
{
    if extensions_missing && layers_missing {
        Some(RenderContextError::MissingExtensionAndLayer)
    } else if layers_missing {
        Some(RenderContextError::MissingLayer)
    } else if extensions_missing {
        Some(RenderContextError::MissingExtension)
    } else {
        None
    }
}

/// The outcome table holds for all four combinations of missing capabilities,
/// and an error is reported exactly when something is missing.
pub proof fn lemma_outcome_table()
    ensures
        spec_outcome(true, true) == Some(RenderContextError::MissingExtensionAndLayer),
        spec_outcome(false, true) == Some(RenderContextError::MissingLayer),
        spec_outcome(true, false) == Some(RenderContextError::MissingExtension),
        spec_outcome(false, false) == None::<RenderContextError>,
        forall|e: bool, l: bool| (spec_outcome(e, l) is None <==> !e && !l),
{
}

/// The outcome of loading the native library: the whole negotiation is
/// reported impossible when the entry point cannot be loaded.
pub fn library_load_outcome(loaded: bool) -> (outcome: Option<RenderContextError>)
    ensures
        outcome == (if loaded {
            None
        } else {
            Some(RenderContextError::UnableToLoadLib)
        }),
{
    if loaded {
        None
    } else {
        Some(RenderContextError::UnableToLoadLib)
    }
}

/// The outcome of the native instance-creation call: a failure there, after a
/// successful negotiation, is reported as creation failure and nothing
/// partial is exposed.
pub fn instance_creation_outcome(created: bool) -> (outcome: Option<RenderContextError>)
    ensures
        outcome == (if created {
            None
        } else {
            Some(RenderContextError::InstanceCreationFailed)
        }),
{
    if created {
        None
    } else {
        Some(RenderContextError::InstanceCreationFailed)
    }
}

/// The record of a successfully constructed render context: the
/// configuration its instance was created with, and whether a debug sink was
/// attached. Construction is all-or-nothing — a record exists only once the
/// instance itself was created — and the record decides what teardown must
/// destroy. The native handles themselves live with the caller, which owns
/// them exactly as long as this record.
pub struct RenderContext {
    pub api_version: u32,
    pub enabled_extensions: Vec<String>,
    pub enabled_layers: Vec<String>,
    pub has_debug_sink: bool,
}

/// One native destruction call of teardown.
#[derive(Clone, Copy, Debug, PartialEq, Eq, Structural)]
pub enum TeardownStep {
    DestroyDebugSink,
    DestroySurface,
    DestroyInstance,
}

/// Teardown in strict reverse-acquisition order: the debug sink, when one was
/// attached, then the surface, then the instance. No step stands in the plan
/// for a resource that was never created.
pub open spec fn spec_teardown(has_debug_sink: bool) -> Seq<TeardownStep> {
    if has_debug_sink {
        seq![
            TeardownStep::DestroyDebugSink,
            TeardownStep::DestroySurface,
            TeardownStep::DestroyInstance,
        ]
    } else {
        seq![TeardownStep::DestroySurface, TeardownStep::DestroyInstance]
    }
}

/// How often a step occurs in a plan.
pub open spec fn step_count(steps: Seq<TeardownStep>, step: TeardownStep) -> nat
    decreases steps.len(),
{
    if steps.len() == 0 {
        0
    } else {
        step_count(steps.drop_last(), step) + if steps.last() == step {
            1nat
        } else {
            0nat
        }
    }
}

impl RenderContext {
    /// Record the context once its instance was created. Debug sink
    /// attachment is best-effort: the context is returned whether or not a
    /// sink was attached, and records which of the two happened.
    pub fn new(request: InstanceRequest, sink_attached: bool) -> (context: RenderContext)
        ensures
            context.api_version == request.api_version,
            context.enabled_extensions == request.enabled_extensions,
            context.enabled_layers == request.enabled_layers,
            context.has_debug_sink == sink_attached,
    {
        RenderContext {
            api_version: request.api_version,
            enabled_extensions: request.enabled_extensions,
            enabled_layers: request.enabled_layers,
            has_debug_sink: sink_attached,
        }
    }

    /// The teardown plan of this context: what to destroy, in which order.
    pub fn teardown_steps(&self) -> (steps: Vec<TeardownStep>)
        ensures
            steps@ == spec_teardown(self.has_debug_sink),
    {
        let mut steps: Vec<TeardownStep> = Vec::new();
        if self.has_debug_sink {
            steps.push(TeardownStep::DestroyDebugSink);
        }
        steps.push(TeardownStep::DestroySurface);
        steps.push(TeardownStep::DestroyInstance);
        proof {
            assert(steps@ =~= spec_teardown(self.has_debug_sink));
        }
        steps
    }
}

/// Teardown ordering: each created resource's destroy call stands in the plan
/// exactly once — the sink's not at all when no sink was attached — with the
/// sink first, the surface next, and the instance last.
pub proof fn lemma_teardown_order(has_debug_sink: bool)
    ensures
        ({
            let steps = spec_teardown(has_debug_sink);
            &&& step_count(steps, TeardownStep::DestroySurface) == 1
            &&& step_count(steps, TeardownStep::DestroyInstance) == 1
            &&& step_count(steps, TeardownStep::DestroyDebugSink) == (if has_debug_sink {
                1nat
            } else {
                0nat
            })
            &&& steps.last() == TeardownStep::DestroyInstance
            &&& steps[steps.len() - 2] == TeardownStep::DestroySurface
            &&& (has_debug_sink ==> steps[0] == TeardownStep::DestroyDebugSink)
        }),
{
    reveal_with_fuel(step_count, 4);
    let steps = spec_teardown(has_debug_sink);
    if has_debug_sink {
        assert(steps.drop_last() =~= seq![
            TeardownStep::DestroyDebugSink,
            TeardownStep::DestroySurface,
        ]);
        assert(steps.drop_last().drop_last() =~= seq![TeardownStep::DestroyDebugSink]);
        assert(steps.drop_last().drop_last().drop_last() =~= Seq::<TeardownStep>::empty());
    } else {
        assert(steps.drop_last() =~= seq![TeardownStep::DestroySurface]);
        assert(steps.drop_last().drop_last() =~= Seq::<TeardownStep>::empty());
    }
}

} // verus!
