//! The runtime dispatch protocol: hook short-circuiting, order-preserving
//! batch collection, the init-once client cache, and the plan of which
//! sections the generator emits.
//!
//! The surrounding process performs the awaiting and task spawning; every
//! decision those loops take is a function here, verified for every value the
//! outside work can hand back.
use crate::errors::AppsyncError;
use crate::options::OptionalParameters;
use crate::response::AppsyncResponse;
use vstd::prelude::*;

verus! {

/// What the event handler does after consulting the hook.
pub enum DispatchDecision {
    /// Return this response verbatim; the operation handler is not invoked.
    Respond(AppsyncResponse),
    /// Dispatch the event's operation to its registered handler.
    Dispatch,
}

/// A hook that yields a response short-circuits dispatch: the response is
/// returned verbatim and the operation handler is never consulted. A silent
/// hook lets dispatch proceed.
pub fn hook_decision(hook_out: Option<AppsyncResponse>) -> (r: DispatchDecision)
    ensures
        match hook_out {
            Some(resp) => r == DispatchDecision::Respond(resp),
            None => r == DispatchDecision::Dispatch,
        },
{
    match hook_out {
        Some(resp) => DispatchDecision::Respond(resp),
        None => DispatchDecision::Dispatch,
    }
}

/// Converts a handler result into the response sent back to AppSync.
pub fn response_of_result(res: Result<serde_json::Value, AppsyncError>) -> (r: AppsyncResponse)
    ensures
        r.wf(),
        match res {
            Ok(v) => r.data == Some(v) && r.error is None,
            Err(e) => r.data is None && r.error == Some(e),
        },
{
    match res {
        Ok(v) => AppsyncResponse::from_data(v),
        Err(e) => AppsyncResponse::from_error(e),
    }
}

/// How one batched task ended: with a response (success or domain error), or
/// with an unexpected fault.
pub enum TaskOutcome {
    /// The task ran to completion and produced this response.
    Completed(AppsyncResponse),
    /// The task faulted unexpectedly.
    Faulted,
}

/// Collects batched task outcomes in their original submission order. Every
/// outcome must be a completion: one fault is fatal to the whole batch and no
/// partial result is returned.
pub fn collect_batch(outcomes: Vec<TaskOutcome>) -> (r: Option<Vec<AppsyncResponse>>)
    ensures
        (r is Some) <==> (forall|i: int|
            0 <= i < outcomes@.len() ==> outcomes@[i] is Completed),
        r matches Some(v) ==> v@.len() == outcomes@.len() && forall|i: int|
            0 <= i < outcomes@.len() ==> v@[i] == outcomes@[i]->Completed_0,
{
    let ghost orig = outcomes@;
    let mut rest = outcomes;
    let mut res: Vec<AppsyncResponse> = Vec::new();
    while rest.len() > 0
        invariant
            orig == outcomes@,
            orig.len() == res@.len() + rest@.len(),
            forall|i: int|
                0 <= i < res@.len() ==> #[trigger] orig[i] is Completed && res@[i]
                    == orig[i]->Completed_0,
            forall|i: int|
                res@.len() <= i < orig.len() ==> #[trigger] orig[i] == rest@[i - res@.len()],
        decreases rest@.len(),
    {
        let ghost pos = res@.len() as int;
        proof {
            assert(orig[pos] == rest@[0]);
        }
        let o = rest.remove(0);
        match o {
            TaskOutcome::Completed(resp) => {
                res.push(resp);
            },
            TaskOutcome::Faulted => {
                proof {
                    assert(orig[pos] is Faulted);
                    assert(!(forall|i: int| 0 <= i < orig.len() ==> orig[i] is Completed)) by {
                        assert(!(orig[pos] is Completed));
                    }
                }
                return None;
            },
        }
    }
    Some(res)
}

/// Which sections the generator emits, driven by the visibility flags: type
/// declarations, operation declarations, the event handler with its batch
/// variant, and whether the runtime entry point serves batches.
pub struct GenerationPlan {
    /// Emit the schema type declarations.
    pub gen_types: bool,
    /// Emit the operation declarations.
    pub gen_operations: bool,
    /// Emit the event handler and the runtime assembly.
    pub gen_handler: bool,
    /// Emit the batch variant of the event handler.
    pub gen_batch_handler: bool,
    /// The runtime entry point deserializes an event array and serves it with
    /// the batch handler; otherwise one event with the plain handler.
    pub main_uses_batch: bool,
}

/// Plans the generated sections from the resolved configuration.
pub fn plan_sections(options: &OptionalParameters) -> (r: GenerationPlan)
    ensures
        r.gen_types == options.appsync_types,
        r.gen_operations == options.appsync_operations,
        r.gen_handler == options.lambda_handler,
        r.gen_batch_handler == (options.lambda_handler && options.batch),
        r.main_uses_batch == options.batch,
{
    GenerationPlan {
        gen_types: options.appsync_types,
        gen_operations: options.appsync_operations,
        gen_handler: options.lambda_handler,
        gen_batch_handler: options.lambda_handler && options.batch,
        main_uses_batch: options.batch,
    }
}

/// A process-wide set-once slot: set exactly once, read many times. It models
/// the init-once cell the runtime keeps each client handle in.
pub struct InitOnce<T> {
    /// The cached value, absent until the first initialization.
    pub slot: Option<T>,
}

impl<T: Copy> InitOnce<T> {
    /// An empty slot.
    pub fn new() -> (r: InitOnce<T>)
        ensures
            r.slot is None,
    {
        InitOnce { slot: None }
    }

    /// Returns the cached value; only the first call stores its argument.
    pub fn get_or_init(&mut self, fresh: T) -> (r: T)
        ensures
            get_or_init_rel(*old(self), *final(self), fresh, r),
    {
        match self.slot {
            Some(v) => v,
            None => {
                self.slot = Some(fresh);
                fresh
            },
        }
    }
}

/// How one `get_or_init` call relates the slot before and after: an occupied
/// slot is returned unchanged; an empty slot is filled with the argument,
/// which is returned.
pub open spec fn get_or_init_rel<T>(pre: InitOnce<T>, post: InitOnce<T>, fresh: T, r: T) -> bool {
    match pre.slot {
        Some(v) => r == v && post.slot == Some(v),
        None => r == fresh && post.slot == Some(fresh),
    }
}

/// Two calls on the same slot return the identical value, whatever either
/// call would have freshly constructed: the underlying instance is a
/// singleton within the slot's lifetime.
pub proof fn lemma_client_accessor_singleton<T>(
    s0: InitOnce<T>,
    s1: InitOnce<T>,
    s2: InitOnce<T>,
    fresh1: T,
    fresh2: T,
    r1: T,
    r2: T,
)
    requires
        get_or_init_rel(s0, s1, fresh1, r1),
        get_or_init_rel(s1, s2, fresh2, r2),
    ensures
        r2 == r1,
        s2.slot == Some(r1),
{
}

} // verus!
