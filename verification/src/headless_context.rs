//! The headless context handle and the ordered fallback strategy that
//! creates it.
//!
//! A context handle is either `NotCurrent` or `PossiblyCurrent`, and the set
//! of legal operations differs per state: a `NotCurrent` handle can only be
//! made current or destroyed, while address lookup is answered only on a
//! `PossiblyCurrent` handle. `make_current` consumes the handle and returns
//! exactly one handle, whatever the driver said: the new `PossiblyCurrent`
//! one on success, the original on failure.
//!
//! The native driver performs the actual binding and creation; its answer is
//! handed in as a plain value, and the contracts here say what the handle
//! becomes for every possible answer.

use vstd::prelude::*;

use crate::bridge::Handle;
use crate::bridge::ValueRegistry;
use crate::context_builder::GlutinContextBuilder;
use crate::error::ContextError;
use crate::error::CreationError;
use crate::event_loop::GlutinEventLoop;
use crate::event_loop::GlutinEventLoopType;
use crate::pixel_format::PixelFormat;
use crate::ContextApi;

verus! {

/// What the library keeps of a native GL context: its driver-side identity
/// and the facts the binding layer reports about it.
#[derive(Debug, Clone, Copy, PartialEq, Eq, Structural)]
pub struct NativeContext {
    /// The driver's name for the context; process-unique.
    pub id: u64,
    /// The API the context implements.
    pub api: ContextApi,
    /// The pixel format the context was created with.
    pub pixel_format: PixelFormat,
    /// The native id of the context this one shares GL object namespaces
    /// with, when it was created with sharing.
    pub shared_with: Option<u64>,
    /// Whether this context is bound to the calling thread.
    pub bound: bool,
}

/// What the driver reports about a context it just created.
#[derive(Debug, Clone, Copy, PartialEq, Eq, Structural)]
pub struct NativeContextInfo {
    /// The driver's name for the new context.
    pub id: u64,
    /// The API the new context implements.
    pub api: ContextApi,
    /// The pixel format the new context was created with.
    pub pixel_format: PixelFormat,
}

/// A headless GL context handle: a native context with no window, tagged by
/// whether it may be current on the calling thread.
#[derive(Debug, Clone, Copy, PartialEq, Eq, Structural)]
pub enum GlutinHeadlessContext {
    /// Known not to be current; only `make_current` and destruction apply.
    NotCurrent(NativeContext),
    /// Possibly current on the calling thread.
    PossiblyCurrent(NativeContext),
}

impl GlutinHeadlessContext {
    /// The native context behind the handle, whatever the marker.
    pub open spec fn native(self) -> NativeContext {
        match self {
            GlutinHeadlessContext::NotCurrent(c) => c,
            GlutinHeadlessContext::PossiblyCurrent(c) => c,
        }
    }

    /// The marker never drifts from the thread binding: a `NotCurrent`
    /// handle is never bound to the calling thread.
    pub open spec fn wf(self) -> bool {
        self is NotCurrent ==> !self.native().bound
    }

    /// The driver's name for the context behind this handle.
    pub fn native_id(&self) -> (r: u64)
        ensures
            r == self.native().id,
    {
        match self {
            GlutinHeadlessContext::NotCurrent(c) => c.id,
            GlutinHeadlessContext::PossiblyCurrent(c) => c.id,
        }
    }

    /// Whether the handle carries the `PossiblyCurrent` marker.
    pub fn is_possibly_current(&self) -> (r: bool)
        ensures
            r == (self is PossiblyCurrent),
    {
        match self {
            GlutinHeadlessContext::NotCurrent(_) => false,
            GlutinHeadlessContext::PossiblyCurrent(_) => true,
        }
    }

    /// Makes the context current, given the driver's answer to the bind
    /// call. Consumes the handle and returns exactly one handle:
    /// - on success, a `PossiblyCurrent` handle to the same native context,
    ///   now bound, and no error;
    /// - on failure, a handle to the same native context in the original
    ///   state, not bound, together with the error for the caller to report.
    pub fn make_current(self, outcome: Result<(), ContextError>) -> (r: (
        GlutinHeadlessContext,
        Option<ContextError>,
    ))
        ensures
            r.0.wf(),
            r.0.native() == (NativeContext { bound: outcome is Ok, ..self.native() }),
            outcome is Ok ==> r.0 is PossiblyCurrent && r.1 is None,
            outcome matches Err(e) ==> (r.0 is PossiblyCurrent <==> self is PossiblyCurrent)
                && r.1 == Some(e),
    {
        let native = match self {
            GlutinHeadlessContext::NotCurrent(c) => c,
            GlutinHeadlessContext::PossiblyCurrent(c) => c,
        };
        match outcome {
            Ok(()) => (
                GlutinHeadlessContext::PossiblyCurrent(NativeContext { bound: true, ..native }),
                None,
            ),
            Err(e) => {
                let unbound = NativeContext { bound: false, ..native };
                let handle = if self.is_possibly_current() {
                    GlutinHeadlessContext::PossiblyCurrent(unbound)
                } else {
                    GlutinHeadlessContext::NotCurrent(unbound)
                };
                (handle, Some(e))
            },
        }
    }

    /// Whether the context is bound to the calling thread.
    pub fn is_current(&self) -> (r: bool)
        ensures
            r == self.native().bound,
    {
        match self {
            GlutinHeadlessContext::NotCurrent(c) => c.bound,
            GlutinHeadlessContext::PossiblyCurrent(c) => c.bound,
        }
    }

    /// The API the context implements.
    pub fn get_api(&self) -> (r: ContextApi)
        ensures
            r == self.native().api,
    {
        match self {
            GlutinHeadlessContext::NotCurrent(c) => c.api,
            GlutinHeadlessContext::PossiblyCurrent(c) => c.api,
        }
    }

    /// Answers an address lookup: the platform loader's answer is passed
    /// through only on a `PossiblyCurrent` handle; on a `NotCurrent` handle
    /// the lookup is refused with `FunctionUnavailable` and the loader is
    /// never consulted.
    pub fn get_proc_address(&self, address: u64) -> (r: Result<u64, ContextError>)
        ensures
            self is PossiblyCurrent ==> r == Ok::<u64, ContextError>(address),
            self is NotCurrent ==> r == Err::<u64, ContextError>(
                ContextError::FunctionUnavailable,
            ),
    {
        match self {
            GlutinHeadlessContext::NotCurrent(_) => Err(ContextError::FunctionUnavailable),
            GlutinHeadlessContext::PossiblyCurrent(_) => Ok(address),
        }
    }
}

/// One method of creating a headless context.
#[derive(Debug, Clone, Copy, PartialEq, Eq, Structural)]
pub enum HeadlessMethod {
    /// A context with no backing drawable at all.
    Surfaceless,
    /// A context backed by an off-screen one-by-one pixel buffer.
    Pbuffer,
    /// A fully off-GPU software rasterizer, backed by the same one-by-one
    /// buffer.
    Osmesa,
}

/// The ordered methods to attempt for the given backend. On a Wayland
/// compositor all three tiers are tried, surfaceless first. An X11 display
/// server cannot support surfaceless contexts, so that step is skipped
/// outright, not attempted and failed. Every other backend has no
/// surfaceless or software tier: only the pbuffer method is attempted.
pub open spec fn headless_plan_spec(loop_type: GlutinEventLoopType) -> Seq<HeadlessMethod> {
    match loop_type {
        GlutinEventLoopType::Wayland => seq![
            HeadlessMethod::Surfaceless,
            HeadlessMethod::Pbuffer,
            HeadlessMethod::Osmesa,
        ],
        GlutinEventLoopType::X11 => seq![HeadlessMethod::Pbuffer, HeadlessMethod::Osmesa],
        _ => seq![HeadlessMethod::Pbuffer],
    }
}

/// The ordered methods to attempt for the given backend; see
/// `headless_plan_spec`.
pub fn headless_plan(loop_type: GlutinEventLoopType) -> (r: Vec<HeadlessMethod>)
    ensures
        r@ == headless_plan_spec(loop_type),
{
    let mut plan: Vec<HeadlessMethod> = Vec::new();
    match loop_type {
        GlutinEventLoopType::Wayland => {
            plan.push(HeadlessMethod::Surfaceless);
            plan.push(HeadlessMethod::Pbuffer);
            plan.push(HeadlessMethod::Osmesa);
        },
        GlutinEventLoopType::X11 => {
            plan.push(HeadlessMethod::Pbuffer);
            plan.push(HeadlessMethod::Osmesa);
        },
        _ => {
            plan.push(HeadlessMethod::Pbuffer);
        },
    }
    assert(plan@ =~= headless_plan_spec(loop_type));
    plan
}

/// A successfully created headless context, together with one error per
/// method that was attempted and failed before the one that succeeded.
#[derive(Debug)]
pub struct HeadlessCreation {
    /// The new handle, in the `NotCurrent` state.
    pub context: GlutinHeadlessContext,
    /// The failures of the methods attempted before the successful one, in
    /// attempt order.
    pub failures: Vec<(HeadlessMethod, CreationError)>,
}

/// The aggregate failure when every attempted method failed: one error per
/// attempted method, in attempt order.
#[derive(Debug)]
pub struct CreationFailure {
    /// The failure of each attempted method, in attempt order.
    pub errors: Vec<(HeadlessMethod, CreationError)>,
}

/// Whether some planned and answered attempt reports success.
pub open spec fn creation_succeeds(
    plan: Seq<HeadlessMethod>,
    outcomes: Seq<Result<NativeContextInfo, CreationError>>,
) -> bool {
    exists|i: int| 0 <= i < plan.len() && i < outcomes.len() && (#[trigger] outcomes[i]) is Ok
}

/// Whether a transcript of driver answers covers the plan: either some
/// answer within the plan reports success, or there is an answer for every
/// planned method. A driver loop that stops at the first success always
/// produces such a transcript.
pub open spec fn outcomes_cover_plan(
    plan: Seq<HeadlessMethod>,
    outcomes: Seq<Result<NativeContextInfo, CreationError>>,
) -> bool {
    ||| outcomes.len() >= plan.len()
    ||| exists|i: int| 0 <= i < outcomes.len() && i < plan.len() && outcomes[i] is Ok
}

/// Creates a headless context by the ordered fallback strategy. The builder
/// is consumed exactly once. `outcomes` is the driver's answer to each
/// attempted method, in plan order; methods after the first success are
/// never attempted, so answers beyond it are ignored.
///
/// On success, the result carries the new `NotCurrent` handle — sharing what
/// the builder recorded, unbound — and exactly one failure per method
/// attempted before the successful one. When every attempted method fails,
/// the aggregate failure carries exactly one error per attempted method, so
/// the caller can diagnose which layer is missing.
pub fn create_headless_context(
    builder: GlutinContextBuilder,
    loop_type: GlutinEventLoopType,
    outcomes: &Vec<Result<NativeContextInfo, CreationError>>,
) -> (r: Result<HeadlessCreation, CreationFailure>)
    requires
        outcomes_cover_plan(headless_plan_spec(loop_type), outcomes@),
    ensures
        ({
            let plan = headless_plan_spec(loop_type);
            match r {
                Ok(creation) => {
                    let k = creation.failures@.len() as int;
                    &&& k < plan.len()
                    &&& k < outcomes@.len()
                    &&& outcomes@[k] matches Ok(info) && creation.context
                        == GlutinHeadlessContext::NotCurrent(
                        NativeContext {
                            id: info.id,
                            api: info.api,
                            pixel_format: info.pixel_format,
                            shared_with: builder.attribs().sharing,
                            bound: false,
                        },
                    )
                    &&& forall|j: int|
                        0 <= j < k ==> ((#[trigger] outcomes@[j]) matches Err(e)
                            && creation.failures@[j] == (plan[j], e))
                },
                Err(failure) => {
                    &&& failure.errors@.len() == plan.len()
                    &&& forall|j: int|
                        0 <= j < plan.len() ==> ((#[trigger] outcomes@[j]) matches Err(e)
                            && failure.errors@[j] == (plan[j], e))
                },
            }
        }),
        r is Ok <==> creation_succeeds(headless_plan_spec(loop_type), outcomes@),
    {
    let plan = headless_plan(loop_type);
    let sharing = builder.attributes().sharing;
    let mut failures: Vec<(HeadlessMethod, CreationError)> = Vec::new();
    let mut i: usize = 0;
    while i < plan.len()
        invariant
            plan@ == headless_plan_spec(loop_type),
            sharing == builder.attribs().sharing,
            outcomes_cover_plan(headless_plan_spec(loop_type), outcomes@),
            0 <= i <= plan.len(),
            failures@.len() == i,
            forall|j: int|
                0 <= j < i ==> ((#[trigger] outcomes@[j]) matches Err(e) && failures@[j]
                    == (headless_plan_spec(loop_type)[j], e)),
            forall|j: int| 0 <= j < i && j < outcomes@.len() ==> !((#[trigger] outcomes@[j]) is Ok),
        decreases plan.len() - i,
    {
        assert(i < outcomes@.len());
        match &outcomes[i] {
            Ok(info) => {
                let context = GlutinHeadlessContext::NotCurrent(
                    NativeContext {
                        id: info.id,
                        api: info.api,
                        pixel_format: info.pixel_format,
                        shared_with: sharing,
                        bound: false,
                    },
                );
                assert(outcomes@[i as int] is Ok);
                return Ok(HeadlessCreation { context, failures });
            },
            Err(e) => {
                failures.push((plan[i], e.clone()));
            },
        }
        i += 1;
    }
    Err(CreationFailure { errors: failures })
}

/// Probes whether headless creation would succeed, discarding the result: no
/// context outlives the probe on either outcome. The builder is only read.
pub fn glutin_try_headless_context_with(
    builder: &GlutinContextBuilder,
    loop_type: GlutinEventLoopType,
    outcomes: &Vec<Result<NativeContextInfo, CreationError>>,
) -> (r: bool)
    requires
        outcomes_cover_plan(headless_plan_spec(loop_type), outcomes@),
    ensures
        r <==> creation_succeeds(headless_plan_spec(loop_type), outcomes@),
{
    match create_headless_context(*builder, loop_type, outcomes) {
        Ok(_) => true,
        Err(_) => false,
    }
}


/// Creates a headless context for the foreign caller: reads the backend from
/// the boxed event loop, consumes the boxed builder, runs the ordered
/// fallback strategy on the driver's answers, and boxes the new handle.
///
/// A null or dead handle on either side changes nothing and returns null.
/// When both are live the builder is consumed even if creation fails, as the
/// consuming strategy demands; on success the new `NotCurrent` handle is
/// boxed and returned.
pub fn glutin_create_headless_context(
    event_loops: &ValueRegistry<GlutinEventLoop>,
    builders: &mut ValueRegistry<GlutinContextBuilder>,
    contexts: &mut ValueRegistry<GlutinHeadlessContext>,
    event_loop_h: Option<Handle>,
    builder_h: Option<Handle>,
    outcomes: &Vec<Result<NativeContextInfo, CreationError>>,
) -> (r: Option<Handle>)
    requires
        event_loops.live_opt(event_loop_h) && old(builders).live_opt(builder_h)
            ==> outcomes_cover_plan(
            headless_plan_spec(event_loops.value_opt(event_loop_h).loop_type),
            outcomes@,
        ),
    ensures
        !(event_loops.live_opt(event_loop_h) && old(builders).live_opt(builder_h)) ==> {
            &&& r is None
            &&& final(builders)@ == old(builders)@
            &&& final(contexts)@ == old(contexts)@
        },
        event_loops.live_opt(event_loop_h) && old(builders).live_opt(builder_h) ==> {
            let plan = headless_plan_spec(event_loops.value_opt(event_loop_h).loop_type);
            let sharing = old(builders).value_opt(builder_h).attribs().sharing;
            &&& final(builders)@ == old(builders)@.update(
                builder_h->Some_0.index as int,
                None::<GlutinContextBuilder>,
            )
            &&& (r is Some <==> creation_succeeds(plan, outcomes@))
            &&& (r matches Some(ch) ==> ch.index == old(contexts)@.len() && exists|k: int|
                0 <= k < plan.len() && k < outcomes@.len() && ((#[trigger] outcomes@[k]) matches
                Ok(info) && final(contexts)@ == old(contexts)@.push(
                    Some(
                        GlutinHeadlessContext::NotCurrent(
                            NativeContext {
                                id: info.id,
                                api: info.api,
                                pixel_format: info.pixel_format,
                                shared_with: sharing,
                                bound: false,
                            },
                        ),
                    ),
                )))
            &&& (r is None ==> final(contexts)@ == old(contexts)@)
        },
{
    let (elh, bh) = match (event_loop_h, builder_h) {
        (Some(elh), Some(bh)) => (elh, bh),
        _ => {
            return None;
        },
    };
    let loop_type = match event_loops.get(elh) {
        Some(event_loop) => event_loop.loop_type,
        None => {
            return None;
        },
    };
    let builder = match builders.get(bh) {
        Some(builder) => *builder,
        None => {
            return None;
        },
    };
    builders.release(bh);
    match create_headless_context(builder, loop_type, outcomes) {
        Ok(creation) => {
            let ghost k = creation.failures@.len() as int;
            let h = contexts.create(creation.context);
            assert((outcomes@[k]) is Ok);
            Some(h)
        },
        Err(_) => None,
    }
}

/// Probes whether headless creation would succeed for the boxed event loop
/// and builder, retaining nothing: the builder is only read, and no context
/// is boxed on either outcome. False on a null or dead handle.
pub fn glutin_try_headless_context(
    event_loops: &ValueRegistry<GlutinEventLoop>,
    builders: &ValueRegistry<GlutinContextBuilder>,
    event_loop_h: Option<Handle>,
    builder_h: Option<Handle>,
    outcomes: &Vec<Result<NativeContextInfo, CreationError>>,
) -> (r: bool)
    requires
        event_loops.live_opt(event_loop_h) && builders.live_opt(builder_h)
            ==> outcomes_cover_plan(
            headless_plan_spec(event_loops.value_opt(event_loop_h).loop_type),
            outcomes@,
        ),
    ensures
        r <==> (event_loops.live_opt(event_loop_h) && builders.live_opt(builder_h)
            && creation_succeeds(
            headless_plan_spec(event_loops.value_opt(event_loop_h).loop_type),
            outcomes@,
        )),
{
    let (elh, bh) = match (event_loop_h, builder_h) {
        (Some(elh), Some(bh)) => (elh, bh),
        _ => {
            return false;
        },
    };
    let loop_type = match event_loops.get(elh) {
        Some(event_loop) => event_loop.loop_type,
        None => {
            return false;
        },
    };
    let builder = match builders.get(bh) {
        Some(builder) => builder,
        None => {
            return false;
        },
    };
    glutin_try_headless_context_with(builder, loop_type, outcomes)
}

/// Re-affirms or establishes currency on the boxed context, given the
/// driver's answer to the bind call; the returned error, if any, is for the
/// caller to log. The same handle keeps owning the transitioned context. A
/// null or dead handle changes nothing.
pub fn glutin_context_make_current(
    contexts: &mut ValueRegistry<GlutinHeadlessContext>,
    h: Option<Handle>,
    outcome: Result<(), ContextError>,
) -> (r: Option<ContextError>)
    ensures
        old(contexts).live_opt(h) ==> {
            let c0 = old(contexts).value_opt(h);
            let c1 = final(contexts).value_opt(h);
            &&& final(contexts)@ == old(contexts)@.update(h->Some_0.index as int, Some(c1))
            &&& c1.wf()
            &&& c1.native() == (NativeContext { bound: outcome is Ok, ..c0.native() })
            &&& (outcome is Ok ==> c1 is PossiblyCurrent && r is None)
            &&& (outcome matches Err(e) ==> ((c1 is PossiblyCurrent <==> c0 is PossiblyCurrent)
                && r == Some(e)))
        },
        !old(contexts).live_opt(h) ==> final(contexts)@ == old(contexts)@ && r is None,
{
    let h = match h {
        Some(h) => h,
        None => {
            return None;
        },
    };
    match contexts.get(h) {
        Some(context) => {
            let (transitioned, error) = (*context).make_current(outcome);
            contexts.replace(h, transitioned);
            error
        },
        None => None,
    }
}

/// Whether the boxed context is bound to the calling thread; false on a null
/// or dead handle.
pub fn glutin_context_is_current(
    contexts: &ValueRegistry<GlutinHeadlessContext>,
    h: Option<Handle>,
) -> (r: bool)
    ensures
        r == (contexts.live_opt(h) && contexts.value_opt(h).native().bound),
{
    match h {
        None => false,
        Some(h) => match contexts.get(h) {
            None => false,
            Some(context) => context.is_current(),
        },
    }
}

/// The API of the boxed context; `Unknown` on a null or dead handle.
pub fn glutin_context_get_api(
    contexts: &ValueRegistry<GlutinHeadlessContext>,
    h: Option<Handle>,
) -> (r: ContextApi)
    ensures
        contexts.live_opt(h) ==> r == contexts.value_opt(h).native().api,
        !contexts.live_opt(h) ==> r == ContextApi::Unknown,
{
    match h {
        None => ContextApi::Unknown,
        Some(h) => match contexts.get(h) {
            None => ContextApi::Unknown,
            Some(context) => context.get_api(),
        },
    }
}

/// Answers an address lookup on the boxed context: the platform loader's
/// answer is passed through only when the handle is live and carries the
/// `PossiblyCurrent` marker; a `NotCurrent`, null or dead handle yields the
/// null address.
pub fn glutin_context_get_proc_address(
    contexts: &ValueRegistry<GlutinHeadlessContext>,
    h: Option<Handle>,
    address: u64,
) -> (r: u64)
    ensures
        contexts.live_opt(h) && contexts.value_opt(h) is PossiblyCurrent ==> r == address,
        !(contexts.live_opt(h) && contexts.value_opt(h) is PossiblyCurrent) ==> r == 0,
{
    match h {
        None => 0,
        Some(h) => match contexts.get(h) {
            None => 0,
            Some(context) => match context.get_proc_address(address) {
                Ok(found) => found,
                Err(_) => 0,
            },
        },
    }
}

/// Destroys the boxed context, releasing its slot; a null or dead handle is
/// a no-op.
pub fn glutin_destroy_context(
    contexts: &mut ValueRegistry<GlutinHeadlessContext>,
    h: Option<Handle>,
)
    ensures
        old(contexts).live_opt(h) ==> final(contexts)@ == old(contexts)@.update(
            h->Some_0.index as int,
            None::<GlutinHeadlessContext>,
        ),
        !old(contexts).live_opt(h) ==> final(contexts)@ == old(contexts)@,
{
    match h {
        None => (),
        Some(h) => {
            contexts.release(h);
        },
    }
}

/// Ownership transfer on make-current: the operation consumes the old handle
/// and leaves exactly one handle, live in the same slot, holding a context
/// with the same native identity — never zero handles and never two.
pub proof fn lemma_make_current_single_owner(
    before: Seq<Option<GlutinHeadlessContext>>,
    after: Seq<Option<GlutinHeadlessContext>>,
    h: Handle,
    c1: GlutinHeadlessContext,
)
    requires
        h.index < before.len(),
        before[h.index as int] matches Some(c0) && c1.native().id == c0.native().id,
        after == before.update(h.index as int, Some(c1)),
    ensures
        after.len() == before.len(),
        after[h.index as int] == Some(c1),
        (before[h.index as int]->0).native().id == c1.native().id,
        forall|j: int| 0 <= j < before.len() && j != h.index ==> after[j] == before[j],
{
}

/// Headless fallback ordering: surfaceless is attempted first only on a
/// backend that can support it; on an X11 display server the surfaceless
/// step is skipped outright — it is absent from the plan, so it can never be
/// counted as an attempted method — and on backends without the three-tier
/// ecosystem only the pbuffer method is planned.
pub proof fn lemma_fallback_plan_shape()
    ensures
        headless_plan_spec(GlutinEventLoopType::Wayland) =~= seq![
            HeadlessMethod::Surfaceless,
            HeadlessMethod::Pbuffer,
            HeadlessMethod::Osmesa,
        ],
        headless_plan_spec(GlutinEventLoopType::X11) =~= seq![
            HeadlessMethod::Pbuffer,
            HeadlessMethod::Osmesa,
        ],
        !headless_plan_spec(GlutinEventLoopType::X11).contains(HeadlessMethod::Surfaceless),
        headless_plan_spec(GlutinEventLoopType::Windows) =~= seq![HeadlessMethod::Pbuffer],
        headless_plan_spec(GlutinEventLoopType::MacOS) =~= seq![HeadlessMethod::Pbuffer],
        headless_plan_spec(GlutinEventLoopType::Unknown) =~= seq![HeadlessMethod::Pbuffer],
{
    assert(headless_plan_spec(GlutinEventLoopType::X11)[0] == HeadlessMethod::Pbuffer);
    assert(headless_plan_spec(GlutinEventLoopType::X11)[1] == HeadlessMethod::Osmesa);
}

} // verus!
