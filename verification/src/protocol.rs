//! The order of the native calls over a shim's life and over one frame.
//!
//! The shim hands its calls out one operation at a time; these functions
//! put them end to end as an executor meets them, and the lemmas say what
//! holds of every such sequence.

use crate::imgui::{render_calls, teardown_calls};
use crate::native::{NativeCall, NativeCallView, NativeReply};
use crate::setup::{cleanup_calls, init_glfw_call, init_opengl3_call, InitError};
use vstd::prelude::*;

verus! {

/// Whether exactly one call of `trace` satisfies `p`.
pub open spec fn happens_once(
    trace: Seq<NativeCallView>,
    p: spec_fn(NativeCallView) -> bool,
) -> bool {
    exists|i: int|
        {
            &&& 0 <= i < trace.len()
            &&& #[trigger] p(trace[i])
            &&& forall|j: int| 0 <= j < trace.len() && #[trigger] p(trace[j]) ==> j == i
        }
}

/// Whether no call of `trace` satisfies `p`.
pub open spec fn never_happens(
    trace: Seq<NativeCallView>,
    p: spec_fn(NativeCallView) -> bool,
) -> bool {
    forall|j: int| 0 <= j < trace.len() ==> !#[trigger] p(trace[j])
}

/// Whether some call of `trace` that satisfies `p` comes before some call
/// that satisfies `q`. Where each happens once, this is their order.
pub open spec fn comes_before(
    trace: Seq<NativeCallView>,
    p: spec_fn(NativeCallView) -> bool,
    q: spec_fn(NativeCallView) -> bool,
) -> bool {
    exists|i: int, j: int|
        0 <= i < j < trace.len() && #[trigger] p(trace[i]) && #[trigger] q(trace[j])
}

pub open spec fn creates_context(call: NativeCallView) -> bool {
    call is CreateContext
}

pub open spec fn destroys_context(call: NativeCallView) -> bool {
    call is DestroyContext
}

pub open spec fn starts_window_backend(call: NativeCallView) -> bool {
    call is InitForGlfw
}

pub open spec fn stops_window_backend(call: NativeCallView) -> bool {
    call is ShutdownGlfw
}

pub open spec fn starts_render_backend(call: NativeCallView) -> bool {
    call is InitForOpengl3
}

pub open spec fn stops_render_backend(call: NativeCallView) -> bool {
    call is ShutdownOpengl3
}

/// Whether construction succeeds on these three replies.
pub open spec fn constructs(
    created: NativeReply,
    window_backend: NativeReply,
    render_backend: NativeReply,
) -> bool {
    created.handle() != 0 && window_backend.truth() && render_backend.truth()
}

/// The calls of one construction, in order: what `ImGui::new` and the
/// stages after it issue when the native side answers context creation
/// with `created` and the two backend starts with `window_backend` and
/// `render_backend`, the cleanup of a failed construction included. A reply
/// to a step that is never reached plays no part.
pub open spec fn construction_calls(
    window: usize,
    install_callbacks: bool,
    created: NativeReply,
    window_backend: NativeReply,
    render_backend: NativeReply,
) -> Seq<NativeCallView> {
    let ctx = created.handle();
    let create: Seq<NativeCallView> = seq![NativeCall::CreateContext];
    if ctx == 0 {
        create + cleanup_calls(InitError::Context, ctx)
    } else if !window_backend.truth() {
        create.push(init_glfw_call(window, install_callbacks)) + cleanup_calls(
            InitError::WindowBackend,
            ctx,
        )
    } else if !render_backend.truth() {
        create.push(init_glfw_call(window, install_callbacks)).push(init_opengl3_call())
            + cleanup_calls(InitError::RenderBackend, ctx)
    } else {
        create.push(init_glfw_call(window, install_callbacks)).push(init_opengl3_call())
    }
}

/// The calls of a whole life: construction, and where it succeeds the
/// teardown of the shim it made, with whatever `between` was issued in the
/// meantime.
pub open spec fn lifetime_calls(
    window: usize,
    install_callbacks: bool,
    created: NativeReply,
    window_backend: NativeReply,
    render_backend: NativeReply,
    between: Seq<NativeCallView>,
) -> Seq<NativeCallView> {
    let construction = construction_calls(
        window,
        install_callbacks,
        created,
        window_backend,
        render_backend,
    );
    if constructs(created, window_backend, render_backend) {
        construction + between + teardown_calls(created.handle())
    } else {
        construction
    }
}

/// The calls of one frame: the frame is begun, the widget calls follow in
/// the order in which the caller made them, the frame is rendered.
pub open spec fn frame_calls(widgets: Seq<NativeCallView>) -> Seq<NativeCallView> {
    (seq![NativeCall::NewFrame] + widgets) + render_calls()
}

/// Whether `call` belongs to the lifecycle of the context or its backends,
/// as no widget operation does.
pub open spec fn is_lifecycle_call(call: NativeCallView) -> bool {
    ||| creates_context(call)
    ||| destroys_context(call)
    ||| starts_window_backend(call)
    ||| stops_window_backend(call)
    ||| starts_render_backend(call)
    ||| stops_render_backend(call)
}

proof fn lemma_never_concat(
    a: Seq<NativeCallView>,
    b: Seq<NativeCallView>,
    p: spec_fn(NativeCallView) -> bool,
)
    requires
        never_happens(a, p),
        never_happens(b, p),
    ensures
        never_happens(a + b, p),
{
    assert forall|j: int| 0 <= j < (a + b).len() implies !#[trigger] p((a + b)[j]) by {
        if j < a.len() {
            assert((a + b)[j] == a[j]);
        } else {
            assert((a + b)[j] == b[j - a.len()]);
        }
    }
}

proof fn lemma_once_then_never(
    a: Seq<NativeCallView>,
    b: Seq<NativeCallView>,
    p: spec_fn(NativeCallView) -> bool,
)
    requires
        happens_once(a, p),
        never_happens(b, p),
    ensures
        happens_once(a + b, p),
{
    let i = choose|i: int|
        {
            &&& 0 <= i < a.len()
            &&& #[trigger] p(a[i])
            &&& forall|j: int| 0 <= j < a.len() && #[trigger] p(a[j]) ==> j == i
        };
    assert((a + b)[i] == a[i]);
    assert forall|j: int| 0 <= j < (a + b).len() && #[trigger] p((a + b)[j]) implies j == i by {
        if j < a.len() {
            assert((a + b)[j] == a[j]);
        } else {
            assert((a + b)[j] == b[j - a.len()]);
        }
    }
}

proof fn lemma_never_then_once(
    a: Seq<NativeCallView>,
    b: Seq<NativeCallView>,
    p: spec_fn(NativeCallView) -> bool,
)
    requires
        never_happens(a, p),
        happens_once(b, p),
    ensures
        happens_once(a + b, p),
{
    let i = choose|i: int|
        {
            &&& 0 <= i < b.len()
            &&& #[trigger] p(b[i])
            &&& forall|j: int| 0 <= j < b.len() && #[trigger] p(b[j]) ==> j == i
        };
    let k = a.len() + i;
    assert((a + b)[k] == b[i]);
    assert forall|j: int| 0 <= j < (a + b).len() && #[trigger] p((a + b)[j]) implies j == k by {
        if j < a.len() {
            assert((a + b)[j] == a[j]);
        } else {
            assert((a + b)[j] == b[j - a.len()]);
        }
    }
}

/// Construction creates one context. It destroys none where it succeeds or
/// where no context came back, and exactly the one that came back where a
/// backend refused to start.
proof fn lemma_construction_balance(
    window: usize,
    install_callbacks: bool,
    created: NativeReply,
    window_backend: NativeReply,
    render_backend: NativeReply,
)
    ensures
        ({
            let calls = construction_calls(
                window,
                install_callbacks,
                created,
                window_backend,
                render_backend,
            );
            let destroys = |c: NativeCallView| destroys_context(c);
            &&& calls.len() > 0
            &&& calls[0] == NativeCallView::CreateContext
            &&& happens_once(calls, |c: NativeCallView| creates_context(c))
            &&& if created.handle() != 0 && !constructs(created, window_backend, render_backend) {
                &&& happens_once(calls, destroys)
                &&& calls.last() == (NativeCallView::DestroyContext { ctx: created.handle() })
            } else {
                never_happens(calls, destroys)
            }
        }),
{
    let calls = construction_calls(
        window,
        install_callbacks,
        created,
        window_backend,
        render_backend,
    );
    let creates = |c: NativeCallView| creates_context(c);
    let destroys = |c: NativeCallView| destroys_context(c);
    let ctx = created.handle();
    let glfw = init_glfw_call(window, install_callbacks);
    let opengl3 = init_opengl3_call();
    let destroy = NativeCallView::DestroyContext { ctx: ctx };
    if ctx == 0 {
        assert(calls =~= seq![NativeCallView::CreateContext]);
        assert(creates(calls[0]));
    } else if !window_backend.truth() {
        assert(calls =~= seq![NativeCallView::CreateContext, glfw, destroy]);
        assert(creates(calls[0]));
        assert(destroys(calls[2]));
    } else if !render_backend.truth() {
        assert(calls =~= seq![
            NativeCallView::CreateContext,
            glfw,
            opengl3,
            NativeCallView::ShutdownGlfw,
            destroy,
        ]);
        assert(creates(calls[0]));
        assert(destroys(calls[4]));
    } else {
        assert(calls =~= seq![NativeCallView::CreateContext, glfw, opengl3]);
        assert(creates(calls[0]));
    }
}

/// A context is created once and released as often as it was created:
/// whatever the native side answers during construction, and whatever
/// widget calls are issued between construction and teardown, the sequence
/// of calls creates one context, never destroys a null handle, and destroys
/// a handle that came back exactly once, with its own address, as the very
/// last call.
pub proof fn lemma_context_released_once(
    window: usize,
    install_callbacks: bool,
    created: NativeReply,
    window_backend: NativeReply,
    render_backend: NativeReply,
    between: Seq<NativeCallView>,
)
    requires
        forall|i: int| 0 <= i < between.len() ==> !is_lifecycle_call(#[trigger] between[i]),
    ensures
        ({
            let trace = lifetime_calls(
                window,
                install_callbacks,
                created,
                window_backend,
                render_backend,
                between,
            );
            &&& trace.len() > 0
            &&& trace[0] == NativeCallView::CreateContext
            &&& happens_once(trace, |c: NativeCallView| creates_context(c))
            &&& created.handle() == 0 ==> never_happens(
                trace,
                |c: NativeCallView| destroys_context(c),
            )
            &&& created.handle() != 0 ==> {
                &&& happens_once(trace, |c: NativeCallView| destroys_context(c))
                &&& trace.last() == (NativeCallView::DestroyContext { ctx: created.handle() })
            }
        }),
{
    let construction = construction_calls(
        window,
        install_callbacks,
        created,
        window_backend,
        render_backend,
    );
    let creates = |c: NativeCallView| creates_context(c);
    let destroys = |c: NativeCallView| destroys_context(c);
    lemma_construction_balance(window, install_callbacks, created, window_backend, render_backend);
    if constructs(created, window_backend, render_backend) {
        let teardown = teardown_calls(created.handle());
        assert(never_happens(between, creates));
        assert(never_happens(between, destroys));
        assert(never_happens(teardown, creates));
        assert(destroys(teardown[2]));
        assert(happens_once(teardown, destroys));
        lemma_once_then_never(construction, between, creates);
        lemma_once_then_never(construction + between, teardown, creates);
        lemma_never_concat(construction, between, destroys);
        lemma_never_then_once(construction + between, teardown, destroys);
        assert((construction + between + teardown)[0] == construction[0]);
    }
}

/// A backend is shut down exactly once if it started and never if it did
/// not, on every path through construction and teardown. Where both ran,
/// the rendering backend stops before the windowing backend, and each stops
/// before the context that it points into is destroyed.
pub proof fn lemma_backends_stopped_in_reverse(
    window: usize,
    install_callbacks: bool,
    created: NativeReply,
    window_backend: NativeReply,
    render_backend: NativeReply,
    between: Seq<NativeCallView>,
)
    requires
        forall|i: int| 0 <= i < between.len() ==> !is_lifecycle_call(#[trigger] between[i]),
    ensures
        ({
            let trace = lifetime_calls(
                window,
                install_callbacks,
                created,
                window_backend,
                render_backend,
                between,
            );
            let stops_window = |c: NativeCallView| stops_window_backend(c);
            let stops_render = |c: NativeCallView| stops_render_backend(c);
            let destroys = |c: NativeCallView| destroys_context(c);
            &&& if created.handle() != 0 && window_backend.truth() {
                happens_once(trace, stops_window) && comes_before(trace, stops_window, destroys)
            } else {
                never_happens(trace, stops_window)
            }
            &&& if constructs(created, window_backend, render_backend) {
                &&& happens_once(trace, stops_render)
                &&& comes_before(trace, stops_render, stops_window)
            } else {
                never_happens(trace, stops_render)
            }
        }),
{
    let construction = construction_calls(
        window,
        install_callbacks,
        created,
        window_backend,
        render_backend,
    );
    let stops_window = |c: NativeCallView| stops_window_backend(c);
    let stops_render = |c: NativeCallView| stops_render_backend(c);
    let destroys = |c: NativeCallView| destroys_context(c);
    let ctx = created.handle();
    let glfw = init_glfw_call(window, install_callbacks);
    let opengl3 = init_opengl3_call();
    let destroy = NativeCallView::DestroyContext { ctx: ctx };
    if ctx == 0 {
        assert(construction =~= seq![NativeCallView::CreateContext]);
    } else if !window_backend.truth() {
        assert(construction =~= seq![NativeCallView::CreateContext, glfw, destroy]);
    } else if !render_backend.truth() {
        assert(construction =~= seq![
            NativeCallView::CreateContext,
            glfw,
            opengl3,
            NativeCallView::ShutdownGlfw,
            destroy,
        ]);
        assert(stops_window(construction[3]));
        assert(destroys(construction[4]));
    } else {
        assert(construction =~= seq![NativeCallView::CreateContext, glfw, opengl3]);
        let teardown = teardown_calls(ctx);
        let trace = construction + between + teardown;
        let n = (construction.len() + between.len()) as int;
        assert(never_happens(construction, stops_window));
        assert(never_happens(construction, stops_render));
        assert(never_happens(between, stops_window));
        assert(never_happens(between, stops_render));
        assert(stops_render(teardown[0]));
        assert(stops_window(teardown[1]));
        assert(destroys(teardown[2]));
        assert(happens_once(teardown, stops_window));
        assert(happens_once(teardown, stops_render));
        lemma_never_concat(construction, between, stops_window);
        lemma_never_concat(construction, between, stops_render);
        lemma_never_then_once(construction + between, teardown, stops_window);
        lemma_never_then_once(construction + between, teardown, stops_render);
        assert(trace[n] == teardown[0]);
        assert(trace[n + 1] == teardown[1]);
        assert(trace[n + 2] == teardown[2]);
    }
}

/// A frame keeps the caller's order: its calls are the frame's begin, then
/// the widget calls exactly as given, none added, dropped or moved, then
/// the two calls of the frame's end.
pub proof fn lemma_frame_order(widgets: Seq<NativeCallView>)
    ensures
        ({
            let frame = frame_calls(widgets);
            let n = widgets.len() as int;
            &&& frame.len() == n + 3
            &&& frame[0] == NativeCallView::NewFrame
            &&& frame.subrange(1, n + 1) == widgets
            &&& frame[n + 1] == NativeCallView::Render
            &&& frame[n + 2] == NativeCallView::Opengl3RenderDrawData
        }),
{
    let frame = frame_calls(widgets);
    let n = widgets.len() as int;
    assert(frame.subrange(1, n + 1) =~= widgets);
}

/// Frames follow one another without mixing: the calls of two consecutive
/// frames are the calls of the first, whole, then the calls of the second.
pub proof fn lemma_frames_in_sequence(first: Seq<NativeCallView>, second: Seq<NativeCallView>)
    ensures
        ({
            let both = frame_calls(first) + frame_calls(second);
            let n = frame_calls(first).len() as int;
            &&& both.subrange(0, n) == frame_calls(first)
            &&& both.subrange(n, both.len() as int) == frame_calls(second)
        }),
{
    let both = frame_calls(first) + frame_calls(second);
    let n = frame_calls(first).len() as int;
    assert(both.subrange(0, n) =~= frame_calls(first));
    assert(both.subrange(n, both.len() as int) =~= frame_calls(second));
}

} // verus!
