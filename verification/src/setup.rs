//! Construction of the shim, one native outcome at a time.
//!
//! Three things are acquired in order: the context, the windowing backend,
//! the rendering backend. Each stage is a type of its own that is consumed
//! by the reply it waits for, so the stages cannot be skipped, repeated or
//! taken out of order. A refused step ends construction with the calls that
//! release what the earlier steps had acquired.

use crate::convert::{bool_to_int, int_of_bool};
use crate::imgui::ImGui;
use crate::native::{call_views, NativeCall, NativeCallView, NativeReply};
use crate::text::{c_text, CText};
use vstd::prelude::*;
use vstd::string::StringSliceAdditionalSpecFns;

verus! {

/// The GLSL version directive handed to the rendering backend.
pub open spec fn glsl_version_bytes() -> Seq<u8> {
    "#version 330".spec_bytes()
}

/// The call that attaches the windowing backend to `window`.
pub open spec fn init_glfw_call(window: usize, install_callbacks: bool) -> NativeCallView {
    NativeCall::InitForGlfw { window: window, install_callbacks: int_of_bool(install_callbacks) }
}

/// The call that starts the rendering backend.
pub open spec fn init_opengl3_call() -> NativeCallView {
    NativeCall::InitForOpengl3 { glsl_version: c_text(glsl_version_bytes()) }
}

/// The calls that undo what construction had acquired when it failed with
/// `error`.
pub open spec fn cleanup_calls(error: InitError, ctx: usize) -> Seq<NativeCallView> {
    match error {
        InitError::Context => Seq::empty(),
        InitError::WindowBackend => seq![NativeCall::DestroyContext { ctx: ctx }],
        InitError::RenderBackend => seq![
            NativeCall::ShutdownGlfw,
            NativeCall::DestroyContext { ctx: ctx },
        ],
    }
}

/// The step of construction that the native side refused.
#[derive(Debug, Clone, Copy, PartialEq, Eq, Structural)]
pub enum InitError {
    /// No context was created (a null handle came back).
    Context,
    /// The windowing backend did not start.
    WindowBackend,
    /// The rendering backend did not start.
    RenderBackend,
}

/// A failed construction. No shim exists; `cleanup` holds the calls that
/// release what had been acquired, to be executed in order.
#[derive(Debug)]
pub struct SetupFailure {
    pub error: InitError,
    pub cleanup: Vec<NativeCall>,
}

/// Construction, first stage: the context has been requested.
#[derive(Debug)]
pub struct ContextPending {
    window: usize,
    install_callbacks: bool,
}

/// Construction, second stage: the context exists and the windowing backend
/// has been asked to start.
#[derive(Debug)]
pub struct WindowBackendPending {
    ctx: usize,
}

/// Construction, third stage: the windowing backend runs and the rendering
/// backend has been asked to start.
#[derive(Debug)]
pub struct RenderBackendPending {
    ctx: usize,
}

/// The version directive as a text buffer. The directive is plain ASCII
/// without a zero byte, so its conversion cannot fail.
fn glsl_version() -> (t: CText)
    ensures
        t@ == c_text(glsl_version_bytes()),
{
    let r = CText::new("#version 330");
    proof {
        reveal_strlit("#version 330");
        vstd::string::is_ascii_spec_bytes("#version 330");
        assert(vstd::string::is_ascii("#version 330"));
    }
    match r {
        Ok(t) => t,
        Err(_) => unreached(),
    }
}

impl ContextPending {
    /// The first stage, entered when the context is requested.
    pub(crate) fn start(window: usize, install_callbacks: bool) -> (r: ContextPending)
        ensures
            r.window() == window,
            r.install_callbacks() == install_callbacks,
    {
        ContextPending { window, install_callbacks }
    }

    /// The window the backends will be attached to.
    pub closed spec fn window(&self) -> usize {
        self.window
    }

    /// Whether the windowing backend is to install its own input callbacks.
    pub closed spec fn install_callbacks(&self) -> bool {
        self.install_callbacks
    }

    /// Takes the reply to context creation. A null handle ends construction
    /// with nothing to release; any other handle is followed by the start of
    /// the windowing backend.
    pub fn created(self, reply: &NativeReply) -> (r: Result<
        (NativeCall, WindowBackendPending),
        SetupFailure,
    >)
        ensures
            match r {
                Ok((call, next)) => {
                    &&& reply.handle() != 0
                    &&& call@ == init_glfw_call(self.window(), self.install_callbacks())
                    &&& next.context() == reply.handle()
                },
                Err(failure) => {
                    &&& reply.handle() == 0
                    &&& failure.error == InitError::Context
                    &&& call_views(failure.cleanup@) == cleanup_calls(InitError::Context, 0)
                },
            },
    {
        let ctx = reply.returned_handle();
        if ctx == 0 {
            let failure = SetupFailure { error: InitError::Context, cleanup: Vec::new() };
            assert(call_views(failure.cleanup@) =~= cleanup_calls(InitError::Context, ctx));
            Err(failure)
        } else {
            let call = NativeCall::InitForGlfw {
                window: self.window,
                install_callbacks: bool_to_int(self.install_callbacks),
            };
            Ok((call, WindowBackendPending { ctx }))
        }
    }
}

impl WindowBackendPending {
    #[verifier::type_invariant]
    spec fn inv(self) -> bool {
        self.ctx != 0
    }

    /// The handle of the context under construction.
    pub closed spec fn context(&self) -> usize {
        self.ctx
    }

    /// Takes the reply of the windowing backend. A false result ends
    /// construction and the context is destroyed; a true one is followed by
    /// the start of the rendering backend.
    pub fn initialized(self, reply: &NativeReply) -> (r: Result<
        (NativeCall, RenderBackendPending),
        SetupFailure,
    >)
        ensures
            match r {
                Ok((call, next)) => {
                    &&& reply.truth()
                    &&& call@ == init_opengl3_call()
                    &&& next.context() == self.context()
                },
                Err(failure) => {
                    &&& !reply.truth()
                    &&& failure.error == InitError::WindowBackend
                    &&& call_views(failure.cleanup@) == cleanup_calls(
                        InitError::WindowBackend,
                        self.context(),
                    )
                },
            },
    {
        proof {
            use_type_invariant(&self);
        }
        if !reply.returned_true() {
            let mut cleanup: Vec<NativeCall> = Vec::new();
            cleanup.push(NativeCall::DestroyContext { ctx: self.ctx });
            assert(call_views(cleanup@) =~= cleanup_calls(InitError::WindowBackend, self.ctx));
            Err(SetupFailure { error: InitError::WindowBackend, cleanup })
        } else {
            let call = NativeCall::InitForOpengl3 { glsl_version: glsl_version() };
            Ok((call, RenderBackendPending { ctx: self.ctx }))
        }
    }
}

impl RenderBackendPending {
    #[verifier::type_invariant]
    spec fn inv(self) -> bool {
        self.ctx != 0
    }

    /// The handle of the context under construction.
    pub closed spec fn context(&self) -> usize {
        self.ctx
    }

    /// Takes the reply of the rendering backend. A false result ends
    /// construction: the windowing backend is shut down and the context
    /// destroyed. A true one completes the shim.
    pub fn initialized(self, reply: &NativeReply) -> (r: Result<ImGui, SetupFailure>)
        ensures
            match r {
                Ok(imgui) => reply.truth() && imgui.context() == self.context(),
                Err(failure) => {
                    &&& !reply.truth()
                    &&& failure.error == InitError::RenderBackend
                    &&& call_views(failure.cleanup@) == cleanup_calls(
                        InitError::RenderBackend,
                        self.context(),
                    )
                },
            },
    {
        proof {
            use_type_invariant(&self);
        }
        if !reply.returned_true() {
            let mut cleanup: Vec<NativeCall> = Vec::new();
            cleanup.push(NativeCall::ShutdownGlfw);
            cleanup.push(NativeCall::DestroyContext { ctx: self.ctx });
            assert(call_views(cleanup@) =~= cleanup_calls(InitError::RenderBackend, self.ctx));
            Err(SetupFailure { error: InitError::RenderBackend, cleanup })
        } else {
            Ok(ImGui::with_context(self.ctx))
        }
    }
}

} // verus!
