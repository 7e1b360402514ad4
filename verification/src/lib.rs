//! Marshalling core of a Dear ImGui binding.
//!
//! The crate turns host-level widget requests into descriptions of native
//! entry-point invocations and decodes what the native side reports back.
//! It performs no foreign call itself: a caller executes each
//! [`NativeCall`] and feeds the [`NativeReply`] back in.

pub mod col;
pub mod cond;
pub mod convert;
pub mod imgui;
pub mod native;
pub mod protocol;
pub mod setup;
pub mod table_flags;
pub mod text;
pub mod window_flags;

pub use imgui::ImGui;
pub use native::{NativeCall, NativeReply, Output};
pub use setup::{
    ContextPending, InitError, RenderBackendPending, SetupFailure, WindowBackendPending,
};
pub use text::{CText, NulError};
