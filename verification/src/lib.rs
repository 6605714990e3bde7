//! GPU context bootstrap and swapchain lifecycle management.
//!
//! This library holds the decision logic of a rendering-context bootstrap:
//! turning a window handle into a configured GPU context through a strict,
//! fallible chain of stages (instance, validation channel, device selection,
//! logical device, surface, swapchain, image views, render pass, pipeline),
//! unwound in exact reverse order on failure or shutdown.  It also holds the
//! planning logic of the ahead-of-time shader build: stage inference from
//! filename suffixes, artifact naming, and rebuild dependency tracking.
//!
//! The driver and the window system are collaborators outside this crate:
//! every decision here is a pure function from plain values (capability
//! reports, handle values, filenames) to plain values (choices, requests,
//! destroy plans), so the whole of it is verified.

pub mod bootstrap;
pub mod context;
pub mod device;
pub mod error;
pub mod instance;
pub mod pipeline;
pub mod rebuild;
pub mod shader;
pub mod swapchain;
pub mod text;
pub mod types;
