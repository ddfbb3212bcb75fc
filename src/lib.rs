//! A small retained-mode rendering kernel for a WebGL canvas.
//!
//! The kernel never talks to the graphics driver itself. It keeps the render
//! model (linked programs, vertex buffers, attribute slots and the list of
//! drawable objects) and turns every operation into backend commands that
//! the host executes in order. Building a drawable object is a session that
//! asks the host for one backend step at a time and decides from each reply
//! what comes next. Host input reaches application code through an explicit
//! single-slot event bus that refuses reentrant dispatch.
use vstd::prelude::*;

pub mod event;
pub mod gl;
pub mod kernel;
pub mod object;

pub use event::{
    event, fixed_update_event, keyboard_event_down, keyboard_event_up, mouse_event_down,
    mouse_event_up, resize_event, touch_event_down, touch_event_up, update_event, Event, EventBus,
    Handler, ReentrantDispatchError,
};
pub use gl::{GlCommand, PrimitiveKind, Rgba};
pub use kernel::Context;
pub use object::{BuildError, BuildRequest, Builder, RenderObject, ShaderStage, VertexArray};
