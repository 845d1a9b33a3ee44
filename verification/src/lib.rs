//! A single-threaded event-queue adapter for a WebGL-capable canvas backend.
//!
//! The native layer (windowing toolkit and GL/WebGL driver) pushes
//! notifications into the adapter through callbacks; application code pulls
//! translated events back out, one head event at a time, without blocking
//! and without losing what it has not yet asked for. The adapter
//! preserves notification order (FIFO), translates native button codes and
//! coordinates exactly, ignores unrecognized notification kinds, and maps
//! native failure codes to a fixed table of messages. The native calls
//! themselves live in the embedding shell; this crate holds and verifies
//! every decision the backend makes.

pub mod errors;
pub mod events;
pub mod laws;
pub mod queue;
pub mod window;

pub use errors::error_to_str;
pub use errors::make_current_result;
pub use errors::Api;
pub use errors::ContextError;
pub use errors::CreationError;
pub use events::ElementState;
pub use events::Event;
pub use events::MouseButton;
pub use events::MouseEvent;
pub use queue::EventQueue;
pub use window::mouse_callback;
pub use window::CursorState;
pub use window::MouseCursor;
pub use window::WaitDecision;
pub use window::Window;
