//! Decision logic of a small windowed renderer: which window events end the
//! render loop, how a resize changes the camera, and which GPU commands make
//! up one frame.  Nothing here touches a window or a device; a host program
//! performs the commands this crate hands out.

pub mod event;
pub mod projection;
pub mod render_loop;
pub mod scene;
pub mod window;

pub use event::{Event, KeyCode, KeyState};
pub use projection::{Projection, Ratio};
pub use render_loop::{Command, LoopState, LoopView, RenderLoop};
pub use scene::Vertex;
pub use window::Window;
