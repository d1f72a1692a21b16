//! Verified core of a GPU shader gallery: shared frame state, surface
//! sizing, the uniform block, the frame-loop registry, the session
//! negotiation state machine and the closed set of shader works.

pub mod frame_state;
pub mod surface;
pub mod uniform;
pub mod frame_loop;
pub mod shader_work;
pub mod session;
pub mod content;
pub mod theme;
