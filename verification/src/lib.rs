//! Memory-test protocol for GPU memory: window planning, the test pattern,
//! the verification kernel's logic, the control structure shared between host
//! and device, and the host-side sweep state machine.

pub mod bits;
pub mod control;
pub mod device;
pub mod format;
pub mod kernel;
pub mod orchestrator;
pub mod params;
pub mod pattern;
pub mod window;
