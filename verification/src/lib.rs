//! Multi-modal input capture and object manipulation.
//!
//! Several pointing modalities (tracked hands, squeeze controllers and
//! ray/mouse pointers) compete each frame for control of capturable
//! objects. The library decides which single method owns each object,
//! detects the grab gesture of each modality, and while an object is held
//! recomputes its local transform from the controlling method's current
//! pose and a fixed offset recorded at grab time. A one-dimensional scroll
//! channel pushes or pulls a held object along the depth axis.
//!
//! All geometry is exact fixed-point arithmetic: lengths are integer
//! counts of micrometres and proximity thresholds compare squared
//! distances, so every decision is fully characterised by its contract.
//! The laws module states and proves the properties the subsystem is
//! designed around: single ownership, gesture-gated grabs, offset
//! stability, release on gesture end, and the pointer fallback.

pub mod capture;
pub mod grab;
pub mod handler;
pub mod input;
pub mod laws;
pub mod math;
