//! A small cartoon paw rig: the jointed arm, palm and fingers that follow the
//! pointer and clench or open on button state, plus the placement of the
//! overlay window on the active display.
//!
//! All geometry is fixed point: lengths and coordinates are thousandths of a
//! logical pixel, the grip factor is in millionths, and time is in
//! microseconds. Rotations are direction vectors, so no angle is ever
//! rounded.
pub mod geom;
pub mod rig;
pub mod pose;
pub mod grip;
pub mod placement;
