//! Integer core of a 2D acoustic finite-difference time-domain simulation:
//! grid geometry and the stencil sweep of the stepper, regions of cells for
//! medium edits, emitters and markers, the pixel frame, the probe recorder,
//! and the control surface with its event handling.

pub mod grid;
pub mod region;
pub mod medium;
pub mod controls;
pub mod recorder;
pub mod frame;
pub mod session;
