//! Geometry core of an analog clock widget.
//!
//! The core is exact integer arithmetic: rotations are fractions of a full
//! turn, radial bands are thousandths of the fitted radius, and angles are
//! millionths of a turn. Conversion to and from screen-space floating point
//! (and the GUI framework itself) lives outside the verified library.

pub mod event;
pub mod region;
pub mod render;
pub mod rotation;
pub mod time;
pub mod unit;
