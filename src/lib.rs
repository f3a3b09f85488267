//! Picking and selection logic of a cylindrical colour-space widget.
//!
//! Each frame the widget draws the scene twice: once in colour for the eye and
//! once into an off-screen buffer whose pixels hold a position and the tag of
//! the object drawn there. The pixel under the pointer is read back, and its tag
//! decides which cylindrical axis the pointer is editing. This crate holds that
//! decision, the selection state it drives and the per-frame bookkeeping around
//! it. Coordinates are generic over their component type, so the logic does not
//! depend on how a component is represented.

pub mod coords;
pub mod pick;
pub mod selection;
pub mod input;
pub mod viewport;
pub mod widget;
pub mod render;
