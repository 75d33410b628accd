//! A retained-mode scene-graph core for an animated 3D scene: an articulated
//! helicopter over terrain, rendered by a dedicated thread that exchanges
//! input and lifecycle state with the window's event thread.
//!
//! Scalars are fixed-point: an `i64` counts thousandths of a unit (or of a
//! radian, for angles). A transform is represented by the ordered sequence of
//! its primitive factors, so composing transforms is sequence concatenation;
//! the process that drives the GPU folds a factor sequence into a concrete
//! matrix by multiplying the factors in order.

pub mod dispatch;
pub mod math;
pub mod render;
pub mod scene;
pub mod shared;
pub mod transform;
pub mod traverse;
