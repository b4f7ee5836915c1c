//! The verified core of a shadow-mapped forward renderer: camera control,
//! light records and their buffer layout, the per-light shadow passes, model
//! and material structure with its draw plans, and the per-frame policy.
//! Floating-point math and GPU work stay with the caller, which hands this
//! crate plain values and carries out the plans it returns.

pub mod camera;
pub mod frame;
pub mod light;
pub mod model;
pub mod shadow;
pub mod ui;
