//! The core of a brush-and-entity level editor: an immediate-mode control
//! surface with identity-keyed animation and exclusive mouse capture, and
//! the picking, selection and transform rules of the scene.
//!
//! The crate computes; it neither reads devices nor draws. A caller hands
//! it one snapshot of the input per frame, and carries out the draw
//! commands that the controls and the views leave behind.
//!
//! Scalars are fixed-point integers that count thousandths; see `fixed`.

pub mod fixed;
pub mod number;
pub mod text;
pub mod shape;
pub mod key;
pub mod input;
pub mod draw;
pub mod gizmo;
pub mod window;
pub mod panel;
pub mod label;
pub mod world;
pub mod pick;
pub mod helper;
pub mod editor;
pub mod scene;
pub mod asset;
pub mod game;
pub mod status;
