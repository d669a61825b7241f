//! A verified model of an on-screen 3D transform gizmo: the widget that
//! lets a user translate and rotate the selected objects of a scene by
//! dragging its handles.
//!
//! The interaction core — gizmo placement over the selection centroid,
//! the drag state machine with its per-interaction-kind delta math, and
//! settings propagation — is carried out over exact rational arithmetic,
//! so its drift-free, idempotent behaviour is proved rather than sampled.
//! Rendering, picking and windowing are the host application's concern;
//! this crate owns the data model and the math.

pub mod rat;
pub mod vec3;
pub mod quat;
pub mod transform;
pub mod gizmo;
pub mod scene;
pub mod systems;
pub mod drag;
pub mod view;
pub mod mesh;
pub mod laws;
