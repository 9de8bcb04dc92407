//! Verified core of the Tangram JavaScript bindings and of the window
//! component of the Tangram UI.
//!
//! * [`predict`] decides how a prediction request coming from JavaScript is
//!   turned into a batch for the model, which options the model is run with,
//!   and how the model's outputs are shaped into the reply.
//! * [`window`] lays out the window component: its frame, its top bar and the
//!   body that holds the caller's children.
//! * [`colors`] holds the colors the window's top bar uses.

pub mod colors;
pub mod predict;
pub mod window;
