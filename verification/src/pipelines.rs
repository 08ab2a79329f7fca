//! The pipelines of the renderer, as far as their bindings go: for each, the
//! slot sets it declares and the groups that are bound to them once and for
//! all.

pub mod color3d;
pub mod phong;
pub mod texture2d;
pub mod uniform;
