//! An orbit camera and the scene it looks at.
pub mod orbit;
pub mod scene;
pub mod plugin;
