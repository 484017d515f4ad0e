//! The decision logic of the Rnote drawing application: the stroke store
//! with its components, image buffers, the duplicate-file naming, the
//! workspace list, the color picker and the choices the main window makes.

pub mod colorpicker;
pub mod duplicate;
pub mod image;
pub mod names;
pub mod paths;
pub mod pens;
pub mod recovery;
pub mod strokes;
pub mod text;
pub mod uris;
pub mod window;
pub mod workspaces;
