//! Resolution of a named module image, on disk and in memory.
//!
//! A module such as `user32.dll` has two images: the file on disk, and
//! the region of memory that the loader mapped it to, with its addresses
//! fixed up. [`get_static`] resolves the first, [`get_dynamic`] the
//! second.
//!
//! The crate decides; the caller acts. Each resolver is a short
//! conversation: the library says what to ask the host next (is this a
//! file? read it; is this module loaded? load it), the caller asks and
//! hands the answer back, and the library either asks again or gives the
//! result. Nothing here touches the filesystem or the loader itself.

pub mod name;
pub mod search_path;
pub mod static_image;
pub mod static_laws;
pub mod dynamic_image;
pub mod dynamic_laws;

pub use dynamic_image::get_dynamic;
pub use static_image::get_static;
