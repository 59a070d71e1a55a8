//! Full-page capture of a remote rendering surface: tile planning, a
//! scroll-and-capture session driven one remote call at a time, and
//! composition of the captured tiles into one RGBA image.
pub mod compositor;
pub mod decode;
pub mod page_saver;
pub mod planner;
pub mod session;
