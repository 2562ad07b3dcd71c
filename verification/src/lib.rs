//! The document session of a small desktop text editor, with the rules that
//! decide what an open or a save does, stated and proved.
//!
//! The crate performs no input or output. The program around it shows the
//! dialogs, reads and writes the files and repaints the window; this crate
//! decides what is to be done next and keeps track of the file that the text
//! belongs to.

pub mod date;
pub mod file_stream;
pub mod laws;
pub mod model;
pub mod session;
