//! Decision logic for flashing firmware images onto the two halves of a
//! split keyboard: which files in a directory are firmware images, which
//! image belongs to which half, and what the operator is asked and told
//! while the images are copied.
//!
//! Everything here works on plain values. Reading the directory, talking to
//! the operator and copying files are left to the caller.
//!
//! - [`args`]: the command line.
//! - [`scanner`]: from a directory listing to the firmware files, newest first.
//! - [`matcher`]: from the firmware files to one file for each module.
//! - [`flasher`]: the run itself, as a state machine that the caller drives.
//! - [`text`]: suffix tests and trimming.

pub mod args;
pub mod flasher;
pub mod matcher;
pub mod scanner;
pub mod text;
