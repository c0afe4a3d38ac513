//! A terminal directory browser's core: a directory listing with a wrapping
//! selection, a command line edited by characters, and the modal controller that
//! turns key presses into changes of both and into file-system work for its caller.

pub mod console;
pub mod controller;
pub mod listing;
pub mod paths;
