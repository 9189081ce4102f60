//! The persisted settings: where screenshots are saved, how files are
//! named, and the encoding they are written in. Reading and writing the
//! settings file is the host's business; the library only defines the value
//! and its defaults.

use vstd::prelude::*;

verus! {

/// The encoding screenshots are written in.
#[derive(Clone, Copy, PartialEq, Eq, Structural, Debug)]
pub enum ImageFormat {
    Png,
    Jpg,
}

/// The persisted settings.
#[derive(Debug)]
pub struct Config {
    pub save_directory: String,
    pub filename_template: String,
    pub default_format: ImageFormat,
}

impl Config {
    /// The default settings rooted at the given directory: a timestamped
    /// filename template and PNG output.
    pub fn with_save_directory(save_directory: String) -> (c: Config)
        ensures
            c.save_directory@ == save_directory@,
            c.filename_template@ == "screenshot-%Y-%m-%d-%H%M%S"@,
            c.default_format == ImageFormat::Png,
    {
        Config {
            save_directory,
            filename_template: "screenshot-%Y-%m-%d-%H%M%S".to_owned(),
            default_format: ImageFormat::Png,
        }
    }
}

} // verus!
