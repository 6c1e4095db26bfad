//! The shapes of the palette and playlist files, and the paths the
//! scheduler reads animations from.

use vstd::prelude::*;

verus! {

/// The path to the base animation.
pub const BASE_PATH: &'static str = "./gifs/base.gif";

/// The path to the startup animation.
pub const STARTUP_PATH: &'static str = "./gifs/startup.gif";

/// The path to the directory with all the other animations.
pub const OTHER_PATH: &'static str = "./gifs/others/";

/// The path to the directory with all the blink animations.
pub const BLINK_PATH: &'static str = "./gifs/blinks/";

/// Failures of directory listings and other file operations.
#[derive(Debug)]
pub enum FileOperationsError {
    /// An IO error occurred; the payload is its message.
    Io(String),
}

/// The structure the JSON playlist files get parsed to.
#[derive(Debug)]
pub struct Playlist {
    /// Indicates that a JSON file contains a playlist.
    pub data_type: String,
    /// Paths as strings to the animations that should get played in
    /// the given order.
    pub entries: Vec<String>,
}

/// The structure the JSON palette files get parsed to.
#[derive(Debug)]
pub struct Palette {
    /// Indicates that a JSON file contains a palette.
    pub data_type: String,
    /// Entries are hex color strings.
    pub colors: Vec<String>,
}

} // verus!
