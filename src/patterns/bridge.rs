//! Bridge: a system plays files through whichever video player it was given.
use vstd::prelude::*;
use vstd::string::StringExecFns;

verus! {

/// A decoder for one video format.
pub trait VideoPlayer {
    /// What decoding `file` reports.
    spec fn decoded(&self, file: Seq<char>) -> Seq<char>;

    /// A new player.
    fn new() -> Self where Self: Sized;

    /// Decodes `file`; returns the report.
    fn decode(&self, file: &str) -> (r: String)
        ensures
            r@ == self.decoded(file@),
    ;
}

/// Plays MP4 files.
pub struct MP4;

impl VideoPlayer for MP4 {
    open spec fn decoded(&self, file: Seq<char>) -> Seq<char> {
        file + " - mp4 decode"@
    }

    fn new() -> Self {
        MP4
    }

    fn decode(&self, file: &str) -> (r: String) {
        file.to_owned().concat(" - mp4 decode")
    }
}

/// Plays AVI files.
pub struct Avi;

impl VideoPlayer for Avi {
    open spec fn decoded(&self, file: Seq<char>) -> Seq<char> {
        file + " - avi decode"@
    }

    fn new() -> Self {
        Avi
    }

    fn decode(&self, file: &str) -> (r: String) {
        file.to_owned().concat(" - avi decode")
    }
}

/// An operating system that plays files through its player.
pub trait System {
    /// What playing `file` reports.
    spec fn played(&self, file: Seq<char>) -> Seq<char>;

    /// A system using `player`.
    fn new(player: Box<dyn VideoPlayer>) -> Self where Self: Sized;

    /// Plays `file`; returns the player's report.
    fn play(&self, file: &str) -> (r: String)
        ensures
            r@ == self.played(file@),
    ;
}

/// Linux, with its player.
pub struct Linux {
    player: Box<dyn VideoPlayer>,
}

impl System for Linux {
    closed spec fn played(&self, file: Seq<char>) -> Seq<char> {
        self.player.decoded(file)
    }

    fn new(player: Box<dyn VideoPlayer>) -> Self {
        Linux { player }
    }

    fn play(&self, file: &str) -> (r: String) {
        self.player.decode(file)
    }
}

/// macOS, with its player.
pub struct Mac {
    player: Box<dyn VideoPlayer>,
}

impl System for Mac {
    closed spec fn played(&self, file: Seq<char>) -> Seq<char> {
        self.player.decoded(file)
    }

    fn new(player: Box<dyn VideoPlayer>) -> Self {
        Mac { player }
    }

    fn play(&self, file: &str) -> (r: String) {
        self.player.decode(file)
    }
}

} // verus!
