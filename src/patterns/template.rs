//! Template method: games share the steps of starting and ending, and may replace the ending.
use vstd::prelude::*;

verus! {

/// The steps every game goes through.
pub trait GameTemplate {
    /// Whether the game ends by calling the hook it is given rather than by its own report.
    spec fn ends_by_hook(&self) -> bool;

    /// A new game.
    fn init() -> Self where Self: Sized;

    /// Starts the game; returns the report.
    fn start(&self) -> (r: String)
        ensures
            r@ == "game start"@,
    {
        "game start".to_owned()
    }

    /// Ends the game: either calls `hook` and reports nothing, or reports the end itself.
    fn end<F: Fn() -> ()>(&self, hook: F) -> (r: Option<String>)
        requires
            hook.requires(()),
        ensures
            self.ends_by_hook() ==> r is None,
            !self.ends_by_hook() ==> r is Some && r.unwrap()@ == "game over"@,
    ;
}

/// A sports game, which keeps the shared ending.
pub struct SportGame;

impl GameTemplate for SportGame {
    open spec fn ends_by_hook(&self) -> bool {
        false
    }

    fn init() -> Self {
        SportGame
    }

    fn end<F: Fn() -> ()>(&self, hook: F) -> (r: Option<String>) {
        Some("game over".to_owned())
    }
}

/// A team game between a left and a right side.
pub struct MobaGame {
    left: String,
    right: String,
}

impl MobaGame {
    /// The left side's name.
    pub closed spec fn left_side(&self) -> Seq<char> {
        self.left@
    }

    /// The right side's name.
    pub closed spec fn right_side(&self) -> Seq<char> {
        self.right@
    }

    /// The winner: the left side if `is_left`, else the right side.
    pub fn win(&self, is_left: bool) -> (r: &str)
        ensures
            r@ == if is_left {
                self.left_side()
            } else {
                self.right_side()
            },
    {
        if is_left {
            self.left.as_str()
        } else {
            self.right.as_str()
        }
    }
}

impl GameTemplate for MobaGame {
    open spec fn ends_by_hook(&self) -> bool {
        true
    }

    fn init() -> (r: Self)
        ensures
            r.left_side() == "IG"@,
            r.right_side() == "EDG"@,
    {
        MobaGame { left: "IG".to_owned(), right: "EDG".to_owned() }
    }

    fn end<F: Fn() -> ()>(&self, hook: F) -> (r: Option<String>) {
        hook();
        None
    }
}

} // verus!
