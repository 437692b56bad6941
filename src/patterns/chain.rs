//! Chain of responsibility: a leave request goes to the group leader, who passes what is
//! beyond their range on to the manager.
use vstd::prelude::*;

verus! {

pub const DAY_LITTLE: isize = 1;

pub const DAY_MID: isize = 4;

pub const DAY_LARGE: isize = 10;

/// Who approves a leave of `level` days: the group leader from 1 to 4 days, else the manager
/// up to 10 days, else nobody.
pub open spec fn approval(level: isize) -> Option<Seq<char>> {
    if 1 <= level <= 4 {
        Some("group leader : OK"@)
    } else if 4 <= level <= 10 {
        Some("manager : OK"@)
    } else {
        None
    }
}

/// A link of the chain.
pub trait Handler {
    /// What the chain from this link on answers to a request of `level` days.
    spec fn answer(&self, level: isize) -> Option<Seq<char>>;

    /// A new link.
    fn new() -> Self where Self: Sized;

    /// Handles a request of `level` days here or further along the chain; returns the approval,
    /// or `None` where no link approves.
    fn handle(&self, level: isize) -> (r: Option<String>)
        ensures
            r is None <==> self.answer(level) is None,
            r is Some ==> r.unwrap()@ == self.answer(level).unwrap(),
    ;
}

/// What a manager approving from `start` to `end` days answers to a request of `level` days.
pub open spec fn manager_answer(start: isize, end: isize, level: isize) -> Option<Seq<char>> {
    if start <= level <= end {
        Some("manager : OK"@)
    } else {
        None
    }
}

/// The first link: approves short leaves and passes the others on to a manager.
pub struct GroupLeader {
    start: isize,
    end: isize,
}

impl GroupLeader {
    /// The first and the last number of days the group leader approves.
    pub closed spec fn range(&self) -> (isize, isize) {
        (self.start, self.end)
    }
}

impl Handler for GroupLeader {
    open spec fn answer(&self, level: isize) -> Option<Seq<char>> {
        if self.range().0 <= level <= self.range().1 {
            Some("group leader : OK"@)
        } else {
            manager_answer(DAY_MID, DAY_LARGE, level)
        }
    }

    fn new() -> (r: Self)
        ensures
            r.range() == (DAY_LITTLE, DAY_MID),
            forall|level: isize| #[trigger] r.answer(level) == approval(level),
    {
        GroupLeader { start: DAY_LITTLE, end: DAY_MID }
    }

    fn handle(&self, level: isize) -> (r: Option<String>) {
        if level >= self.start && level <= self.end {
            Some("group leader : OK".to_owned())
        } else {
            let next = Manager::new();
            next.handle(level)
        }
    }
}

/// The last link: approves longer leaves.
pub struct Manager {
    start: isize,
    end: isize,
}

impl Manager {
    /// The first and the last number of days the manager approves.
    pub closed spec fn range(&self) -> (isize, isize) {
        (self.start, self.end)
    }
}

impl Handler for Manager {
    open spec fn answer(&self, level: isize) -> Option<Seq<char>> {
        manager_answer(self.range().0, self.range().1, level)
    }

    fn new() -> (r: Self)
        ensures
            r.range() == (DAY_MID, DAY_LARGE),
    {
        Manager { start: DAY_MID, end: DAY_LARGE }
    }

    fn handle(&self, level: isize) -> (r: Option<String>) {
        if level >= self.start && level <= self.end {
            Some("manager : OK".to_owned())
        } else {
            None
        }
    }
}

} // verus!
