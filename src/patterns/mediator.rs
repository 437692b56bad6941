//! Mediator: a house owner and a buyer talk through an estate agent, who passes each message
//! on to the other side.
use vstd::prelude::*;
use vstd::string::StringExecFns;

verus! {

/// Passes messages between the parties.
pub trait Mediator {
    /// What passing on `msg` from the owner (or, if not `is_owner`, from the buyer) reports.
    spec fn relayed(&self, msg: Seq<char>, is_owner: bool) -> Seq<char>;

    /// Passes `msg` on to the other side; returns the report.
    fn chat(&self, msg: &str, is_owner: bool) -> (r: String)
        ensures
            r@ == self.relayed(msg@, is_owner),
    ;
}

/// A party to the sale.
pub trait Person {
    /// Whether the party owns the house.
    spec fn owns(&self) -> bool;

    /// A party named `name`.
    fn new(name: &str) -> Self where Self: Sized;

    /// Sends `msg` through `mediator`; returns the mediator's report.
    fn chat(&self, mediator: &dyn Mediator, msg: &str) -> (r: String)
        ensures
            r@ == mediator.relayed(msg@, self.owns()),
    ;
}

/// The owner of the house.
pub struct HouseOwner {
    name: String,
}

impl Person for HouseOwner {
    open spec fn owns(&self) -> bool {
        true
    }

    fn new(name: &str) -> Self {
        HouseOwner { name: name.to_owned() }
    }

    fn chat(&self, mediator: &dyn Mediator, msg: &str) -> (r: String) {
        mediator.chat(msg, true)
    }
}

/// Someone who may buy the house.
pub struct HouseBuyer {
    name: String,
}

impl Person for HouseBuyer {
    open spec fn owns(&self) -> bool {
        false
    }

    fn new(name: &str) -> Self {
        HouseBuyer { name: name.to_owned() }
    }

    fn chat(&self, mediator: &dyn Mediator, msg: &str) -> (r: String) {
        mediator.chat(msg, false)
    }
}

/// The estate agent between an owner and a buyer.
pub struct RealEstateManager<'a, 'b, Own: Person, Buy: Person> {
    house_owner: &'a Own,
    house_buyer: &'b Buy,
}

impl<'a, 'b, Own: Person, Buy: Person> RealEstateManager<'a, 'b, Own, Buy> {
    /// An agent between `owner` and `buyer`.
    pub fn new(owner: &'a Own, buyer: &'b Buy) -> (r: Self) {
        RealEstateManager { house_owner: owner, house_buyer: buyer }
    }
}

impl<'a, 'b, Own: Person, Buy: Person> Mediator for RealEstateManager<'a, 'b, Own, Buy> {
    open spec fn relayed(&self, msg: Seq<char>, is_owner: bool) -> Seq<char> {
        if is_owner {
            "To buyer : "@ + msg
        } else {
            "To owner : "@ + msg
        }
    }

    fn chat(&self, msg: &str, is_owner: bool) -> (r: String) {
        if is_owner {
            "To buyer : ".to_owned().concat(msg)
        } else {
            "To owner : ".to_owned().concat(msg)
        }
    }
}

} // verus!
