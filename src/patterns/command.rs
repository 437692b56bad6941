//! Command: orders are queued by an invoker and carried out together, in the order given.
use vstd::prelude::*;

verus! {

/// An order that a worker carries out.
pub trait Order {
    /// What carrying out the order reports.
    spec fn report(&self) -> Seq<char>;

    /// A new order.
    fn new() -> Self where Self: Sized;

    /// Carries the order out; returns its report.
    fn run(&self) -> (r: String)
        ensures
            r@ == self.report(),
    ;
}

/// Carries out buying and selling.
pub struct Worker;

impl Worker {
    fn new() -> (r: Self) {
        Worker
    }

    fn sell(&self) -> (r: String)
        ensures
            r@ == "buy"@,
    {
        "buy".to_owned()
    }

    fn buy(&self) -> (r: String)
        ensures
            r@ == "sell"@,
    {
        "sell".to_owned()
    }
}

/// An order to buy.
pub struct BuyOrder {
    worker: Worker,
}

impl Order for BuyOrder {
    open spec fn report(&self) -> Seq<char> {
        "sell"@
    }

    fn new() -> Self {
        BuyOrder { worker: Worker::new() }
    }

    fn run(&self) -> (r: String) {
        self.worker.buy()
    }
}

/// An order to sell.
pub struct SellOrder {
    worker: Worker,
}

impl Order for SellOrder {
    open spec fn report(&self) -> Seq<char> {
        "buy"@
    }

    fn new() -> Self {
        SellOrder { worker: Worker::new() }
    }

    fn run(&self) -> (r: String) {
        self.worker.sell()
    }
}

proof fn lemma_push_len<A>(s: Seq<A>, a: A)
    ensures
        s.push(a).len() == s.len() + 1,
{
}

/// Queues orders and carries them out together.
pub struct Invoker {
    orders: Vec<Box<dyn Order>>,
}

impl View for Invoker {
    type V = Seq<Box<dyn Order>>;

    /// The queued orders, first queued first.
    closed spec fn view(&self) -> Seq<Box<dyn Order>> {
        self.orders@
    }
}

impl Invoker {
    /// An invoker with no order queued.
    pub fn new() -> (r: Self)
        ensures
            r@.len() == 0,
    {
        Invoker { orders: Vec::new() }
    }

    /// Queues `order` after the others.
    pub fn add(&mut self, order: Box<dyn Order>)
        ensures
            final(self)@ == old(self)@.push(order),
            final(self)@.len() == old(self)@.len() + 1,
    {
        self.orders.push(order);
        proof {
            lemma_push_len(old(self)@, order);
        }
    }

    /// Carries out the queued orders in the order they were queued and empties the queue;
    /// returns their reports in that order.
    pub fn run(&mut self) -> (r: Vec<String>)
        ensures
            r@.len() == old(self)@.len(),
            forall|i: int| 0 <= i < r@.len() ==> #[trigger] r@[i]@ == old(self)@[i].report(),
            final(self)@.len() == 0,
    {
        let mut reports: Vec<String> = Vec::new();
        let mut i: usize = 0;
        while i < self.orders.len()
            invariant
                self.orders@ == old(self)@,
                i <= self.orders@.len(),
                reports@.len() == i,
                forall|k: int| 0 <= k < i ==> #[trigger] reports@[k]@ == self.orders@[k].report(),
            decreases self.orders@.len() - i,
        {
            let report = self.orders[i].run();
            reports.push(report);
            i = i + 1;
        }
        self.orders.clear();
        reports
    }
}

} // verus!
