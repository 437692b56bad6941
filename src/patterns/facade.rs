//! Facade: one helper switches named appliances on or off.
use vstd::prelude::*;

verus! {

/// An appliance that can be switched.
pub trait ElectricalEquipment {
    /// The appliance's name.
    spec fn label(&self) -> Seq<char>;

    /// What switching on (or, if not `on`, off) reports.
    spec fn switched(&self, on: bool) -> Seq<char>;

    /// An appliance named `name`.
    fn new(name: &str) -> (r: Self) where Self: Sized
        ensures
            r.label() == name@,
    ;

    /// Switches on; returns the report.
    fn on(&self) -> (r: String)
        ensures
            r@ == self.switched(true),
    ;

    /// Switches off; returns the report.
    fn off(&self) -> (r: String)
        ensures
            r@ == self.switched(false),
    ;

    /// The name.
    fn name(&self) -> (r: &str)
        ensures
            r@ == self.label(),
    ;
}

/// A rice cooker.
pub struct RiceCooker {
    name: String,
}

impl ElectricalEquipment for RiceCooker {
    closed spec fn label(&self) -> Seq<char> {
        self.name@
    }

    open spec fn switched(&self, on: bool) -> Seq<char> {
        if on {
            "rice_cooker on..."@
        } else {
            "rice_cooker off..."@
        }
    }

    fn new(name: &str) -> (r: Self) {
        RiceCooker { name: name.to_owned() }
    }

    fn on(&self) -> (r: String) {
        "rice_cooker on...".to_owned()
    }

    fn off(&self) -> (r: String) {
        "rice_cooker off...".to_owned()
    }

    fn name(&self) -> (r: &str) {
        self.name.as_str()
    }
}

/// A light.
pub struct Light {
    name: String,
}

impl ElectricalEquipment for Light {
    closed spec fn label(&self) -> Seq<char> {
        self.name@
    }

    open spec fn switched(&self, on: bool) -> Seq<char> {
        if on {
            "light on..."@
        } else {
            "light off..."@
        }
    }

    fn new(name: &str) -> (r: Self) {
        Light { name: name.to_owned() }
    }

    fn on(&self) -> (r: String) {
        "light on...".to_owned()
    }

    fn off(&self) -> (r: String) {
        "light off...".to_owned()
    }

    fn name(&self) -> (r: &str) {
        self.name.as_str()
    }
}

/// The reports of switching every appliance of `workers` named `name`, in their order.
pub open spec fn switch_reports(
    workers: Seq<Box<dyn ElectricalEquipment>>,
    name: Seq<char>,
    on: bool,
) -> Seq<Seq<char>>
    decreases workers.len(),
{
    if workers.len() == 0 {
        Seq::empty()
    } else {
        let earlier = switch_reports(workers.drop_last(), name, on);
        if workers.last().label() == name {
            earlier.push(workers.last().switched(on))
        } else {
            earlier
        }
    }
}

/// Switches appliances by name.
pub struct AIHelper {
    workers: Vec<Box<dyn ElectricalEquipment>>,
}

impl AIHelper {
    /// The appliances, in the order they were added.
    pub closed spec fn workers(&self) -> Seq<Box<dyn ElectricalEquipment>> {
        self.workers@
    }

    /// A helper with no appliance.
    pub fn new() -> (r: Self)
        ensures
            r.workers().len() == 0,
    {
        AIHelper { workers: Vec::new() }
    }

    /// Adds `work` after the others.
    pub fn push(&mut self, work: Box<dyn ElectricalEquipment>)
        ensures
            final(self).workers() == old(self).workers().push(work),
    {
        self.workers.push(work);
    }

    /// Switches on (or, if not `on`, off) every appliance named `worker_name`, in order;
    /// returns their reports.
    pub fn ctrl(&self, worker_name: &str, on: bool) -> (r: Vec<String>)
        ensures
            r@.map_values(|s: String| s@) == switch_reports(self.workers(), worker_name@, on),
    {
        let wanted = worker_name.to_owned();
        let mut out: Vec<String> = Vec::new();
        let mut i: usize = 0;
        while i < self.workers.len()
            invariant
                i <= self.workers@.len(),
                wanted@ == worker_name@,
                out@.map_values(|s: String| s@) == switch_reports(
                    self.workers@.take(i as int),
                    worker_name@,
                    on,
                ),
            decreases self.workers@.len() - i,
        {
            let worker = &self.workers[i];
            let name = worker.name().to_owned();
            let ghost before = out@;
            if wanted == name {
                if on {
                    out.push(worker.on());
                } else {
                    out.push(worker.off());
                }
                assert(out@.map_values(|s: String| s@) =~= before.map_values(|s: String| s@).push(
                    worker.switched(on),
                ));
            }
            assert(self.workers@.take(i + 1).drop_last() =~= self.workers@.take(i as int));
            i = i + 1;
        }
        assert(self.workers@.take(i as int) =~= self.workers@);
        out
    }
}

} // verus!
