//! Adapter: an old implementation is offered behind the interface of the new one.
use vstd::prelude::*;

verus! {

/// The interface that callers use.
pub trait ApiImpl {
    /// What a call reports.
    spec fn report(&self) -> Seq<char>;

    /// Runs the call; returns its report.
    fn api1(&self) -> (r: String)
        ensures
            r@ == self.report(),
    ;
}

/// The new implementation.
pub struct NewApiImpl;

impl ApiImpl for NewApiImpl {
    open spec fn report(&self) -> Seq<char> {
        "new api running..."@
    }

    fn api1(&self) -> (r: String) {
        "new api running...".to_owned()
    }
}

/// The old implementation.
pub struct OldApiImpl;

impl ApiImpl for OldApiImpl {
    open spec fn report(&self) -> Seq<char> {
        "old api running..."@
    }

    fn api1(&self) -> (r: String) {
        "old api running...".to_owned()
    }
}

/// Offers the old implementation through the interface.
pub struct Adapter;

impl ApiImpl for Adapter {
    open spec fn report(&self) -> Seq<char> {
        "old api running..."@
    }

    fn api1(&self) -> (r: String) {
        let old = OldApiImpl;
        old.api1()
    }
}

/// Runs calls through the interface.
pub struct System;

impl System {
    /// Runs `api`; returns its report.
    pub fn run_api(api: impl ApiImpl) -> (r: String)
        ensures
            r@ == api.report(),
    {
        api.api1()
    }
}

} // verus!
