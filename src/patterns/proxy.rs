//! Proxy: the real data is made the first time it is asked for.
use vstd::prelude::*;

verus! {

/// Something that can be shown.
pub trait Ref {
    /// What showing prints, if there is anything to show.
    spec fn shown(&self) -> Option<Seq<char>>;

    /// Shows; returns what is printed, if anything.
    fn show(&self) -> (r: Option<String>)
        ensures
            r is None <==> self.shown() is None,
            r is Some ==> r.unwrap()@ == self.shown().unwrap(),
    ;
}

/// The data behind the proxy.
#[derive(Debug)]
pub struct RealData {
    data: String,
}

impl View for RealData {
    type V = Seq<char>;

    closed spec fn view(&self) -> Seq<char> {
        self.data@
    }
}

impl RealData {
    /// Data holding `data`.
    pub fn new(data: &str) -> (r: Self)
        ensures
            r@ == data@,
    {
        RealData { data: data.to_owned() }
    }
}

/// Stands for the data named `name` until it is needed.
pub struct DataProxy {
    name: String,
    data: Option<RealData>,
}

impl DataProxy {
    /// The name of the data.
    pub closed spec fn name(&self) -> Seq<char> {
        self.name@
    }

    /// Data that has been made holds the name.
    pub closed spec fn wf(&self) -> bool {
        self.data is Some ==> self.data.unwrap()@ == self.name@
    }

    /// Whether the data has been made.
    pub closed spec fn loaded(&self) -> bool {
        self.data is Some
    }

    /// A proxy for the data named `name`, not made yet.
    pub fn new(name: &str) -> (r: DataProxy)
        ensures
            r.wf(),
            r.name() == name@,
            !r.loaded(),
    {
        DataProxy { name: name.to_owned(), data: None }
    }

    /// The data, made from the name on the first call.
    pub fn get(&mut self) -> (r: Option<&RealData>)
        requires
            old(self).wf(),
        ensures
            final(self).wf(),
            final(self).loaded(),
            final(self).name() == old(self).name(),
            r is Some,
            r.unwrap()@ == old(self).name(),
    {
        if self.data.is_none() {
            self.data = Some(RealData::new(self.name.as_str()));
        }
        self.data.as_ref()
    }
}

impl Ref for DataProxy {
    closed spec fn shown(&self) -> Option<Seq<char>> {
        match self.data {
            None => None,
            Some(d) => Some(d@),
        }
    }

    fn show(&self) -> (r: Option<String>) {
        match &self.data {
            None => None,
            Some(res) => Some(res.data.clone()),
        }
    }
}

} // verus!
