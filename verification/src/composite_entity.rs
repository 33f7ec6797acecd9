//! A composite entity: a client-facing object that manages a coarse-grained
//! object, which in turn owns two dependent objects whose lifetimes it
//! controls.  Data set through the outer layers is forwarded down to the
//! dependent objects, and read back out through the same layers.

use vstd::prelude::*;

verus! {

/// A dependent object whose lifetime is managed by the coarse-grained
/// object holding it.
pub struct DependentObject1 {
    data: Option<&'static str>,
}

impl DependentObject1 {
    /// The characters stored, if any datum has been set.
    pub closed spec fn data_spec(&self) -> Option<Seq<char>> {
        match self.data {
            Some(s) => Some(s@),
            None => None,
        }
    }

    pub fn new() -> (r: DependentObject1)
        ensures
            r.data_spec() is None,
    {
        DependentObject1 { data: None }
    }

    pub fn set_data(&mut self, data: &'static str)
        ensures
            final(self).data_spec() == Some(data@),
    {
        self.data = Some(data)
    }

    pub fn get_data(&self) -> (r: Option<&'static str>)
        ensures
            match r {
                Some(s) => self.data_spec() == Some(s@),
                None => self.data_spec() is None,
            },
    {
        self.data
    }
}

/// The second dependent object; it stores its datum independently of the
/// first.
pub struct DependentObject2 {
    data: Option<&'static str>,
}

impl DependentObject2 {
    /// The characters stored, if any datum has been set.
    pub closed spec fn data_spec(&self) -> Option<Seq<char>> {
        match self.data {
            Some(s) => Some(s@),
            None => None,
        }
    }

    pub fn new() -> (r: DependentObject2)
        ensures
            r.data_spec() is None,
    {
        DependentObject2 { data: None }
    }

    pub fn set_data(&mut self, data: &'static str)
        ensures
            final(self).data_spec() == Some(data@),
    {
        self.data = Some(data)
    }

    pub fn get_data(&self) -> (r: Option<&'static str>)
        ensures
            match r {
                Some(s) => self.data_spec() == Some(s@),
                None => self.data_spec() is None,
            },
    {
        self.data
    }
}

/// The coarse-grained object: owns both dependent objects and manages
/// their data as one unit.
pub struct CoarseGrainedObject {
    do_1: DependentObject1,
    do_2: DependentObject2,
}

impl CoarseGrainedObject {
    pub closed spec fn data1_spec(&self) -> Option<Seq<char>> {
        self.do_1.data_spec()
    }

    pub closed spec fn data2_spec(&self) -> Option<Seq<char>> {
        self.do_2.data_spec()
    }

    pub fn new() -> (r: CoarseGrainedObject)
        ensures
            r.data1_spec() is None,
            r.data2_spec() is None,
    {
        CoarseGrainedObject { do_1: DependentObject1::new(), do_2: DependentObject2::new() }
    }

    pub fn set_data(&mut self, data1: &'static str, data2: &'static str)
        ensures
            final(self).data1_spec() == Some(data1@),
            final(self).data2_spec() == Some(data2@),
    {
        self.do_1.set_data(data1);
        self.do_2.set_data(data2);
    }

    /// Both data, in the order the dependent objects are owned.
    pub fn get_data(&self) -> (r: Vec<Option<&'static str>>)
        ensures
            r@.len() == 2,
            match r@[0] {
                Some(s) => self.data1_spec() == Some(s@),
                None => self.data1_spec() is None,
            },
            match r@[1] {
                Some(s) => self.data2_spec() == Some(s@),
                None => self.data2_spec() is None,
            },
    {
        vec![self.do_1.get_data(), self.do_2.get_data()]
    }
}

/// The composite entity: the outer object a client talks to; it simply
/// carries the coarse-grained object through an unchanged interface.
pub struct CompositeEntity {
    cgo: CoarseGrainedObject,
}

impl CompositeEntity {
    pub closed spec fn data1_spec(&self) -> Option<Seq<char>> {
        self.cgo.data1_spec()
    }

    pub closed spec fn data2_spec(&self) -> Option<Seq<char>> {
        self.cgo.data2_spec()
    }

    pub fn new() -> (r: CompositeEntity)
        ensures
            r.data1_spec() is None,
            r.data2_spec() is None,
    {
        CompositeEntity { cgo: CoarseGrainedObject::new() }
    }

    pub fn set_data(&mut self, data1: &'static str, data2: &'static str)
        ensures
            final(self).data1_spec() == Some(data1@),
            final(self).data2_spec() == Some(data2@),
    {
        self.cgo.set_data(data1, data2);
    }

    pub fn get_data(&self) -> (r: Vec<Option<&'static str>>)
        ensures
            r@.len() == 2,
            match r@[0] {
                Some(s) => self.data1_spec() == Some(s@),
                None => self.data1_spec() is None,
            },
            match r@[1] {
                Some(s) => self.data2_spec() == Some(s@),
                None => self.data2_spec() is None,
            },
    {
        self.cgo.get_data()
    }
}

/// The client: sets data through the composite entity and reads it back
/// for display; a caller that wants to print takes the data from
/// `get_data`.
pub struct Client {
    composite_entity: CompositeEntity,
}

impl Client {
    pub closed spec fn data1_spec(&self) -> Option<Seq<char>> {
        self.composite_entity.data1_spec()
    }

    pub closed spec fn data2_spec(&self) -> Option<Seq<char>> {
        self.composite_entity.data2_spec()
    }

    pub fn new() -> (r: Client)
        ensures
            r.data1_spec() is None,
            r.data2_spec() is None,
    {
        Client { composite_entity: CompositeEntity::new() }
    }

    pub fn set_data(&mut self, data1: &'static str, data2: &'static str)
        ensures
            final(self).data1_spec() == Some(data1@),
            final(self).data2_spec() == Some(data2@),
    {
        self.composite_entity.set_data(data1, data2);
    }

    pub fn get_data(&self) -> (r: Vec<Option<&'static str>>)
        ensures
            r@.len() == 2,
            match r@[0] {
                Some(s) => self.data1_spec() == Some(s@),
                None => self.data1_spec() is None,
            },
            match r@[1] {
                Some(s) => self.data2_spec() == Some(s@),
                None => self.data2_spec() is None,
            },
    {
        self.composite_entity.get_data()
    }
}

} // verus!
