//! A store of object ids that keeps the client's and the server's ranges
//! apart and never takes an id back.
use crate::types::object::Object;
use vstd::prelude::*;

verus! {

/// Largest id a client may allocate.
pub const CLIENT_ID_MAX: u32 = 0xFEFF_FFFF;

/// Smallest id the server allocates.
pub const SERVER_ID_MIN: u32 = 0xFF00_0000;

/// The interfaces of the client's objects, the id `n` at index `n - 1`, and
/// those of the server's, the id `SERVER_ID_MIN + n` at index `n`.
pub struct IdStore {
    client_ids: Vec<Object>,
    server_ids: Vec<Object>,
}

impl IdStore {
    /// The interfaces in the client's range, in the order of their ids.
    pub closed spec fn client(&self) -> Seq<Object> {
        self.client_ids@
    }

    /// The interfaces in the server's range, in the order of their ids.
    pub closed spec fn server(&self) -> Seq<Object> {
        self.server_ids@
    }

    /// What `lookup_id` answers.
    pub open spec fn spec_lookup(&self, id: u32) -> Option<Object> {
        if 1 <= id <= CLIENT_ID_MAX {
            if id - 1 < self.client().len() {
                Some(self.client()[id - 1])
            } else {
                None
            }
        } else if id >= SERVER_ID_MIN {
            if id - SERVER_ID_MIN < self.server().len() {
                Some(self.server()[id - SERVER_ID_MIN])
            } else {
                None
            }
        } else {
            None
        }
    }

    /// A store that holds the empty slot and the display.
    pub fn new() -> (s: Self)
        ensures
            s.client() == seq![Object::Null, Object::WlDisplay],
            s.server() == Seq::<Object>::empty(),
    {
        let mut client_ids = Vec::new();
        client_ids.push(Object::Null);
        client_ids.push(Object::WlDisplay);
        let s = IdStore { client_ids, server_ids: Vec::new() };
        s
    }

    /// Takes the next id of the client's range for an object of interface
    /// `obj` and returns it. For `Null` nothing is taken and the id is 0.
    pub fn get_next_id(&mut self, obj: Object) -> (id: u32)
        requires
            old(self).client().len() < CLIENT_ID_MAX,
        ensures
            final(self).server() == old(self).server(),
            obj is Null ==> id == 0 && final(self).client() == old(self).client(),
            obj !is Null ==> final(self).client() == old(self).client().push(obj) && id == old(self).client().len() + 1 && final(self).spec_lookup(id) == Some(obj),
    {
        match obj {
            Object::Null => {
                return 0;
            },
            _ => self.client_ids.push(obj),
        }
        self.client_ids.len() as u32
    }

    /// The interface stored for `id`, if the store holds the id.
    pub fn lookup_id(&self, id: u32) -> (r: Option<Object>)
        ensures
            r == self.spec_lookup(id),
    {
        if id >= 1 && id <= CLIENT_ID_MAX {
            let index = id as usize - 1;
            if index < self.client_ids.len() {
                return Some(self.client_ids[index]);
            }
        } else if id >= SERVER_ID_MIN {
            let index = (id - SERVER_ID_MIN) as usize;
            if index < self.server_ids.len() {
                return Some(self.server_ids[index]);
            }
        }
        None
    }
}

} // verus!
