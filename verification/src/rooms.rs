//! The registry of open game rooms, keyed by each room's 128-bit UUID value, as far as
//! the moderation endpoints read and change it.

use vstd::prelude::*;
use crate::service::{RoomInfo, RoomInfoView};
use crate::table::{assoc, keys_unique, lemma_assoc_at, lemma_assoc_dom, lemma_assoc_push, lemma_assoc_remove};

verus! {

/// One open room.
#[derive(Debug)]
pub struct RoomEntry {
    pub id: u128,
    pub value: RoomInfo,
}

/// The id/value pairs of a list of rooms, by their views.
pub open spec fn room_pairs(s: Seq<RoomEntry>) -> Seq<(u128, RoomInfoView)> {
    s.map_values(|e: RoomEntry| (e.id, e.value@))
}

/// The open rooms; no id occurs twice.
#[derive(Debug)]
pub struct RoomRegistry {
    rooms: Vec<RoomEntry>,
}

impl View for RoomRegistry {
    type V = Map<u128, RoomInfoView>;

    closed spec fn view(&self) -> Map<u128, RoomInfoView> {
        assoc(room_pairs(self.rooms@))
    }
}

impl RoomRegistry {
    /// The registry's internal invariant: its ids are distinct.
    pub closed spec fn wf(&self) -> bool {
        keys_unique(room_pairs(self.rooms@))
    }

    /// No rooms.
    pub fn new() -> (r: Self)
        ensures
            r.wf(),
            r@ == Map::<u128, RoomInfoView>::empty(),
    {
        let r = RoomRegistry { rooms: Vec::new() };
        assert(room_pairs(r.rooms@) =~= Seq::<(u128, RoomInfoView)>::empty());
        r
    }

    /// The open rooms, in their stored order.
    pub fn entries(&self) -> (r: &Vec<RoomEntry>)
        requires
            self.wf(),
        ensures
            keys_unique(room_pairs(r@)),
            assoc(room_pairs(r@)) == self@,
    {
        &self.rooms
    }

    fn position(&self, id: u128) -> (r: Option<usize>)
        requires
            self.wf(),
        ensures
            r matches Some(i) ==> i < self.rooms@.len() && self.rooms@[i as int].id == id,
            r is Some <==> self@.contains_key(id),
    {
        let mut i: usize = 0;
        while i < self.rooms.len()
            invariant
                i <= self.rooms@.len(),
                forall|j: int| 0 <= j < i ==> #[trigger] self.rooms@[j].id != id,
            decreases self.rooms@.len() - i,
        {
            if self.rooms[i].id == id {
                proof {
                    let p = room_pairs(self.rooms@);
                    assert(p[i as int].0 == id);
                    lemma_assoc_dom(p, id);
                }
                return Some(i);
            }
            i = i + 1;
        }
        proof {
            let p = room_pairs(self.rooms@);
            lemma_assoc_dom(p, id);
            assert forall|j: int| 0 <= j < p.len() implies #[trigger] p[j].0 != id by {
                assert(p[j].0 == self.rooms@[j].id);
            }
        }
        None
    }

    /// Removes the room with id `id`, if there is one, and hands it back.
    pub fn remove(&mut self, id: u128) -> (r: Option<RoomInfo>)
        requires
            old(self).wf(),
        ensures
            final(self).wf(),
            final(self)@ == old(self)@.remove(id),
            r matches Some(v) ==> old(self)@.contains_key(id) && old(self)@[id] == v@,
            r is None ==> !old(self)@.contains_key(id),
    {
        match self.position(id) {
            Some(i) => {
                let ghost p = room_pairs(self.rooms@);
                proof {
                    lemma_assoc_at(p, i as int);
                    lemma_assoc_remove(p, i as int);
                }
                let e = self.rooms.remove(i);
                assert(room_pairs(self.rooms@) =~= p.remove(i as int));
                Some(e.value)
            },
            None => {
                assert(self@ =~= old(self)@.remove(id));
                None
            },
        }
    }

    /// Opens room `id` with `value`, replacing any room with that id.
    pub fn insert(&mut self, id: u128, value: RoomInfo)
        requires
            old(self).wf(),
        ensures
            final(self).wf(),
            final(self)@ == old(self)@.insert(id, value@),
    {
        let _ = self.remove(id);
        let ghost p = room_pairs(self.rooms@);
        let ghost v = value@;
        proof {
            lemma_assoc_push(p, id, v);
        }
        self.rooms.push(RoomEntry { id, value });
        assert(room_pairs(self.rooms@) =~= p.push((id, v)));
        assert(self@ =~= old(self)@.insert(id, v));
    }
}

} // verus!
