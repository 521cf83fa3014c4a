//! The rooms that exist, by name.
//!
//! A room comes into being the first time its name is asked for and is told
//! apart from any later room of the same name by its instance number, so that
//! someone who still holds the number of a room long gone cannot delete its
//! successor.
//!
//! The rooms stand in a vector, in the order they were created, with the
//! invariant that no two share a name. A hash map keyed by the name would be
//! the obvious home, but what vstd proves of a hash map it proves only for
//! keys whose hashing it models, and strings are not among them.

use crate::clock::{ClockError, Instant};
use crate::laws::law_registries_stay_well_formed;
use crate::reaper::grace_verdict;
use crate::room::{Room, RoomView};
use vstd::prelude::*;

verus! {

/// One room with the name it is registered under.
struct Slot {
    key: String,
    instance: u64,
    room: Room,
}

/// One registered room.
pub struct SlotView {
    /// The name the room is found by.
    pub key: Seq<char>,
    /// Tells this room from earlier and later ones of the same name.
    pub instance: u64,
    pub room: RoomView,
}

impl View for Slot {
    type V = SlotView;

    closed spec fn view(&self) -> SlotView {
        SlotView { key: self.key@, instance: self.instance, room: self.room@ }
    }
}

impl DeepView for Slot {
    type V = SlotView;

    closed spec fn deep_view(&self) -> SlotView {
        self@
    }
}

/// The rooms that exist.
pub struct RoomRegistry {
    slots: Vec<Slot>,
    next_instance: u64,
}

/// The mathematical state of a registry.
pub struct RegistryView {
    /// The rooms, in the order they were created.
    pub slots: Seq<SlotView>,
    /// The instance number the next new room gets.
    pub next_instance: u64,
}

impl View for RoomRegistry {
    type V = RegistryView;

    closed spec fn view(&self) -> RegistryView {
        RegistryView { slots: self.slots.deep_view(), next_instance: self.next_instance }
    }
}

/// Whether a room is listed.
pub open spec fn listed() -> spec_fn(SlotView) -> bool {
    |slot: SlotView| slot.room.public
}

/// A room's line in the listing: its name and its title.
pub open spec fn listing_line() -> spec_fn(SlotView) -> (Seq<char>, Seq<char>) {
    |slot: SlotView| (slot.key, slot.room.title)
}

impl RegistryView {
    /// No rooms, and the first to come gets instance number 0.
    pub open spec fn empty() -> RegistryView {
        RegistryView { slots: Seq::empty(), next_instance: 0 }
    }

    /// The names of the rooms, in order.
    pub open spec fn keys(self) -> Seq<Seq<char>> {
        Seq::new(self.slots.len(), |i: int| self.slots[i].key)
    }

    /// Where the room named `key` stands.
    pub open spec fn position(self, key: Seq<char>) -> Option<int> {
        self.keys().index_of_first(key)
    }

    /// Whether a room named `key` exists.
    pub open spec fn contains(self, key: Seq<char>) -> bool {
        self.keys().contains(key)
    }

    /// The room named `key`.
    pub open spec fn room(self, key: Seq<char>) -> Option<RoomView> {
        match self.position(key) {
            Some(at) => Some(self.slots[at].room),
            None => None,
        }
    }

    /// The instance number of the room named `key`.
    pub open spec fn instance_of(self, key: Seq<char>) -> Option<u64> {
        match self.position(key) {
            Some(at) => Some(self.slots[at].instance),
            None => None,
        }
    }

    /// The instance number that asking for the room named `key` gives: that of
    /// the room if it exists, else the next to be handed out.
    pub open spec fn instance_for(self, key: Seq<char>) -> u64 {
        match self.instance_of(key) {
            Some(instance) => instance,
            None => self.next_instance,
        }
    }

    /// No two rooms share a name, and every instance number in use was handed
    /// out before the next one.
    pub open spec fn well_formed(self) -> bool {
        &&& self.keys().no_duplicates()
        &&& forall|i: int|
            0 <= i < self.slots.len() ==> (#[trigger] self.slots[i]).instance
                < self.next_instance || self.next_instance == u64::MAX
    }

    /// The instance number that follows `instance`. The count stops at the largest number.
    pub open spec fn following(instance: u64) -> u64 {
        if instance < u64::MAX {
            (instance + 1) as u64
        } else {
            instance
        }
    }

    /// The registry after `creator` asked for the room named `key` at `now`:
    /// unchanged if the room exists, else with a new room last.
    pub open spec fn with_room(self, key: Seq<char>, creator: Seq<char>, now: Instant)
        -> RegistryView {
        if self.contains(key) {
            self
        } else {
            RegistryView {
                slots: self.slots.push(
                    SlotView {
                        key,
                        instance: self.next_instance,
                        room: RoomView::created(key, creator, now),
                    },
                ),
                next_instance: Self::following(self.next_instance),
            }
        }
    }

    /// The registry with the room that stands at `at` changed to `room`.
    pub open spec fn with_changed_room(self, at: int, room: RoomView) -> RegistryView {
        RegistryView { slots: self.slots.update(at, SlotView { room, ..self.slots[at] }), ..self }
    }

    /// Whether the room named `key` exists and is instance `instance`.
    pub open spec fn holds(self, key: Seq<char>, instance: u64) -> bool {
        self.instance_of(key) == Some(instance)
    }

    /// The registry without instance `instance` of the room named `key`.
    ///
    /// Nothing changes if no room has that name, or if the room that has it is
    /// another instance.
    pub open spec fn without_room(self, key: Seq<char>, instance: u64) -> RegistryView {
        match self.position(key) {
            Some(at) => if self.slots[at].instance == instance {
                RegistryView { slots: self.slots.remove(at), ..self }
            } else {
                self
            },
            None => self,
        }
    }

    /// Whether instance `instance` of the room named `key` is deleted when asked at `now`.
    ///
    /// A room that is gone or was replaced is left alone. One that is there
    /// goes when its grace period has run out.
    pub open spec fn reap_verdict(self, key: Seq<char>, instance: u64, now: Instant) -> Result<
        bool,
        ClockError,
    > {
        if self.holds(key, instance) {
            grace_verdict(self.room(key).unwrap().last_activity, now)
        } else {
            Ok(false)
        }
    }

    /// The registry after instance `instance` of the room named `key` was asked to go at `now`.
    pub open spec fn reaped(self, key: Seq<char>, instance: u64, now: Instant) -> RegistryView {
        if self.reap_verdict(key, instance, now) == Ok::<bool, ClockError>(true) {
            self.without_room(key, instance)
        } else {
            self
        }
    }

    /// Name and title of every listed room, in the order the rooms were created.
    pub open spec fn listing(self) -> Seq<(Seq<char>, Seq<char>)> {
        self.slots.filter(listed()).map_values(listing_line())
    }
}

impl RoomRegistry {
    /// A registry without rooms.
    pub fn new() -> (registry: RoomRegistry)
        ensures
            registry@ == RegistryView::empty(),
            registry@.well_formed(),
    {
        proof {
            law_registries_stay_well_formed(
                RegistryView::empty(),
                Seq::empty(),
                Seq::empty(),
                0,
                Instant { nanos: 0 },
            );
        }
        let registry = RoomRegistry { slots: Vec::new(), next_instance: 0 };
        assert(registry.slots.deep_view() =~= Seq::empty());
        registry
    }

    /// How many rooms exist.
    pub fn len(&self) -> (count: usize)
        ensures
            count == self@.slots.len(),
    {
        self.slots.len()
    }

    /// Where the room named `key` stands.
    fn find(&self, key: &String) -> (found: Option<usize>)
        ensures
            match found {
                Some(at) => self@.position(key@) == Some(at as int) && at < self.slots.len(),
                None => self@.position(key@) == None::<int>,
            },
    {
        let ghost keys = self@.keys();
        let mut at: usize = 0;
        while at < self.slots.len()
            invariant
                at <= self.slots.len(),
                keys == self@.keys(),
                forall|k: int| 0 <= k < at ==> keys[k] != key@,
            decreases self.slots.len() - at,
        {
            if self.slots[at].key == *key {
                proof {
                    assert(keys[at as int] == key@);
                    keys.index_of_first_ensures(key@);
                }
                return Some(at);
            }
            at += 1;
        }
        proof {
            keys.index_of_first_ensures(key@);
        }
        None
    }

    /// Whether a room named `key` exists.
    pub fn contains(&self, key: &String) -> (yes: bool)
        ensures
            yes == self@.contains(key@),
    {
        proof {
            self@.keys().index_of_first_ensures(key@);
        }
        self.find(key).is_some()
    }

    /// The room named `key`.
    pub fn room(&self, key: &String) -> (found: Option<&Room>)
        ensures
            match found {
                Some(room) => self@.room(key@) == Some(room@),
                None => self@.room(key@) is None,
            },
    {
        match self.find(key) {
            Some(at) => Some(&self.slots[at].room),
            None => None,
        }
    }

    /// The instance number of the room named `key`.
    pub fn instance_of(&self, key: &String) -> (found: Option<u64>)
        ensures
            found == self@.instance_of(key@),
    {
        match self.find(key) {
            Some(at) => Some(self.slots[at].instance),
            None => None,
        }
    }

    /// The room named `key`, to be changed in place.
    ///
    /// Whatever is done to the room, the registry keeps it under the same name
    /// and instance number, and every other room as it is: the registry ends as
    /// [`RegistryView::with_changed_room`] says.
    pub fn room_mut(&mut self, key: &String) -> (found: Option<&mut Room>)
        ensures
            match found {
                Some(room) => exists|at: int|
                    #![trigger old(self)@.slots[at]]
                    old(self)@.position(key@) == Some(at) && room@ == old(self)@.slots[at].room
                        && final(self)@.next_instance == old(self)@.next_instance
                        && final(self)@.slots =~= old(self)@.with_changed_room(
                        at,
                        final(room)@,
                    ).slots,
                None => old(self)@.position(key@) is None && final(self)@ == old(self)@,
            },
            final(self)@.keys() =~= old(self)@.keys(),
    {
        match self.find(key) {
            Some(at) => {
                proof {
                    self@.keys().index_of_first_ensures(key@);
                }
                let slot = &mut self.slots[at];
                let room = &mut slot.room;
                Some(room)
            },
            None => None,
        }
    }

    /// Makes sure a room named `room_id` exists, creating it for `creator` at
    /// `now` if it does not, and gives its instance number.
    pub fn get_or_create_at(&mut self, room_id: &String, creator: &String, now: Instant) -> (instance:
        u64)
        ensures
            final(self)@ == old(self)@.with_room(room_id@, creator@, now),
            instance == old(self)@.instance_for(room_id@),
            final(self)@.holds(room_id@, instance),
            old(self)@.well_formed() ==> final(self)@.well_formed(),
    {
        proof {
            if old(self)@.well_formed() {
                law_registries_stay_well_formed(old(self)@, room_id@, creator@, 0, now);
            }
            old(self)@.keys().index_of_first_ensures(room_id@);
        }
        match self.find(room_id) {
            Some(at) => self.slots[at].instance,
            None => {
                let instance = self.next_instance;
                let room = Room::new_at(room_id.clone(), creator.clone(), now);
                self.slots.push(Slot { key: room_id.clone(), instance, room });
                if self.next_instance < u64::MAX {
                    self.next_instance = self.next_instance + 1;
                }
                proof {
                    let added = SlotView {
                        key: room_id@,
                        instance,
                        room: RoomView::created(room_id@, creator@, now),
                    };
                    assert(self.slots.deep_view() =~= old(self).slots.deep_view().push(added));
                    let keys = self@.keys();
                    assert(keys =~= old(self)@.keys().push(room_id@));
                    keys.index_of_first_ensures(room_id@);
                    old(self)@.keys().index_of_first_ensures(room_id@);
                    assert(keys[keys.len() - 1] == room_id@);
                }
                instance
            },
        }
    }

    /// Makes sure a room named `room_id` exists, creating it for `creator` now
    /// if it does not, and gives its instance number.
    pub fn get_or_create(&mut self, room_id: &String, creator: &String) -> (instance: u64)
        ensures
            exists|now: Instant| final(self)@ == old(self)@.with_room(room_id@, creator@, now),
            instance == old(self)@.instance_for(room_id@),
            final(self)@.holds(room_id@, instance),
            old(self)@.well_formed() ==> final(self)@.well_formed(),
    {
        let now = Instant::now();
        let instance = self.get_or_create_at(room_id, creator, now);
        assert(self@ == old(self)@.with_room(room_id@, creator@, now));
        instance
    }

    /// Deletes instance `instance` of the room named `room_id`, if that is the
    /// room now registered under the name. Says whether a room went.
    pub fn remove(&mut self, room_id: &String, instance: u64) -> (gone: bool)
        ensures
            final(self)@ == old(self)@.without_room(room_id@, instance),
            gone == old(self)@.holds(room_id@, instance),
            old(self)@.well_formed() ==> final(self)@.well_formed(),
    {
        proof {
            if old(self)@.well_formed() {
                law_registries_stay_well_formed(
                    old(self)@,
                    room_id@,
                    Seq::empty(),
                    instance,
                    Instant { nanos: 0 },
                );
            }
        }
        match self.find(room_id) {
            Some(at) => {
                if self.slots[at].instance == instance {
                    self.slots.remove(at);
                    assert(self.slots.deep_view() =~= old(self).slots.deep_view().remove(
                        at as int,
                    ));
                    true
                } else {
                    false
                }
            },
            None => false,
        }
    }

    /// Deletes instance `instance` of the room named `room_id` if, at `now`,
    /// its grace period has run out. Says whether a room went.
    pub fn reap_at(&mut self, room_id: &String, instance: u64, now: Instant) -> (gone: Result<
        bool,
        ClockError,
    >)
        ensures
            gone == old(self)@.reap_verdict(room_id@, instance, now),
            final(self)@ == old(self)@.reaped(room_id@, instance, now),
            old(self)@.well_formed() ==> final(self)@.well_formed(),
    {
        match self.find(room_id) {
            Some(at) => {
                if self.slots[at].instance != instance {
                    return Ok(false);
                }
                let due = self.slots[at].room.may_delete_at(now)?;
                if due {
                    self.remove(room_id, instance);
                }
                Ok(due)
            },
            None => Ok(false),
        }
    }

    /// Deletes instance `instance` of the room named `room_id` if its grace
    /// period has run out by now.
    pub fn reap(&mut self, room_id: &String, instance: u64) -> (gone: Result<bool, ClockError>)
        ensures
            exists|now: Instant|
                gone == old(self)@.reap_verdict(room_id@, instance, now) && final(self)@ == old(
                    self,
                )@.reaped(room_id@, instance, now),
            old(self)@.well_formed() ==> final(self)@.well_formed(),
    {
        let now = Instant::now();
        let gone = self.reap_at(room_id, instance, now);
        assert(gone == old(self)@.reap_verdict(room_id@, instance, now) && self@ == old(
            self,
        )@.reaped(room_id@, instance, now));
        gone
    }

    /// Name and title of every listed room, in the order the rooms were created.
    pub fn public_rooms(&self) -> (lines: Vec<(String, String)>)
        ensures
            lines.deep_view() == self@.listing(),
    {
        let mut lines: Vec<(String, String)> = Vec::new();
        let mut at: usize = 0;
        let ghost slots = self@.slots;
        assert(lines.deep_view() =~= slots.take(0).filter(listed()).map_values(listing_line())) by {
            reveal(Seq::filter);
        }
        while at < self.slots.len()
            invariant
                at <= self.slots.len(),
                slots == self@.slots,
                lines.deep_view() == slots.take(at as int).filter(listed()).map_values(
                    listing_line(),
                ),
            decreases self.slots.len() - at,
        {
            proof {
                let seen = slots.take(at as int);
                assert(slots.take(at + 1) =~= seen.push(slots[at as int]));
                seen.lemma_filter_push(slots[at as int], listed());
            }
            let slot = &self.slots[at];
            if slot.room.public {
                let ghost before = lines.deep_view();
                lines.push((slot.key.clone(), slot.room.title.clone()));
                proof {
                    let kept = slots.take(at as int).filter(listed());
                    let line = (slots[at as int].key, slots[at as int].room.title);
                    assert(lines.deep_view() =~= before.push(line));
                    assert(kept.push(slots[at as int]).map_values(listing_line())
                        =~= kept.map_values(listing_line()).push(line));
                }
            }
            at += 1;
        }
        assert(slots.take(at as int) =~= slots);
        lines
    }
}

} // verus!
