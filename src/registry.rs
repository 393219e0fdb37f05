//! The chatroom registry: one entry per room, holding its bus, the tasks that
//! run for it and its connection state. The reaper sweep removes the rooms
//! that are closed and whose tasks have all finished.

use vstd::prelude::*;
use vstd::string::*;
use crate::bus::{RoomBus, Subscription, BUS_CAPACITY};
use crate::envelope::WSMessage;
use crate::supervisor::ConnectionState;

verus! {

/// A task recorded for a room, and whether it has finished.
#[derive(Clone, Copy, Debug, PartialEq, Eq, Structural)]
pub struct TaskRecord {
    pub id: u64,
    pub finished: bool,
}

/// What the registry knows of one room: the channel of its bus, the id the
/// registry gave that bus, its state and its tasks.
pub struct RoomView {
    pub bus: int,
    pub label: u64,
    pub state: ConnectionState,
    pub tasks: Seq<TaskRecord>,
}

/// The registry's rooms by id, and the id that the next new bus gets.
pub struct RegistryView {
    pub rooms: Map<Seq<char>, RoomView>,
    pub next_bus: u64,
}

/// Every recorded task has finished.
pub open spec fn all_finished(tasks: Seq<TaskRecord>) -> bool {
    forall|i: int| 0 <= i < tasks.len() ==> tasks[i].finished
}

/// A room that the reaper removes.
pub open spec fn reapable(r: RoomView) -> bool {
    r.state == ConnectionState::Closed && all_finished(r.tasks)
}

/// Every bus id handed out is below the next one, and no two rooms share one.
pub open spec fn labels_fresh(v: RegistryView) -> bool {
    &&& forall|k: Seq<char>| #[trigger] v.rooms.contains_key(k) ==> v.rooms[k].label < v.next_bus
    &&& forall|k1: Seq<char>, k2: Seq<char>|
        #[trigger] v.rooms.contains_key(k1) && #[trigger] v.rooms.contains_key(k2) && k1 != k2
            ==> v.rooms[k1].label != v.rooms[k2].label
}

/// A room as it is created: a new bus, not connected, no tasks.
pub open spec fn fresh_room(bus: int, label: u64) -> RoomView {
    RoomView { bus, label, state: ConnectionState::Disconnected, tasks: Seq::empty() }
}

/// Get-or-create of `room` cannot make a room: every bus id is used up.
pub open spec fn create_exhausted(v: RegistryView, room: Seq<char>) -> bool {
    !v.rooms.contains_key(room) && v.next_bus == u64::MAX
}

/// The registry after get-or-create of `room`: unchanged when the room is
/// there, else with a fresh room whose bus is on `channel`.
pub open spec fn after_create(v: RegistryView, room: Seq<char>, channel: int) -> RegistryView {
    if v.rooms.contains_key(room) {
        v
    } else {
        RegistryView {
            rooms: v.rooms.insert(room, fresh_room(channel, v.next_bus)),
            next_bus: (v.next_bus + 1) as u64,
        }
    }
}

/// Get-or-create is idempotent: after one call the room is there, so a second
/// call on the same room changes nothing, creates nothing (no second
/// supervisor is started) and hands out the same bus.
pub proof fn lemma_create_idempotent(v: RegistryView, room: Seq<char>, c1: int, c2: int)
    requires
        !create_exhausted(v, room),
    ensures
        after_create(v, room, c1).rooms.contains_key(room),
        !create_exhausted(after_create(v, room, c1), room),
        after_create(after_create(v, room, c1), room, c2) == after_create(v, room, c1),
        after_create(after_create(v, room, c1), room, c2).rooms[room].bus == after_create(
            v,
            room,
            c1,
        ).rooms[room].bus,
{
}

/// A room made again after its entry went gets a bus id other than the one
/// it had: every id handed out stays below the next one.
pub proof fn lemma_recreated_bus_differs(v: RegistryView, room: Seq<char>, c: int, gone: RoomView)
    requires
        gone.label < v.next_bus,
        !v.rooms.contains_key(room),
        !create_exhausted(v, room),
    ensures
        after_create(v, room, c).rooms[room].label != gone.label,
{
}

/// `t`, marked finished when its id is `id`.
pub open spec fn mark_finished(t: TaskRecord, id: u64) -> TaskRecord {
    if t.id == id {
        TaskRecord { id: t.id, finished: true }
    } else {
        t
    }
}

/// `tasks` with every record of `id` marked finished.
pub open spec fn tasks_after_finish(tasks: Seq<TaskRecord>, id: u64) -> Seq<TaskRecord> {
    Seq::new(tasks.len(), |i: int| mark_finished(tasks[i], id))
}

/// The rooms that remain after a reaper sweep.
pub open spec fn after_reap(rooms: Map<Seq<char>, RoomView>) -> Map<Seq<char>, RoomView> {
    Map::new(|k: Seq<char>| rooms.contains_key(k) && !reapable(rooms[k]), |k: Seq<char>| rooms[k])
}

/// A sweep keeps exactly the rooms that are not both closed and done: a room
/// goes on the first sweep after it is closed with all its tasks finished,
/// and never before.
pub proof fn lemma_reap_exact(rooms: Map<Seq<char>, RoomView>, room: Seq<char>)
    ensures
        after_reap(rooms).contains_key(room) <==> rooms.contains_key(room) && !reapable(
            rooms[room],
        ),
        after_reap(rooms).contains_key(room) ==> after_reap(rooms)[room] == rooms[room],
{
}

/// One room's entry.
pub struct ActiveChatroom {
    room_id: String,
    bus: RoomBus,
    state: ConnectionState,
    join_handles: Vec<TaskRecord>,
}

impl ActiveChatroom {
    pub closed spec fn key(&self) -> Seq<char> {
        self.room_id@
    }

    pub closed spec fn room(&self) -> RoomView {
        RoomView {
            bus: self.bus.channel(),
            label: self.bus.id_spec(),
            state: self.state,
            tasks: self.join_handles@,
        }
    }
}

/// The registry of active rooms.
pub struct ChatroomChannels {
    chatrooms: Vec<ActiveChatroom>,
    next_bus: u64,
    model: Ghost<Map<Seq<char>, RoomView>>,
}

impl View for ChatroomChannels {
    type V = RegistryView;

    closed spec fn view(&self) -> RegistryView {
        RegistryView { rooms: self.model@, next_bus: self.next_bus }
    }
}

/// Whether every task in `tasks` has finished.
fn tasks_all_finished(tasks: &Vec<TaskRecord>) -> (r: bool)
    ensures
        r == all_finished(tasks@),
{
    let mut i: usize = 0;
    while i < tasks.len()
        invariant
            i <= tasks@.len(),
            forall|j: int| 0 <= j < i ==> tasks@[j].finished,
        decreases tasks@.len() - i,
    {
        if !tasks[i].finished {
            return false;
        }
        i = i + 1;
    }
    true
}

impl ChatroomChannels {
    /// Keys are distinct, and the model holds exactly the entries.
    pub closed spec fn wf(&self) -> bool {
        &&& forall|i: int, j: int|
            0 <= i < j < self.chatrooms@.len() ==> self.chatrooms@[i].key()
                != self.chatrooms@[j].key()
        &&& forall|i: int|
            0 <= i < self.chatrooms@.len() ==> self.model@.contains_key(
                #[trigger] self.chatrooms@[i].key(),
            ) && self.model@[self.chatrooms@[i].key()] == self.chatrooms@[i].room()
        &&& forall|k: Seq<char>|
            self.model@.contains_key(k) ==> exists|i: int|
                0 <= i < self.chatrooms@.len() && #[trigger] self.chatrooms@[i].key() == k
        &&& labels_fresh(self@)
    }

    /// Bus ids in a well-formed registry are distinct and below the next one.
    pub proof fn lemma_labels_fresh(&self)
        requires
            self.wf(),
        ensures
            labels_fresh(self@),
    {
    }

    /// An empty registry.
    pub fn new() -> (r: ChatroomChannels)
        ensures
            r.wf(),
            r@.rooms == Map::<Seq<char>, RoomView>::empty(),
            r@.next_bus == 0,
    {
        ChatroomChannels { chatrooms: Vec::new(), next_bus: 0, model: Ghost(Map::empty()) }
    }

    /// Number of rooms.
    pub fn len(&self) -> (r: usize)
        requires
            self.wf(),
        ensures
            r == self@.rooms.len(),
    {
        proof {
            self.lemma_dom_len();
        }
        self.chatrooms.len()
    }

    proof fn lemma_dom_len(&self)
        requires
            self.wf(),
        ensures
            self.model@.dom().finite(),
            self.model@.len() == self.chatrooms@.len(),
        decreases self.chatrooms@.len(),
    {
        let keys = Seq::new(self.chatrooms@.len(), |i: int| self.chatrooms@[i].key());
        assert(keys.no_duplicates());
        assert forall|k: Seq<char>| self.model@.dom().contains(k) <==> keys.to_set().contains(
            k,
        ) by {
            if self.model@.contains_key(k) {
                let i = choose|i: int| 0 <= i < self.chatrooms@.len() && self.chatrooms@[i].key() == k;
                assert(keys[i] == k);
            }
            if keys.contains(k) {
                let i = choose|i: int| 0 <= i < keys.len() && keys[i] == k;
                assert(self.chatrooms@[i].key() == k);
            }
        }
        assert(self.model@.dom() =~= keys.to_set());
        keys.unique_seq_to_set();
    }

    /// Position of `room_id`'s entry.
    fn find(&self, room_id: &String) -> (r: Option<usize>)
        requires
            self.wf(),
        ensures
            match r {
                Some(i) => i < self.chatrooms@.len() && self.chatrooms@[i as int].key() == room_id@,
                None => !self@.rooms.contains_key(room_id@),
            },
    {
        let mut i: usize = 0;
        while i < self.chatrooms.len()
            invariant
                self.wf(),
                i <= self.chatrooms@.len(),
                forall|j: int| 0 <= j < i ==> self.chatrooms@[j].key() != room_id@,
            decreases self.chatrooms@.len() - i,
        {
            if self.chatrooms[i].room_id == *room_id {
                return Some(i);
            }
            i = i + 1;
        }
        None
    }

    /// Takes entry `i` out.
    fn take(&mut self, i: usize) -> (r: ActiveChatroom)
        requires
            old(self).wf(),
            i < old(self).chatrooms@.len(),
        ensures
            final(self).wf(),
            r.key() == old(self).chatrooms@[i as int].key(),
            r.room() == old(self).chatrooms@[i as int].room(),
            final(self).model@ == old(self).model@.remove(r.key()),
            final(self).next_bus == old(self).next_bus,
            final(self).chatrooms@.len() == old(self).chatrooms@.len() - 1,
            forall|j: int|
                0 <= j < i ==> final(self).chatrooms@[j] == old(self).chatrooms@[j],
            r.room().label < final(self).next_bus,
            forall|k: Seq<char>|
                #[trigger] final(self).model@.contains_key(k) ==> final(self).model@[k].label
                    != r.room().label,
    {
        let ghost old_rooms = self.chatrooms@;
        let ghost last = old_rooms.len() - 1;
        let r = self.chatrooms.swap_remove(i);
        self.model = Ghost(self.model@.remove(r.key()));
        proof {
            let rooms = self.chatrooms@;
            assert forall|j: int| 0 <= j < rooms.len() implies old_rooms.contains(rooms[j])
                && rooms[j].key() != r.key() by {
                if j == i {
                    assert(rooms[j] == old_rooms[last]);
                } else {
                    assert(rooms[j] == old_rooms[j]);
                }
            }
            assert forall|a: int, b: int| 0 <= a < b < rooms.len() implies rooms[a].key()
                != rooms[b].key() by {
                let oa = if a == i { last } else { a };
                let ob = if b == i { last } else { b };
                assert(rooms[a] == old_rooms[oa]);
                assert(rooms[b] == old_rooms[ob]);
            }
            assert forall|j: int| 0 <= j < rooms.len() implies self.model@.contains_key(
                #[trigger] rooms[j].key(),
            ) && self.model@[rooms[j].key()] == rooms[j].room() by {
                let oj = if j == i { last } else { j };
                assert(rooms[j] == old_rooms[oj]);
            }
            assert forall|k: Seq<char>| self.model@.contains_key(k) implies exists|j: int|
                0 <= j < rooms.len() && #[trigger] rooms[j].key() == k by {
                let oj = choose|oj: int| 0 <= oj < old_rooms.len() && old_rooms[oj].key() == k;
                if oj == last {
                    assert(rooms[i as int].key() == k);
                } else {
                    assert(rooms[oj].key() == k);
                }
            }
        }
        r
    }

    /// Puts an entry in whose room is not there.
    fn put(&mut self, room: ActiveChatroom)
        requires
            old(self).wf(),
            !old(self).model@.contains_key(room.key()),
            room.room().label < old(self).next_bus,
            forall|k: Seq<char>|
                #[trigger] old(self).model@.contains_key(k) ==> old(self).model@[k].label
                    != room.room().label,
        ensures
            final(self).wf(),
            final(self).model@ == old(self).model@.insert(room.key(), room.room()),
            final(self).next_bus == old(self).next_bus,
    {
        let ghost old_rooms = self.chatrooms@;
        let ghost k = room.key();
        let ghost v = room.room();
        self.chatrooms.push(room);
        self.model = Ghost(self.model@.insert(k, v));
        proof {
            let rooms = self.chatrooms@;
            assert forall|j: int| 0 <= j < old_rooms.len() implies rooms[j] == old_rooms[j]
                && rooms[j].key() != k by {}
            assert forall|k2: Seq<char>| self.model@.contains_key(k2) implies exists|j: int|
                0 <= j < rooms.len() && #[trigger] rooms[j].key() == k2 by {
                if k2 == k {
                    assert(rooms[old_rooms.len() as int].key() == k2);
                } else {
                    let oj = choose|oj: int| 0 <= oj < old_rooms.len() && old_rooms[oj].key() == k2;
                    assert(rooms[oj].key() == k2);
                }
            }
        }
    }

    /// Get-or-create: a handle on the bus of `room_id`'s entry, made first
    /// when there is none, and whether it was made now. A room that is there
    /// is never replaced. `None` only when the room must be made and every
    /// bus id is used up.
    pub fn create_chatroom(&mut self, room_id: &str) -> (r: Option<(RoomBus, bool)>)
        requires
            old(self).wf(),
        ensures
            final(self).wf(),
            r is None <==> create_exhausted(old(self)@, room_id@),
            r is None ==> final(self)@ == old(self)@,
            r matches Some(p) ==> {
                &&& final(self)@ == after_create(old(self)@, room_id@, p.0.channel())
                &&& p.1 == !old(self)@.rooms.contains_key(room_id@)
                &&& p.0.channel() == final(self)@.rooms[room_id@].bus
                &&& p.0.id_spec() == final(self)@.rooms[room_id@].label
                &&& p.1 ==> p.0.capacity() == BUS_CAPACITY
            },
    {
        let key = String::from_str(room_id);
        match self.find(&key) {
            Some(i) => Some((self.chatrooms[i].bus.share(), false)),
            None => {
                if self.next_bus == u64::MAX {
                    return None;
                }
                let id = self.next_bus;
                let bus = RoomBus::new(id);
                let handle = bus.share();
                self.next_bus = id + 1;
                self.put(
                    ActiveChatroom {
                        room_id: key,
                        bus,
                        state: ConnectionState::Disconnected,
                        join_handles: Vec::new(),
                    },
                );
                proof {
                    assert(self@.rooms =~= after_create(old(self)@, room_id@, handle.channel()).rooms);
                }
                Some((handle, true))
            },
        }
    }

    /// Removes `room_id`'s entry, if there is one.
    pub fn remove_chatroom(&mut self, room_id: &str)
        requires
            old(self).wf(),
        ensures
            final(self).wf(),
            final(self)@.rooms == old(self)@.rooms.remove(room_id@),
            final(self)@.next_bus == old(self)@.next_bus,
    {
        let key = String::from_str(room_id);
        match self.find(&key) {
            Some(i) => {
                let _ = self.take(i);
            },
            None => {
                assert(self@.rooms =~= old(self)@.rooms.remove(room_id@));
            },
        }
    }

    /// Records a running task for `room_id`, if the room is there.
    pub fn spawn_and_store(&mut self, room_id: &str, task_id: u64)
        requires
            old(self).wf(),
        ensures
            final(self).wf(),
            final(self)@.next_bus == old(self)@.next_bus,
            final(self)@.rooms == if old(self)@.rooms.contains_key(room_id@) {
                let r = old(self)@.rooms[room_id@];
                old(self)@.rooms.insert(
                    room_id@,
                    RoomView {
                        tasks: r.tasks.push(TaskRecord { id: task_id, finished: false }),
                        ..r
                    },
                )
            } else {
                old(self)@.rooms
            },
    {
        let key = String::from_str(room_id);
        match self.find(&key) {
            Some(i) => {
                let mut room = self.take(i);
                room.join_handles.push(TaskRecord { id: task_id, finished: false });
                self.put(room);
                proof {
                    assert(self.model@ =~= old(self).model@.insert(room_id@, room.room()));
                }
            },
            None => {},
        }
    }

    /// Marks `task_id` of `room_id` finished; tells whether all the room's
    /// tasks have finished now (`false` when the room is not there).
    pub fn task_finished(&mut self, room_id: &str, task_id: u64) -> (all: bool)
        requires
            old(self).wf(),
        ensures
            final(self).wf(),
            final(self)@.next_bus == old(self)@.next_bus,
            old(self)@.rooms.contains_key(room_id@) ==> {
                let r = old(self)@.rooms[room_id@];
                let tasks = tasks_after_finish(r.tasks, task_id);
                &&& final(self)@.rooms == old(self)@.rooms.insert(room_id@, RoomView { tasks, ..r })
                &&& all == all_finished(tasks)
            },
            !old(self)@.rooms.contains_key(room_id@) ==> final(self)@ == old(self)@ && !all,
    {
        let key = String::from_str(room_id);
        match self.find(&key) {
            Some(i) => {
                let mut room = self.take(i);
                let ghost before = room.join_handles@;
                let ghost before_room = room.room();
                let ghost k = room.key();
                let mut j: usize = 0;
                while j < room.join_handles.len()
                    invariant
                        self.wf(),
                        !self.model@.contains_key(k),
                        self.model@ == old(self).model@.remove(k),
                        self.next_bus == old(self).next_bus,
                        k == room_id@,
                        room.key() == k,
                        room.room().bus == before_room.bus,
                        room.room().label == before_room.label,
                        room.room().state == before_room.state,
                        before_room.label < self.next_bus,
                        forall|k2: Seq<char>|
                            #[trigger] self.model@.contains_key(k2) ==> self.model@[k2].label
                                != before_room.label,
                        j <= room.join_handles@.len(),
                        room.join_handles@.len() == before.len(),
                        forall|m: int|
                            0 <= m < j ==> room.join_handles@[m] == mark_finished(before[m], task_id),
                        forall|m: int| j <= m < before.len() ==> room.join_handles@[m] == before[m],
                    decreases before.len() - j,
                {
                    if room.join_handles[j].id == task_id {
                        room.join_handles.set(j, TaskRecord { id: task_id, finished: true });
                    }
                    j = j + 1;
                }
                assert(room.join_handles@ =~= tasks_after_finish(before, task_id));
                let all = tasks_all_finished(&room.join_handles);
                self.put(room);
                all
            },
            None => false,
        }
    }

    /// Sets the connection state of `room_id`, if the room is there.
    pub fn set_state(&mut self, room_id: &str, state: ConnectionState)
        requires
            old(self).wf(),
        ensures
            final(self).wf(),
            final(self)@.next_bus == old(self)@.next_bus,
            final(self)@.rooms == if old(self)@.rooms.contains_key(room_id@) {
                old(self)@.rooms.insert(room_id@, RoomView { state, ..old(self)@.rooms[room_id@] })
            } else {
                old(self)@.rooms
            },
    {
        let key = String::from_str(room_id);
        match self.find(&key) {
            Some(i) => {
                let mut room = self.take(i);
                room.state = state;
                self.put(room);
            },
            None => {},
        }
    }

    /// Connection state of `room_id`, if the room is there.
    pub fn status(&self, room_id: &str) -> (r: Option<ConnectionState>)
        requires
            self.wf(),
        ensures
            r == if self@.rooms.contains_key(room_id@) {
                Some(self@.rooms[room_id@].state)
            } else {
                None
            },
    {
        let key = String::from_str(room_id);
        match self.find(&key) {
            Some(i) => Some(self.chatrooms[i].state),
            None => None,
        }
    }

    /// A handle on `room_id`'s bus, if the room is there.
    pub fn bus(&self, room_id: &str) -> (r: Option<RoomBus>)
        requires
            self.wf(),
        ensures
            r is Some <==> self@.rooms.contains_key(room_id@),
            r matches Some(b) ==> b.channel() == self@.rooms[room_id@].bus && b.id_spec()
                == self@.rooms[room_id@].label,
    {
        let key = String::from_str(room_id);
        match self.find(&key) {
            Some(i) => Some(self.chatrooms[i].bus.share()),
            None => None,
        }
    }

    /// The ids of all rooms, each once.
    pub fn room_ids(&self) -> (r: Vec<String>)
        requires
            self.wf(),
        ensures
            forall|j: int| 0 <= j < r@.len() ==> self@.rooms.contains_key(#[trigger] r@[j]@),
            forall|k: Seq<char>|
                #[trigger] self@.rooms.contains_key(k) ==> exists|j: int| 0 <= j < r@.len() && r@[j]@ == k,
            r@.len() == self@.rooms.len(),
    {
        proof {
            self.lemma_dom_len();
        }
        let mut r: Vec<String> = Vec::new();
        let mut i: usize = 0;
        while i < self.chatrooms.len()
            invariant
                self.wf(),
                i <= self.chatrooms@.len(),
                r@.len() == i,
                forall|j: int| 0 <= j < i ==> r@[j]@ == self.chatrooms@[j].key(),
            decreases self.chatrooms@.len() - i,
        {
            r.push(self.chatrooms[i].room_id.clone());
            i = i + 1;
        }
        proof {
            assert forall|j: int| 0 <= j < r@.len() implies self@.rooms.contains_key(
                #[trigger] r@[j]@,
            ) by {
                assert(self.chatrooms@[j].key() == r@[j]@);
            }
            assert forall|k: Seq<char>| #[trigger] self@.rooms.contains_key(k) implies exists|j: int|
                0 <= j < r@.len() && r@[j]@ == k by {
                let j = choose|j: int| 0 <= j < self.chatrooms@.len() && self.chatrooms@[j].key() == k;
                assert(r@[j]@ == k);
            }
        }
        r
    }

    /// Publishes `e` on `room_id`'s bus: the number of subscribers reached, or
    /// `None` when the room is not there.
    pub fn publish(&self, room_id: &str, e: WSMessage) -> (r: Option<usize>)
        requires
            self.wf(),
        ensures
            r is Some <==> self@.rooms.contains_key(room_id@),
    {
        let key = String::from_str(room_id);
        match self.find(&key) {
            Some(i) => Some(self.chatrooms[i].bus.publish(e)),
            None => None,
        }
    }

    /// A subscriber on `room_id`'s bus, or `None` when the room is not there.
    pub fn subscribe(&self, room_id: &str) -> (r: Option<Subscription>)
        requires
            self.wf(),
        ensures
            r is Some <==> self@.rooms.contains_key(room_id@),
    {
        let key = String::from_str(room_id);
        match self.find(&key) {
            Some(i) => Some(self.chatrooms[i].bus.subscribe()),
            None => None,
        }
    }

    /// Reaper sweep: removes every room that is closed and whose tasks have
    /// all finished, and no other; gives the ids of the rooms removed.
    pub fn reap(&mut self) -> (removed: Vec<String>)
        requires
            old(self).wf(),
        ensures
            final(self).wf(),
            final(self)@.rooms == after_reap(old(self)@.rooms),
            final(self)@.next_bus == old(self)@.next_bus,
            forall|j: int|
                0 <= j < removed@.len() ==> old(self)@.rooms.contains_key(#[trigger] removed@[j]@)
                    && reapable(old(self)@.rooms[removed@[j]@]),
    {
        let ghost orig = self.model@;
        let mut removed: Vec<String> = Vec::new();
        let mut i: usize = 0;
        while i < self.chatrooms.len()
            invariant
                self.wf(),
                self.next_bus == old(self).next_bus,
                orig == old(self).model@,
                i <= self.chatrooms@.len(),
                forall|k: Seq<char>|
                    #[trigger] self.model@.contains_key(k) ==> orig.contains_key(k)
                        && self.model@[k] == orig[k],
                forall|k: Seq<char>|
                    #[trigger] orig.contains_key(k) && !self.model@.contains_key(k) ==> reapable(
                        orig[k],
                    ),
                forall|j: int| 0 <= j < i ==> !reapable(#[trigger] self.chatrooms@[j].room()),
                forall|j: int|
                    0 <= j < removed@.len() ==> orig.contains_key(#[trigger] removed@[j]@)
                        && reapable(orig[removed@[j]@]),
            decreases self.chatrooms@.len() - i,
        {
            let done = self.chatrooms[i].state == ConnectionState::Closed && tasks_all_finished(
                &self.chatrooms[i].join_handles,
            );
            if done {
                proof {
                    assert(self.model@.contains_key(self.chatrooms@[i as int].key()));
                }
                let room = self.take(i);
                removed.push(room.room_id);
            } else {
                proof {
                    assert(self.model@.contains_key(self.chatrooms@[i as int].key()));
                }
                i = i + 1;
            }
        }
        proof {
            assert forall|k: Seq<char>| #[trigger] self.model@.contains_key(k) implies !reapable(
                self.model@[k],
            ) by {
                let j = choose|j: int| 0 <= j < self.chatrooms@.len() && self.chatrooms@[j].key() == k;
                assert(self.model@[self.chatrooms@[j].key()] == self.chatrooms@[j].room());
            }
            assert(self.model@ =~= after_reap(orig));
        }
        removed
    }
}

} // verus!
