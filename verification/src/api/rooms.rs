//! Media rooms: for each room (a chat's call), the participants that
//! produce media in it and the ids of their producers, in the order they
//! were added.

use crate::ids::Uuid;
use crate::keyed::{
    keyed_has, keyed_index, keyed_view, keys_unique, lemma_keyed_index, lemma_keyed_push,
    lemma_keyed_remove, lemma_keyed_update,
};
use vstd::prelude::*;

verus! {

/// One participant of a room and the producers it has added, oldest first.
pub struct RoomClient {
    pub user_id: String,
    pub producers: Vec<Uuid>,
}

/// A room: its id and its producing participants, in the order they first
/// produced.
pub struct Room {
    pub room_id: String,
    pub clients: Vec<RoomClient>,
}

/// The rooms that are open on this server.
pub struct Rooms {
    rooms: Vec<Room>,
}

/// The participants of a room with their producers.
pub type RoomModel = Seq<(Seq<char>, Seq<Uuid>)>;

/// A participant as a pair of its id and its producers.
pub open spec fn client_model(c: RoomClient) -> (Seq<char>, Seq<Uuid>) {
    (c.user_id@, c.producers@)
}

/// The participants of a list of clients.
pub open spec fn room_model(clients: Seq<RoomClient>) -> RoomModel {
    clients.map_values(|c: RoomClient| client_model(c))
}

/// The key of a participant: its id.
pub open spec fn model_key() -> spec_fn((Seq<char>, Seq<Uuid>)) -> Seq<char> {
    |c: (Seq<char>, Seq<Uuid>)| c.0
}

/// No participant is listed twice.
pub open spec fn model_wf(m: RoomModel) -> bool {
    keys_unique(m, model_key())
}

/// Whether `user` produces in the room.
pub open spec fn spec_has_client(m: RoomModel, user: Seq<char>) -> bool {
    keyed_has(m, model_key(), user)
}

/// The room after `user` adds producer `p`: appended to its producers, or
/// as a new last participant.
pub open spec fn spec_add_producer(m: RoomModel, user: Seq<char>, p: Uuid) -> RoomModel {
    if spec_has_client(m, user) {
        let i = keyed_index(m, model_key(), user);
        m.update(i, (user, m[i].1.push(p)))
    } else {
        m.push((user, seq![p]))
    }
}

/// The room without participant `user`.
pub open spec fn spec_remove_client(m: RoomModel, user: Seq<char>) -> RoomModel {
    if spec_has_client(m, user) {
        m.remove(keyed_index(m, model_key(), user))
    } else {
        m
    }
}

/// The producers of `user`, if it produces in the room.
pub open spec fn spec_client_producers(m: RoomModel, user: Seq<char>) -> Option<Seq<Uuid>> {
    if spec_has_client(m, user) {
        Some(m[keyed_index(m, model_key(), user)].1)
    } else {
        None
    }
}

/// The ids of the participants other than `user`, in room order.
pub open spec fn spec_clients_except(m: RoomModel, user: Seq<char>) -> Seq<Seq<char>>
    decreases m.len(),
{
    if m.len() == 0 {
        Seq::empty()
    } else {
        let rest = spec_clients_except(m.drop_last(), user);
        if m.last().0 != user {
            rest.push(m.last().0)
        } else {
            rest
        }
    }
}

/// Every (participant, producer) pair of the room: participants in room
/// order, each one's producers oldest first.
pub open spec fn spec_producer_pairs(m: RoomModel) -> Seq<(Seq<char>, Uuid)>
    decreases m.len(),
{
    if m.len() == 0 {
        Seq::empty()
    } else {
        spec_producer_pairs(m.drop_last()) + m.last().1.map_values(
            |p: Uuid| (m.last().0, p),
        )
    }
}

/// The key of a room: its id.
pub open spec fn room_key() -> spec_fn(Room) -> Seq<char> {
    |r: Room| r.room_id@
}

/// The participants of a room.
pub open spec fn room_val() -> spec_fn(Room) -> RoomModel {
    |r: Room| room_model(r.clients@)
}

/// The open rooms by id.
pub open spec fn rooms_view(rooms: Seq<Room>) -> Map<Seq<char>, RoomModel> {
    keyed_view(rooms, room_key(), room_val())
}

/// No two rooms share an id, and no room lists a participant twice.
pub open spec fn rooms_wf(rooms: Seq<Room>) -> bool {
    &&& keys_unique(rooms, room_key())
    &&& forall|i: int| 0 <= i < rooms.len() ==> model_wf(#[trigger] room_model(rooms[i].clients@))
}

/// Adding a producer keeps every participant listed once.
pub proof fn lemma_add_producer_wf(m: RoomModel, user: Seq<char>, p: Uuid)
    requires
        model_wf(m),
    ensures
        model_wf(spec_add_producer(m, user, p)),
{
    if spec_has_client(m, user) {
        let i = keyed_index(m, model_key(), user);
        let w = choose|w: int| 0 <= w < m.len() && model_key()(#[trigger] m[w]) == user;
        lemma_keyed_index(m, model_key(), w);
        lemma_keyed_update(m, model_key(), model_key(), i, (user, m[i].1.push(p)));
    } else {
        lemma_keyed_push(m, model_key(), model_key(), (user, seq![p]));
    }
}

/// Removing a participant keeps every participant listed once.
pub proof fn lemma_remove_client_wf(m: RoomModel, user: Seq<char>)
    requires
        model_wf(m),
    ensures
        model_wf(spec_remove_client(m, user)),
        !spec_has_client(spec_remove_client(m, user), user),
{
    if spec_has_client(m, user) {
        let w = choose|w: int| 0 <= w < m.len() && model_key()(#[trigger] m[w]) == user;
        lemma_keyed_index(m, model_key(), w);
        lemma_keyed_remove(m, model_key(), model_key(), w);
        let r = m.remove(w);
        if spec_has_client(r, user) {
            let a = choose|a: int| 0 <= a < r.len() && model_key()(#[trigger] r[a]) == user;
            let sa = if a < w { a } else { a + 1 };
            assert(r[a] == m[sa]);
        }
    }
}

/// A pair is listed exactly when its participant lists the producer.
pub proof fn lemma_producer_pairs_contains(m: RoomModel, user: Seq<char>, p: Uuid)
    ensures
        spec_producer_pairs(m).contains((user, p)) <==> exists|i: int|
            0 <= i < m.len() && (#[trigger] m[i]).0 == user && m[i].1.contains(p),
    decreases m.len(),
{
    if m.len() > 0 {
        let init = m.drop_last();
        let last = m.last();
        let tail = last.1.map_values(|q: Uuid| (last.0, q));
        lemma_producer_pairs_contains(init, user, p);
        let whole = spec_producer_pairs(m);
        assert(whole == spec_producer_pairs(init) + tail);
        if whole.contains((user, p)) {
            let k = choose|k: int| 0 <= k < whole.len() && whole[k] == (user, p);
            if k < spec_producer_pairs(init).len() {
                assert(spec_producer_pairs(init)[k] == (user, p));
                let i = choose|i: int| 0 <= i < init.len() && (#[trigger] init[i]).0 == user && init[i].1.contains(p);
                assert(m[i] == init[i]);
            } else {
                let j = k - spec_producer_pairs(init).len();
                assert(tail[j] == (user, p));
                assert(last.1[j] == p);
                assert(m[m.len() - 1] == last);
            }
        }
        if exists|i: int| 0 <= i < m.len() && (#[trigger] m[i]).0 == user && m[i].1.contains(p) {
            let i = choose|i: int| 0 <= i < m.len() && (#[trigger] m[i]).0 == user && m[i].1.contains(p);
            if i < m.len() - 1 {
                assert(init[i] == m[i]);
                let k = choose|k: int| 0 <= k < spec_producer_pairs(init).len() && spec_producer_pairs(init)[k] == (user, p);
                assert(whole[k] == (user, p));
            } else {
                let j = choose|j: int| 0 <= j < last.1.len() && last.1[j] == p;
                assert(tail[j] == (user, p));
                assert(whole[spec_producer_pairs(init).len() + j] == (user, p));
            }
        }
    }
}

/// A participant never appears among the others it is compared with.
pub proof fn lemma_clients_except_excludes(m: RoomModel, user: Seq<char>)
    ensures
        !spec_clients_except(m, user).contains(user),
    decreases m.len(),
{
    if m.len() > 0 {
        lemma_clients_except_excludes(m.drop_last(), user);
        let rest = spec_clients_except(m.drop_last(), user);
        if m.last().0 != user {
            if rest.push(m.last().0).contains(user) {
                let k = choose|k: int| 0 <= k < rest.push(m.last().0).len() && rest.push(m.last().0)[k] == user;
                assert(rest[k] == user);
            }
        }
    }
}

/// A producer is listed in its room right after it is added.
pub proof fn law_added_producer_is_listed(m: RoomModel, user: Seq<char>, p: Uuid)
    requires
        model_wf(m),
    ensures
        spec_producer_pairs(spec_add_producer(m, user, p)).contains((user, p)),
{
    let a = spec_add_producer(m, user, p);
    if spec_has_client(m, user) {
        let i = keyed_index(m, model_key(), user);
        let w = choose|w: int| 0 <= w < m.len() && model_key()(#[trigger] m[w]) == user;
        lemma_keyed_index(m, model_key(), w);
        assert(a[i].1 == m[i].1.push(p));
        assert(a[i].1[m[i].1.len() as int] == p);
        assert(a[i].0 == user);
    } else {
        let i = m.len() as int;
        assert(a[i] == (user, seq![p]));
        assert(a[i].1[0] == p);
    }
    lemma_producer_pairs_contains(a, user, p);
}

/// Once a participant is taken out of a room, none of its producers is
/// listed there.
pub proof fn law_removed_participant_is_unlisted(m: RoomModel, user: Seq<char>, p: Uuid)
    requires
        model_wf(m),
    ensures
        !spec_producer_pairs(spec_remove_client(m, user)).contains((user, p)),
{
    let r = spec_remove_client(m, user);
    lemma_remove_client_wf(m, user);
    lemma_producer_pairs_contains(r, user, p);
    if exists|i: int| 0 <= i < r.len() && (#[trigger] r[i]).0 == user && r[i].1.contains(p) {
        let i = choose|i: int| 0 <= i < r.len() && (#[trigger] r[i]).0 == user && r[i].1.contains(p);
        assert(model_key()(r[i]) == user);
    }
}

/// Notifications of a participant's producers never go back to that
/// participant.
pub proof fn law_notices_skip_actor(m: RoomModel, user: Seq<char>)
    ensures
        !spec_clients_except(m, user).contains(user),
{
    lemma_clients_except_excludes(m, user);
}

/// A room notice goes to exactly the room's other participants: a user is
/// among those told about an actor's change exactly when it is in the room
/// and is not the actor.
pub proof fn law_notices_reach_every_other_participant(m: RoomModel, user: Seq<char>, q: Seq<char>)
    ensures
        spec_clients_except(m, user).contains(q) <==> (spec_has_client(m, q) && q != user),
    decreases m.len(),
{
    if m.len() > 0 {
        let init = m.drop_last();
        let last = m.last();
        law_notices_reach_every_other_participant(init, user, q);
        let rest = spec_clients_except(init, user);
        assert(model_key()(m[m.len() - 1]) == last.0);
        if spec_has_client(m, q) {
            let i = choose|i: int| 0 <= i < m.len() && model_key()(#[trigger] m[i]) == q;
            if i < m.len() - 1 {
                assert(model_key()(init[i]) == q);
            }
        }
        if spec_has_client(init, q) {
            let i = choose|i: int| 0 <= i < init.len() && model_key()(#[trigger] init[i]) == q;
            assert(model_key()(m[i]) == q);
        }
        if last.0 != user {
            let out = rest.push(last.0);
            if out.contains(q) {
                let k = choose|k: int| 0 <= k < out.len() && out[k] == q;
                if k < rest.len() {
                    assert(rest[k] == q);
                }
            }
            if rest.contains(q) {
                let k = choose|k: int| 0 <= k < rest.len() && rest[k] == q;
                assert(out[k] == q);
            }
            assert(out[rest.len() as int] == last.0);
        }
    }
}

/// Taking a participant out of a room takes out that one alone: every
/// other participant stays, with the same producers, and the room shrinks
/// by one exactly when the participant was in it.
pub proof fn law_removal_keeps_others(m: RoomModel, user: Seq<char>, q: Seq<char>)
    requires
        model_wf(m),
        q != user,
    ensures
        spec_has_client(spec_remove_client(m, user), q) == spec_has_client(m, q),
        spec_client_producers(spec_remove_client(m, user), q) == spec_client_producers(m, q),
        spec_remove_client(m, user).len() == if spec_has_client(m, user) {
            m.len() - 1
        } else {
            m.len() as int
        },
{
    if spec_has_client(m, user) {
        let w = choose|w: int| 0 <= w < m.len() && model_key()(#[trigger] m[w]) == user;
        lemma_keyed_index(m, model_key(), w);
        let r = m.remove(w);
        assert(spec_remove_client(m, user) == r);
        lemma_remove_client_wf(m, user);
        if spec_has_client(r, q) {
            let a = choose|a: int| 0 <= a < r.len() && model_key()(#[trigger] r[a]) == q;
            let sa = if a < w { a } else { a + 1 };
            assert(r[a] == m[sa]);
            assert(model_key()(m[sa]) == q);
        }
        if spec_has_client(m, q) {
            let b = choose|b: int| 0 <= b < m.len() && model_key()(#[trigger] m[b]) == q;
            lemma_keyed_index(m, model_key(), b);
            assert(b != w);
            let c = if b < w { b } else { b - 1 };
            assert(r[c] == m[b]);
            assert(model_key()(r[c]) == q);
            lemma_keyed_index(r, model_key(), c);
        }
    }
}

impl Room {
    /// The participants of this room.
    pub open spec fn model(&self) -> RoomModel {
        room_model(self.clients@)
    }

    /// A room with no participants yet.
    pub fn new(room_id: String) -> (r: Room)
        ensures
            r.room_id@ == room_id@,
            r.model() == Seq::<(Seq<char>, Seq<Uuid>)>::empty(),
            model_wf(r.model()),
    {
        let r = Room { room_id, clients: Vec::new() };
        assert(r.model() =~= Seq::<(Seq<char>, Seq<Uuid>)>::empty());
        r
    }

    /// The position of participant `user_id`, if it produces here.
    fn find_client(&self, user_id: &String) -> (r: Option<usize>)
        requires
            model_wf(self.model()),
        ensures
            r is None <==> !spec_has_client(self.model(), user_id@),
            r matches Some(i) ==> i < self.clients@.len() && self.clients@[i as int].user_id@
                == user_id@ && keyed_index(self.model(), model_key(), user_id@) == i,
    {
        let mut i: usize = 0;
        while i < self.clients.len()
            invariant
                0 <= i <= self.clients@.len(),
                model_wf(self.model()),
                forall|j: int| 0 <= j < i ==> (#[trigger] self.clients@[j]).user_id@ != user_id@,
            decreases self.clients@.len() - i,
        {
            if self.clients[i].user_id == *user_id {
                proof {
                    lemma_keyed_index(self.model(), model_key(), i as int);
                }
                return Some(i);
            }
            i = i + 1;
        }
        proof {
            assert forall|j: int| 0 <= j < self.model().len() implies model_key()(
                #[trigger] self.model()[j],
            ) != user_id@ by {
                assert(self.model()[j].0 == self.clients@[j].user_id@);
            }
        }
        None
    }

    /// Whether the room has no producing participant.
    pub fn is_empty(&self) -> (r: bool)
        ensures
            r == (self.model().len() == 0),
    {
        self.clients.len() == 0
    }

    /// Records producer `p` of participant `user_id`.
    pub fn add_producer(&mut self, user_id: &String, p: Uuid)
        requires
            model_wf(old(self).model()),
        ensures
            final(self).room_id == old(self).room_id,
            model_wf(final(self).model()),
            final(self).model() == spec_add_producer(old(self).model(), user_id@, p),
    {
        let ghost old_model = self.model();
        proof {
            lemma_add_producer_wf(old_model, user_id@, p);
        }
        match self.find_client(user_id) {
            Some(i) => {
                self.clients[i].producers.push(p);
                assert(self.model() =~= old_model.update(
                    i as int,
                    (user_id@, old_model[i as int].1.push(p)),
                ));
            },
            None => {
                let mut ps: Vec<Uuid> = Vec::new();
                ps.push(p);
                self.clients.push(RoomClient { user_id: user_id.clone(), producers: ps });
                assert(self.model() =~= old_model.push((user_id@, seq![p])));
            },
        }
    }

    /// Takes participant `user_id` out of the room, giving back its
    /// producers if it had any here.
    pub fn remove_client(&mut self, user_id: &String) -> (r: Option<Vec<Uuid>>)
        requires
            model_wf(old(self).model()),
        ensures
            final(self).room_id == old(self).room_id,
            model_wf(final(self).model()),
            final(self).model() == spec_remove_client(old(self).model(), user_id@),
            r is Some <==> spec_client_producers(old(self).model(), user_id@) is Some,
            r matches Some(v) ==> spec_client_producers(old(self).model(), user_id@) == Some(v@),
    {
        let ghost old_model = self.model();
        proof {
            lemma_remove_client_wf(old_model, user_id@);
        }
        match self.find_client(user_id) {
            Some(i) => {
                let c = self.clients.remove(i);
                assert(self.model() =~= old_model.remove(i as int));
                Some(c.producers)
            },
            None => None,
        }
    }

    /// The ids of the participants other than `user_id`, in room order.
    pub fn clients_except(&self, user_id: &String) -> (r: Vec<String>)
        ensures
            r@.map_values(|s: String| s@) == spec_clients_except(self.model(), user_id@),
    {
        let mut out: Vec<String> = Vec::new();
        let mut i: usize = 0;
        while i < self.clients.len()
            invariant
                0 <= i <= self.clients@.len(),
                out@.map_values(|s: String| s@) == spec_clients_except(
                    self.model().take(i as int),
                    user_id@,
                ),
            decreases self.clients@.len() - i,
        {
            proof {
                assert(self.model().take(i + 1).drop_last() =~= self.model().take(i as int));
            }
            let ghost before = out@;
            if self.clients[i].user_id != *user_id {
                out.push(self.clients[i].user_id.clone());
                proof {
                    assert(out@.map_values(|s: String| s@) =~= before.map_values(|s: String| s@).push(
                        self.clients@[i as int].user_id@,
                    ));
                }
            }
            i = i + 1;
        }
        proof {
            assert(self.model().take(self.clients@.len() as int) =~= self.model());
        }
        out
    }

    /// Every (participant, producer) pair of the room.
    pub fn producers(&self) -> (r: Vec<(String, Uuid)>)
        ensures
            r@.map_values(|x: (String, Uuid)| (x.0@, x.1)) == spec_producer_pairs(self.model()),
    {
        let mut out: Vec<(String, Uuid)> = Vec::new();
        let mut i: usize = 0;
        while i < self.clients.len()
            invariant
                0 <= i <= self.clients@.len(),
                out@.map_values(|x: (String, Uuid)| (x.0@, x.1)) == spec_producer_pairs(
                    self.model().take(i as int),
                ),
            decreases self.clients@.len() - i,
        {
            let ghost start = out@;
            let ghost c = self.model()[i as int];
            let n = self.clients[i].producers.len();
            let mut j: usize = 0;
            while j < n
                invariant
                    0 <= i < self.clients@.len(),
                    c == self.model()[i as int],
                    n == c.1.len(),
                    0 <= j <= n,
                    out@.map_values(|x: (String, Uuid)| (x.0@, x.1)) == start.map_values(
                        |x: (String, Uuid)| (x.0@, x.1),
                    ) + c.1.take(j as int).map_values(|p: Uuid| (c.0, p)),
                decreases n - j,
            {
                let ghost mid = out@;
                out.push((self.clients[i].user_id.clone(), self.clients[i].producers[j]));
                proof {
                    assert(c.1.take(j + 1) =~= c.1.take(j as int).push(c.1[j as int]));
                    assert(out@.map_values(|x: (String, Uuid)| (x.0@, x.1)) =~= mid.map_values(
                        |x: (String, Uuid)| (x.0@, x.1),
                    ).push((c.0, c.1[j as int])));
                    assert(c.1.take(j + 1).map_values(|p: Uuid| (c.0, p)) =~= c.1.take(
                        j as int,
                    ).map_values(|p: Uuid| (c.0, p)).push((c.0, c.1[j as int])));
                }
                j = j + 1;
            }
            proof {
                assert(c.1.take(n as int) =~= c.1);
                let t = self.model().take(i + 1);
                assert(t.drop_last() =~= self.model().take(i as int));
                assert(t.last() == c);
            }
            i = i + 1;
        }
        proof {
            assert(self.model().take(self.clients@.len() as int) =~= self.model());
        }
        out
    }
}

impl View for Rooms {
    type V = Map<Seq<char>, RoomModel>;

    closed spec fn view(&self) -> Map<Seq<char>, RoomModel> {
        rooms_view(self.rooms@)
    }
}

impl Rooms {
    /// The table's internal consistency.
    pub closed spec fn wf(&self) -> bool {
        rooms_wf(self.rooms@)
    }

    /// In a consistent table no open room lists a participant twice.
    pub proof fn lemma_rooms_list_participants_once(&self)
        requires
            self.wf(),
        ensures
            forall|k: Seq<char>| #[trigger] self@.contains_key(k) ==> model_wf(self@[k]),
    {
        assert forall|k: Seq<char>| #[trigger] self@.contains_key(k) implies model_wf(self@[k]) by {
            let i = keyed_index(self.rooms@, room_key(), k);
            assert(model_wf(room_model(self.rooms@[i].clients@)));
        }
    }

    /// No room is open.
    pub fn new() -> (r: Rooms)
        ensures
            r.wf(),
            r@ == Map::<Seq<char>, RoomModel>::empty(),
    {
        let r = Rooms { rooms: Vec::new() };
        assert(rooms_view(r.rooms@) =~= Map::<Seq<char>, RoomModel>::empty());
        r
    }

    /// The position of room `room_id`, if it is open.
    fn find(&self, room_id: &String) -> (r: Option<usize>)
        requires
            self.wf(),
        ensures
            r is None <==> !self@.contains_key(room_id@),
            r matches Some(i) ==> i < self.rooms@.len() && self.rooms@[i as int].room_id@
                == room_id@ && keyed_index(self.rooms@, room_key(), room_id@) == i
                && self@[room_id@] == self.rooms@[i as int].model(),
    {
        let mut i: usize = 0;
        while i < self.rooms.len()
            invariant
                0 <= i <= self.rooms@.len(),
                rooms_wf(self.rooms@),
                forall|j: int| 0 <= j < i ==> (#[trigger] self.rooms@[j]).room_id@ != room_id@,
            decreases self.rooms@.len() - i,
        {
            if self.rooms[i].room_id == *room_id {
                proof {
                    lemma_keyed_index(self.rooms@, room_key(), i as int);
                }
                return Some(i);
            }
            i = i + 1;
        }
        proof {
            assert forall|j: int| 0 <= j < self.rooms@.len() implies room_key()(
                #[trigger] self.rooms@[j],
            ) != room_id@ by {}
        }
        None
    }

    /// Whether room `room_id` is open.
    pub fn contains(&self, room_id: &String) -> (r: bool)
        requires
            self.wf(),
        ensures
            r == self@.contains_key(room_id@),
    {
        self.find(room_id).is_some()
    }

    /// Opens room `room_id` with no participants.
    pub fn open_room(&mut self, room_id: String)
        requires
            old(self).wf(),
            !old(self)@.contains_key(room_id@),
        ensures
            final(self).wf(),
            final(self)@ == old(self)@.insert(room_id@, Seq::<(Seq<char>, Seq<Uuid>)>::empty()),
    {
        let room = Room::new(room_id);
        proof {
            lemma_keyed_push(self.rooms@, room_key(), room_val(), room);
            let t = self.rooms@.push(room);
            assert forall|i: int| 0 <= i < t.len() implies model_wf(
                #[trigger] room_model(t[i].clients@),
            ) by {
                if i < self.rooms@.len() {
                    assert(t[i] == self.rooms@[i]);
                }
            }
        }
        self.rooms.push(room);
    }

    /// Every (participant, producer) pair of room `room_id`, if it is open.
    pub fn producers(&self, room_id: &String) -> (r: Option<Vec<(String, Uuid)>>)
        requires
            self.wf(),
        ensures
            r is Some <==> self@.contains_key(room_id@),
            r matches Some(v) ==> v@.map_values(|x: (String, Uuid)| (x.0@, x.1))
                == spec_producer_pairs(self@[room_id@]),
    {
        match self.find(room_id) {
            Some(i) => Some(self.rooms[i].producers()),
            None => None,
        }
    }

    /// Records producer `p` of `user_id` in room `room_id`, which must be open.
    pub fn add_producer(&mut self, room_id: &String, user_id: &String, p: Uuid) -> (r: Vec<String>)
        requires
            old(self).wf(),
            old(self)@.contains_key(room_id@),
        ensures
            final(self).wf(),
            final(self)@ == old(self)@.insert(
                room_id@,
                spec_add_producer(old(self)@[room_id@], user_id@, p),
            ),
            r@.map_values(|s: String| s@) == spec_clients_except(
                spec_add_producer(old(self)@[room_id@], user_id@, p),
                user_id@,
            ),
    {
        let ghost old_rooms = self.rooms@;
        let i = self.find(room_id).unwrap();
        proof {
            assert(model_wf(room_model(old_rooms[i as int].clients@)));
        }
        self.rooms[i].add_producer(user_id, p);
        let others = self.rooms[i].clients_except(user_id);
        proof {
            let t = self.rooms@;
            assert(t =~= old_rooms.update(i as int, t[i as int]));
            lemma_keyed_update(old_rooms, room_key(), room_val(), i as int, t[i as int]);
            assert forall|j: int| 0 <= j < t.len() implies model_wf(
                #[trigger] room_model(t[j].clients@),
            ) by {
                if j != i {
                    assert(t[j] == old_rooms[j]);
                }
            }
        }
        others
    }

    /// Takes `user_id` out of room `room_id`, which must be open; gives back
    /// its producers if it had any there, the ids of the participants that
    /// remain, and whether the room is now empty.
    pub fn remove_client(&mut self, room_id: &String, user_id: &String) -> (r: (
        Option<Vec<Uuid>>,
        Vec<String>,
        bool,
    ))
        requires
            old(self).wf(),
            old(self)@.contains_key(room_id@),
        ensures
            final(self).wf(),
            final(self)@ == old(self)@.insert(
                room_id@,
                spec_remove_client(old(self)@[room_id@], user_id@),
            ),
            r.0 is Some <==> spec_client_producers(old(self)@[room_id@], user_id@) is Some,
            r.0 matches Some(v) ==> spec_client_producers(old(self)@[room_id@], user_id@) == Some(
                v@,
            ),
            r.1@.map_values(|s: String| s@) == spec_clients_except(
                spec_remove_client(old(self)@[room_id@], user_id@),
                user_id@,
            ),
            r.2 == (spec_remove_client(old(self)@[room_id@], user_id@).len() == 0),
    {
        let ghost old_rooms = self.rooms@;
        let i = self.find(room_id).unwrap();
        proof {
            assert(model_wf(room_model(old_rooms[i as int].clients@)));
        }
        let removed = self.rooms[i].remove_client(user_id);
        let others = self.rooms[i].clients_except(user_id);
        let empty = self.rooms[i].is_empty();
        proof {
            let t = self.rooms@;
            assert(t =~= old_rooms.update(i as int, t[i as int]));
            lemma_keyed_update(old_rooms, room_key(), room_val(), i as int, t[i as int]);
            assert forall|j: int| 0 <= j < t.len() implies model_wf(
                #[trigger] room_model(t[j].clients@),
            ) by {
                if j != i {
                    assert(t[j] == old_rooms[j]);
                }
            }
        }
        (removed, others, empty)
    }

    /// Closes room `room_id`.
    pub fn close_room(&mut self, room_id: &String)
        requires
            old(self).wf(),
        ensures
            final(self).wf(),
            final(self)@ == old(self)@.remove(room_id@),
    {
        match self.find(room_id) {
            Some(i) => {
                let ghost old_rooms = self.rooms@;
                proof {
                    lemma_keyed_remove(old_rooms, room_key(), room_val(), i as int);
                }
                self.rooms.remove(i);
                proof {
                    let t = self.rooms@;
                    assert(t == old_rooms.remove(i as int));
                    assert forall|j: int| 0 <= j < t.len() implies model_wf(
                        #[trigger] room_model(t[j].clients@),
                    ) by {
                        let sj = if j < i { j } else { j + 1 };
                        assert(t[j] == old_rooms[sj]);
                    }
                }
            },
            None => {
                assert(self@.remove(room_id@) =~= self@);
            },
        }
    }
}

} // verus!
