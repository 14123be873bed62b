//! The registry of live websocket connections: for each user, the ids of the
//! connections that are open for them right now.

use crate::ids::Uuid;
use crate::keyed::{
    keyed_has, keyed_index, keyed_view, keys_unique, lemma_keyed_index, lemma_keyed_push,
    lemma_keyed_update,
};
use vstd::prelude::*;

verus! {

/// The open connections of one user.
pub struct UserConnections {
    pub user_id: String,
    pub connections: Vec<Uuid>,
}

/// For each user id, the set of connection ids that messages to that user
/// are delivered to.
pub struct ConnectionRegistry {
    entries: Vec<UserConnections>,
}

/// The key of an entry: its user id.
pub open spec fn user_key() -> spec_fn(UserConnections) -> Seq<char> {
    |e: UserConnections| e.user_id@
}

/// The value of an entry: its set of connections.
pub open spec fn user_conns() -> spec_fn(UserConnections) -> Set<Uuid> {
    |e: UserConnections| e.connections@.to_set()
}

/// No two entries share a user id and no entry lists a connection twice.
pub open spec fn entries_wf(entries: Seq<UserConnections>) -> bool {
    &&& keys_unique(entries, user_key())
    &&& forall|i: int| 0 <= i < entries.len() ==> (#[trigger] entries[i]).connections@.no_duplicates()
}

/// The users and their connection sets that a list of entries describes.
pub open spec fn entries_view(entries: Seq<UserConnections>) -> Map<Seq<char>, Set<Uuid>> {
    keyed_view(entries, user_key(), user_conns())
}

/// Registering connection `conn` for `user`.
pub open spec fn spec_connect(m: Map<Seq<char>, Set<Uuid>>, user: Seq<char>, conn: Uuid) -> Map<
    Seq<char>,
    Set<Uuid>,
> {
    m.insert(user, spec_targets(m, user).insert(conn))
}

/// Dropping connection `conn` of `user`; a user without connections keeps an
/// (empty) entry.
pub open spec fn spec_disconnect(m: Map<Seq<char>, Set<Uuid>>, user: Seq<char>, conn: Uuid) -> Map<
    Seq<char>,
    Set<Uuid>,
> {
    if m.contains_key(user) {
        m.insert(user, m[user].remove(conn))
    } else {
        m
    }
}

/// The connections a message to `user` is delivered to.
pub open spec fn spec_targets(m: Map<Seq<char>, Set<Uuid>>, user: Seq<char>) -> Set<Uuid> {
    if m.contains_key(user) {
        m[user]
    } else {
        Set::empty()
    }
}

/// The set of a duplicate-free sequence loses exactly the removed element.
proof fn lemma_remove_to_set(s: Seq<Uuid>, j: int)
    requires
        s.no_duplicates(),
        0 <= j < s.len(),
    ensures
        s.remove(j).to_set() == s.to_set().remove(s[j]),
        s.remove(j).no_duplicates(),
{
    let r = s.remove(j);
    assert forall|x: Uuid| #![auto] r.to_set().contains(x) == s.to_set().remove(s[j]).contains(x) by {
        if r.contains(x) {
            let a = choose|a: int| 0 <= a < r.len() && r[a] == x;
            if a < j {
                assert(s[a] == x);
            } else {
                assert(s[a + 1] == x);
            }
        }
        if s.contains(x) && x != s[j] {
            let a = choose|a: int| 0 <= a < s.len() && s[a] == x;
            if a < j {
                assert(r[a] == x);
            } else {
                assert(a != j);
                assert(r[a - 1] == x);
            }
        }
    }
    assert(r.to_set() =~= s.to_set().remove(s[j]));
    assert forall|x: int, y: int| 0 <= x < r.len() && 0 <= y < r.len() && x != y implies r[x] != r[y] by {
        let sx = if x < j { x } else { x + 1 };
        let sy = if y < j { y } else { y + 1 };
        assert(r[x] == s[sx]);
        assert(r[y] == s[sy]);
    }
}

impl View for ConnectionRegistry {
    type V = Map<Seq<char>, Set<Uuid>>;

    closed spec fn view(&self) -> Map<Seq<char>, Set<Uuid>> {
        entries_view(self.entries@)
    }
}

impl ConnectionRegistry {
    /// The registry's internal consistency.
    pub closed spec fn wf(&self) -> bool {
        entries_wf(self.entries@)
    }

    /// A registry with no users.
    pub fn new() -> (r: ConnectionRegistry)
        ensures
            r.wf(),
            r@ == Map::<Seq<char>, Set<Uuid>>::empty(),
    {
        let r = ConnectionRegistry { entries: Vec::new() };
        assert(entries_view(r.entries@) =~= Map::<Seq<char>, Set<Uuid>>::empty());
        r
    }

    /// The position of the entry of `user_id`, if there is one.
    fn find(&self, user_id: &String) -> (r: Option<usize>)
        requires
            self.wf(),
        ensures
            r is None <==> !keyed_has(self.entries@, user_key(), user_id@),
            r matches Some(i) ==> i < self.entries@.len() && self.entries@[i as int].user_id@
                == user_id@ && keyed_index(self.entries@, user_key(), user_id@) == i,
    {
        let mut i: usize = 0;
        while i < self.entries.len()
            invariant
                0 <= i <= self.entries@.len(),
                entries_wf(self.entries@),
                forall|j: int| 0 <= j < i ==> (#[trigger] self.entries@[j]).user_id@ != user_id@,
            decreases self.entries@.len() - i,
        {
            if self.entries[i].user_id == *user_id {
                proof {
                    lemma_keyed_index(self.entries@, user_key(), i as int);
                }
                return Some(i);
            }
            i = i + 1;
        }
        proof {
            assert forall|j: int| 0 <= j < self.entries@.len() implies user_key()(
                #[trigger] self.entries@[j],
            ) != user_id@ by {}
        }
        None
    }
}

impl ConnectionRegistry {
    /// Registers connection `conn` as open for `user_id`.
    pub fn connect(&mut self, user_id: String, conn: Uuid)
        requires
            old(self).wf(),
        ensures
            final(self).wf(),
            final(self)@ == spec_connect(old(self)@, user_id@, conn),
    {
        let ghost k = user_id@;
        let ghost old_entries = self.entries@;
        match self.find(&user_id) {
            Some(i) => {
                let mut present = false;
                let mut j: usize = 0;
                let n = self.entries[i].connections.len();
                while j < n
                    invariant
                        self.entries@ == old_entries,
                        i < self.entries@.len(),
                        n == self.entries@[i as int].connections@.len(),
                        0 <= j <= n,
                        !present ==> forall|l: int|
                            0 <= l < j ==> self.entries@[i as int].connections@[l] != conn,
                        present ==> self.entries@[i as int].connections@.contains(conn),
                    decreases n - j,
                {
                    if self.entries[i].connections[j].same(&conn) {
                        present = true;
                    }
                    j = j + 1;
                }
                if !present {
                    self.entries[i].connections.push(conn);
                }
                proof {
                    let new_entries = self.entries@;
                    let c = new_entries[i as int].connections@;
                    let oc = old_entries[i as int].connections@;
                    if present {
                        assert(new_entries == old_entries);
                        assert(oc.to_set().contains(conn));
                        assert(oc.to_set() =~= oc.to_set().insert(conn));
                    } else {
                        assert(c == oc.push(conn));
                        oc.lemma_push_to_set_commute(conn);
                        assert forall|x: int, y: int|
                            0 <= x < c.len() && 0 <= y < c.len() && x != y implies c[x] != c[y] by {
                            if x == c.len() - 1 || y == c.len() - 1 {
                            } else {
                                assert(c[x] == oc[x]);
                                assert(c[y] == oc[y]);
                            }
                        }
                    }
                    assert forall|a: int| 0 <= a < new_entries.len() implies (
                    #[trigger] new_entries[a]).connections@.no_duplicates() by {
                        if a != i {
                            assert(new_entries[a] == old_entries[a]);
                        }
                    }
                    assert(new_entries =~= old_entries.update(i as int, new_entries[i as int]));
                    lemma_keyed_update(old_entries, user_key(), user_conns(), i as int, new_entries[i as int]);
                    lemma_keyed_index(old_entries, user_key(), i as int);
                }
            },
            None => {
                let mut conns: Vec<Uuid> = Vec::new();
                conns.push(conn);
                let entry = UserConnections { user_id, connections: conns };
                proof {
                    assert forall|x: Uuid| #![auto] seq![conn].to_set().contains(x) == Set::<Uuid>::empty().insert(conn).contains(x) by {
                        if x == conn {
                            assert(seq![conn][0] == x);
                        }
                    }
                    assert(seq![conn].to_set() =~= Set::<Uuid>::empty().insert(conn));
                    lemma_keyed_push(old_entries, user_key(), user_conns(), entry);
                    let new_entries = old_entries.push(entry);
                    assert forall|a: int| 0 <= a < new_entries.len() implies (
                    #[trigger] new_entries[a]).connections@.no_duplicates() by {
                        if a < old_entries.len() {
                            assert(new_entries[a] == old_entries[a]);
                        }
                    }
                }
                self.entries.push(entry);
            },
        }
    }

    /// Drops connection `conn` of `user_id`; the user keeps an entry even
    /// when no connection is left.
    pub fn disconnect(&mut self, user_id: &String, conn: &Uuid)
        requires
            old(self).wf(),
        ensures
            final(self).wf(),
            final(self)@ == spec_disconnect(old(self)@, user_id@, *conn),
    {
        let ghost old_entries = self.entries@;
        match self.find(user_id) {
            Some(i) => {
                let n = self.entries[i].connections.len();
                let mut j: usize = 0;
                while j < n
                    invariant
                        self.entries@ == old_entries,
                        i < self.entries@.len(),
                        n == self.entries@[i as int].connections@.len(),
                        0 <= j <= n,
                        entries_wf(old_entries),
                        old_entries == old(self).entries@,
                        old_entries[i as int].user_id@ == user_id@,
                        forall|l: int| 0 <= l < j ==> self.entries@[i as int].connections@[l] != *conn,
                    decreases n - j,
                {
                    if self.entries[i].connections[j].same(conn) {
                        self.entries[i].connections.remove(j);
                        proof {
                            let oc = old_entries[i as int].connections@;
                            let new_entries = self.entries@;
                            lemma_remove_to_set(oc, j as int);
                            assert(new_entries[i as int].connections@ == oc.remove(j as int));
                            assert forall|a: int| 0 <= a < new_entries.len() implies (
                            #[trigger] new_entries[a]).connections@.no_duplicates() by {
                                if a != i {
                                    assert(new_entries[a] == old_entries[a]);
                                }
                            }
                            assert(new_entries =~= old_entries.update(i as int, new_entries[i as int]));
                            lemma_keyed_update(old_entries, user_key(), user_conns(), i as int, new_entries[i as int]);
                            lemma_keyed_index(old_entries, user_key(), i as int);
                            assert(oc[j as int] == *conn);
                            assert(entries_view(old_entries).contains_key(user_id@));
                            assert(entries_view(old_entries)[user_id@] == oc.to_set());
                            assert(new_entries[i as int].connections@.to_set() == oc.to_set().remove(*conn));
                            assert(entries_view(new_entries) == spec_disconnect(entries_view(old_entries), user_id@, *conn));
                        }
                        return;
                    }
                    j = j + 1;
                }
                proof {
                    let oc = old_entries[i as int].connections@;
                    lemma_keyed_index(old_entries, user_key(), i as int);
                    assert(!oc.contains(*conn));
                    assert(oc.to_set().remove(*conn) =~= oc.to_set());
                    let om = entries_view(old_entries);
                    assert(om.insert(user_id@, om[user_id@].remove(*conn)) =~= om);
                }
            },
            None => {},
        }
    }

    /// The connections that a message to `user_id` is delivered to, each once.
    pub fn targets(&self, user_id: &String) -> (r: Vec<Uuid>)
        requires
            self.wf(),
        ensures
            r@.to_set() == spec_targets(self@, user_id@),
            r@.no_duplicates(),
    {
        match self.find(user_id) {
            Some(i) => {
                let mut out: Vec<Uuid> = Vec::new();
                let n = self.entries[i].connections.len();
                let mut j: usize = 0;
                while j < n
                    invariant
                        i < self.entries@.len(),
                        n == self.entries@[i as int].connections@.len(),
                        0 <= j <= n,
                        out@ == self.entries@[i as int].connections@.subrange(0, j as int),
                    decreases n - j,
                {
                    out.push(self.entries[i].connections[j]);
                    j = j + 1;
                    proof {
                        assert(out@ =~= self.entries@[i as int].connections@.subrange(0, j as int));
                    }
                }
                proof {
                    assert(out@ =~= self.entries@[i as int].connections@);
                    lemma_keyed_index(self.entries@, user_key(), i as int);
                }
                out
            },
            None => {
                let out: Vec<Uuid> = Vec::new();
                proof {
                    assert(out@.to_set() =~= Set::<Uuid>::empty());
                }
                out
            },
        }
    }
}

/// A message to a user reaches a connection right after it is registered.
pub proof fn law_connected_is_reached(m: Map<Seq<char>, Set<Uuid>>, user: Seq<char>, conn: Uuid)
    ensures
        spec_targets(spec_connect(m, user, conn), user).contains(conn),
{
}

/// A dropped connection is no longer reached.
pub proof fn law_disconnected_is_not_reached(m: Map<Seq<char>, Set<Uuid>>, user: Seq<char>, conn: Uuid)
    ensures
        !spec_targets(spec_disconnect(m, user, conn), user).contains(conn),
{
}

/// Registering or dropping a connection of one user leaves every other
/// user's connections as they were.
pub proof fn law_other_users_unaffected(
    m: Map<Seq<char>, Set<Uuid>>,
    user: Seq<char>,
    other: Seq<char>,
    conn: Uuid,
)
    requires
        user != other,
    ensures
        spec_targets(spec_connect(m, user, conn), other) == spec_targets(m, other),
        spec_targets(spec_disconnect(m, user, conn), other) == spec_targets(m, other),
{
}

/// Dropping a connection undoes registering it: a user reaches the same
/// connections as before a connection that was not open came and went.
pub proof fn law_disconnect_undoes_connect(m: Map<Seq<char>, Set<Uuid>>, user: Seq<char>, conn: Uuid)
    requires
        !spec_targets(m, user).contains(conn),
    ensures
        spec_targets(spec_disconnect(spec_connect(m, user, conn), user, conn), user) == spec_targets(
            m,
            user,
        ),
{
    assert(spec_targets(m, user).insert(conn).remove(conn) =~= spec_targets(m, user));
}

} // verus!
