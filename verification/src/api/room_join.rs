//! The order in which a media room is opened on this instance when a user
//! joins it: a room that is already open is used as it is; otherwise every
//! other instance that serves the room is synced with, one after another,
//! and the room opens (and this instance announces that it serves it) only
//! once all of them have been synced. A failed sync leaves the room closed.

use vstd::prelude::*;

verus! {

/// How far joining a room has come.
#[derive(Clone, Copy, Debug, PartialEq, Eq, Structural)]
pub enum JoinStage {
    /// `synced` of the `total` other instances serving the room are synced.
    Syncing { synced: usize, total: usize },
    /// The room is open here.
    Open,
    /// A sync failed; the room stays closed.
    Failed,
}

/// What the caller does next.
#[derive(Clone, Copy, Debug, PartialEq, Eq, Structural)]
pub enum JoinAction {
    /// Use the room that is already open.
    UseRoom,
    /// Sync with the other instance at this position of the list.
    SyncWith(usize),
    /// Announce that this instance serves the room and open it.
    OpenRoom,
    /// Give up: the join fails and the room is not opened.
    GiveUp,
    /// Nothing is left to do.
    Idle,
}

/// How a sync with another instance ended.
#[derive(Clone, Copy, Debug, PartialEq, Eq, Structural)]
pub enum JoinEvent {
    Synced,
    SyncFailed,
}

/// A stage that can be reached: a sync in progress has one still to do.
pub open spec fn join_stage_wf(s: JoinStage) -> bool {
    s matches JoinStage::Syncing { synced, total } ==> synced < total
}

/// The first stage and action of a join: `servers` other instances serve
/// the room.
pub open spec fn spec_join_begin(room_open: bool, servers: nat) -> (JoinStage, JoinAction) {
    if room_open {
        (JoinStage::Open, JoinAction::UseRoom)
    } else if servers == 0 {
        (JoinStage::Open, JoinAction::OpenRoom)
    } else {
        (JoinStage::Syncing { synced: 0, total: servers as usize }, JoinAction::SyncWith(0))
    }
}

/// The stage and action after a sync ends.
pub open spec fn spec_join_step(s: JoinStage, e: JoinEvent) -> (JoinStage, JoinAction) {
    match s {
        JoinStage::Syncing { synced, total } => match e {
            JoinEvent::Synced => if synced + 1 == total {
                (JoinStage::Open, JoinAction::OpenRoom)
            } else {
                (
                    JoinStage::Syncing { synced: (synced + 1) as usize, total },
                    JoinAction::SyncWith((synced + 1) as usize),
                )
            },
            JoinEvent::SyncFailed => (JoinStage::Failed, JoinAction::GiveUp),
        },
        _ => (s, JoinAction::Idle),
    }
}

/// The stage reached from `s` after the syncs end as `events` says.
pub open spec fn spec_join_run(s: JoinStage, events: Seq<JoinEvent>) -> JoinStage
    decreases events.len(),
{
    if events.len() == 0 {
        s
    } else {
        spec_join_run(spec_join_step(s, events[0]).0, events.drop_first())
    }
}

/// The actions taken from stage `s` as the syncs end as `events` says, one
/// per event.
pub open spec fn spec_join_actions(s: JoinStage, events: Seq<JoinEvent>) -> Seq<JoinAction>
    decreases events.len(),
{
    if events.len() == 0 {
        Seq::empty()
    } else {
        seq![spec_join_step(s, events[0]).1] + spec_join_actions(
            spec_join_step(s, events[0]).0,
            events.drop_first(),
        )
    }
}

/// Starts a join: with the room already open it is used; with no other
/// instance serving it, it opens at once; otherwise the first sync starts.
pub fn join_begin(room_open: bool, servers: usize) -> (r: (JoinStage, JoinAction))
    ensures
        r == spec_join_begin(room_open, servers as nat),
        join_stage_wf(r.0),
{
    if room_open {
        (JoinStage::Open, JoinAction::UseRoom)
    } else if servers == 0 {
        (JoinStage::Open, JoinAction::OpenRoom)
    } else {
        (JoinStage::Syncing { synced: 0, total: servers }, JoinAction::SyncWith(0))
    }
}

/// Moves a join on after a sync ends: the next sync, the opening of the
/// room after the last one, or giving up after a failure.
pub fn join_step(s: JoinStage, e: JoinEvent) -> (r: (JoinStage, JoinAction))
    requires
        join_stage_wf(s),
    ensures
        r == spec_join_step(s, e),
        join_stage_wf(r.0),
{
    match s {
        JoinStage::Syncing { synced, total } => match e {
            JoinEvent::Synced => if synced + 1 == total {
                (JoinStage::Open, JoinAction::OpenRoom)
            } else {
                (JoinStage::Syncing { synced: synced + 1, total }, JoinAction::SyncWith(synced + 1))
            },
            JoinEvent::SyncFailed => (JoinStage::Failed, JoinAction::GiveUp),
        },
        _ => (s, JoinAction::Idle),
    }
}

/// Once a join has ended, further events change nothing.
proof fn lemma_join_run_settled(s: JoinStage, events: Seq<JoinEvent>)
    requires
        !(s is Syncing),
    ensures
        spec_join_run(s, events) == s,
    decreases events.len(),
{
    if events.len() > 0 {
        lemma_join_run_settled(s, events.drop_first());
    }
}

/// From a sync in progress the room opens exactly when the remaining syncs
/// all succeed.
proof fn lemma_join_run_opens(synced: usize, total: usize, events: Seq<JoinEvent>)
    requires
        synced < total,
    ensures
        spec_join_run(JoinStage::Syncing { synced, total }, events) is Open <==> (events.len()
            >= total - synced && forall|i: int|
            0 <= i < total - synced ==> #[trigger] events[i] == JoinEvent::Synced),
    decreases events.len(),
{
    let s = JoinStage::Syncing { synced, total };
    if events.len() > 0 {
        lemma_join_run_settled(JoinStage::Open, events.drop_first());
        lemma_join_run_settled(JoinStage::Failed, events.drop_first());
        if events[0] == JoinEvent::Synced && synced + 1 < total {
            lemma_join_run_opens((synced + 1) as usize, total, events.drop_first());
            if spec_join_run(s, events) is Open {
                assert forall|i: int|
                    0 <= i < total - synced implies #[trigger] events[i] == JoinEvent::Synced by {
                    if i > 0 {
                        assert(events.drop_first()[i - 1] == events[i]);
                    }
                }
            }
            if events.len() >= total - synced && forall|i: int|
                0 <= i < total - synced ==> #[trigger] events[i] == JoinEvent::Synced {
                assert forall|i: int|
                    0 <= i < total - synced - 1 implies #[trigger] events.drop_first()[i]
                    == JoinEvent::Synced by {
                    assert(events[i + 1] == JoinEvent::Synced);
                }
            }
        }
    } else {
        assert(!(events.len() >= total - synced));
    }
}

/// A room that was not open opens only when every other instance serving
/// it has been synced, in order, with no failure; it then opens whatever
/// happens afterwards. With no other instance it opens at once.
pub proof fn law_room_opens_after_every_sync(servers: usize, events: Seq<JoinEvent>)
    ensures
        spec_join_run(spec_join_begin(false, servers as nat).0, events) is Open <==> (events.len()
            >= servers && forall|i: int|
            0 <= i < servers ==> #[trigger] events[i] == JoinEvent::Synced),
{
    if servers == 0 {
        lemma_join_run_settled(JoinStage::Open, events);
    } else {
        lemma_join_run_opens(0, servers, events);
    }
}

/// A room that is already open here is used as it is and never opened
/// again, however many other instances serve it.
pub proof fn law_open_room_is_used(servers: nat)
    ensures
        spec_join_begin(true, servers) == (JoinStage::Open, JoinAction::UseRoom),
{
}

/// From a sync in progress with every remaining sync succeeding, the
/// remaining instances are synced one after another in list order, and
/// then the room opens.
proof fn lemma_join_actions_in_order(synced: usize, total: usize)
    requires
        synced < total,
    ensures
        spec_join_actions(
            JoinStage::Syncing { synced, total },
            Seq::new((total - synced) as nat, |i: int| JoinEvent::Synced),
        ) == Seq::new((total - synced - 1) as nat, |i: int| JoinAction::SyncWith((synced + 1 + i) as usize))
            + seq![JoinAction::OpenRoom],
    decreases total - synced,
{
    let events = Seq::new((total - synced) as nat, |i: int| JoinEvent::Synced);
    let want = Seq::new((total - synced - 1) as nat, |i: int| JoinAction::SyncWith((synced + 1 + i) as usize))
        + seq![JoinAction::OpenRoom];
    let got = spec_join_actions(JoinStage::Syncing { synced, total }, events);
    assert(events[0] == JoinEvent::Synced);
    if synced + 1 == total {
        assert(events.drop_first() =~= Seq::<JoinEvent>::empty());
        assert(spec_join_actions(JoinStage::Open, events.drop_first()) =~= Seq::<JoinAction>::empty());
        assert(got =~= want);
    } else {
        let next = (synced + 1) as usize;
        lemma_join_actions_in_order(next, total);
        assert(events.drop_first() =~= Seq::new((total - next) as nat, |i: int| JoinEvent::Synced));
        let tail = spec_join_actions(JoinStage::Syncing { synced: next, total }, events.drop_first());
        assert(got == seq![JoinAction::SyncWith(next)] + tail);
        assert(got =~= want);
    }
}

/// When every other instance serving a closed room is synced without a
/// failure, each of them is synced exactly once, in list order (the first
/// as the join begins), and then the room opens.
pub proof fn law_every_instance_synced_once_in_order(servers: usize)
    requires
        servers > 0,
    ensures
        ({
            let (stage, first) = spec_join_begin(false, servers as nat);
            seq![first] + spec_join_actions(
                stage,
                Seq::new(servers as nat, |i: int| JoinEvent::Synced),
            ) == Seq::new(servers as nat, |i: int| JoinAction::SyncWith(i as usize)) + seq![
                JoinAction::OpenRoom,
            ]
        }),
{
    lemma_join_actions_in_order(0, servers);
    let rest = spec_join_actions(
        JoinStage::Syncing { synced: 0, total: servers },
        Seq::new(servers as nat, |i: int| JoinEvent::Synced),
    );
    let want = Seq::new(servers as nat, |i: int| JoinAction::SyncWith(i as usize)) + seq![
        JoinAction::OpenRoom,
    ];
    assert(seq![JoinAction::SyncWith(0)] + rest =~= want);
}

/// A failed sync closes the join for good: the room is not opened,
/// whatever follows.
pub proof fn law_failed_sync_never_opens(s: JoinStage, events: Seq<JoinEvent>)
    requires
        s is Syncing,
    ensures
        spec_join_run(spec_join_step(s, JoinEvent::SyncFailed).0, events) == JoinStage::Failed,
{
    lemma_join_run_settled(JoinStage::Failed, events);
}

} // verus!
