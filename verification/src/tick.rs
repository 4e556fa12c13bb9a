//! The simulation tick: drains the command channel, folds every drained
//! command into the registry in arrival order, then integrates physics for
//! every player, emitting this tick's lifecycle events.

use vstd::prelude::*;

use crate::channel::CommandChannel;
use crate::command::{player_of, Command, HorizontalIntent};
use crate::player::{
    pos_after_raw, step_fits, step_model, with_intent, with_jump, PlayerState, FLOOR,
    JUMP_STRENGTH,
};
use crate::registry::{step_map, Registry};

verus! {

/// One-shot notification of a structural change, exposed for one tick to
/// the rendering collaborator and then discarded: each tick returns a
/// fresh batch, so the previous tick's events are gone.
#[derive(Clone, Debug, PartialEq, Eq)]
pub enum LifecycleEvent {
    Joined(String),
    Left(String),
    Jumped(String),
}

/// What folding one command does to the registry map.
///
/// `Join` inserts the initial state for an unseen identifier and is
/// otherwise a no-op; `Leave` removes the entry if present; a movement
/// command replaces the held input of a present player and is discarded
/// for an unknown identifier; `Jump` applies the impulse only when no jump
/// is already active; `Dive` and `EndDive` are accepted and change
/// nothing.
pub open spec fn fold_cmd(m: Map<Seq<char>, PlayerState>, c: Command) -> Map<
    Seq<char>,
    PlayerState,
> {
    match c {
        Command::Join(id) => if m.contains_key(id@) {
            m
        } else {
            m.insert(id@, PlayerState::initial(id))
        },
        Command::Leave(id) => m.remove(id@),
        Command::MoveLeft(id) => if m.contains_key(id@) {
            m.insert(id@, with_intent(m[id@], HorizontalIntent::Left))
        } else {
            m
        },
        Command::MoveRight(id) => if m.contains_key(id@) {
            m.insert(id@, with_intent(m[id@], HorizontalIntent::Right))
        } else {
            m
        },
        Command::MoveNone(id) => if m.contains_key(id@) {
            m.insert(id@, with_intent(m[id@], HorizontalIntent::Still))
        } else {
            m
        },
        Command::Jump(id) => if m.contains_key(id@) && !m[id@].is_jumping {
            m.insert(id@, with_jump(m[id@]))
        } else {
            m
        },
        Command::Dive(_) => m,
        Command::EndDive(_) => m,
    }
}

/// Folding a whole drained sequence of commands, oldest first.
pub open spec fn fold_cmds(m: Map<Seq<char>, PlayerState>, cmds: Seq<Command>) -> Map<
    Seq<char>,
    PlayerState,
>
    decreases cmds.len(),
{
    if cmds.len() == 0 {
        m
    } else {
        fold_cmd(fold_cmds(m, cmds.drop_last()), cmds.last())
    }
}

/// The lifecycle events folding one command into state `m` emits: `Joined`
/// exactly when a join turns an absent identifier present, `Left` exactly
/// when a leave removes a present player, `Jumped` exactly when a jump
/// impulse is applied.
pub open spec fn events_of_cmd(m: Map<Seq<char>, PlayerState>, c: Command) -> Seq<LifecycleEvent> {
    match c {
        Command::Join(id) => if m.contains_key(id@) {
            Seq::<LifecycleEvent>::empty()
        } else {
            seq![LifecycleEvent::Joined(id)]
        },
        Command::Leave(id) => if m.contains_key(id@) {
            seq![LifecycleEvent::Left(id)]
        } else {
            Seq::<LifecycleEvent>::empty()
        },
        Command::Jump(id) => if m.contains_key(id@) && !m[id@].is_jumping {
            seq![LifecycleEvent::Jumped(id)]
        } else {
            Seq::<LifecycleEvent>::empty()
        },
        _ => Seq::<LifecycleEvent>::empty(),
    }
}

/// The events a whole drained sequence emits, in fold order.
pub open spec fn events_of_cmds(m: Map<Seq<char>, PlayerState>, cmds: Seq<Command>) -> Seq<
    LifecycleEvent,
>
    decreases cmds.len(),
{
    if cmds.len() == 0 {
        Seq::<LifecycleEvent>::empty()
    } else {
        events_of_cmds(m, cmds.drop_last()) + events_of_cmd(
            fold_cmds(m, cmds.drop_last()),
            cmds.last(),
        )
    }
}

/// The full tick on the registry map: fold the drained commands, then one
/// physics pass.
pub open spec fn tick_model(m: Map<Seq<char>, PlayerState>, cmds: Seq<Command>, dt: u32) -> Map<
    Seq<char>,
    PlayerState,
> {
    step_map(fold_cmds(m, cmds), dt)
}

/// Folds each drained command into the registry in arrival order and
/// returns the lifecycle events the fold emitted, in the same order.
pub fn fold_commands(reg: &mut Registry, cmds: &Vec<Command>) -> (events: Vec<LifecycleEvent>)
    requires
        old(reg).wf(),
    ensures
        final(reg).wf(),
        final(reg)@ == fold_cmds(old(reg)@, cmds@),
        events@ == events_of_cmds(old(reg)@, cmds@),
{
    let ghost m0 = reg@;
    let mut events: Vec<LifecycleEvent> = Vec::new();
    let n = cmds.len();
    let mut i: usize = 0;
    while i < n
        invariant
            reg.wf(),
            n == cmds@.len(),
            i <= n,
            reg@ == fold_cmds(m0, cmds@.take(i as int)),
            events@ == events_of_cmds(m0, cmds@.take(i as int)),
        decreases n - i,
    {
        match &cmds[i] {
            Command::Join(id) => {
                let joined = reg.join(id.clone());
                if joined {
                    events.push(LifecycleEvent::Joined(id.clone()));
                }
            },
            Command::Leave(id) => {
                let was = reg.leave(id);
                if was {
                    events.push(LifecycleEvent::Left(id.clone()));
                }
            },
            Command::MoveLeft(id) => {
                let _ = reg.set_intent(id, HorizontalIntent::Left);
            },
            Command::MoveRight(id) => {
                let _ = reg.set_intent(id, HorizontalIntent::Right);
            },
            Command::MoveNone(id) => {
                let _ = reg.set_intent(id, HorizontalIntent::Still);
            },
            Command::Jump(id) => {
                let jumped = reg.jump(id);
                if jumped {
                    events.push(LifecycleEvent::Jumped(id.clone()));
                }
            },
            Command::Dive(_) => {},
            Command::EndDive(_) => {},
        }
        proof {
            assert(cmds@.take((i + 1) as int).drop_last() =~= cmds@.take(i as int));
            assert(cmds@.take((i + 1) as int).last() == cmds@[i as int]);
            assert(events@ =~= events_of_cmds(m0, cmds@.take((i + 1) as int)));
        }
        i += 1;
    }
    proof {
        assert(cmds@.take(n as int) =~= cmds@);
    }
    events
}

/// One simulation tick: drains the channel completely, folds every
/// drained command into the registry in arrival order, then integrates
/// physics for every player. The drain never discards or reorders a
/// command, and the returned events are exactly the ones this tick's fold
/// emitted.
pub fn simulation_tick(reg: &mut Registry, chan: &mut CommandChannel, dt: u32) -> (events: Vec<
    LifecycleEvent,
>)
    requires
        old(reg).wf(),
        forall|k: Seq<char>|
            #[trigger] fold_cmds(old(reg)@, old(chan)@).contains_key(k) ==> step_fits(
                fold_cmds(old(reg)@, old(chan)@)[k],
                dt,
            ),
    ensures
        final(reg).wf(),
        final(chan)@ == Seq::<Command>::empty(),
        final(reg)@ == tick_model(old(reg)@, old(chan)@, dt),
        events@ == events_of_cmds(old(reg)@, old(chan)@),
        forall|k: Seq<char>|
            #[trigger] final(reg)@.contains_key(k) ==> final(reg)@[k].grounded_ok(),
{
    let cmds = chan.drain();
    let events = fold_commands(reg, &cmds);
    reg.step_all(dt);
    events
}

/// Law: joining is idempotent. Folding `Join(id)` twice — in the same or
/// in different ticks — leaves exactly the one entry the first join made,
/// and only a fold that turns the identifier from absent to present emits
/// a `Joined` event: one event when the player was absent, none when it
/// was already present.
pub proof fn lemma_join_idempotent(m: Map<Seq<char>, PlayerState>, id: String)
    ensures
        fold_cmd(fold_cmd(m, Command::Join(id)), Command::Join(id)) == fold_cmd(
            m,
            Command::Join(id),
        ),
        fold_cmd(m, Command::Join(id)).contains_key(id@),
        !m.contains_key(id@) ==> events_of_cmds(m, seq![Command::Join(id), Command::Join(id)])
            == seq![LifecycleEvent::Joined(id)],
        m.contains_key(id@) ==> events_of_cmds(m, seq![Command::Join(id), Command::Join(id)])
            == Seq::<LifecycleEvent>::empty(),
{
    reveal_with_fuel(fold_cmds, 4);
    reveal_with_fuel(events_of_cmds, 4);
    let s = seq![Command::Join(id), Command::Join(id)];
    assert(s.drop_last() =~= seq![Command::Join(id)]);
    assert(seq![Command::Join(id)].drop_last() =~= Seq::<Command>::empty());
    if !m.contains_key(id@) {
        assert(events_of_cmds(m, s) =~= seq![LifecycleEvent::Joined(id)]);
    } else {
        assert(events_of_cmds(m, s) =~= Seq::<LifecycleEvent>::empty());
    }
}

/// Law: the jump debounce. From a state where the player holds no active
/// jump, the first `Jump` sets the jump velocity and emits the only
/// `Jumped` event; a second `Jump` while airborne changes nothing.
/// Landing — a step that reaches the floor — clears the debounce, so a
/// further `Jump` after that step applies the impulse and emits again.
pub proof fn lemma_jump_debounce(m: Map<Seq<char>, PlayerState>, id: String, dt: u32)
    requires
        m.contains_key(id@),
        !m[id@].is_jumping,
    ensures
        fold_cmd(m, Command::Jump(id))[id@].vel_y == JUMP_STRENGTH,
        fold_cmd(m, Command::Jump(id))[id@].is_jumping,
        fold_cmd(fold_cmd(m, Command::Jump(id)), Command::Jump(id)) == fold_cmd(
            m,
            Command::Jump(id),
        ),
        events_of_cmds(m, seq![Command::Jump(id), Command::Jump(id)]) == seq![
            LifecycleEvent::Jumped(id),
        ],
        pos_after_raw(with_jump(m[id@]), dt) <= FLOOR ==> ({
            let landed = step_map(fold_cmd(m, Command::Jump(id)), dt);
            &&& !landed[id@].is_jumping
            &&& fold_cmd(landed, Command::Jump(id))[id@].vel_y == JUMP_STRENGTH
            &&& events_of_cmd(landed, Command::Jump(id)) == seq![LifecycleEvent::Jumped(id)]
        }),
{
    reveal_with_fuel(fold_cmds, 4);
    reveal_with_fuel(events_of_cmds, 4);
    let s = seq![Command::Jump(id), Command::Jump(id)];
    assert(s.drop_last() =~= seq![Command::Jump(id)]);
    assert(seq![Command::Jump(id)].drop_last() =~= Seq::<Command>::empty());
    assert(events_of_cmds(m, s) =~= seq![LifecycleEvent::Jumped(id)]);
}

/// Law: folding commands of two distinct players commutes. Commands from
/// different producers may therefore interleave in any order on the
/// channel without changing where the registry ends up; only each
/// producer's own order matters.
pub proof fn lemma_fold_commutes_across_ids(
    m: Map<Seq<char>, PlayerState>,
    c1: Command,
    c2: Command,
)
    requires
        player_of(c1) != player_of(c2),
    ensures
        fold_cmd(fold_cmd(m, c1), c2) == fold_cmd(fold_cmd(m, c2), c1),
{
    assert(fold_cmd(fold_cmd(m, c1), c2) =~= fold_cmd(fold_cmd(m, c2), c1));
}

/// Law: commands for an identifier that never joined are discarded. A
/// movement or jump for an unknown identifier leaves the registry map
/// unchanged and emits no event; only `Join` establishes presence.
pub proof fn lemma_unknown_id_discarded(m: Map<Seq<char>, PlayerState>, id: String)
    requires
        !m.contains_key(id@),
    ensures
        fold_cmd(m, Command::MoveRight(id)) == m,
        fold_cmd(m, Command::MoveLeft(id)) == m,
        fold_cmd(m, Command::MoveNone(id)) == m,
        fold_cmd(m, Command::Jump(id)) == m,
        events_of_cmd(m, Command::MoveRight(id)) == Seq::<LifecycleEvent>::empty(),
        events_of_cmd(m, Command::MoveLeft(id)) == Seq::<LifecycleEvent>::empty(),
        events_of_cmd(m, Command::MoveNone(id)) == Seq::<LifecycleEvent>::empty(),
        events_of_cmd(m, Command::Jump(id)) == Seq::<LifecycleEvent>::empty(),
{
}

} // verus!
