//! End-to-end behaviour of the command channel, the fold, and the tick.
//!
//! Scales: positions are in millionths of a world unit, velocities in
//! thousandths of a unit per second, time deltas in milliseconds. So the
//! floor at -100 units is -100_000_000 and a velocity of -60 units per
//! second is -60_000.

use simcore::channel::CommandChannel;
use simcore::command::Command;
use simcore::registry::Registry;
use simcore::tick::{fold_commands, simulation_tick, LifecycleEvent};

fn join(reg: &mut Registry, chan: &mut CommandChannel, id: &str) {
    chan.send(Command::Join(id.to_string()));
    let _ = simulation_tick(reg, chan, 0);
}

#[test]
fn concrete_scenario() {
    let mut reg = Registry::new();
    let mut chan = CommandChannel::new();
    chan.send(Command::Join("A".to_string()));
    let events = simulation_tick(&mut reg, &mut chan, 0);
    assert_eq!(events, vec![LifecycleEvent::Joined("A".to_string())]);
    let p = reg.get("A").unwrap();
    assert_eq!(p.pos_x, 0);
    assert_eq!(p.pos_y, 0);
    assert!(!p.on_ground);

    // dt = 0.1 s with gravity -600 u/s^2: velocity -60 u/s, position -6 u
    let events = simulation_tick(&mut reg, &mut chan, 100);
    assert!(events.is_empty());
    let p = reg.get("A").unwrap();
    assert_eq!(p.vel_y, -60_000);
    assert_eq!(p.pos_y, -6_000_000);
    assert!(!p.on_ground);

    // keep ticking until the floor at -100 u is reached
    let mut guard = 0;
    while !reg.get("A").unwrap().on_ground {
        let _ = simulation_tick(&mut reg, &mut chan, 100);
        guard += 1;
        assert!(guard < 1000);
    }
    let p = reg.get("A").unwrap();
    assert_eq!(p.pos_y, -100_000_000);
    assert_eq!(p.vel_y, 0);
    assert!(p.on_ground);
}

#[test]
fn join_is_idempotent_same_tick() {
    let mut reg = Registry::new();
    let mut chan = CommandChannel::new();
    chan.send(Command::Join("A".to_string()));
    chan.send(Command::Join("A".to_string()));
    let events = simulation_tick(&mut reg, &mut chan, 0);
    assert_eq!(reg.len(), 1);
    assert_eq!(events, vec![LifecycleEvent::Joined("A".to_string())]);
}

#[test]
fn join_is_idempotent_across_ticks() {
    let mut reg = Registry::new();
    let mut chan = CommandChannel::new();
    join(&mut reg, &mut chan, "A");
    chan.send(Command::Join("A".to_string()));
    let events = simulation_tick(&mut reg, &mut chan, 0);
    assert_eq!(reg.len(), 1);
    assert!(events.is_empty());
}

#[test]
fn jump_is_debounced_and_landing_resets() {
    let mut reg = Registry::new();
    let mut chan = CommandChannel::new();
    join(&mut reg, &mut chan, "A");

    // two jumps in one tick: one velocity assignment, one event
    chan.send(Command::Jump("A".to_string()));
    chan.send(Command::Jump("A".to_string()));
    let events = simulation_tick(&mut reg, &mut chan, 0);
    assert_eq!(events, vec![LifecycleEvent::Jumped("A".to_string())]);
    assert_eq!(reg.get("A").unwrap().vel_y, 300_000);
    assert!(reg.get("A").unwrap().is_jumping);

    // a further jump while airborne is discarded
    chan.send(Command::Jump("A".to_string()));
    let events = simulation_tick(&mut reg, &mut chan, 100);
    assert!(events.is_empty());

    // land, then a third jump succeeds again
    let mut guard = 0;
    while !reg.get("A").unwrap().on_ground {
        let _ = simulation_tick(&mut reg, &mut chan, 100);
        guard += 1;
        assert!(guard < 1000);
    }
    assert!(!reg.get("A").unwrap().is_jumping);
    chan.send(Command::Jump("A".to_string()));
    let events = simulation_tick(&mut reg, &mut chan, 100);
    assert_eq!(events, vec![LifecycleEvent::Jumped("A".to_string())]);
    assert!(reg.get("A").unwrap().is_jumping);
}

#[test]
fn unknown_id_commands_are_discarded() {
    let mut reg = Registry::new();
    let mut chan = CommandChannel::new();
    chan.send(Command::MoveRight("ghost".to_string()));
    chan.send(Command::Jump("ghost".to_string()));
    let events = simulation_tick(&mut reg, &mut chan, 0);
    assert_eq!(reg.len(), 0);
    assert!(events.is_empty());
    assert!(reg.get("ghost").is_none());
}

#[test]
fn leave_removes_and_emits_only_when_present() {
    let mut reg = Registry::new();
    let mut chan = CommandChannel::new();
    join(&mut reg, &mut chan, "A");
    join(&mut reg, &mut chan, "B");
    chan.send(Command::Leave("A".to_string()));
    let events = simulation_tick(&mut reg, &mut chan, 0);
    assert_eq!(events, vec![LifecycleEvent::Left("A".to_string())]);
    assert_eq!(reg.len(), 1);
    assert!(!reg.contains("A"));
    assert!(reg.get("A").is_none());
    assert!(reg.contains("B"));
    assert!(reg.get("B").is_some());

    // leaving an absent player: no entry, no event
    chan.send(Command::Leave("A".to_string()));
    let events = simulation_tick(&mut reg, &mut chan, 0);
    assert!(events.is_empty());
    assert_eq!(reg.len(), 1);
}

#[test]
fn held_movement_steps_every_tick() {
    let mut reg = Registry::new();
    let mut chan = CommandChannel::new();
    join(&mut reg, &mut chan, "A");
    chan.send(Command::MoveRight("A".to_string()));
    let _ = simulation_tick(&mut reg, &mut chan, 0);
    let _ = simulation_tick(&mut reg, &mut chan, 0);
    let _ = simulation_tick(&mut reg, &mut chan, 0);
    // 3 ticks with the input held: 3 steps of 5 units
    assert_eq!(reg.get("A").unwrap().pos_x, 15_000_000);
    chan.send(Command::MoveNone("A".to_string()));
    let _ = simulation_tick(&mut reg, &mut chan, 0);
    assert_eq!(reg.get("A").unwrap().pos_x, 15_000_000);
    chan.send(Command::MoveLeft("A".to_string()));
    let _ = simulation_tick(&mut reg, &mut chan, 0);
    assert_eq!(reg.get("A").unwrap().pos_x, 10_000_000);
}

#[test]
fn dive_commands_change_nothing() {
    let mut reg = Registry::new();
    let mut chan = CommandChannel::new();
    join(&mut reg, &mut chan, "A");
    let before = reg.get("A").unwrap().clone();
    chan.send(Command::Dive("A".to_string()));
    chan.send(Command::EndDive("A".to_string()));
    let events = fold_commands(&mut reg, &chan.drain());
    assert!(events.is_empty());
    assert_eq!(*reg.get("A").unwrap(), before);
}

#[test]
fn channel_preserves_producer_order() {
    let mut chan = CommandChannel::new();
    // one producer's two commands, interleaved with another producer's
    chan.send(Command::Join("B".to_string()));
    chan.send(Command::MoveLeft("A".to_string()));
    chan.send(Command::Jump("B".to_string()));
    chan.send(Command::MoveRight("A".to_string()));
    let drained = chan.drain();
    assert_eq!(drained.len(), 4);
    assert_eq!(chan.len(), 0);
    let first = drained
        .iter()
        .position(|c| *c == Command::MoveLeft("A".to_string()))
        .unwrap();
    let second = drained
        .iter()
        .position(|c| *c == Command::MoveRight("A".to_string()))
        .unwrap();
    assert!(first < second);
}

#[test]
fn try_receive_is_fifo_and_non_blocking() {
    let mut chan = CommandChannel::new();
    assert_eq!(chan.try_receive(), None);
    chan.send(Command::Join("A".to_string()));
    chan.send(Command::Leave("A".to_string()));
    assert_eq!(chan.try_receive(), Some(Command::Join("A".to_string())));
    assert_eq!(chan.try_receive(), Some(Command::Leave("A".to_string())));
    assert_eq!(chan.try_receive(), None);
}

#[test]
fn member_ids_in_join_order() {
    let mut reg = Registry::new();
    let mut chan = CommandChannel::new();
    join(&mut reg, &mut chan, "A");
    join(&mut reg, &mut chan, "B");
    let ids: Vec<String> = reg.member_ids().clone();
    assert_eq!(ids, vec!["A".to_string(), "B".to_string()]);
}

#[test]
fn fits_check_guards_integration() {
    let mut reg = Registry::new();
    let mut chan = CommandChannel::new();
    join(&mut reg, &mut chan, "A");
    assert!(reg.step_all_fits(100));
    // an absurd delta would overflow the position product
    assert!(!reg.step_all_fits(u32::MAX));
}

#[test]
fn greeting_route() {
    assert_eq!(simcore::index(), "Hello, Rocket!");
}
