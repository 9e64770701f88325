//! The item handlers' effects: what a handler sends out and what it asks
//! the engine to do.

use crate::engine::{entity_id_left, queue_spawn, queued, QueuedCommand};
use bevy::ecs::system::Commands;
use vstd::prelude::*;

verus! {

/// What a magic effect announces to the rest of the game.
#[derive(Clone, Copy, Debug, PartialEq, Eq, Structural)]
pub enum MyMagicEvent {
    Sparkles,
}

/// The components of the entity that a magic potion brings forth: none.
/// The entity is a bare marker.
#[derive(Clone, Copy, Debug, PartialEq, Eq, Structural)]
pub struct MySparklesBundle {}

impl Default for MySparklesBundle {
    fn default() -> (bundle: Self)
        ensures
            bundle == (MySparklesBundle {}),
    {
        MySparklesBundle {}
    }
}

/// The outbound events once a magic potion has taken effect: those that were
/// pending, then one `Sparkles`.
pub open spec fn events_after_magic_potion(pending: Seq<MyMagicEvent>) -> Seq<MyMagicEvent> {
    pending.push(MyMagicEvent::Sparkles)
}

/// The engine's queue once a magic potion has taken effect: the commands
/// that were waiting, then one that spawns a bare marker entity.
pub open spec fn queue_after_magic_potion(pending: Seq<QueuedCommand>) -> Seq<QueuedCommand> {
    pending.push(QueuedCommand::SpawnMarker)
}

/// The magic potion takes effect: one `Sparkles` event goes out, and the
/// engine is asked for one marker entity.
///
/// The event is appended to the outbound events, which the caller sends.
/// The spawn is queued with the engine, which carries it out when it next
/// applies the queue. The engine must have an entity identifier left.
pub fn item_handler_magic_potion(events: &mut Vec<MyMagicEvent>, commands: &mut Commands)
    requires
        entity_id_left(*old(commands)),
    ensures
        final(events)@ == events_after_magic_potion(old(events)@),
        queued(*final(commands)) == queue_after_magic_potion(queued(*old(commands))),
{
    events.push(MyMagicEvent::Sparkles);
    queue_spawn(commands, MySparklesBundle::default());
}

/// Whatever is pending, a magic potion adds exactly one event and exactly one
/// command, the event is `Sparkles`, the command spawns a marker, and what
/// was pending stays as it was, in its place.
pub proof fn lemma_magic_potion_adds_one_of_each(
    events: Seq<MyMagicEvent>,
    commands: Seq<QueuedCommand>,
)
    ensures
        events_after_magic_potion(events).len() == events.len() + 1,
        queue_after_magic_potion(commands).len() == commands.len() + 1,
        events_after_magic_potion(events).last() == MyMagicEvent::Sparkles,
        queue_after_magic_potion(commands).last() == QueuedCommand::SpawnMarker,
        events_after_magic_potion(events).drop_last() == events,
        queue_after_magic_potion(commands).drop_last() == commands,
{
}

} // verus!
