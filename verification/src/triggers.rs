//! The triggers: what happens when an item is picked up. A trigger looks up
//! the item's handler in the registry and asks the engine to run it, either
//! later, through the command queue, or at once, with the world in hand.

use crate::engine::{
    entity_id_left, queue_run, queued, run_leaves, run_registered, runnable_systems,
    QueuedCommand,
};
use crate::registry::MyItemSystems;
use bevy::ecs::system::{Commands, SystemId};
use bevy::ecs::world::World;
use vstd::prelude::*;

verus! {

/// Why the engine could not carry out a request on a registered system.
/// Each failure carries the identifier that the request named.
#[derive(Clone, Copy, Debug, PartialEq, Eq)]
pub enum RunSystemError {
    /// No system is registered under the identifier: it was never registered
    /// in this world, or it has been removed since.
    NotRegistered(SystemId),
    /// The system is registered but not at rest: it is running already, and
    /// the request to run it came from within that run.
    Recursive(SystemId),
    /// The system tried to remove itself. Running a system never fails this
    /// way; the engine reports it when a system is removed.
    SelfRemove(SystemId),
}

/// Picks up a health item: queues the health handler to be run, and queues
/// nothing else.
///
/// The handler does not run during the call. The engine runs it when it next
/// applies the queue, after everything that was queued before.
pub fn trigger_health_item(commands: &mut Commands, systems: &MyItemSystems)
    ensures
        queued(*final(commands)) == queued(*old(commands)).push(
            QueuedCommand::Run(systems.health()),
        ),
        entity_id_left(*final(commands)) == entity_id_left(*old(commands)),
{
    queue_run(commands, systems.health());
}

/// Picks up a magic item: runs the magic potion handler at once.
///
/// The world must be able to run the magic handler, and the handler's run
/// must return. At return the world is one that this run of the handler
/// leaves behind: what the handler does is in effect for whatever comes
/// next.
///
/// A caller that cannot vouch for the registry uses
/// [`try_trigger_magic_item`] and treats its error as fatal.
pub fn trigger_magic_item(world: &mut World, systems: &MyItemSystems)
    requires
        runnable_systems(*old(world)).contains(systems.magic()),
        exists|after: World| #[trigger] run_leaves(*old(world), systems.magic(), after),
    ensures
        run_leaves(*old(world), systems.magic(), *final(world)),
{
    let _ = try_trigger_magic_item(world, systems);
}

/// Picks up a magic item where the registry may be out of date: runs the
/// magic potion handler at once, or reports why the engine could not.
///
/// The call succeeds exactly when the world can run the magic handler, and
/// the world is then one that this run of the handler leaves behind. A
/// failure names the magic handler's identifier: either nothing is
/// registered under it, or the handler is already running. Where the
/// handler would run, its run must return.
pub fn try_trigger_magic_item(world: &mut World, systems: &MyItemSystems) -> (res: Result<
    (),
    RunSystemError,
>)
    requires
        runnable_systems(*old(world)).contains(systems.magic()) ==> exists|after: World|
            #[trigger] run_leaves(*old(world), systems.magic(), after),
    ensures
        res is Ok <==> runnable_systems(*old(world)).contains(systems.magic()),
        res is Ok ==> run_leaves(*old(world), systems.magic(), *final(world)),
        res matches Err(e) ==> e == RunSystemError::NotRegistered(systems.magic()) || e
            == RunSystemError::Recursive(systems.magic()),
{
    run_registered(world, systems.magic())
}

} // verus!
