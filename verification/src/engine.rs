//! The boundary to the engine. Everything in this file is taken on trust:
//! the engine's types are declared without their contents, the names below
//! stand for what the engine holds, and each wrapper states what the
//! engine's own source shows of the call it makes.

use crate::handlers::MySparklesBundle;
use crate::triggers::RunSystemError;
use bevy::ecs::system::{Commands, RegisteredSystemError, SystemId};
use bevy::ecs::world::World;
use vstd::prelude::*;

verus! {

/// `bevy::ecs::system::SystemId`: the identifier the engine returns when a
/// system is registered. Its contents are not visible here; values of it are
/// only carried from the registration to the call that runs the system.
#[verifier::external_type_specification]
#[verifier::external_body]
#[verifier::reject_recursive_types(I)]
#[verifier::reject_recursive_types(O)]
pub struct ExSystemId<I, O>(SystemId<I, O>);

/// `bevy::ecs::world::World`: the engine's store of entities, components,
/// resources and registered systems. Nothing of its contents is visible here.
#[verifier::external_type_specification]
#[verifier::external_body]
pub struct ExWorld(World);

/// `bevy::ecs::system::Commands`: a handle on a queue of commands that the
/// engine applies to the world at a later point of its own choosing, and on
/// the world's stock of entity identifiers.
#[verifier::external_type_specification]
#[verifier::external_body]
pub struct ExCommands<'w, 's>(Commands<'w, 's>);

/// One command as it waits in the engine's queue.
pub enum QueuedCommand {
    /// Run the one-shot system with this identifier.
    Run(SystemId),
    /// Give a newly reserved entity its components, of which there are
    /// none. The entity comes to life when the engine applies the queue.
    SpawnMarker,
    /// Any other command.
    Other,
}

/// The commands that wait in the queue behind `commands`, oldest first: one
/// entry for each command that was pushed and that the engine has not
/// applied yet.
pub uninterp spec fn queued(commands: Commands) -> Seq<QueuedCommand>;

/// Whether the engine has an entity identifier left to reserve through
/// `commands`. It has none left once every index that fits its 32 bits is
/// in use or reserved.
pub uninterp spec fn entity_id_left(commands: Commands) -> bool;

/// The identifiers that `world` can run as they stand: those under which a
/// one-shot system is registered, has not been removed, and is not in the
/// middle of a run. In the engine's terms, the identifiers whose entity is
/// alive and holds its stored system.
pub uninterp spec fn runnable_systems(world: World) -> Set<SystemId>;

/// What a run of a one-shot system makes of a world. It holds where every
/// run of the system `id` that the engine starts on the world `before`
/// returns, and `after` is a world that such a run can leave behind. It
/// holds of no `after` where a run started on `before` panics or never ends.
///
/// The run is the engine's, from start to finish: it sets the system up if
/// this is its first run, runs it, and puts it back in store.
pub uninterp spec fn run_leaves(before: World, id: SystemId, after: World) -> bool;

/// Calls `Commands::run_system`, which pushes one command that runs the
/// system `id` onto the end of the queue and touches nothing else in it.
/// The system itself does not run during the call, and no entity
/// identifier is reserved.
#[verifier::external_body]
pub(crate) fn queue_run(commands: &mut Commands, id: SystemId)
    ensures
        queued(*final(commands)) == queued(*old(commands)).push(QueuedCommand::Run(id)),
        entity_id_left(*final(commands)) == entity_id_left(*old(commands)),
{
    commands.run_system(id);
}

/// Calls `Commands::spawn` with the empty bundle, which is what
/// `MySparklesBundle` stands for. The engine reserves an entity identifier
/// and pushes one command onto the end of the queue, which gives that
/// entity its components (here none) once the queue is applied. Nothing
/// else in the queue is touched.
///
/// The engine panics where it has no identifier left to reserve.
#[verifier::external_body]
pub(crate) fn queue_spawn(commands: &mut Commands, bundle: MySparklesBundle)
    requires
        entity_id_left(*old(commands)),
    ensures
        queued(*final(commands)) == queued(*old(commands)).push(QueuedCommand::SpawnMarker),
{
    let MySparklesBundle {} = bundle;
    commands.spawn(());
}

/// Calls `World::run_system`, which runs the system `id` at once, with
/// exclusive access to the world, and hands the engine's error over variant
/// by variant.
///
/// The engine looks the identifier up before it runs anything. It fails with
/// `SystemIdNotRegistered` where the identifier's entity is gone, and with
/// `Recursive` where the entity is there without its stored system, as it is
/// while that system runs; otherwise it runs the system and returns `Ok`.
/// A failure carries the identifier that was passed in, and it is never
/// `SelfRemove`, which the engine keeps for the removal of a system.
///
/// The system is the caller's own code. Where it would run, the caller
/// answers for its return: a system that panics takes this call with it.
#[verifier::external_body]
pub(crate) fn run_registered(world: &mut World, id: SystemId) -> (res: Result<(), RunSystemError>)
    requires
        runnable_systems(*old(world)).contains(id) ==> exists|after: World| #[trigger]
            run_leaves(*old(world), id, after),
    ensures
        res is Ok <==> runnable_systems(*old(world)).contains(id),
        res is Ok ==> run_leaves(*old(world), id, *final(world)),
        res matches Err(e) ==> e == RunSystemError::NotRegistered(id) || e
            == RunSystemError::Recursive(id),
{
    match world.run_system(id) {
        Ok(()) => Ok(()),
        Err(RegisteredSystemError::SystemIdNotRegistered(id)) => Err(
            RunSystemError::NotRegistered(id),
        ),
        Err(RegisteredSystemError::Recursive(id)) => Err(RunSystemError::Recursive(id)),
        Err(RegisteredSystemError::SelfRemove(id)) => Err(RunSystemError::SelfRemove(id)),
    }
}

} // verus!
