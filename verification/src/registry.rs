//! The registry of item handlers: one identifier per kind of item.

use bevy::ecs::system::SystemId;
use vstd::prelude::*;

verus! {

/// The identifiers under which the two item handlers were registered.
///
/// The registry is filled once, when the handlers are registered. After
/// that it can be read and copied, and nothing can change what it holds.
#[derive(Clone, Copy, Debug, PartialEq, Eq)]
pub struct MyItemSystems {
    health: SystemId,
    magic: SystemId,
}

impl MyItemSystems {
    /// The identifier of the handler that restores health.
    pub closed spec fn spec_health(&self) -> SystemId {
        self.health
    }

    /// The identifier of the magic potion's handler.
    pub closed spec fn spec_magic(&self) -> SystemId {
        self.magic
    }

    /// Builds the registry from the identifiers that registering the health
    /// handler and the magic potion handler returned, in that order.
    pub fn new(health: SystemId, magic: SystemId) -> (systems: Self)
        ensures
            systems.health() == health,
            systems.magic() == magic,
    {
        MyItemSystems { health, magic }
    }

    /// The identifier of the handler that restores health.
    #[verifier::when_used_as_spec(spec_health)]
    pub fn health(&self) -> (id: SystemId)
        ensures
            id == self.health(),
    {
        self.health
    }

    /// The identifier of the magic potion's handler.
    #[verifier::when_used_as_spec(spec_magic)]
    pub fn magic(&self) -> (id: SystemId)
        ensures
            id == self.magic(),
    {
        self.magic
    }
}

/// The registry holds the two identifiers and nothing else: however two
/// registries were built, if they agree on both identifiers they are the
/// same registry.
pub proof fn lemma_registry_is_its_identifiers(a: MyItemSystems, b: MyItemSystems)
    requires
        a.health() == b.health(),
        a.magic() == b.magic(),
    ensures
        a == b,
{
}

} // verus!
