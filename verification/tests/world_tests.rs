use ecs::component::ComponentGenerator;
use ecs::entity::Entity;
use ecs::world::{World, WorldError};
use ecs::Id;

#[derive(Debug, Clone, Copy, PartialEq)]
struct Position {
    x: f32,
    y: f32,
}

#[test]
fn entity_identities_are_unique_and_increasing() {
    let mut world: World<Position> = World::new();
    let e0 = world.generate_entity();
    let e1 = world.generate_entity();
    let e2 = world.generate_entity();
    assert_eq!(e0, Entity::new(Id::new(1)));
    assert_eq!(e1, Entity::new(Id::new(2)));
    assert_eq!(e2, Entity::new(Id::new(3)));
    assert!(e0.id().raw() < e1.id().raw());
    assert!(e1.id().raw() < e2.id().raw());
    assert_ne!(e0, e1);
    assert_ne!(e1, e2);
    assert_ne!(e0, e2);
    assert_ne!(e0.id().raw(), 0);
    assert_ne!(e1.id().raw(), 0);
    assert_ne!(e2.id().raw(), 0);
}

#[test]
fn component_identities_are_stable_and_distinct() {
    let mut registry = ComponentGenerator::new();
    let position = registry.generate("Position");
    let velocity = registry.generate("Velocity");
    let position_again = registry.generate("Position");
    let velocity_again = registry.generate("Velocity");
    assert_eq!(position, position_again);
    assert_eq!(velocity, velocity_again);
    assert_ne!(position, velocity);
}

#[test]
fn attach_read_round_trip() {
    let mut registry = ComponentGenerator::new();
    let position = registry.generate("Position");
    let mut world: World<Position> = World::new();
    let entity = world.generate_entity();
    world.register_component(position).unwrap();
    world
        .register_component_on_entity(position, entity, Some(Position { x: 3.5, y: -1.25 }))
        .unwrap();
    let read = world.get_component_on_entity(position, entity).unwrap();
    assert_eq!(read, Some(&Position { x: 3.5, y: -1.25 }));
}

#[test]
fn unattached_read_returns_none() {
    let mut registry = ComponentGenerator::new();
    let position = registry.generate("Position");
    let mut world: World<Position> = World::new();
    world.register_component(position).unwrap();
    let fresh = world.generate_entity();
    // The column is still empty, so the entity's index lies beyond its length.
    assert_eq!(world.get_component_on_entity(position, fresh).unwrap(), None);
    // Grow the column past the entity by attaching to a later entity,
    // then read the earlier, never-attached one again.
    let later = world.generate_entity();
    world
        .register_component_on_entity(position, later, Some(Position { x: 0.0, y: 0.0 }))
        .unwrap();
    assert_eq!(world.get_component_on_entity(position, fresh).unwrap(), None);
}

#[test]
fn overwrite_semantics() {
    let mut registry = ComponentGenerator::new();
    let position = registry.generate("Position");
    let mut world: World<Position> = World::new();
    let a = world.generate_entity();
    let b = world.generate_entity();
    world.register_component(position).unwrap();
    world
        .register_component_on_entity(position, a, Some(Position { x: 1.0, y: 1.0 }))
        .unwrap();
    world
        .register_component_on_entity(position, b, Some(Position { x: 2.0, y: 2.0 }))
        .unwrap();

    // Attaching an empty value clears the slot.
    world.register_component_on_entity(position, a, None).unwrap();
    assert_eq!(world.get_component_on_entity(position, a).unwrap(), None);
    // The other entity's slot in the same column is untouched.
    assert_eq!(
        world.get_component_on_entity(position, b).unwrap(),
        Some(&Position { x: 2.0, y: 2.0 })
    );

    // Attaching a new value replaces the old one.
    world
        .register_component_on_entity(position, a, Some(Position { x: 9.0, y: 9.0 }))
        .unwrap();
    assert_eq!(
        world.get_component_on_entity(position, a).unwrap(),
        Some(&Position { x: 9.0, y: 9.0 })
    );
    assert_eq!(
        world.get_component_on_entity(position, b).unwrap(),
        Some(&Position { x: 2.0, y: 2.0 })
    );
}

#[test]
fn double_registration_is_fatal() {
    let mut registry = ComponentGenerator::new();
    let position = registry.generate("Position");
    let mut world: World<Position> = World::new();
    assert_eq!(world.register_component(position), Ok(position));
    assert_eq!(
        world.register_component(position),
        Err(WorldError::ComponentAlreadyRegistered)
    );
}

#[test]
fn use_before_registration_is_fatal() {
    let mut registry = ComponentGenerator::new();
    let position = registry.generate("Position");
    let mut world: World<Position> = World::new();
    let entity = world.generate_entity();
    assert_eq!(
        world.register_component_on_entity(position, entity, Some(Position { x: 0.0, y: 0.0 })),
        Err(WorldError::ComponentNotRegistered)
    );
    assert_eq!(
        world.get_component_on_entity(position, entity),
        Err(WorldError::ComponentNotRegistered)
    );
}

#[test]
fn world_scenario() {
    let mut world: World<Position> = World::new();
    let e0 = world.generate_entity();
    assert_eq!(e0.id().raw(), 1);
    let mut registry = ComponentGenerator::new();
    let position = registry.generate("Position");
    world.register_component(position).unwrap();
    world
        .register_component_on_entity(position, e0, Some(Position { x: 1.0, y: 2.0 }))
        .unwrap();
    assert_eq!(
        world.get_component_on_entity(position, e0).unwrap(),
        Some(&Position { x: 1.0, y: 2.0 })
    );
    let e1 = world.generate_entity();
    assert_eq!(world.get_component_on_entity(position, e1).unwrap(), None);
}
