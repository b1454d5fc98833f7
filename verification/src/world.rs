//! The entity store: every entity is a row of optional attributes, and its
//! place in the store is its identity.

use crate::combat::Health;
use crate::math::{UVec2, Vec2};
use crate::physics::collision::{Collider, StaticCollider, Terrain, TerrainHandler};
use crate::physics::movement::{Facing, FollowsPlayer, GravityAffected, Velocity};
use crate::view::Camera2d;
use crate::Player;
use vstd::prelude::*;

verus! {

/// The stable identity of an entity: its index in the store. Entities are never
/// removed, so an index never changes its meaning.
#[derive(Clone, Copy, Debug, PartialEq, Eq, Structural)]
pub struct Entity(pub usize);

/// Where an entity is and how large it is. For an entity that takes part in
/// collisions the scale is the full size of its box.
#[derive(Clone, Copy, Debug, PartialEq, Eq, Structural)]
pub struct Transform {
    pub translation: Vec2,
    pub scale: UVec2,
}

impl Transform {
    pub fn new(translation: Vec2, scale: UVec2) -> (t: Transform)
        ensures
            t == (Transform { translation, scale }),
    {
        Transform { translation, scale }
    }
}

/// The attributes of one entity. Any subset may be present.
#[derive(Clone, Copy, Debug, PartialEq, Eq, Structural)]
pub struct Components {
    pub transform: Option<Transform>,
    pub velocity: Option<Velocity>,
    pub gravity: Option<GravityAffected>,
    pub facing: Option<Facing>,
    pub handler: Option<TerrainHandler>,
    pub static_collider: Option<StaticCollider>,
    pub health: Option<Health>,
    pub collider: Option<Collider>,
    pub terrain: Option<Terrain>,
    pub player: Option<Player>,
    pub camera: Option<Camera2d>,
    pub follows_player: Option<FollowsPlayer>,
}

impl Components {
    /// An entity without any attribute.
    pub open spec fn bare() -> Components {
        Components {
            transform: None,
            velocity: None,
            gravity: None,
            facing: None,
            handler: None,
            static_collider: None,
            health: None,
            collider: None,
            terrain: None,
            player: None,
            camera: None,
            follows_player: None,
        }
    }

    pub fn new() -> (c: Components)
        ensures
            c == Components::bare(),
    {
        Components {
            transform: None,
            velocity: None,
            gravity: None,
            facing: None,
            handler: None,
            static_collider: None,
            health: None,
            collider: None,
            terrain: None,
            player: None,
            camera: None,
            follows_player: None,
        }
    }
}

/// The parts that a stage looks for exactly one entity to play.
#[derive(Clone, Copy, Debug, PartialEq, Eq, Structural)]
pub enum Role {
    /// The player as the movement controller steers it: with a transform, a
    /// velocity and gravity.
    Mover,
    /// The player as far as it has a velocity.
    Runner,
    /// The player as far as it has a transform.
    Lead,
    /// A camera with a transform that is not the player.
    Camera,
}

impl Components {
    /// Whether the entity carries the attributes of a role.
    pub open spec fn has_role(self, role: Role) -> bool {
        match role {
            Role::Mover => self.player is Some && self.transform is Some && self.velocity is Some
                && self.gravity is Some,
            Role::Runner => self.player is Some && self.velocity is Some,
            Role::Lead => self.player is Some && self.transform is Some,
            Role::Camera => self.camera is Some && self.transform is Some && self.player is None,
        }
    }

    pub fn plays(&self, role: Role) -> (yes: bool)
        ensures
            yes == self.has_role(role),
    {
        match role {
            Role::Mover => self.player.is_some() && self.transform.is_some()
                && self.velocity.is_some() && self.gravity.is_some(),
            Role::Runner => self.player.is_some() && self.velocity.is_some(),
            Role::Lead => self.player.is_some() && self.transform.is_some(),
            Role::Camera => self.camera.is_some() && self.transform.is_some()
                && self.player.is_none(),
        }
    }
}

/// Whether entity `i` plays the role and no other entity does.
pub open spec fn is_single(s: Seq<Components>, role: Role, i: int) -> bool {
    &&& 0 <= i < s.len()
    &&& s[i].has_role(role)
    &&& forall|j: int| 0 <= j < s.len() && #[trigger] s[j].has_role(role) ==> j == i
}

/// The one entity that plays the role; none if no entity or more than one
/// entity plays it.
pub open spec fn single(s: Seq<Components>, role: Role) -> Option<int> {
    if exists|i: int| is_single(s, role, i) {
        Some(choose|i: int| is_single(s, role, i))
    } else {
        None
    }
}

/// All entities, in the order in which they were spawned.
pub struct World {
    pub entities: Vec<Components>,
}

impl View for World {
    type V = Seq<Components>;

    open spec fn view(&self) -> Seq<Components> {
        self.entities@
    }
}

/// The attributes of `entity`, if the store holds it.
pub open spec fn lookup(s: Seq<Components>, entity: Entity) -> Option<Components> {
    if entity.0 < s.len() {
        Some(s[entity.0 as int])
    } else {
        None
    }
}

impl World {
    pub fn new() -> (w: World)
        ensures
            w@ == Seq::<Components>::empty(),
    {
        World { entities: Vec::new() }
    }

    pub fn len(&self) -> (n: usize)
        ensures
            n == self@.len(),
    {
        self.entities.len()
    }

    /// Adds an entity and returns its identity.
    pub fn spawn(&mut self, components: Components) -> (entity: Entity)
        ensures
            final(self)@ == old(self)@.push(components),
            entity.0 == old(self)@.len(),
    {
        let index: usize = self.entities.len();
        self.entities.push(components);
        Entity(index)
    }

    /// Finds the one entity that plays a role.
    pub fn single(&self, role: Role) -> (found: Option<usize>)
        ensures
            match found {
                Some(i) => single(self@, role) == Some(i as int) && is_single(self@, role, i as int),
                None => single(self@, role) is None,
            },
    {
        let mut found: Option<usize> = None;
        let mut i: usize = 0;
        while i < self.entities.len()
            invariant
                i <= self@.len(),
                match found {
                    Some(k) => k < i && self@[k as int].has_role(role) && forall|j: int|
                        0 <= j < i && #[trigger] self@[j].has_role(role) ==> j == k,
                    None => forall|j: int| 0 <= j < i ==> !#[trigger] self@[j].has_role(role),
                },
            decreases self@.len() - i,
        {
            if self.entities[i].plays(role) {
                if let Some(k) = found {
                    assert forall|x: int| !is_single(self@, role, x) by {
                        if is_single(self@, role, x) {
                            assert(self@[k as int].has_role(role));
                            assert(self@[i as int].has_role(role));
                        }
                    }
                    return None;
                }
                found = Some(i);
            }
            i += 1;
        }
        proof {
            match found {
                Some(k) => {
                    assert(is_single(self@, role, k as int));
                    let c = choose|x: int| is_single(self@, role, x);
                    assert(self@[k as int].has_role(role));
                },
                None => {
                    assert forall|x: int| !is_single(self@, role, x) by {}
                },
            }
        }
        found
    }

    pub fn get(&self, entity: Entity) -> (found: Option<Components>)
        ensures
            found == lookup(self@, entity),
    {
        if entity.0 < self.entities.len() {
            Some(self.entities[entity.0])
        } else {
            None
        }
    }
}

} // verus!
