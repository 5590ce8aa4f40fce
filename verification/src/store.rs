//! The entity/resource store.
//!
//! A store holds entities, each an identifier with a set of components, and at
//! most one resource of each kind. Identifiers are handed out in increasing
//! order and never reused, and entities are kept in the order in which they
//! were spawned, which is also the order in which queries yield them.

use vstd::prelude::*;
use crate::clock::FrameClock;
use crate::components::{
    ComponentMask, ComponentSet, EntityId, GameState, Patch, PlayerRow, Window,
};
use crate::error::{ConfigError, FatalError, ResourceKind, StoreError};

verus! {

/// One entity: its identifier and what is attached to it.
#[derive(Clone, Copy, Debug, PartialEq, Eq)]
pub struct Entity {
    pub id: EntityId,
    pub components: ComponentSet,
}

/// A resource value, tagged with its kind.
#[derive(Clone, Copy, Debug, PartialEq, Eq)]
pub enum Resource {
    GameState(GameState),
    FrameClock(FrameClock),
}

impl Resource {
    /// The kind under which the store files this resource.
    pub open spec fn spec_kind(self) -> ResourceKind {
        match self {
            Resource::GameState(_) => ResourceKind::GameState,
            Resource::FrameClock(_) => ResourceKind::FrameClock,
        }
    }

    /// The kind under which the store files this resource.
    pub fn kind(&self) -> (kind: ResourceKind)
        ensures
            kind == self.spec_kind(),
    {
        match self {
            Resource::GameState(_) => ResourceKind::GameState,
            Resource::FrameClock(_) => ResourceKind::FrameClock,
        }
    }
}

/// The entities among `entities` that carry every component kind that `mask`
/// names, in their order.
pub open spec fn matching(entities: Seq<Entity>, mask: ComponentMask) -> Seq<Entity>
    decreases entities.len(),
{
    if entities.len() == 0 {
        Seq::empty()
    } else {
        let rest = matching(entities.drop_last(), mask);
        if entities.last().components.has_all(mask) {
            rest.push(entities.last())
        } else {
            rest
        }
    }
}

/// One row for each of `entities` that carries a player, a position and a
/// score, in their order.
pub open spec fn player_rows(entities: Seq<Entity>) -> Seq<PlayerRow>
    decreases entities.len(),
{
    if entities.len() == 0 {
        Seq::empty()
    } else {
        let rest = player_rows(entities.drop_last());
        match entities.last().components.player_row() {
            Some(row) => rest.push(row),
            None => rest,
        }
    }
}

/// A change to an entity that a query does not match, and does not match
/// after the change either, does not reach the query.
pub proof fn lemma_query_ignores_unmatched(
    entities: Seq<Entity>,
    i: int,
    changed: Entity,
    mask: ComponentMask,
)
    requires
        0 <= i < entities.len(),
        !entities[i].components.has_all(mask),
        !changed.components.has_all(mask),
    ensures
        matching(entities.update(i, changed), mask) == matching(entities, mask),
    decreases entities.len(),
{
    let after = entities.update(i, changed);
    if i == entities.len() - 1 {
        assert(after.drop_last() =~= entities.drop_last());
    } else {
        assert(after.drop_last() =~= entities.drop_last().update(i, changed));
        lemma_query_ignores_unmatched(entities.drop_last(), i, changed, mask);
    }
}

/// A query yields exactly the entities that carry the kinds asked for: each
/// entity it yields is one of those queried and carries them, and each of
/// those queried that carries them is yielded.
pub proof fn lemma_query_exact(entities: Seq<Entity>, mask: ComponentMask)
    ensures
        matching(entities, mask).len() <= entities.len(),
        forall|k: int|
            0 <= k < matching(entities, mask).len() ==> {
                &&& (#[trigger] matching(entities, mask)[k]).components.has_all(mask)
                &&& entities.contains(matching(entities, mask)[k])
            },
        forall|i: int|
            0 <= i < entities.len() && (#[trigger] entities[i]).components.has_all(mask)
                ==> matching(entities, mask).contains(entities[i]),
    decreases entities.len(),
{
    if entities.len() > 0 {
        let front = entities.drop_last();
        let rest = matching(front, mask);
        let found = matching(entities, mask);
        lemma_query_exact(front, mask);
        assert forall|k: int| 0 <= k < found.len() implies {
            &&& (#[trigger] found[k]).components.has_all(mask)
            &&& entities.contains(found[k])
        } by {
            if k < rest.len() {
                assert(found[k] == rest[k]);
                assert(front.contains(rest[k]));
                let i = choose|i: int| 0 <= i < front.len() && front[i] == rest[k];
                assert(entities[i] == found[k]);
            } else {
                assert(entities[entities.len() - 1] == found[k]);
            }
        }
        assert forall|i: int|
            0 <= i < entities.len() && (#[trigger] entities[i]).components.has_all(
                mask,
            ) implies found.contains(entities[i]) by {
            if i < front.len() {
                assert(front[i] == entities[i]);
                assert(rest.contains(front[i]));
                let k = choose|k: int| 0 <= k < rest.len() && rest[k] == front[i];
                assert(found[k] == entities[i]);
            } else {
                assert(found[found.len() - 1] == entities[i]);
            }
        }
    }
}

/// What a store holds, as mathematics sees it.
pub struct StoreModel {
    /// The entities, in the order in which they were spawned.
    pub entities: Seq<Entity>,
    /// The identifier that the next spawned entity gets.
    pub next_id: u64,
    /// The game state resource, if it was inserted.
    pub game_state: Option<GameState>,
    /// The frame clock resource, if it was inserted.
    pub frame_clock: Option<FrameClock>,
}

impl StoreModel {
    /// A store without entities and resources, whose first entity gets the
    /// identifier `first_id`.
    pub open spec fn empty(first_id: u64) -> StoreModel {
        StoreModel {
            entities: Seq::empty(),
            next_id: first_id,
            game_state: None,
            frame_clock: None,
        }
    }

    /// Identifiers grow along the entities and stay below the next one to be
    /// handed out. In particular no identifier occurs twice.
    pub open spec fn wf(self) -> bool {
        &&& forall|i: int|
            0 <= i < self.entities.len() ==> (#[trigger] self.entities[i]).id.0 < self.next_id
        &&& forall|i: int, j: int|
            0 <= i < j < self.entities.len() ==> (#[trigger] self.entities[i]).id.0 < (
            #[trigger] self.entities[j]).id.0
    }

    /// Whether an entity with this identifier exists.
    pub open spec fn contains(self, id: EntityId) -> bool {
        exists|i: int| 0 <= i < self.entities.len() && (#[trigger] self.entities[i]).id == id
    }

    /// Where the entity with this identifier stands, if it exists.
    pub open spec fn index_of(self, id: EntityId) -> int {
        choose|i: int| 0 <= i < self.entities.len() && (#[trigger] self.entities[i]).id == id
    }

    /// The components of the entity with this identifier, if it exists.
    pub open spec fn components(self, id: EntityId) -> Option<ComponentSet> {
        if self.contains(id) {
            Some(self.entities[self.index_of(id)].components)
        } else {
            None
        }
    }

    /// Whether an identifier is left for one more entity.
    pub open spec fn can_spawn(self) -> bool {
        self.next_id < u64::MAX
    }

    /// The store after an entity with these components was spawned.
    pub open spec fn spawn(self, components: ComponentSet) -> StoreModel {
        StoreModel {
            entities: self.entities.push(Entity { id: EntityId(self.next_id), components }),
            next_id: (self.next_id + 1) as u64,
            ..self
        }
    }

    /// The store after the entity with this identifier was removed. A store
    /// that has no such entity stays as it is.
    pub open spec fn despawn(self, id: EntityId) -> StoreModel {
        if self.contains(id) {
            StoreModel { entities: self.entities.remove(self.index_of(id)), ..self }
        } else {
            self
        }
    }

    /// The store after `patch` was applied to the entity with this
    /// identifier. A store that has no such entity stays as it is.
    pub open spec fn mutate(self, id: EntityId, patch: Patch) -> StoreModel {
        if self.contains(id) {
            let i = self.index_of(id);
            StoreModel {
                entities: self.entities.update(
                    i,
                    Entity { id, components: self.entities[i].components.patched(patch) },
                ),
                ..self
            }
        } else {
            self
        }
    }

    /// The resource of this kind, if one was inserted.
    pub open spec fn resource(self, kind: ResourceKind) -> Option<Resource> {
        match kind {
            ResourceKind::GameState => match self.game_state {
                Some(state) => Some(Resource::GameState(state)),
                None => None,
            },
            ResourceKind::FrameClock => match self.frame_clock {
                Some(clock) => Some(Resource::FrameClock(clock)),
                None => None,
            },
        }
    }

    /// The store with this resource filed under its kind, whatever was there.
    pub open spec fn with_resource(self, value: Resource) -> StoreModel {
        match value {
            Resource::GameState(state) => StoreModel { game_state: Some(state), ..self },
            Resource::FrameClock(clock) => StoreModel { frame_clock: Some(clock), ..self },
        }
    }

    /// Whether the entity at place `i` carries a window.
    pub open spec fn carries_window(self, i: int) -> bool {
        0 <= i < self.entities.len() && self.entities[i].components.window is Some
    }

    /// The place of an entity that carries a window, if there is one.
    pub open spec fn window_index(self) -> int {
        choose|i: int| self.carries_window(i)
    }

    /// The window that steps address, with the identifier of the entity that
    /// carries it: the only window, if exactly one entity carries one.
    pub open spec fn single_window(self) -> Result<(EntityId, Window), ConfigError> {
        if !exists|i: int| self.carries_window(i) {
            Err(ConfigError::NoWindow)
        } else if exists|i: int, j: int| i != j && self.carries_window(i) && self.carries_window(j) {
            Err(ConfigError::MultipleWindows)
        } else {
            let entity = self.entities[self.window_index()];
            Ok((entity.id, entity.components.window->0))
        }
    }

    /// In a well-formed store an identifier stands at one place only.
    pub proof fn lemma_index_unique(self, id: EntityId, i: int)
        requires
            self.wf(),
            0 <= i < self.entities.len(),
            self.entities[i].id == id,
        ensures
            self.contains(id),
            self.index_of(id) == i,
    {
        let j = self.index_of(id);
        assert(0 <= j < self.entities.len() && self.entities[j].id == id);
        if j < i {
            assert(self.entities[j].id.0 < self.entities[i].id.0);
        } else if i < j {
            assert(self.entities[i].id.0 < self.entities[j].id.0);
        }
    }

    /// Once an entity is removed, its identifier names nothing.
    pub proof fn lemma_despawn_removes(self, id: EntityId)
        requires
            self.wf(),
        ensures
            !self.despawn(id).contains(id),
    {
        if self.contains(id) {
            let k = self.index_of(id);
            let gone = self.despawn(id);
            if gone.contains(id) {
                let i = gone.index_of(id);
                let a = if i < k { i } else { i + 1 };
                assert(gone.entities[i] == self.entities[a]);
                self.lemma_index_unique(id, a);
            }
        }
    }

    /// Spawning, removing and patching keep a store well formed.
    pub proof fn lemma_changes_keep_wf(self, id: EntityId, components: ComponentSet, patch: Patch)
        requires
            self.wf(),
        ensures
            self.can_spawn() ==> self.spawn(components).wf(),
            self.despawn(id).wf(),
            self.mutate(id, patch).wf(),
    {
        if self.can_spawn() {
            let after = self.spawn(components);
            assert forall|i: int, j: int| 0 <= i < j < after.entities.len() implies (
            #[trigger] after.entities[i]).id.0 < (#[trigger] after.entities[j]).id.0 by {
                if j < self.entities.len() {
                    assert(after.entities[i] == self.entities[i]);
                    assert(after.entities[j] == self.entities[j]);
                } else {
                    assert(after.entities[i] == self.entities[i]);
                }
            }
            assert forall|i: int| 0 <= i < after.entities.len() implies (
            #[trigger] after.entities[i]).id.0 < after.next_id by {
                if i < self.entities.len() {
                    assert(after.entities[i] == self.entities[i]);
                }
            }
        }
        if self.contains(id) {
            let k = self.index_of(id);
            let gone = self.despawn(id);
            assert forall|i: int| 0 <= i < gone.entities.len() implies (
            #[trigger] gone.entities[i]).id.0 < gone.next_id by {
                if i < k {
                    assert(gone.entities[i] == self.entities[i]);
                } else {
                    assert(gone.entities[i] == self.entities[i + 1]);
                }
            }
            assert forall|i: int, j: int| 0 <= i < j < gone.entities.len() implies (
            #[trigger] gone.entities[i]).id.0 < (#[trigger] gone.entities[j]).id.0 by {
                let a = if i < k { i } else { i + 1 };
                let b = if j < k { j } else { j + 1 };
                assert(gone.entities[i] == self.entities[a]);
                assert(gone.entities[j] == self.entities[b]);
            }
            let patched = self.mutate(id, patch);
            assert forall|i: int| 0 <= i < patched.entities.len() implies (
            #[trigger] patched.entities[i]).id == self.entities[i].id by {}
            assert forall|i: int, j: int| 0 <= i < j < patched.entities.len() implies (
            #[trigger] patched.entities[i]).id.0 < (#[trigger] patched.entities[j]).id.0 by {
                assert(patched.entities[i].id == self.entities[i].id);
                assert(patched.entities[j].id == self.entities[j].id);
            }
        }
    }
}

/// The store itself.
pub struct Store {
    entities: Vec<Entity>,
    next_id: u64,
    game_state: Option<GameState>,
    frame_clock: Option<FrameClock>,
}

impl View for Store {
    type V = StoreModel;

    closed spec fn view(&self) -> StoreModel {
        StoreModel {
            entities: self.entities@,
            next_id: self.next_id,
            game_state: self.game_state,
            frame_clock: self.frame_clock,
        }
    }
}

impl Store {
    /// A store without entities and resources. Its first entity gets the
    /// identifier zero.
    pub fn new() -> (store: Store)
        ensures
            store@ == StoreModel::empty(0),
            store@.wf(),
    {
        Store { entities: Vec::new(), next_id: 0, game_state: None, frame_clock: None }
    }

    /// A store without entities and resources whose identifiers start at
    /// `first_id`, for a host that keeps several stores apart by their
    /// identifiers.
    pub fn starting_at(first_id: u64) -> (store: Store)
        ensures
            store@ == StoreModel::empty(first_id),
            store@.wf(),
    {
        Store { entities: Vec::new(), next_id: first_id, game_state: None, frame_clock: None }
    }

    /// The number of entities.
    pub fn len(&self) -> (count: usize)
        ensures
            count == self@.entities.len(),
    {
        self.entities.len()
    }

    /// Whether an identifier is left for one more entity.
    pub fn can_spawn(&self) -> (room: bool)
        ensures
            room == self@.can_spawn(),
    {
        self.next_id < u64::MAX
    }

    /// Where the entity with this identifier stands, if it exists.
    fn find(&self, id: EntityId) -> (place: Option<usize>)
        requires
            self@.wf(),
        ensures
            place is Some <==> self@.contains(id),
            place matches Some(i) ==> i == self@.index_of(id) && i < self@.entities.len(),
    {
        let mut i: usize = 0;
        while i < self.entities.len()
            invariant
                i <= self.entities.len(),
                self@.wf(),
                forall|k: int| 0 <= k < i ==> (#[trigger] self@.entities[k]).id != id,
            decreases self.entities.len() - i,
        {
            if self.entities[i].id == id {
                proof {
                    self@.lemma_index_unique(id, i as int);
                }
                return Some(i);
            }
            i = i + 1;
        }
        None
    }

    /// Whether an entity with this identifier exists.
    pub fn contains(&self, id: EntityId) -> (present: bool)
        requires
            self@.wf(),
        ensures
            present == self@.contains(id),
    {
        self.find(id).is_some()
    }

    /// The components of the entity with this identifier, or `None` if there
    /// is no such entity.
    pub fn get(&self, id: EntityId) -> (components: Option<ComponentSet>)
        requires
            self@.wf(),
        ensures
            components == self@.components(id),
    {
        match self.find(id) {
            Some(i) => Some(self.entities[i].components),
            None => None,
        }
    }

    /// Adds an entity with these components and returns its identifier, which
    /// is larger than every identifier handed out before.
    pub fn spawn(&mut self, components: ComponentSet) -> (id: EntityId)
        requires
            old(self)@.wf(),
            old(self)@.can_spawn(),
        ensures
            final(self)@ == old(self)@.spawn(components),
            final(self)@.wf(),
            id == EntityId(old(self)@.next_id),
            !old(self)@.contains(id),
    {
        proof {
            self@.lemma_changes_keep_wf(EntityId(0), components, Patch::spec_none());
        }
        let id = EntityId(self.next_id);
        self.next_id = self.next_id + 1;
        self.entities.push(Entity { id, components });
        id
    }

    /// Removes the entity with this identifier. Fails, and changes nothing, if
    /// there is no such entity.
    pub fn despawn(&mut self, id: EntityId) -> (done: Result<(), StoreError>)
        requires
            old(self)@.wf(),
        ensures
            final(self)@ == old(self)@.despawn(id),
            final(self)@.wf(),
            done is Ok <==> old(self)@.contains(id),
            done is Err ==> done == Err::<(), StoreError>(StoreError::StaleEntity(id)),
            !final(self)@.contains(id),
    {
        proof {
            self@.lemma_changes_keep_wf(id, ComponentSet::spec_empty(), Patch::spec_none());
            self@.lemma_despawn_removes(id);
        }
        match self.find(id) {
            Some(i) => {
                self.entities.remove(i);
                Ok(())
            },
            None => Err(StoreError::StaleEntity(id)),
        }
    }

    /// Applies `patch` to the entity with this identifier. Fails, and changes
    /// nothing, if there is no such entity.
    pub fn mutate(&mut self, id: EntityId, patch: Patch) -> (done: Result<(), StoreError>)
        requires
            old(self)@.wf(),
        ensures
            final(self)@ == old(self)@.mutate(id, patch),
            final(self)@.wf(),
            done is Ok <==> old(self)@.contains(id),
            done is Err ==> done == Err::<(), StoreError>(StoreError::StaleEntity(id)),
    {
        proof {
            self@.lemma_changes_keep_wf(id, ComponentSet::spec_empty(), patch);
        }
        match self.find(id) {
            Some(i) => {
                let components = self.entities[i].components.apply(patch);
                self.entities.set(i, Entity { id, components });
                Ok(())
            },
            None => Err(StoreError::StaleEntity(id)),
        }
    }

    /// The entities that carry every component kind that `mask` names, in
    /// the order in which they were spawned. The result is a snapshot: later
    /// changes to the store do not reach it.
    pub fn query(&self, mask: ComponentMask) -> (found: Vec<Entity>)
        ensures
            found@ == matching(self@.entities, mask),
    {
        let mut found: Vec<Entity> = Vec::new();
        let mut i: usize = 0;
        while i < self.entities.len()
            invariant
                i <= self.entities.len(),
                found@ == matching(self@.entities.take(i as int), mask),
            decreases self.entities.len() - i,
        {
            let entity = self.entities[i];
            proof {
                assert(self@.entities.take(i + 1).drop_last() =~= self@.entities.take(i as int));
            }
            if entity.components.includes(mask) {
                found.push(entity);
            }
            i = i + 1;
        }
        proof {
            assert(self@.entities.take(self@.entities.len() as int) =~= self@.entities);
        }
        found
    }

    /// One row of player, position and score for each entity that carries
    /// all three, in the order in which the entities were spawned.
    pub fn query_players(&self) -> (rows: Vec<PlayerRow>)
        ensures
            rows@ == player_rows(self@.entities),
    {
        let mut rows: Vec<PlayerRow> = Vec::new();
        let mut i: usize = 0;
        while i < self.entities.len()
            invariant
                i <= self.entities.len(),
                rows@ == player_rows(self@.entities.take(i as int)),
            decreases self.entities.len() - i,
        {
            proof {
                assert(self@.entities.take(i + 1).drop_last() =~= self@.entities.take(i as int));
            }
            match self.entities[i].components.row() {
                Some(row) => {
                    rows.push(row);
                },
                None => {},
            }
            i = i + 1;
        }
        proof {
            assert(self@.entities.take(self@.entities.len() as int) =~= self@.entities);
        }
        rows
    }

    /// The one window there is, with the identifier of the entity that
    /// carries it. Fails if no entity carries a window, or if more than one
    /// does.
    pub fn single_window(&self) -> (window: Result<(EntityId, Window), ConfigError>)
        ensures
            window == self@.single_window(),
            window matches Ok((id, _)) ==> self@.contains(id),
    {
        let mut found: Option<usize> = None;
        let mut i: usize = 0;
        while i < self.entities.len()
            invariant
                i <= self.entities.len(),
                match found {
                    None => forall|k: int| 0 <= k < i ==> !#[trigger] self@.carries_window(k),
                    Some(at) => {
                        &&& at < i
                        &&& self@.carries_window(at as int)
                        &&& forall|k: int|
                            0 <= k < i && k != at ==> !#[trigger] self@.carries_window(k)
                    },
                },
            decreases self.entities.len() - i,
        {
            if self.entities[i].components.window.is_some() {
                match found {
                    Some(at) => {
                        proof {
                            assert(self@.carries_window(at as int) && self@.carries_window(
                                i as int,
                            ));
                        }
                        return Err(ConfigError::MultipleWindows);
                    },
                    None => {
                        found = Some(i);
                    },
                }
            }
            i = i + 1;
        }
        match found {
            None => Err(ConfigError::NoWindow),
            Some(at) => match self.entities[at].components.window {
                Some(window) => Ok((self.entities[at].id, window)),
                None => vstd::pervasive::unreached(),
            },
        }
    }

    /// The resource of this kind, or `None` if none was ever inserted.
    pub fn resource_get(&self, kind: ResourceKind) -> (value: Option<Resource>)
        ensures
            value == self@.resource(kind),
    {
        match kind {
            ResourceKind::GameState => match self.game_state {
                Some(state) => Some(Resource::GameState(state)),
                None => None,
            },
            ResourceKind::FrameClock => match self.frame_clock {
                Some(clock) => Some(Resource::FrameClock(clock)),
                None => None,
            },
        }
    }

    /// Files a resource under its kind. Fails, and changes nothing, if the
    /// store already holds a resource of that kind.
    pub fn resource_insert(&mut self, value: Resource) -> (done: Result<(), FatalError>)
        ensures
            done is Ok <==> old(self)@.resource(value.spec_kind()) is None,
            done is Ok ==> final(self)@ == old(self)@.with_resource(value),
            done is Err ==> final(self)@ == old(self)@ && done == Err::<(), FatalError>(
                FatalError::ResourceCollision(value.spec_kind()),
            ),
    {
        match value {
            Resource::GameState(state) => {
                if self.game_state.is_some() {
                    return Err(FatalError::ResourceCollision(ResourceKind::GameState));
                }
                self.game_state = Some(state);
            },
            Resource::FrameClock(clock) => {
                if self.frame_clock.is_some() {
                    return Err(FatalError::ResourceCollision(ResourceKind::FrameClock));
                }
                self.frame_clock = Some(clock);
            },
        }
        Ok(())
    }

    /// Replaces the resource of the value's kind. Fails, and changes nothing,
    /// if the store holds no resource of that kind.
    pub fn resource_set(&mut self, value: Resource) -> (done: Result<(), ConfigError>)
        ensures
            done is Ok <==> old(self)@.resource(value.spec_kind()) is Some,
            done is Ok ==> final(self)@ == old(self)@.with_resource(value),
            done is Err ==> final(self)@ == old(self)@ && done == Err::<(), ConfigError>(
                ConfigError::MissingResource(value.spec_kind()),
            ),
    {
        match value {
            Resource::GameState(state) => {
                if self.game_state.is_none() {
                    return Err(ConfigError::MissingResource(ResourceKind::GameState));
                }
                self.game_state = Some(state);
            },
            Resource::FrameClock(clock) => {
                if self.frame_clock.is_none() {
                    return Err(ConfigError::MissingResource(ResourceKind::FrameClock));
                }
                self.frame_clock = Some(clock);
            },
        }
        Ok(())
    }
}

} // verus!
