//! The command buffer.
//!
//! Steps do not add or remove entities themselves. They describe the change,
//! the buffer keeps the descriptions in the order in which they came, and a
//! flush applies them to the store in that order and empties the buffer. A
//! command that cannot be applied is skipped and recorded; it stops nothing.

use vstd::prelude::*;
use crate::components::{ComponentSet, EntityId, Patch};
use crate::error::StoreError;
use crate::store::{Store, StoreModel};

verus! {

/// The description of one change to a store.
#[derive(Clone, Copy, Debug, PartialEq, Eq)]
pub enum Command {
    /// Add an entity with these components.
    Spawn(ComponentSet),
    /// Remove the entity with this identifier.
    Despawn(EntityId),
    /// Apply the patch to the entity with this identifier.
    Mutate(EntityId, Patch),
}

/// A command that a flush passed over: its place in the buffer and why the
/// store refused it.
#[derive(Clone, Copy, Debug, PartialEq, Eq)]
pub struct Skipped {
    pub index: usize,
    pub reason: StoreError,
}

/// Why `store` refuses `command`, if it does: a spawn when no identifier is
/// left, a removal or a patch of an entity that does not exist.
pub open spec fn refusal(store: StoreModel, command: Command) -> Option<StoreError> {
    match command {
        Command::Spawn(_) => if store.can_spawn() {
            None
        } else {
            Some(StoreError::OutOfIds)
        },
        Command::Despawn(id) => if store.contains(id) {
            None
        } else {
            Some(StoreError::StaleEntity(id))
        },
        Command::Mutate(id, _) => if store.contains(id) {
            None
        } else {
            Some(StoreError::StaleEntity(id))
        },
    }
}

/// The store after `command`. A refused command leaves the store as it is.
pub open spec fn apply(store: StoreModel, command: Command) -> StoreModel {
    match command {
        Command::Spawn(components) => if store.can_spawn() {
            store.spawn(components)
        } else {
            store
        },
        Command::Despawn(id) => store.despawn(id),
        Command::Mutate(id, patch) => store.mutate(id, patch),
    }
}

/// The store after each of `commands` in turn, first to last.
pub open spec fn apply_all(store: StoreModel, commands: Seq<Command>) -> StoreModel
    decreases commands.len(),
{
    if commands.len() == 0 {
        store
    } else {
        apply(apply_all(store, commands.drop_last()), commands.last())
    }
}

/// The commands among `commands` that are refused as they are applied in turn
/// to `store`, each with its place and reason, first to last.
pub open spec fn skipped(store: StoreModel, commands: Seq<Command>) -> Seq<Skipped>
    decreases commands.len(),
{
    if commands.len() == 0 {
        Seq::empty()
    } else {
        let earlier = skipped(store, commands.drop_last());
        match refusal(apply_all(store, commands.drop_last()), commands.last()) {
            Some(reason) => earlier.push(
                Skipped { index: (commands.len() - 1) as usize, reason },
            ),
            None => earlier,
        }
    }
}

/// Applying commands keeps a store well formed.
pub proof fn lemma_apply_all_wf(store: StoreModel, commands: Seq<Command>)
    requires
        store.wf(),
    ensures
        apply_all(store, commands).wf(),
    decreases commands.len(),
{
    if commands.len() > 0 {
        lemma_apply_all_wf(store, commands.drop_last());
        let before = apply_all(store, commands.drop_last());
        match commands.last() {
            Command::Spawn(components) => {
                before.lemma_changes_keep_wf(EntityId(0), components, Patch::spec_none());
            },
            Command::Despawn(id) => {
                before.lemma_changes_keep_wf(id, ComponentSet::spec_empty(), Patch::spec_none());
            },
            Command::Mutate(id, patch) => {
                before.lemma_changes_keep_wf(id, ComponentSet::spec_empty(), patch);
            },
        }
    }
}

/// Commands change entities, never resources.
pub proof fn lemma_apply_all_keeps_resources(store: StoreModel, commands: Seq<Command>)
    ensures
        apply_all(store, commands).frame_clock == store.frame_clock,
        apply_all(store, commands).game_state == store.game_state,
    decreases commands.len(),
{
    if commands.len() > 0 {
        lemma_apply_all_keeps_resources(store, commands.drop_last());
    }
}

/// Applying no commands changes nothing and skips nothing: a flush of a
/// drained buffer is a no-op, however often it is repeated.
pub proof fn lemma_apply_nothing(store: StoreModel)
    ensures
        apply_all(store, Seq::empty()) == store,
        skipped(store, Seq::empty()) == Seq::<Skipped>::empty(),
{
}

/// Applying one list of commands after another is the same as applying both
/// in one go: commands take effect in the order in which they were enqueued,
/// wherever the flushes fall between them.
pub proof fn lemma_apply_all_concat(store: StoreModel, first: Seq<Command>, second: Seq<Command>)
    ensures
        apply_all(store, first + second) == apply_all(apply_all(store, first), second),
    decreases second.len(),
{
    if second.len() == 0 {
        assert(first + second =~= first);
    } else {
        assert((first + second).drop_last() =~= first + second.drop_last());
        assert((first + second).last() == second.last());
        lemma_apply_all_concat(store, first, second.drop_last());
    }
}

/// The store after `flushes` flushes of a buffer that held `commands` before
/// the first of them: the first flush applies the commands and drains the
/// buffer, every later one finds it empty.
pub open spec fn after_flushes(store: StoreModel, commands: Seq<Command>, flushes: nat)
    -> StoreModel
    decreases flushes,
{
    if flushes == 0 {
        store
    } else if flushes == 1 {
        apply_all(store, commands)
    } else {
        apply_all(after_flushes(store, commands, (flushes - 1) as nat), Seq::empty())
    }
}

/// Replaying a list of commands gives the same store however often the
/// buffer is flushed afterwards: one flush decides the outcome.
pub proof fn lemma_flush_once_decides(store: StoreModel, commands: Seq<Command>, flushes: nat)
    requires
        flushes >= 1,
    ensures
        after_flushes(store, commands, flushes) == apply_all(store, commands),
    decreases flushes,
{
    if flushes > 1 {
        lemma_flush_once_decides(store, commands, (flushes - 1) as nat);
    }
}

/// Pending changes to a store, in the order in which they were enqueued.
pub struct CommandBuffer {
    pending: Vec<Command>,
}

impl View for CommandBuffer {
    type V = Seq<Command>;

    closed spec fn view(&self) -> Seq<Command> {
        self.pending@
    }
}

impl CommandBuffer {
    /// A buffer with nothing pending.
    pub fn new() -> (buffer: CommandBuffer)
        ensures
            buffer@ == Seq::<Command>::empty(),
    {
        CommandBuffer { pending: Vec::new() }
    }

    /// The number of pending commands.
    pub fn len(&self) -> (count: usize)
        ensures
            count == self@.len(),
    {
        self.pending.len()
    }

    /// Whether nothing is pending.
    pub fn is_empty(&self) -> (empty: bool)
        ensures
            empty == (self@.len() == 0),
    {
        self.pending.len() == 0
    }

    /// Asks for an entity with these components to be spawned at the next
    /// flush.
    pub fn enqueue_spawn(&mut self, components: ComponentSet)
        ensures
            final(self)@ == old(self)@.push(Command::Spawn(components)),
    {
        self.pending.push(Command::Spawn(components));
    }

    /// Asks for the entity with this identifier to be removed at the next
    /// flush.
    pub fn enqueue_despawn(&mut self, id: EntityId)
        ensures
            final(self)@ == old(self)@.push(Command::Despawn(id)),
    {
        self.pending.push(Command::Despawn(id));
    }

    /// Asks for `patch` to be applied to the entity with this identifier at
    /// the next flush.
    pub fn enqueue_mutate(&mut self, id: EntityId, patch: Patch)
        ensures
            final(self)@ == old(self)@.push(Command::Mutate(id, patch)),
    {
        self.pending.push(Command::Mutate(id, patch));
    }

    /// Applies the pending commands to `store` in the order in which they
    /// were enqueued and empties the buffer. A command that the store refuses
    /// is skipped; the result lists the skipped commands.
    pub fn flush(&mut self, store: &mut Store) -> (passed_over: Vec<Skipped>)
        requires
            old(store)@.wf(),
        ensures
            final(store)@ == apply_all(old(store)@, old(self)@),
            final(store)@.wf(),
            final(self)@ == Seq::<Command>::empty(),
            passed_over@ == skipped(old(store)@, old(self)@),
    {
        let mut passed_over: Vec<Skipped> = Vec::new();
        let mut i: usize = 0;
        while i < self.pending.len()
            invariant
                i <= self.pending.len(),
                self.pending@ == old(self)@,
                store@.wf(),
                store@ == apply_all(old(store)@, old(self)@.take(i as int)),
                passed_over@ == skipped(old(store)@, old(self)@.take(i as int)),
            decreases self.pending.len() - i,
        {
            proof {
                assert(old(self)@.take(i + 1).drop_last() =~= old(self)@.take(i as int));
            }
            let refused = match self.pending[i] {
                Command::Spawn(components) => {
                    if store.can_spawn() {
                        store.spawn(components);
                        None
                    } else {
                        Some(StoreError::OutOfIds)
                    }
                },
                Command::Despawn(id) => match store.despawn(id) {
                    Ok(()) => None,
                    Err(reason) => Some(reason),
                },
                Command::Mutate(id, patch) => match store.mutate(id, patch) {
                    Ok(()) => None,
                    Err(reason) => Some(reason),
                },
            };
            match refused {
                Some(reason) => {
                    passed_over.push(Skipped { index: i, reason });
                },
                None => {},
            }
            i = i + 1;
        }
        proof {
            assert(old(self)@.take(old(self)@.len() as int) =~= old(self)@);
        }
        self.pending.clear();
        passed_over
    }
}

} // verus!
