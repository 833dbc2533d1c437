//! The registry of owned handles. A host that cannot hold a native
//! reference holds an integer instead: `create` takes a resource in and
//! gives its handle out, `release` gives the resource back, once. A handle
//! is never given out twice, so a released handle stays unknown for good.

use std::collections::HashMap;
use vstd::prelude::*;

verus! {

broadcast use vstd::std_specs::hash::group_hash_axioms;

/// The handle that is never given out: a host reads it as "no resource".
pub const NO_HANDLE: i64 = 0;

/// What a registry holds: the live resources by their handles, and the
/// handle that is given out next.
pub struct RegistryView<T> {
    pub live: Map<i64, T>,
    pub next: int,
}

impl<T> RegistryView<T> {
    /// Every live handle has been given out, and none is `NO_HANDLE`.
    pub open spec fn well_formed(self) -> bool {
        &&& 1 <= self.next <= i64::MAX
        &&& forall|handle: i64| #[trigger]
            self.live.contains_key(handle) ==> 1 <= handle < self.next
    }

    /// Whether `handle` has been given out.
    pub open spec fn issued(self, handle: i64) -> bool {
        1 <= handle < self.next
    }

    /// Whether `handle` has been given out and released.
    pub open spec fn retired(self, handle: i64) -> bool {
        self.issued(handle) && !self.live.contains_key(handle)
    }

    /// Whether a handle is left to give out.
    pub open spec fn has_room(self) -> bool {
        self.next < i64::MAX
    }

    /// The registry after `resource` has been taken in.
    pub open spec fn created(self, resource: T) -> RegistryView<T> {
        RegistryView { live: self.live.insert(self.next as i64, resource), next: self.next + 1 }
    }

    /// The registry after `handle` has been released.
    pub open spec fn released(self, handle: i64) -> RegistryView<T> {
        RegistryView { live: self.live.remove(handle), next: self.next }
    }
}

/// What is done to a registry.
pub enum RegistryEvent<T> {
    /// A resource is taken in.
    Create(T),
    /// A handle is released.
    Release(i64),
}

impl<T> RegistryView<T> {
    /// The registry after one event. Taking a resource in changes nothing
    /// where no handle is left.
    pub open spec fn step(self, event: RegistryEvent<T>) -> RegistryView<T> {
        match event {
            RegistryEvent::Create(resource) => if self.has_room() {
                self.created(resource)
            } else {
                self
            },
            RegistryEvent::Release(handle) => self.released(handle),
        }
    }

    /// The registry after a run of events, one after the other.
    pub open spec fn run(self, events: Seq<RegistryEvent<T>>) -> RegistryView<T>
        decreases events.len(),
    {
        if events.len() == 0 {
            self
        } else {
            self.step(events[0]).run(events.drop_first())
        }
    }
}

/// The registry of owned handles. It is well formed from `new` on: no
/// operation takes that away.
pub struct Registry<T> {
    live: HashMap<i64, T>,
    next: i64,
}

impl<T> View for Registry<T> {
    type V = RegistryView<T>;

    closed spec fn view(&self) -> RegistryView<T> {
        RegistryView { live: self.live@, next: self.next as int }
    }
}

impl<T> Registry<T> {
    /// An empty registry; the first handle that it gives out is 1.
    pub fn new() -> (r: Registry<T>)
        ensures
            r@.live == Map::<i64, T>::empty(),
            r@.next == 1,
            r@.well_formed(),
    {
        Registry { live: HashMap::new(), next: 1 }
    }

    /// Takes `resource` in and gives its handle out. Where no handle is
    /// left, the resource comes back and nothing changes.
    pub fn create(&mut self, resource: T) -> (r: Result<i64, T>)
        requires
            old(self)@.well_formed(),
        ensures
            final(self)@.well_formed(),
            match r {
                Ok(handle) => {
                    &&& old(self)@.has_room()
                    &&& handle == old(self)@.next
                    &&& handle != NO_HANDLE
                    &&& final(self)@ == old(self)@.created(resource)
                },
                Err(back) => {
                    &&& !old(self)@.has_room()
                    &&& back == resource
                    &&& final(self)@ == old(self)@
                },
            },
    {
        if self.next == i64::MAX {
            return Err(resource);
        }
        let handle = self.next;
        self.live.insert(handle, resource);
        self.next = handle + 1;
        proof {
            assert(self@.live =~= old(self)@.created(resource).live);
            lemma_create_keeps_well_formed(old(self)@, resource);
        }
        Ok(handle)
    }

    /// The resource behind `handle`, if the handle is live.
    pub fn get(&self, handle: i64) -> (r: Option<&T>)
        ensures
            match r {
                Some(resource) => self@.live.contains_key(handle) && self@.live[handle]
                    == *resource,
                None => !self@.live.contains_key(handle),
            },
    {
        self.live.get(&handle)
    }

    /// Whether `handle` is live.
    pub fn is_live(&self, handle: i64) -> (r: bool)
        ensures
            r == self@.live.contains_key(handle),
    {
        self.live.contains_key(&handle)
    }

    /// How many handles are live.
    pub fn len(&self) -> (r: usize)
        ensures
            r == self@.live.len(),
    {
        self.live.len()
    }

    /// Releases `handle` and gives the resource behind it back. A handle
    /// that is not live, because it was released before or never given out,
    /// gives nothing back and changes nothing.
    pub fn release(&mut self, handle: i64) -> (r: Option<T>)
        requires
            old(self)@.well_formed(),
        ensures
            final(self)@.well_formed(),
            final(self)@ == old(self)@.released(handle),
            !final(self)@.live.contains_key(handle),
            match r {
                Some(resource) => old(self)@.live.contains_key(handle) && old(self)@.live[handle]
                    == resource,
                None => !old(self)@.live.contains_key(handle) && final(self)@ == old(self)@,
            },
    {
        let taken = self.live.remove(&handle);
        proof {
            if taken is None {
                assert(self.live@ =~= old(self).live@);
            }
            lemma_release_keeps_well_formed(old(self)@, handle);
        }
        taken
    }
}

/// A well-formed registry stays so when a resource is taken in, as long as
/// a handle is left.
pub proof fn lemma_create_keeps_well_formed<T>(registry: RegistryView<T>, resource: T)
    requires
        registry.well_formed(),
        registry.has_room(),
    ensures
        registry.created(resource).well_formed(),
        registry.created(resource).live.contains_key(registry.next as i64),
{
}

/// A well-formed registry stays so when a handle is released.
pub proof fn lemma_release_keeps_well_formed<T>(registry: RegistryView<T>, handle: i64)
    requires
        registry.well_formed(),
    ensures
        registry.released(handle).well_formed(),
{
}

/// After a handle is released it is not live, whatever it was before; a
/// second release changes nothing.
pub proof fn lemma_release_is_final<T>(registry: RegistryView<T>, handle: i64)
    requires
        registry.well_formed(),
    ensures
        !registry.released(handle).live.contains_key(handle),
        registry.released(handle).released(handle) == registry.released(handle),
        registry.issued(handle) ==> registry.released(handle).retired(handle),
{
    assert(registry.released(handle).live.remove(handle) =~= registry.released(handle).live);
}

/// A handle that was given out and released stays released, whatever is
/// taken in or released afterwards: no later `create` gives it out again.
pub proof fn lemma_retired_handle_stays_retired<T>(
    registry: RegistryView<T>,
    retired: i64,
    resource: T,
    other: i64,
)
    requires
        registry.well_formed(),
        registry.retired(retired),
    ensures
        registry.has_room() ==> registry.created(resource).retired(retired),
        registry.released(other).retired(retired),
{
}

/// Once a handle has been released it is unknown for good: whatever is
/// created and released afterwards, in whatever order, the handle is not
/// live again.
pub proof fn lemma_released_handle_is_never_live_again<T>(
    registry: RegistryView<T>,
    events: Seq<RegistryEvent<T>>,
    handle: i64,
)
    requires
        registry.well_formed(),
        registry.retired(handle),
    ensures
        registry.run(events).well_formed(),
        registry.run(events).retired(handle),
        !registry.run(events).live.contains_key(handle),
    decreases events.len(),
{
    if events.len() > 0 {
        let next = registry.step(events[0]);
        match events[0] {
            RegistryEvent::Create(resource) => {
                if registry.has_room() {
                    lemma_create_keeps_well_formed(registry, resource);
                }
            },
            RegistryEvent::Release(other) => {
                lemma_release_keeps_well_formed(registry, other);
            },
        }
        lemma_released_handle_is_never_live_again(next, events.drop_first(), handle);
    }
}

/// A handle that was never given out is not live; `NO_HANDLE` never is.
pub proof fn lemma_unissued_handle_is_not_live<T>(registry: RegistryView<T>, handle: i64)
    requires
        registry.well_formed(),
        !registry.issued(handle),
    ensures
        !registry.live.contains_key(handle),
        !registry.live.contains_key(NO_HANDLE),
{
}

} // verus!
