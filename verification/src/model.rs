//! The mathematical model of an application: the next identifier to hand out and the
//! callbacks registered so far.

use vstd::prelude::*;

verus! {

/// What an application is, as far as its contracts are concerned.
pub struct ApplicationView<C> {
    /// The identifier that the next successful addition returns. It counts the successful
    /// additions made so far.
    pub next_id: nat,
    /// The callback registered for each menu entry. A separator has an identifier and no
    /// callback.
    pub callbacks: Map<u32, C>,
}

impl<C> ApplicationView<C> {
    /// A new application: nothing added, nothing registered.
    pub open spec fn initial() -> Self {
        ApplicationView { next_id: 0, callbacks: Map::empty() }
    }

    /// Every registered identifier has been handed out.
    pub open spec fn wf(self) -> bool {
        forall|id: u32| #[trigger] self.callbacks.contains_key(id) ==> (id as nat) < self.next_id
    }

    /// There is an identifier left to hand out.
    pub open spec fn has_room(self) -> bool {
        self.next_id < u32::MAX
    }

    /// The application after one more entry was added, with callback `f`.
    pub open spec fn with_item(self, f: C) -> Self {
        ApplicationView {
            next_id: self.next_id + 1,
            callbacks: self.callbacks.insert(self.next_id as u32, f),
        }
    }

    /// The application after one more separator was added.
    pub open spec fn with_separator(self) -> Self {
        ApplicationView { next_id: self.next_id + 1, callbacks: self.callbacks }
    }

    /// What `earlier` had handed out is as it was: no identifier is taken back, every
    /// entry registered in `earlier` is registered still, with the same callback, and an
    /// identifier that `earlier` had handed out without a callback, a separator's, has
    /// none still.
    pub open spec fn extends(self, earlier: Self) -> bool {
        &&& self.next_id >= earlier.next_id
        &&& forall|id: u32| #[trigger]
            earlier.callbacks.contains_key(id) ==> self.callbacks.contains_key(id)
                && self.callbacks[id] == earlier.callbacks[id]
        &&& forall|id: u32|
            id < earlier.next_id && #[trigger] self.callbacks.contains_key(id)
                ==> earlier.callbacks.contains_key(id)
    }

    /// The application with the callback of `id` taken out of the registry.
    pub open spec fn without(self, id: u32) -> Self {
        ApplicationView { next_id: self.next_id, callbacks: self.callbacks.remove(id) }
    }

    /// The application with `f` put into the registry under `id`.
    pub open spec fn with_callback(self, id: u32, f: C) -> Self {
        ApplicationView { next_id: self.next_id, callbacks: self.callbacks.insert(id, f) }
    }

    /// The application after the additions `adds` were made in turn, each with success.
    /// `Some(f)` stands for an entry with callback `f`, `None` for a separator.
    pub open spec fn after(self, adds: Seq<Option<C>>) -> Self
        decreases adds.len(),
    {
        if adds.len() == 0 {
            self
        } else {
            let before = self.after(adds.drop_last());
            match adds.last() {
                Some(f) => before.with_item(f),
                None => before.with_separator(),
            }
        }
    }

    /// The identifier that the addition at position `i` of `adds` returns, when the
    /// additions are made in turn and each succeeds: the counter as the additions before
    /// it have left it.
    pub open spec fn id_of(self, adds: Seq<Option<C>>, i: int) -> nat {
        self.after(adds.take(i)).next_id
    }

    /// Each successful addition moves the counter by one, whatever is added.
    pub proof fn lemma_after_counts(self, adds: Seq<Option<C>>)
        ensures
            self.after(adds).next_id == self.next_id + adds.len(),
        decreases adds.len(),
    {
        if adds.len() > 0 {
            self.lemma_after_counts(adds.drop_last());
        }
    }

    /// Additions register the callbacks of the entries among them, each under the
    /// identifier that its addition returned, and leave the earlier registrations alone.
    pub proof fn lemma_after_registers(self, adds: Seq<Option<C>>)
        requires
            self.wf(),
            self.next_id + adds.len() <= u32::MAX,
        ensures
            self.after(adds).wf(),
            forall|id: u32|
                #![trigger self.after(adds).callbacks.contains_key(id)]
                self.after(adds).callbacks.contains_key(id) <==> {
                    ||| self.callbacks.contains_key(id)
                    ||| (self.next_id <= id < self.next_id + adds.len() && adds[id
                        - self.next_id] is Some)
                },
            forall|id: u32|
                #![trigger self.after(adds).callbacks[id]]
                self.after(adds).callbacks.contains_key(id) ==> self.after(adds).callbacks[id] == (
                if self.callbacks.contains_key(id) {
                    self.callbacks[id]
                } else {
                    adds[id - self.next_id]->0
                }),
        decreases adds.len(),
    {
        if adds.len() > 0 {
            let front = adds.drop_last();
            self.lemma_after_registers(front);
            self.lemma_after_counts(front);
        }
    }
}

/// Identifiers come in call order. On a new application, whatever entries and separators
/// are added, as long as each addition succeeds: the first returns 0, the next 1, and so
/// on, so the additions `adds` return exactly 0, 1, ..., `adds.len() - 1`, and no
/// identifier is returned twice.
pub proof fn lemma_ids_in_call_order<C>(adds: Seq<Option<C>>)
    ensures
        ApplicationView::<C>::initial().after(adds).next_id == adds.len(),
        forall|i: int|
            0 <= i < adds.len() ==> #[trigger] ApplicationView::<C>::initial().id_of(adds, i) == i,
        forall|i: int, j: int|
            0 <= i < adds.len() && 0 <= j < adds.len() && i != j ==> #[trigger]
            ApplicationView::<C>::initial().id_of(adds, i) != #[trigger]
            ApplicationView::<C>::initial().id_of(adds, j),
{
    let start = ApplicationView::<C>::initial();
    start.lemma_after_counts(adds);
    assert forall|i: int| 0 <= i < adds.len() implies #[trigger] start.id_of(adds, i) == i by {
        start.lemma_after_counts(adds.take(i));
    }
}

/// The registry holds the entries and nothing else. On a new application, after the
/// additions `adds` have each succeeded, an identifier has a callback exactly if the
/// addition that returned it was an entry, and the callback is the one given with it.
/// Separators have none.
pub proof fn lemma_registry_holds_entries<C>(adds: Seq<Option<C>>)
    requires
        adds.len() <= u32::MAX,
    ensures
        ApplicationView::<C>::initial().after(adds).wf(),
        forall|id: u32|
            #![trigger ApplicationView::<C>::initial().after(adds).callbacks.contains_key(id)]
            ApplicationView::<C>::initial().after(adds).callbacks.contains_key(id) <==> (id
                < adds.len() && adds[id as int] is Some),
        forall|id: u32|
            #![trigger ApplicationView::<C>::initial().after(adds).callbacks[id]]
            id < adds.len() && adds[id as int] is Some ==> ApplicationView::<C>::initial().after(
                adds,
            ).callbacks[id] == adds[id as int]->0,
{
    ApplicationView::<C>::initial().lemma_after_registers(adds);
}

} // verus!
