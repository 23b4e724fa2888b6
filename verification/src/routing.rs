//! Routing table: at most one handler per routing key, and the dispatch of
//! one delivered message to the handler bound to its key.

use vstd::prelude::*;

verus! {

/// The capability to handle one message body.
///
/// What handling does is the handler's own business; the table only needs
/// to know when a handler may be called (`inv`) and how its state after a
/// call relates to its state before (`handled`).
pub trait Handler: Sized {
    /// What must hold of the handler for it to be called.
    spec fn inv(&self) -> bool;

    /// Whether `next` is this handler after handling `payload` once, with
    /// the outcome `ok`.
    spec fn handled(&self, payload: Seq<u8>, next: &Self, ok: bool) -> bool;

    /// Handles one message body. Returns whether it succeeded; a failure
    /// concerns this one message only.
    fn handle(&mut self, payload: &[u8]) -> (ok: bool)
        requires
            old(self).inv(),
        ensures
            final(self).inv(),
            old(self).handled(payload@, final(self), ok),
    ;
}

/// What became of one dispatched message.
#[derive(Debug, Clone, Copy, PartialEq, Eq, Structural)]
pub enum Dispatch {
    /// No handler is bound to the key: the message was dropped.
    Unmatched,
    /// The handler bound to the key ran and succeeded.
    Handled,
    /// The handler bound to the key ran and failed on this message.
    Failed,
}

/// Whether some entry of `keys` is `key`.
pub open spec fn bound_in(keys: Seq<Seq<char>>, key: Seq<char>) -> bool {
    exists|i: int| 0 <= i < keys.len() && keys[i] == key
}

/// An index at which `key` stands in `keys`; the only one where the keys are
/// distinct.
pub open spec fn slot_in(keys: Seq<Seq<char>>, key: Seq<char>) -> int {
    choose|i: int| 0 <= i < keys.len() && keys[i] == key
}

/// No key occurs twice.
pub open spec fn distinct(keys: Seq<Seq<char>>) -> bool {
    forall|i: int, j: int| 0 <= i < j < keys.len() ==> keys[i] != keys[j]
}

/// One dispatch as a relation between the handlers before and after it:
/// with no handler bound to `key` nothing changes; otherwise the bound
/// handler, and no other, has handled `payload` once.
pub open spec fn dispatched<H: Handler>(
    keys: Seq<Seq<char>>,
    before: Seq<H>,
    key: Seq<char>,
    payload: Seq<u8>,
    after: Seq<H>,
    outcome: Dispatch,
) -> bool {
    &&& after.len() == before.len()
    &&& if bound_in(keys, key) {
        let i = slot_in(keys, key);
        &&& outcome != Dispatch::Unmatched
        &&& before[i].handled(payload, &after[i], outcome == Dispatch::Handled)
        &&& forall|j: int| 0 <= j < before.len() && j != i ==> after[j] == before[j]
    } else {
        &&& outcome == Dispatch::Unmatched
        &&& after == before
    }
}

/// Maps routing keys to handlers.
pub struct RoutingTable<H> {
    keys: Vec<String>,
    handlers: Vec<H>,
}

impl<H: Handler> RoutingTable<H> {
    /// The registered keys, in the order of their first registration.
    pub closed spec fn keys(&self) -> Seq<Seq<char>> {
        Seq::new(self.keys@.len(), |i: int| self.keys@[i]@)
    }

    /// The handlers, each at the index of its key.
    pub closed spec fn handlers(&self) -> Seq<H> {
        self.handlers@
    }

    /// Every key has one handler, no key occurs twice, and every handler may
    /// be called.
    pub open spec fn wf(&self) -> bool {
        &&& self.keys().len() == self.handlers().len()
        &&& distinct(self.keys())
        &&& forall|i: int| 0 <= i < self.handlers().len() ==> (#[trigger] self.handlers()[i]).inv()
    }

    /// Whether a handler is bound to `key`.
    pub open spec fn is_bound(&self, key: Seq<char>) -> bool {
        bound_in(self.keys(), key)
    }

    /// The handler bound to `key`.
    pub open spec fn bound_handler(&self, key: Seq<char>) -> H
        recommends
            self.is_bound(key),
    {
        self.handlers()[slot_in(self.keys(), key)]
    }

    /// A table with no key bound.
    pub fn new() -> (table: Self)
        ensures
            table.wf(),
            table.keys() == Seq::<Seq<char>>::empty(),
            table.handlers() == Seq::<H>::empty(),
    {
        let table = RoutingTable { keys: Vec::new(), handlers: Vec::new() };
        assert(table.keys() =~= Seq::<Seq<char>>::empty());
        table
    }

    /// The number of bound keys.
    pub fn len(&self) -> (n: usize)
        requires
            self.wf(),
        ensures
            n == self.keys().len(),
    {
        self.keys.len()
    }

    /// The index at which `key` is bound, if it is.
    pub fn find(&self, key: &str) -> (found: Option<usize>)
        requires
            self.wf(),
        ensures
            found is Some <==> self.is_bound(key@),
            found matches Some(i) ==> i == slot_in(self.keys(), key@) && i < self.keys().len(),
    {
        let wanted = key.to_owned();
        let mut i: usize = 0;
        while i < self.keys.len()
            invariant
                self.wf(),
                i <= self.keys.len(),
                wanted@ == key@,
                forall|j: int| 0 <= j < i ==> self.keys()[j] != key@,
            decreases self.keys.len() - i,
        {
            if self.keys[i] == wanted {
                proof {
                    let k = slot_in(self.keys(), key@);
                    assert(self.keys()[i as int] == key@);
                    assert(self.keys()[k] == key@);
                    assert(k == i);
                }
                return Some(i);
            }
            i = i + 1;
        }
        None
    }

    /// Binds `handler` to `key`. A key that was bound already is bound to
    /// the new handler instead: a key never has two.
    pub fn register(&mut self, key: &str, handler: H)
        requires
            old(self).wf(),
            handler.inv(),
        ensures
            final(self).wf(),
            final(self).is_bound(key@),
            final(self).bound_handler(key@) == handler,
            old(self).is_bound(key@) ==> {
                &&& final(self).keys() == old(self).keys()
                &&& final(self).handlers() == old(self).handlers().update(
                    slot_in(old(self).keys(), key@),
                    handler,
                )
            },
            !old(self).is_bound(key@) ==> {
                &&& final(self).keys() == old(self).keys().push(key@)
                &&& final(self).handlers() == old(self).handlers().push(handler)
            },
    {
        match self.find(key) {
            Some(i) => {
                self.handlers.set(i, handler);
                assert(final(self).keys()[i as int] == key@);
            },
            None => {
                self.keys.push(key.to_owned());
                self.handlers.push(handler);
                assert(final(self).keys() =~= old(self).keys().push(key@));
                assert(final(self).keys()[old(self).keys().len() as int] == key@);
            },
        }
    }

    /// The handler bound to `key`, if there is one.
    pub fn lookup(&self, key: &str) -> (found: Option<&H>)
        requires
            self.wf(),
        ensures
            found is Some <==> self.is_bound(key@),
            found matches Some(h) ==> *h == self.bound_handler(key@),
    {
        match self.find(key) {
            Some(i) => Some(&self.handlers[i]),
            None => None,
        }
    }

    /// The handler at index `i`.
    pub fn handler(&self, i: usize) -> (h: &H)
        requires
            self.wf(),
            i < self.handlers().len(),
        ensures
            *h == self.handlers()[i as int],
    {
        &self.handlers[i]
    }

    /// The handler at index `i`, to work on it. The table stays well formed
    /// as long as the handler may still be called afterwards.
    pub fn handler_mut(&mut self, i: usize) -> (h: &mut H)
        requires
            old(self).wf(),
            i < old(self).handlers().len(),
        ensures
            *h == old(self).handlers()[i as int],
            final(self).keys() == old(self).keys(),
            final(self).handlers() == old(self).handlers().update(i as int, *final(h)),
    {
        &mut self.handlers[i]
    }

    /// Dispatches one message: the handler bound to `key` handles `payload`
    /// once; with no handler bound the message is dropped and nothing
    /// changes. A handler's failure is reported in the outcome and touches
    /// nothing else.
    pub fn dispatch(&mut self, key: &str, payload: &[u8]) -> (outcome: Dispatch)
        requires
            old(self).wf(),
        ensures
            final(self).wf(),
            final(self).keys() == old(self).keys(),
            dispatched(
                old(self).keys(),
                old(self).handlers(),
                key@,
                payload@,
                final(self).handlers(),
                outcome,
            ),
    {
        match self.find(key) {
            Some(i) => {
                let ok = self.handlers[i].handle(payload);
                if ok {
                    Dispatch::Handled
                } else {
                    Dispatch::Failed
                }
            },
            None => Dispatch::Unmatched,
        }
    }
}

/// Delivery. A message whose key is bound is handled by the handler bound to
/// that key, once and with the payload as delivered, and by no other
/// handler.
pub proof fn lemma_bound_key_invokes_its_handler_once<H: Handler>(
    keys: Seq<Seq<char>>,
    before: Seq<H>,
    key: Seq<char>,
    payload: Seq<u8>,
    after: Seq<H>,
    outcome: Dispatch,
)
    requires
        distinct(keys),
        keys.len() == before.len(),
        bound_in(keys, key),
        dispatched(keys, before, key, payload, after, outcome),
    ensures
        0 <= slot_in(keys, key) < keys.len(),
        keys[slot_in(keys, key)] == key,
        forall|i: int| 0 <= i < keys.len() && keys[i] == key ==> i == slot_in(keys, key),
        outcome == Dispatch::Handled || outcome == Dispatch::Failed,
        before[slot_in(keys, key)].handled(
            payload,
            &after[slot_in(keys, key)],
            outcome == Dispatch::Handled,
        ),
        forall|j: int| 0 <= j < before.len() && j != slot_in(keys, key) ==> after[j] == before[j],
{
}

/// Drop. A message whose key is bound to no handler is dropped: no handler
/// runs, nothing changes, and the dispatch ends all the same.
pub proof fn lemma_unmatched_key_changes_nothing<H: Handler>(
    keys: Seq<Seq<char>>,
    before: Seq<H>,
    key: Seq<char>,
    payload: Seq<u8>,
    after: Seq<H>,
    outcome: Dispatch,
)
    requires
        !bound_in(keys, key),
        dispatched(keys, before, key, payload, after, outcome),
    ensures
        outcome == Dispatch::Unmatched,
        after == before,
{
}

} // verus!
