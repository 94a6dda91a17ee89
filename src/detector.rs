//! The change detector: the state machine that turns the stream of address
//! events into the sequence of reconciliations to perform.
//!
//! The state is the last address for which a reconciliation was initiated.
//! It is recorded as soon as the reconciliation is handed out, before its
//! outcome is known: an update that fails after all retries is not tried
//! again for the same address, only on the next genuine change.
use vstd::prelude::*;

use crate::event::{is_tentative, relevant_address, relevant_address_of, AddressEvent, AddressScope};

verus! {

/// One transition: from the current address and an event, the next current
/// address and the address to reconcile, if any.
pub open spec fn step(current: Option<u128>, e: AddressEvent, monitored: u32) -> (
    Option<u128>,
    Option<u128>,
) {
    match relevant_address_of(e, monitored) {
        None => (current, None),
        Some(a) => if current == Some(a) {
            (current, None)
        } else {
            (Some(a), Some(a))
        },
    }
}

/// The current address after the events `es`, starting from `start`.
pub open spec fn state_after(start: Option<u128>, es: Seq<AddressEvent>, monitored: u32) -> Option<
    u128,
>
    decreases es.len(),
{
    if es.len() == 0 {
        start
    } else {
        step(state_after(start, es.drop_last(), monitored), es.last(), monitored).0
    }
}

/// The addresses reconciled, in order, while the events `es` are handled
/// starting from `start`.
pub open spec fn reconciled(start: Option<u128>, es: Seq<AddressEvent>, monitored: u32) -> Seq<u128>
    decreases es.len(),
{
    if es.len() == 0 {
        Seq::empty()
    } else {
        let before = reconciled(start, es.drop_last(), monitored);
        match step(state_after(start, es.drop_last(), monitored), es.last(), monitored).1 {
            Some(a) => before.push(a),
            None => before,
        }
    }
}

/// The detector of address changes on one interface.
#[derive(Clone, Copy, Debug)]
pub struct ChangeDetector {
    monitored: u32,
    current: Option<u128>,
}

impl ChangeDetector {
    /// The interface index whose events count.
    pub closed spec fn monitored_index(self) -> u32 {
        self.monitored
    }

    /// The last address for which a reconciliation was initiated.
    pub closed spec fn current_address(self) -> Option<u128> {
        self.current
    }

    /// A detector for interface `monitored` that knows no address yet.
    pub fn new(monitored: u32) -> (r: ChangeDetector)
        ensures
            r.monitored_index() == monitored,
            r.current_address() == None::<u128>,
    {
        ChangeDetector { monitored, current: None }
    }

    pub fn monitored(&self) -> (r: u32)
        ensures
            r == self.monitored_index(),
    {
        self.monitored
    }

    pub fn current(&self) -> (r: Option<u128>)
        ensures
            r == self.current_address(),
    {
        self.current
    }

    /// Handles one event: the address to reconcile when the event reports a
    /// genuine change, which then becomes the current address; `None`, with
    /// the state unchanged, otherwise.
    pub fn observe(&mut self, e: &AddressEvent) -> (r: Option<u128>)
        ensures
            final(self).monitored_index() == old(self).monitored_index(),
            (final(self).current_address(), r) == step(
                old(self).current_address(),
                *e,
                old(self).monitored_index(),
            ),
    {
        match relevant_address(e, self.monitored) {
            None => None,
            Some(a) => {
                if self.current == Some(a) {
                    None
                } else {
                    self.current = Some(a);
                    Some(a)
                }
            },
        }
    }
}

/// Handles the events `es` in order against interface `monitored`, from a
/// detector that knows no address, and returns the addresses to reconcile,
/// in order.
pub fn reconciliations(es: &Vec<AddressEvent>, monitored: u32) -> (r: Vec<u128>)
    ensures
        r@ == reconciled(None, es@, monitored),
{
    let mut detector = ChangeDetector::new(monitored);
    let mut out: Vec<u128> = Vec::new();
    let mut i: usize = 0;
    while i < es.len()
        invariant
            i <= es.len(),
            detector.monitored_index() == monitored,
            detector.current_address() == state_after(None, es@.take(i as int), monitored),
            out@ == reconciled(None, es@.take(i as int), monitored),
        decreases es.len() - i,
    {
        assert(es@.take(i + 1).drop_last() =~= es@.take(i as int));
        if let Some(a) = detector.observe(&es[i]) {
            out.push(a);
        }
        i = i + 1;
    }
    assert(es@.take(es.len() as int) =~= es@);
    out
}

/// Removing from a stream events that are all irrelevant changes neither the
/// reconciliations nor the final state.
proof fn lemma_drop_irrelevant(
    start: Option<u128>,
    es: Seq<AddressEvent>,
    monitored: u32,
    keep: spec_fn(AddressEvent) -> bool,
)
    requires
        forall|i: int|
            0 <= i < es.len() && !keep(#[trigger] es[i]) ==> relevant_address_of(es[i], monitored)
                is None,
    ensures
        state_after(start, es.filter(keep), monitored) == state_after(start, es, monitored),
        reconciled(start, es.filter(keep), monitored) == reconciled(start, es, monitored),
    decreases es.len(),
{
    reveal_with_fuel(Seq::filter, 1);
    if es.len() > 0 {
        let init = es.drop_last();
        assert forall|i: int| 0 <= i < init.len() && !keep(#[trigger] init[i]) implies relevant_address_of(
            init[i],
            monitored,
        ) is None by {
            assert(init[i] == es[i]);
        }
        lemma_drop_irrelevant(start, init, monitored, keep);
        let f = init.filter(keep);
        if keep(es.last()) {
            assert(es.filter(keep) == f.push(es.last()));
            assert(f.push(es.last()).drop_last() =~= f);
        } else {
            assert(es.filter(keep) == f);
            assert(!keep(es[es.len() - 1]));
        }
    }
}

/// An event of another interface never triggers a reconciliation: a stream
/// reconciles exactly what it reconciles with every such event taken out,
/// and ends in the same state.
pub proof fn lemma_other_interface_ignored(
    start: Option<u128>,
    es: Seq<AddressEvent>,
    monitored: u32,
)
    ensures
        reconciled(start, es.filter(|e: AddressEvent| e.index == monitored), monitored)
            == reconciled(start, es, monitored),
        state_after(start, es.filter(|e: AddressEvent| e.index == monitored), monitored)
            == state_after(start, es, monitored),
{
    lemma_drop_irrelevant(start, es, monitored, |e: AddressEvent| e.index == monitored);
}

/// A tentative event never triggers a reconciliation, whatever its scope: a
/// stream reconciles exactly what it reconciles with every tentative event
/// taken out, and ends in the same state.
pub proof fn lemma_tentative_ignored(start: Option<u128>, es: Seq<AddressEvent>, monitored: u32)
    ensures
        reconciled(start, es.filter(|e: AddressEvent| !is_tentative(e)), monitored) == reconciled(
            start,
            es,
            monitored,
        ),
        state_after(start, es.filter(|e: AddressEvent| !is_tentative(e)), monitored)
            == state_after(start, es, monitored),
{
    lemma_drop_irrelevant(start, es, monitored, |e: AddressEvent| !is_tentative(e));
}

/// An event whose scope is not global never triggers a reconciliation: a
/// stream reconciles exactly what it reconciles with every such event taken
/// out, and ends in the same state.
pub proof fn lemma_non_global_ignored(start: Option<u128>, es: Seq<AddressEvent>, monitored: u32)
    ensures
        reconciled(
            start,
            es.filter(|e: AddressEvent| e.scope == AddressScope::Universe),
            monitored,
        ) == reconciled(start, es, monitored),
        state_after(start, es.filter(|e: AddressEvent| e.scope == AddressScope::Universe), monitored)
            == state_after(start, es, monitored),
{
    lemma_drop_irrelevant(start, es, monitored, |e: AddressEvent| e.scope == AddressScope::Universe);
}

/// Two consecutive relevant events with the same address reconcile it once:
/// the second is a no-op. (When that address is already current, neither
/// reconciles.)
pub proof fn lemma_same_address_once(
    start: Option<u128>,
    e1: AddressEvent,
    e2: AddressEvent,
    monitored: u32,
    a: u128,
)
    requires
        relevant_address_of(e1, monitored) == Some(a),
        relevant_address_of(e2, monitored) == Some(a),
    ensures
        reconciled(start, seq![e1, e2], monitored) == (if start == Some(a) {
            Seq::<u128>::empty()
        } else {
            seq![a]
        }),
        state_after(start, seq![e1, e2], monitored) == Some(a),
{
    lemma_two_events(start, e1, e2, monitored);
}

/// Relevant events carrying `a` and then a different `b` reconcile `a` and
/// then `b`, from any state that is not already at `a`.
pub proof fn lemma_change_detected(
    start: Option<u128>,
    e1: AddressEvent,
    e2: AddressEvent,
    monitored: u32,
    a: u128,
    b: u128,
)
    requires
        relevant_address_of(e1, monitored) == Some(a),
        relevant_address_of(e2, monitored) == Some(b),
        a != b,
        start != Some(a),
    ensures
        reconciled(start, seq![e1, e2], monitored) == seq![a, b],
        state_after(start, seq![e1, e2], monitored) == Some(b),
{
    lemma_two_events(start, e1, e2, monitored);
    assert(seq![a].push(b) =~= seq![a, b]);
}

proof fn lemma_two_events(start: Option<u128>, e1: AddressEvent, e2: AddressEvent, monitored: u32)
    ensures
        ({
            let (s1, t1) = step(start, e1, monitored);
            let (s2, t2) = step(s1, e2, monitored);
            let first = match t1 {
                Some(x) => seq![x],
                None => Seq::<u128>::empty(),
            };
            &&& state_after(start, seq![e1, e2], monitored) == s2
            &&& reconciled(start, seq![e1, e2], monitored) == match t2 {
                Some(y) => first.push(y),
                None => first,
            }
        }),
{
    let es = seq![e1, e2];
    assert(es.drop_last() =~= seq![e1]);
    assert(seq![e1].drop_last() =~= Seq::<AddressEvent>::empty());
    assert(Seq::<u128>::empty().push(0u128) =~= seq![0u128]);
    reveal_with_fuel(state_after, 3);
    reveal_with_fuel(reconciled, 3);
    match step(start, e1, monitored).1 {
        Some(x) => assert(Seq::<u128>::empty().push(x) =~= seq![x]),
        None => {},
    }
}

} // verus!
