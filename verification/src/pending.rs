//! The table of requests that wait for their response.
//!
//! Each request that is sent gets a correlation id and leaves the completing
//! half of a one-shot channel in the table; the caller keeps the waiting half.
//! The response with that id takes the completing half out again. Closing the
//! table drops every completing half that is left, which is how the waiters
//! learn that no response will come.

use vstd::prelude::*;
use futures_channel::oneshot;
use slab::Slab;
use crate::ipc::IPCResult;

verus! {

/// `slab::Slab`: storage that hands out a key for each value it takes.
#[verifier::external_type_specification]
#[verifier::external_body]
#[verifier::reject_recursive_types(T)]
pub struct ExSlab<T>(Slab<T>);

/// `futures_channel::oneshot::Sender`: the completing half of a one-shot channel.
#[verifier::external_type_specification]
#[verifier::external_body]
#[verifier::reject_recursive_types(T)]
pub struct ExSender<T>(oneshot::Sender<T>);

/// `futures_channel::oneshot::Receiver`: the waiting half of a one-shot channel.
#[verifier::external_type_specification]
#[verifier::external_body]
#[verifier::reject_recursive_types(T)]
pub struct ExReceiver<T>(oneshot::Receiver<T>);

/// `futures_channel::oneshot::Canceled`: what a waiter gets where the
/// completing half was dropped without a value.
#[verifier::external_type_specification]
#[verifier::external_body]
pub struct ExCanceled(oneshot::Canceled);

/// What a slab holds: each key in use with the value stored under it.
pub uninterp spec fn slab_entries(slab: Slab<oneshot::Sender<IPCResult>>) -> Map<
    usize,
    oneshot::Sender<IPCResult>,
>;

/// Whether the two halves belong to one channel, which is what
/// `oneshot::Sender::is_connected_to` tells of them.
pub uninterp spec fn connected(
    sender: oneshot::Sender<IPCResult>,
    receiver: oneshot::Receiver<IPCResult>,
) -> bool;

/// `oneshot::channel`: a fresh pair of halves of one channel. Nothing more is
/// claimed of them: what a receiver observes depends on what happens to its
/// sender, not on the two values alone.
#[verifier::external_body]
fn channel() -> (pair: (oneshot::Sender<IPCResult>, oneshot::Receiver<IPCResult>))
    ensures
        connected(pair.0, pair.1),
{
    oneshot::channel()
}

/// `Slab::new`: an empty slab.
#[verifier::external_body]
fn slab_new() -> (slab: Slab<oneshot::Sender<IPCResult>>)
    ensures
        slab_entries(slab).dom() == Set::<usize>::empty(),
{
    Slab::new()
}

/// `Slab::insert`: stores the value under a key that was not in use and
/// returns that key; the other entries stay as they are.
#[verifier::external_body]
fn slab_insert(
    slab: &mut Slab<oneshot::Sender<IPCResult>>,
    sender: oneshot::Sender<IPCResult>,
) -> (key: usize)
    ensures
        !slab_entries(*old(slab)).dom().contains(key),
        slab_entries(*final(slab)) == slab_entries(*old(slab)).insert(key, sender),
{
    slab.insert(sender)
}

/// `Slab::remove`: takes the value out from under a key in use (it panics on
/// any other key) and returns it; the other entries stay as they are.
#[verifier::external_body]
fn slab_remove(slab: &mut Slab<oneshot::Sender<IPCResult>>, key: usize) -> (sender:
    oneshot::Sender<IPCResult>)
    requires
        slab_entries(*old(slab)).dom().contains(key),
    ensures
        sender == slab_entries(*old(slab))[key],
        slab_entries(*final(slab)) == slab_entries(*old(slab)).remove(key),
{
    slab.remove(key)
}

/// `Slab::clear`: drops every value; nothing is stored afterwards.
#[verifier::external_body]
fn slab_clear(slab: &mut Slab<oneshot::Sender<IPCResult>>)
    ensures
        slab_entries(*final(slab)).dom() == Set::<usize>::empty(),
{
    slab.clear()
}

/// Whether `id` is the lowest id above 0 that is not among `ids`.
pub open spec fn is_lowest_free(ids: Set<u64>, id: u64) -> bool {
    &&& id != 0
    &&& !ids.contains(id)
    &&& forall|lower: u64| 0 < lower < id ==> ids.contains(lower)
}

/// Requests that wait for their response, each under a correlation id.
///
/// The id 0 means "no response expected" on the wire and is never given to a
/// waiter. Once the table is closed it stays closed and empty.
pub struct Pending {
    // the completing halves of the outstanding requests, but only while the
    // table is open
    slab: Option<Slab<oneshot::Sender<IPCResult>>>,
    // slots[i] is the place in the slab of the request with the id i + 1,
    // where that id is outstanding. Which key the slab picks for a value is
    // its own business; the ids go by the slots, lowest first.
    slots: Vec<Option<usize>>,
}

impl Pending {
    /// Every outstanding id has a place in the slab, and no two share one. A
    /// closed table has no slots.
    #[verifier::type_invariant]
    closed spec fn wf(&self) -> bool {
        match self.slab {
            None => self.slots@.len() == 0,
            Some(slab) => {
                &&& forall|i: int|
                    0 <= i < self.slots@.len() && (#[trigger] self.slots@[i]) is Some
                        ==> slab_entries(slab).dom().contains(self.slots@[i]->Some_0)
                &&& forall|i: int, j: int|
                    0 <= i < j < self.slots@.len() && (#[trigger] self.slots@[i]) is Some && (
                    #[trigger] self.slots@[j]) is Some ==> self.slots@[i] != self.slots@[j]
            },
        }
    }

    /// Whether the table has been closed.
    pub closed spec fn is_closed(&self) -> bool {
        self.slab is None
    }

    /// The ids whose response is still awaited.
    pub closed spec fn outstanding(&self) -> Set<u64> {
        if self.slab is Some {
            Set::new(
                |id: u64| 0 < id <= self.slots@.len() && self.slots@[id as int - 1] is Some,
            )
        } else {
            Set::empty()
        }
    }

    /// The completing half that the table holds for an outstanding id.
    pub closed spec fn completer(&self, id: u64) -> oneshot::Sender<IPCResult> {
        slab_entries(self.slab->Some_0)[self.slots@[id as int - 1]->Some_0]
    }

    /// Whether every id that is outstanding in both tables has the same
    /// completing half in both.
    pub open spec fn keeps_completers(pre: Pending, post: Pending) -> bool {
        forall|id: u64|
            pre.outstanding().contains(id) && post.outstanding().contains(id)
                ==> #[trigger] post.completer(id) == pre.completer(id)
    }

    /// What one registration does: `post` is the table after a registration
    /// on `pre` that was given `issued`. An open table gives out the lowest
    /// id above 0 that is not outstanding; a closed table gives out none and
    /// stays as it is.
    pub open spec fn registers(pre: Pending, post: Pending, issued: Option<u64>) -> bool {
        &&& post.is_closed() == pre.is_closed()
        &&& pre.is_closed() ==> issued is None && post == pre
        &&& !pre.is_closed() ==> {
            &&& issued is Some
            &&& is_lowest_free(pre.outstanding(), issued->Some_0)
            &&& post.outstanding() == pre.outstanding().insert(issued->Some_0)
            &&& Self::keeps_completers(pre, post)
        }
    }

    /// What one resolution does: `post` is the table after `id` was looked up
    /// in `pre`, and `found` tells whether a completing half came out. That
    /// is so exactly where the id is outstanding, and then that id and no
    /// other leaves the table.
    pub open spec fn resolves(pre: Pending, post: Pending, id: u64, found: bool) -> bool {
        &&& found == pre.outstanding().contains(id)
        &&& post.outstanding() == pre.outstanding().remove(id)
        &&& post.is_closed() == pre.is_closed()
        &&& Self::keeps_completers(pre, post)
        &&& !found ==> post == pre
    }

    /// What closing does: the table is closed and empty afterwards.
    pub open spec fn closes(post: Pending) -> bool {
        &&& post.is_closed()
        &&& post.outstanding() == Set::<u64>::empty()
    }

    /// An open table with nothing outstanding.
    pub fn new() -> (table: Self)
        ensures
            !table.is_closed(),
            table.outstanding() == Set::<u64>::empty(),
    {
        let table = Pending { slab: Some(slab_new()), slots: Vec::new() };
        assert(table.outstanding() =~= Set::<u64>::empty());
        table
    }

    // Takes the table apart to work on its parts. Until the parts are put
    // back the table is closed and empty, which is also what is left of it
    // should the work not come to an end.
    fn take_apart(&mut self) -> (parts: (
        Option<Slab<oneshot::Sender<IPCResult>>>,
        Vec<Option<usize>>,
    ))
        ensures
            (Pending { slab: parts.0, slots: parts.1 }) == *old(self),
            (Pending { slab: parts.0, slots: parts.1 }).wf(),
            final(self).slab is None,
            final(self).slots@.len() == 0,
    {
        proof {
            use_type_invariant(&*self);
        }
        let mut table = Pending { slab: None, slots: Vec::new() };
        core::mem::swap(self, &mut table);
        proof {
            use_type_invariant(&table);
        }
        let Pending { slab, slots } = table;
        (slab, slots)
    }

    // The first slot that holds nothing, or the number of slots where each
    // holds something.
    fn lowest_free_slot(slots: &Vec<Option<usize>>) -> (i: usize)
        ensures
            i <= slots@.len(),
            i < slots@.len() ==> slots@[i as int] is None,
            forall|j: int| 0 <= j < i ==> slots@[j] is Some,
    {
        let mut i: usize = 0;
        while i < slots.len() && slots[i].is_some()
            invariant
                i <= slots@.len(),
                forall|j: int| 0 <= j < i ==> slots@[j] is Some,
            decreases slots@.len() - i,
        {
            i += 1;
        }
        i
    }

    /// Registers a waiter. On an open table the waiter gets the lowest id
    /// above 0 that is not outstanding, and the table holds the other half of
    /// the waiter's channel under that id. On a closed table there is no id,
    /// the table stays as it is, and the other half of the waiter's channel
    /// is dropped at once.
    pub fn insert(&mut self) -> (issued: (Option<u64>, oneshot::Receiver<IPCResult>))
        ensures
            Self::registers(*old(self), *final(self), issued.0),
            issued.0 is Some ==> connected(final(self).completer(issued.0->Some_0), issued.1),
    {
        let (sender, receiver) = channel();
        let (slab, mut slots) = self.take_apart();
        match slab {
            Some(mut slab) => {
                let key: usize = slab_insert(&mut slab, sender);
                let i: usize = Self::lowest_free_slot(&slots);
                let id: u64 = if i < slots.len() {
                    slots.set(i, Some(key));
                    i as u64 + 1
                } else {
                    slots.push(Some(key));
                    slots.len() as u64
                };
                *self = Pending { slab: Some(slab), slots };
                proof {
                    assert(id == i + 1);
                    assert(self.outstanding() =~= old(self).outstanding().insert(id));
                    assert(self.completer(id) == sender);
                }
                (Some(id), receiver)
            },
            None => {
                *self = Pending { slab: None, slots };
                (None, receiver)
            },
        }
    }

    /// Takes the completing half of an outstanding request out of the table:
    /// the one that the table held for that id, and no other entry changes.
    /// An id that is not outstanding (0, unknown, resolved before, or any id
    /// once the table is closed) yields nothing and changes nothing.
    pub fn get(&mut self, id: u64) -> (completer: Option<oneshot::Sender<IPCResult>>)
        ensures
            Self::resolves(*old(self), *final(self), id, completer is Some),
            completer is Some ==> completer->Some_0 == old(self).completer(id),
    {
        let (slab, mut slots) = self.take_apart();
        match slab {
            Some(mut slab) => {
                if id == 0 || id > slots.len() as u64 {
                    // such an id was never given out
                    *self = Pending { slab: Some(slab), slots };
                    proof {
                        assert(old(self).outstanding().remove(id) =~= old(self).outstanding());
                    }
                    return None;
                }
                let i: usize = (id - 1) as usize;
                match slots[i] {
                    Some(key) => {
                        slots.set(i, None);
                        let sender = slab_remove(&mut slab, key);
                        *self = Pending { slab: Some(slab), slots };
                        proof {
                            assert(self.outstanding() =~= old(self).outstanding().remove(id));
                        }
                        Some(sender)
                    },
                    None => {
                        *self = Pending { slab: Some(slab), slots };
                        proof {
                            assert(old(self).outstanding().remove(id) =~= old(self).outstanding());
                        }
                        None
                    },
                }
            },
            None => {
                *self = Pending { slab: None, slots };
                proof {
                    assert(old(self).outstanding().remove(id) =~= old(self).outstanding());
                }
                None
            },
        }
    }

    /// Closes the table: every completing half is dropped, nothing is
    /// outstanding, and no id is given out again. Closing a closed table
    /// changes nothing.
    pub fn close(&mut self)
        ensures
            Self::closes(*final(self)),
    {
        let (slab, _slots) = self.take_apart();
        if let Some(mut slab) = slab {
            slab_clear(&mut slab);
        }
    }
}

/// A run of registrations: `tables[i + 1]` is the table after a registration
/// on `tables[i]` that was given `ids[i]`.
pub open spec fn registration_run(tables: Seq<Pending>, ids: Seq<u64>) -> bool {
    &&& tables.len() == ids.len() + 1
    &&& forall|i: int|
        0 <= i < ids.len() ==> #[trigger] Pending::registers(
            tables[i],
            tables[i + 1],
            Some(ids[i]),
        )
}

proof fn lemma_run_keeps_ids(tables: Seq<Pending>, ids: Seq<u64>, i: int, k: int)
    requires
        registration_run(tables, ids),
        0 <= i < k <= ids.len(),
    ensures
        tables[k].outstanding().contains(ids[i]),
    decreases k - i,
{
    let last = k - 1;
    assert(Pending::registers(tables[last], tables[last + 1], Some(ids[last])));
    if i < k - 1 {
        lemma_run_keeps_ids(tables, ids, i, k - 1);
    }
}

/// In a run of registrations with no resolution in between, every id that is
/// given out differs from 0 and from every other one.
pub proof fn lemma_ids_distinct(tables: Seq<Pending>, ids: Seq<u64>)
    requires
        registration_run(tables, ids),
    ensures
        forall|i: int| 0 <= i < ids.len() ==> ids[i] != 0,
        forall|i: int, j: int| 0 <= i < j < ids.len() ==> ids[i] != ids[j],
{
    assert forall|i: int| 0 <= i < ids.len() implies ids[i] != 0 by {
        assert(Pending::registers(tables[i], tables[i + 1], Some(ids[i])));
    }
    assert forall|i: int, j: int| 0 <= i < j < ids.len() implies ids[i] != ids[j] by {
        lemma_run_keeps_ids(tables, ids, i, j);
        assert(Pending::registers(tables[j], tables[j + 1], Some(ids[j])));
    }
}

/// An id that is given out is not outstanding before and is outstanding
/// after, so it differs from every id that still waits.
pub proof fn lemma_issued_id_is_fresh(pre: Pending, post: Pending, id: u64, other: u64)
    requires
        Pending::registers(pre, post, Some(id)),
        pre.outstanding().contains(other),
    ensures
        id != other,
        id != 0,
        post.outstanding().contains(id),
        post.outstanding().contains(other),
{
}

/// A registration on a closed table is given no id and leaves the table closed
/// and empty.
pub proof fn lemma_register_after_close(closed: Pending, post: Pending, issued: Option<u64>)
    requires
        Pending::closes(closed),
        Pending::registers(closed, post, issued),
    ensures
        issued is None,
        post.is_closed(),
        post.outstanding() == Set::<u64>::empty(),
{
}

/// An id can be resolved once: a second resolution of the same id finds
/// nothing, whatever the first one found.
pub proof fn lemma_resolved_once(
    pre: Pending,
    mid: Pending,
    post: Pending,
    id: u64,
    first: bool,
    second: bool,
)
    requires
        Pending::resolves(pre, mid, id, first),
        Pending::resolves(mid, post, id, second),
    ensures
        !second,
        post.outstanding() == mid.outstanding(),
{
    assert(mid.outstanding().remove(id) =~= mid.outstanding());
}

/// Resolving a registered id finds it, and takes that id and no other out of
/// the table.
pub proof fn lemma_resolve_registered(
    pre: Pending,
    mid: Pending,
    post: Pending,
    id: u64,
    found: bool,
)
    requires
        Pending::registers(pre, mid, Some(id)),
        Pending::resolves(mid, post, id, found),
    ensures
        found,
        post.outstanding() == pre.outstanding(),
{
    assert(pre.outstanding().insert(id).remove(id) =~= pre.outstanding());
}

/// The lowest free id is one id: a registration has no choice.
pub proof fn lemma_lowest_free_is_unique(ids: Set<u64>, first: u64, second: u64)
    requires
        is_lowest_free(ids, first),
        is_lowest_free(ids, second),
    ensures
        first == second,
{
    if first < second {
        assert(ids.contains(first));
    } else if second < first {
        assert(ids.contains(second));
    }
}

/// On a table with nothing outstanding the first waiter gets the id 1 and
/// the second the id 2.
pub proof fn lemma_first_ids(
    fresh: Pending,
    once: Pending,
    twice: Pending,
    first: Option<u64>,
    second: Option<u64>,
)
    requires
        !fresh.is_closed(),
        fresh.outstanding() == Set::<u64>::empty(),
        Pending::registers(fresh, once, first),
        Pending::registers(once, twice, second),
    ensures
        first == Some(1u64),
        second == Some(2u64),
{
    let a = first->Some_0;
    if a > 1 {
        assert(fresh.outstanding().contains(1u64));
    }
    let b = second->Some_0;
    if b > 2 {
        assert(once.outstanding().contains(2u64));
    }
}

/// An id that was resolved is free again: the next registration gives out
/// that id or a lower one, never a higher one.
pub proof fn lemma_resolved_id_is_reused(
    pre: Pending,
    mid: Pending,
    post: Pending,
    id: u64,
    issued: Option<u64>,
)
    requires
        Pending::resolves(pre, mid, id, true),
        Pending::registers(mid, post, issued),
    ensures
        issued is Some,
        issued->Some_0 <= id,
        issued->Some_0 < id ==> !pre.outstanding().contains(issued->Some_0),
{
    assert(pre.outstanding().contains(id));
    lemma_outstanding_is_open(pre, id);
    if issued->Some_0 > id {
        assert(mid.outstanding().contains(id));
    }
}

/// Only an open table has an outstanding id, and that id is never 0.
pub proof fn lemma_outstanding_is_open(table: Pending, id: u64)
    requires
        table.outstanding().contains(id),
    ensures
        !table.is_closed(),
        id != 0,
{
}

/// On a closed table no id is resolved: every lookup finds nothing.
pub proof fn lemma_resolve_after_close(closed: Pending, post: Pending, id: u64, found: bool)
    requires
        Pending::closes(closed),
        Pending::resolves(closed, post, id, found),
    ensures
        !found,
        Pending::closes(post),
{
}

/// Closing is safe to repeat: the table after a second closing is closed and
/// empty, as after the first.
pub proof fn lemma_close_twice(first: Pending, second: Pending)
    requires
        Pending::closes(first),
        Pending::closes(second),
    ensures
        second.is_closed() == first.is_closed(),
        second.outstanding() == first.outstanding(),
{
}

/// One use of the table.
pub enum TableStep {
    /// A registration, with the id that it was given.
    Register(Option<u64>),
    /// The resolution of an id, with whether a completing half came out.
    Resolve(u64, bool),
    /// A closing.
    Close,
}

/// `post` is the table after the step was taken on `pre`.
pub open spec fn takes(pre: Pending, post: Pending, step: TableStep) -> bool {
    match step {
        TableStep::Register(issued) => Pending::registers(pre, post, issued),
        TableStep::Resolve(id, found) => Pending::resolves(pre, post, id, found),
        TableStep::Close => Pending::closes(post),
    }
}

/// The life of a table: it starts open and empty, and `tables[i + 1]` is the
/// table after `steps[i]` was taken on `tables[i]`.
pub open spec fn history(tables: Seq<Pending>, steps: Seq<TableStep>) -> bool {
    &&& tables.len() == steps.len() + 1
    &&& !tables[0].is_closed()
    &&& tables[0].outstanding() == Set::<u64>::empty()
    &&& forall|i: int| 0 <= i < steps.len() ==> #[trigger] takes(tables[i], tables[i + 1], steps[i])
}

/// Whether `id` was given out by one of the first `n` steps and not resolved
/// or swept away since.
pub open spec fn waits_after(steps: Seq<TableStep>, n: int, id: u64) -> bool
    decreases n,
{
    if n <= 0 {
        false
    } else {
        match steps[n - 1] {
            TableStep::Register(issued) => issued == Some(id) || waits_after(steps, n - 1, id),
            TableStep::Resolve(resolved, _) => resolved != id && waits_after(steps, n - 1, id),
            TableStep::Close => false,
        }
    }
}

/// Whether one of the first `n` steps was a closing.
pub open spec fn closed_after(steps: Seq<TableStep>, n: int) -> bool
    decreases n,
{
    if n <= 0 {
        false
    } else {
        steps[n - 1] is Close || closed_after(steps, n - 1)
    }
}

/// Through the whole life of a table, the outstanding ids are exactly those
/// that were given out and neither resolved nor swept away since, and the
/// table is closed exactly from its first closing on.
pub proof fn lemma_table_follows_history(tables: Seq<Pending>, steps: Seq<TableStep>, n: int)
    requires
        history(tables, steps),
        0 <= n <= steps.len(),
    ensures
        forall|id: u64| tables[n].outstanding().contains(id) == waits_after(steps, n, id),
        tables[n].is_closed() == closed_after(steps, n),
    decreases n,
{
    if n > 0 {
        let last = n - 1;
        lemma_table_follows_history(tables, steps, last);
        assert(takes(tables[last], tables[last + 1], steps[last]));
        assert forall|id: u64|
            tables[n].outstanding().contains(id) == waits_after(steps, n, id) by {
            assert(tables[last].outstanding().contains(id) == waits_after(steps, last, id));
            if tables[last].outstanding().contains(id) {
                lemma_outstanding_is_open(tables[last], id);
            }
        }
    }
}

/// A resolution finds a completing half only for an id that was given out
/// before and has not been resolved or swept away since: never for an id
/// that no registration returned, and never a second time.
pub proof fn lemma_found_only_if_issued(tables: Seq<Pending>, steps: Seq<TableStep>, i: int)
    requires
        history(tables, steps),
        0 <= i < steps.len(),
        steps[i] is Resolve,
    ensures
        steps[i]->Resolve_1 == waits_after(steps, i, steps[i]->Resolve_0),
        steps[i]->Resolve_0 == 0 ==> !steps[i]->Resolve_1,
{
    lemma_table_follows_history(tables, steps, i);
    assert(takes(tables[i], tables[i + 1], steps[i]));
    if tables[i].outstanding().contains(0) {
        lemma_outstanding_is_open(tables[i], 0);
    }
}

/// From its first closing on a table gives out no id and has nothing
/// outstanding.
pub proof fn lemma_closed_forever(tables: Seq<Pending>, steps: Seq<TableStep>, closing: int, i: int)
    requires
        history(tables, steps),
        0 <= closing < i <= steps.len(),
        steps[closing] is Close,
    ensures
        tables[i].is_closed(),
        tables[i].outstanding() == Set::<u64>::empty(),
        i < steps.len() && steps[i] is Register ==> steps[i]->Register_0 is None,
        i < steps.len() && steps[i] is Resolve ==> !steps[i]->Resolve_1,
    decreases i - closing,
{
    let last = i - 1;
    assert(takes(tables[last], tables[last + 1], steps[last]));
    if last > closing {
        lemma_closed_forever(tables, steps, closing, last);
    }
    assert(tables[i].is_closed());
    assert(tables[i].outstanding() =~= Set::<u64>::empty()) by {
        assert forall|id: u64| !tables[i].outstanding().contains(id) by {
            if tables[i].outstanding().contains(id) {
                lemma_outstanding_is_open(tables[i], id);
            }
        }
    }
    if i < steps.len() {
        assert(takes(tables[i], tables[i + 1], steps[i]));
    }
}

/// No id is ever given out while it is outstanding, and 0 is never given out:
/// at every moment the waiters have ids that differ from each other and
/// from 0.
pub proof fn lemma_issued_while_free(tables: Seq<Pending>, steps: Seq<TableStep>, i: int)
    requires
        history(tables, steps),
        0 <= i < steps.len(),
        steps[i] is Register,
        steps[i]->Register_0 is Some,
    ensures
        steps[i]->Register_0->Some_0 != 0,
        !waits_after(steps, i, steps[i]->Register_0->Some_0),
        !closed_after(steps, i),
{
    lemma_table_follows_history(tables, steps, i);
    assert(takes(tables[i], tables[i + 1], steps[i]));
}

/// While an id stays outstanding the table holds the same completing half
/// for it, whatever happens to other ids.
pub proof fn lemma_completer_stays(
    tables: Seq<Pending>,
    steps: Seq<TableStep>,
    from: int,
    to: int,
    id: u64,
)
    requires
        history(tables, steps),
        0 <= from <= to <= steps.len(),
        forall|k: int| from <= k <= to ==> (#[trigger] tables[k]).outstanding().contains(id),
    ensures
        tables[to].completer(id) == tables[from].completer(id),
    decreases to - from,
{
    if from < to {
        let last = to - 1;
        lemma_completer_stays(tables, steps, from, last, id);
        assert(takes(tables[last], tables[last + 1], steps[last]));
        assert(tables[last].outstanding().contains(id));
        assert(tables[last + 1].outstanding().contains(id));
        lemma_outstanding_is_open(tables[last], id);
    }
}

} // verus!
