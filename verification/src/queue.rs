//! The bounded queue of tracks whose lyrics could not be found.
//!
//! The queue sheds load: when it is full a new item is dropped and the caller
//! is told so. Items leave in the order in which they were accepted.

use crossbeam_queue::ArrayQueue;
use vstd::prelude::*;

verus! {

/// Number of items the service's queue holds before it starts shedding.
pub const QUEUE_CAPACITY: usize = 600000;

/// A capacity up to which `ArrayQueue::new` cannot overflow its lap counter,
/// on 32-bit machines as on 64-bit ones.
pub const MAX_QUEUE_CAPACITY: usize = 0x4000_0000;

/// A lookup that missed: enough track metadata to try again later.
#[derive(Debug)]
pub struct MissingTrack {
    pub name: String,
    pub artist_name: String,
    pub album_name: String,
    /// Track length in whole seconds.
    pub duration: u64,
}

/// What a `MissingTrack` holds, as mathematical values.
pub struct TrackModel {
    pub name: Seq<char>,
    pub artist_name: Seq<char>,
    pub album_name: Seq<char>,
    pub duration: nat,
}

impl View for MissingTrack {
    type V = TrackModel;

    open spec fn view(&self) -> TrackModel {
        TrackModel {
            name: self.name@,
            artist_name: self.artist_name@,
            album_name: self.album_name@,
            duration: self.duration as nat,
        }
    }
}

impl MissingTrack {
    /// A missing track with the given metadata.
    pub fn new(name: String, artist_name: String, album_name: String, duration: u64) -> (t: Self)
        ensures
            t.name == name,
            t.artist_name == artist_name,
            t.album_name == album_name,
            t.duration == duration,
    {
        MissingTrack { name, artist_name, album_name, duration }
    }
}

/// `crossbeam_queue::ArrayQueue`, taken as opaque: what it holds is spoken of
/// through `queue_items` and `queue_limit`.
#[verifier::external_type_specification]
#[verifier::external_body]
#[verifier::reject_recursive_types(T)]
pub struct ExArrayQueue<T>(ArrayQueue<T>);

/// The items waiting in an `ArrayQueue`, oldest first.
pub uninterp spec fn queue_items(q: ArrayQueue<MissingTrack>) -> Seq<TrackModel>;

/// The capacity an `ArrayQueue` was created with.
pub uninterp spec fn queue_limit(q: ArrayQueue<MissingTrack>) -> nat;

/// `ArrayQueue::new`: an empty queue with room for `cap` items. The call
/// panics on a zero capacity and on one whose lap size overflows, so both
/// are excluded.
#[verifier::external_body]
fn array_queue_new(cap: usize) -> (q: ArrayQueue<MissingTrack>)
    requires
        0 < cap <= MAX_QUEUE_CAPACITY,
    ensures
        queue_items(q) == Seq::<TrackModel>::empty(),
        queue_limit(q) == cap,
{
    ArrayQueue::new(cap)
}

/// `ArrayQueue::push` on a queue nobody else holds: a full queue hands the
/// value back and stays as it was; otherwise the value becomes the newest item.
#[verifier::external_body]
fn array_queue_push(q: &mut ArrayQueue<MissingTrack>, item: MissingTrack) -> (r: Result<
    (),
    MissingTrack,
>)
    ensures
        queue_limit(*final(q)) == queue_limit(*old(q)),
        r is Ok <==> queue_items(*old(q)).len() < queue_limit(*old(q)),
        r is Ok ==> queue_items(*final(q)) == queue_items(*old(q)).push(item@),
        r is Err ==> queue_items(*final(q)) == queue_items(*old(q)) && r->Err_0@ == item@,
{
    q.push(item)
}

/// `ArrayQueue::pop` on a queue nobody else holds: the oldest item leaves, or
/// `None` comes back from an empty queue.
#[verifier::external_body]
fn array_queue_pop(q: &mut ArrayQueue<MissingTrack>) -> (r: Option<MissingTrack>)
    ensures
        queue_limit(*final(q)) == queue_limit(*old(q)),
        r is None <==> queue_items(*old(q)).len() == 0,
        r is None ==> queue_items(*final(q)) == queue_items(*old(q)),
        r is Some ==> r->Some_0@ == queue_items(*old(q)).first() && queue_items(*final(q))
            == queue_items(*old(q)).drop_first(),
{
    q.pop()
}

/// `ArrayQueue::len`: the number of items waiting.
#[verifier::external_body]
fn array_queue_len(q: &ArrayQueue<MissingTrack>) -> (n: usize)
    ensures
        n == queue_items(*q).len(),
{
    q.len()
}

/// `ArrayQueue::capacity`: the capacity given at creation.
#[verifier::external_body]
fn array_queue_capacity(q: &ArrayQueue<MissingTrack>) -> (n: usize)
    ensures
        n == queue_limit(*q),
{
    q.capacity()
}

/// The queue after an attempt to add `item`: unchanged when full.
pub open spec fn after_enqueue(items: Seq<TrackModel>, capacity: nat, item: TrackModel) -> Seq<
    TrackModel,
> {
    if items.len() < capacity {
        items.push(item)
    } else {
        items
    }
}

/// The queue after one removal: without its oldest item.
pub open spec fn after_dequeue(items: Seq<TrackModel>) -> Seq<TrackModel> {
    if items.len() == 0 {
        items
    } else {
        items.drop_first()
    }
}

/// The item that one removal hands out: the oldest, if there is one.
pub open spec fn dequeued(items: Seq<TrackModel>) -> Option<TrackModel> {
    if items.len() == 0 {
        None
    } else {
        Some(items.first())
    }
}

/// A bounded first-in first-out queue of missing tracks.
pub struct MissingTrackQueue {
    inner: ArrayQueue<MissingTrack>,
}

impl View for MissingTrackQueue {
    type V = Seq<TrackModel>;

    /// The waiting items, oldest first.
    closed spec fn view(&self) -> Seq<TrackModel> {
        queue_items(self.inner)
    }
}

impl MissingTrackQueue {
    /// The fixed number of items the queue can hold.
    pub closed spec fn spec_capacity(&self) -> nat {
        queue_limit(self.inner)
    }

    /// The queue never holds more than its capacity, which is never zero.
    pub open spec fn wf(&self) -> bool {
        &&& 0 < self.spec_capacity() <= MAX_QUEUE_CAPACITY
        &&& self@.len() <= self.spec_capacity()
    }

    /// An empty queue of the service's capacity.
    pub fn new() -> (q: Self)
        ensures
            q.wf(),
            q@ == Seq::<TrackModel>::empty(),
            q.spec_capacity() == QUEUE_CAPACITY,
    {
        MissingTrackQueue { inner: array_queue_new(QUEUE_CAPACITY) }
    }

    /// An empty queue that holds up to `capacity` items, or `None` for a
    /// capacity of zero or one above `MAX_QUEUE_CAPACITY`.
    pub fn with_capacity(capacity: usize) -> (q: Option<Self>)
        ensures
            q is Some <==> 0 < capacity <= MAX_QUEUE_CAPACITY,
            q matches Some(queue) ==> queue.wf() && queue@ == Seq::<TrackModel>::empty()
                && queue.spec_capacity() == capacity,
    {
        if capacity == 0 || capacity > MAX_QUEUE_CAPACITY {
            None
        } else {
            Some(MissingTrackQueue { inner: array_queue_new(capacity) })
        }
    }

    /// Adds `item` as the newest entry and returns `true`, or, when the queue
    /// is full, drops it and returns `false`. Never waits for room.
    pub fn enqueue(&mut self, item: MissingTrack) -> (accepted: bool)
        requires
            old(self).wf(),
        ensures
            final(self).wf(),
            final(self).spec_capacity() == old(self).spec_capacity(),
            accepted == (old(self)@.len() < old(self).spec_capacity()),
            final(self)@ == after_enqueue(old(self)@, old(self).spec_capacity(), item@),
    {
        match array_queue_push(&mut self.inner, item) {
            Ok(()) => true,
            Err(_) => false,
        }
    }

    /// Removes and returns the oldest item, or `None` when nothing waits.
    pub fn dequeue(&mut self) -> (item: Option<MissingTrack>)
        requires
            old(self).wf(),
        ensures
            final(self).wf(),
            final(self).spec_capacity() == old(self).spec_capacity(),
            final(self)@ == after_dequeue(old(self)@),
            match item {
                Some(t) => dequeued(old(self)@) == Some(t@),
                None => dequeued(old(self)@) is None,
            },
    {
        array_queue_pop(&mut self.inner)
    }

    /// Number of items waiting.
    pub fn len(&self) -> (n: usize)
        ensures
            n == self@.len(),
    {
        array_queue_len(&self.inner)
    }

    /// Whether nothing waits.
    pub fn is_empty(&self) -> (b: bool)
        ensures
            b == (self@.len() == 0),
    {
        array_queue_len(&self.inner) == 0
    }

    /// Whether the next `enqueue` would drop its item.
    pub fn is_full(&self) -> (b: bool)
        requires
            self.wf(),
        ensures
            b == (self@.len() == self.spec_capacity()),
    {
        array_queue_len(&self.inner) == array_queue_capacity(&self.inner)
    }

    /// The number of items the queue can hold.
    pub fn capacity(&self) -> (n: usize)
        ensures
            n == self.spec_capacity(),
    {
        array_queue_capacity(&self.inner)
    }
}

/// An attempt to enqueue never takes a queue past its capacity, and never
/// shrinks it.
pub proof fn enqueue_stays_within_capacity(items: Seq<TrackModel>, capacity: nat, item: TrackModel)
    requires
        items.len() <= capacity,
    ensures
        after_enqueue(items, capacity, item).len() <= capacity,
        items.len() <= after_enqueue(items, capacity, item).len() <= items.len() + 1,
        items.len() == capacity ==> after_enqueue(items, capacity, item) == items,
{
}

/// An accepted item sits behind everything that waited before it, and the
/// earlier items keep their places: nothing is lost, reordered or doubled.
pub proof fn enqueue_appends(items: Seq<TrackModel>, capacity: nat, item: TrackModel)
    requires
        items.len() < capacity,
    ensures
        after_enqueue(items, capacity, item).len() == items.len() + 1,
        after_enqueue(items, capacity, item).last() == item,
        forall|i: int| 0 <= i < items.len() ==> after_enqueue(items, capacity, item)[i] == items[i],
{
}

/// A removal hands out exactly the oldest item and leaves every other item
/// waiting, once each and in the same order: putting the handed-out item back
/// in front gives the queue as it was.
pub proof fn dequeue_delivers_once(items: Seq<TrackModel>)
    requires
        items.len() > 0,
    ensures
        dequeued(items) == Some(items[0]),
        after_dequeue(items).len() == items.len() - 1,
        seq![items[0]] + after_dequeue(items) == items,
        after_dequeue(items).to_multiset().insert(items[0]) == items.to_multiset(),
{
    assert(seq![items[0]] + after_dequeue(items) =~= items);
    assert(items.drop_first().to_multiset().insert(items[0]) =~= items.to_multiset()) by {
        items.to_multiset_ensures();
        items.drop_first().to_multiset_ensures();
        vstd::seq_lib::to_multiset_remove(items, 0);
        assert(items.remove(0) =~= items.drop_first());
    }
}

/// An item accepted into an empty queue is the next one handed out, and the
/// queue is empty again afterwards.
pub proof fn enqueue_then_dequeue_on_empty(capacity: nat, item: TrackModel)
    requires
        capacity > 0,
    ensures
        dequeued(after_enqueue(Seq::empty(), capacity, item)) == Some(item),
        after_dequeue(after_enqueue(Seq::empty(), capacity, item)) == Seq::<TrackModel>::empty(),
{
    let q = after_enqueue(Seq::empty(), capacity, item);
    assert(q =~= seq![item]);
    assert(after_dequeue(q) =~= Seq::<TrackModel>::empty());
}

} // verus!
