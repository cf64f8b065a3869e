use vstd::prelude::*;

use crate::error::LoadError;
use crate::fs::PathTo;
use crate::traits::FromReader;

verus! {

/// A value that arose from successfully decoding some byte stream
pub open spec fn decodable<T: FromReader>(v: T) -> bool {
    exists|bytes: Seq<u8>| T::decode_ok(bytes) && #[trigger] T::decoded(bytes, v)
}

/// A located value together with the bookkeeping that keeps it fresh.
///
/// This is the state shared by the reload adapters, whatever their trigger
/// (a filesystem watch or a timer): a current cell holding the most recent
/// successfully loaded value, a publish counter, and the publish channel's
/// lifecycle. Each publish replaces the current cell wholesale; subscribers
/// observe replacements through [`Subscriber`] handles with lossy-latest
/// semantics, exactly as a watch channel delivers them.
pub struct LiveValue<T> {
    current: PathTo<T>,
    version: u64,
    closed: bool,
    history: Ghost<Seq<PathTo<T>>>,
}

impl<T: FromReader> LiveValue<T> {
    /// The current cell: the most recently successfully loaded value
    pub closed spec fn current_spec(&self) -> PathTo<T> {
        self.current
    }

    /// How many publishes have replaced the initial value so far
    pub closed spec fn version_spec(&self) -> u64 {
        self.version
    }

    /// Whether the producer has been torn down
    pub closed spec fn closed_spec(&self) -> bool {
        self.closed
    }

    /// Every value published so far, oldest first; the initial value is the
    /// first entry and the current cell is the last
    pub closed spec fn history_spec(&self) -> Seq<PathTo<T>> {
        self.history@
    }

    /// The invariants of a live value: the current cell is always populated
    /// and is the latest publish, the location never changes, and every
    /// published value is a successful decode.
    pub open spec fn wf(&self) -> bool {
        &&& self.version_spec() < u64::MAX
        &&& self.history_spec().len() == self.version_spec() + 1
        &&& self.history_spec().last() == self.current_spec()
        &&& forall|i: int|
            0 <= i < self.history_spec().len() ==> (#[trigger] self.history_spec()[i]).path
                == self.current_spec().path
        &&& forall|i: int|
            0 <= i < self.history_spec().len() ==> decodable(
                (#[trigger] self.history_spec()[i]).data,
            )
    }

    /// Construction: run the inner load synchronously; on success seed the
    /// current cell with the initial located value. A failed initial load
    /// fails construction and surfaces the decode error.
    pub fn load(path: String, bytes: Vec<u8>) -> (r: Result<Self, LoadError>)
        ensures
            r is Ok <==> T::decode_ok(bytes@),
            r is Ok ==> {
                let live = r->Ok_0;
                &&& live.wf()
                &&& !live.closed_spec()
                &&& live.version_spec() == 0
                &&& live.current_spec().path == path
                &&& T::decoded(bytes@, live.current_spec().data)
                &&& live.history_spec() =~= seq![live.current_spec()]
            },
            r is Err ==> r->Err_0 is Decode,
    {
        match PathTo::<T>::from_bytes(path, bytes) {
            Ok(initial) => {
                let ghost entry = initial;
                let ghost hist: Seq<PathTo<T>> = seq![entry];
                let live = LiveValue {
                    current: initial,
                    version: 0,
                    closed: false,
                    history: Ghost(hist),
                };
                Ok(live)
            },
            Err(e) => Err(e),
        }
    }

    /// A synchronous read of the current cell. Never blocks, and never
    /// observes a partially-written value: the cell is replaced wholesale.
    pub fn snapshot(&self) -> (r: &PathTo<T>)
        ensures
            *r == self.current_spec(),
    {
        &self.current
    }

    /// Apply one reload attempt to the freshly fetched bytes. On a
    /// successful decode the new located value is published: it replaces the
    /// current cell and extends the publish history. On a failed decode the
    /// current cell is left unchanged and the decode error is handed back
    /// for reporting; it is never published.
    pub fn reload_from_bytes(&mut self, bytes: Vec<u8>) -> (r: Result<(), LoadError>)
        requires
            old(self).wf(),
            !old(self).closed_spec(),
            old(self).version_spec() + 1 < u64::MAX,
        ensures
            final(self).wf(),
            !final(self).closed_spec(),
            r is Ok <==> T::decode_ok(bytes@),
            r is Ok ==> {
                &&& final(self).version_spec() == old(self).version_spec() + 1
                &&& final(self).current_spec().path == old(self).current_spec().path
                &&& T::decoded(bytes@, final(self).current_spec().data)
                &&& final(self).history_spec() =~= old(self).history_spec().push(
                    final(self).current_spec(),
                )
            },
            r is Err ==> *final(self) == *old(self) && r->Err_0 is Decode,
    {
        let path = self.current.path.clone();
        match PathTo::<T>::from_bytes(path, bytes) {
            Ok(next) => {
                self.current = next;
                self.version = self.version + 1;
                self.history = Ghost(self.history@.push(self.current));
                Ok(())
            },
            Err(e) => Err(e),
        }
    }

    /// Tear down the producer: dropping the last clone of a live value
    /// stops the background trigger and closes the publish channel, so no
    /// further value is ever published and caught-up streams terminate.
    pub fn close(&mut self)
        requires
            old(self).wf(),
        ensures
            final(self).wf(),
            final(self).closed_spec(),
            final(self).current_spec() == old(self).current_spec(),
            final(self).version_spec() == old(self).version_spec(),
            final(self).history_spec() == old(self).history_spec(),
    {
        self.closed = true;
    }

    /// A new subscriber handle that observes future publishes: it counts
    /// the current value as already seen.
    pub fn receiver(&self) -> (r: Subscriber)
        requires
            self.wf(),
        ensures
            r.wf_for(self),
            r.seen_spec() == self.version_spec() + 1,
            r.observed_spec() == Seq::<int>::empty(),
    {
        Subscriber { seen: self.version + 1, observed: Ghost(Seq::empty()) }
    }

    /// The head of a lazy sequence of updates: it yields the current value
    /// immediately, then each subsequent publish.
    pub fn stream(&self) -> (r: Subscriber)
        requires
            self.wf(),
        ensures
            r.wf_for(self),
            r.seen_spec() == self.version_spec(),
            r.observed_spec() == Seq::<int>::empty(),
    {
        Subscriber { seen: self.version, observed: Ghost(Seq::empty()) }
    }
}

/// One step of a subscriber's lazy sequence of updates
pub enum StreamNext<'a, T> {
    /// A newly observed value
    Item(&'a PathTo<T>),
    /// Nothing new to observe yet, and the producer is still alive
    Pending,
    /// Everything was observed and the producer was torn down
    Ended,
}

/// An independently-lived read-side view on a live value's publishes.
///
/// A subscriber tracks how much of the publish history it has observed.
/// Observation is lossy-latest: a slow subscriber may lose intermediate
/// values, but always converges to the latest one, and the values any one
/// subscriber observes come in publish order.
pub struct Subscriber {
    seen: u64,
    observed: Ghost<Seq<int>>,
}

impl Subscriber {
    /// How many of the live value's published values (the initial value
    /// included) this subscriber has observed
    pub closed spec fn seen_spec(&self) -> u64 {
        self.seen
    }

    /// The positions in the publish history this subscriber has observed,
    /// in the order it observed them
    pub closed spec fn observed_spec(&self) -> Seq<int> {
        self.observed@
    }

    /// A subscriber is valid for the live value it was acquired from: it
    /// cannot have observed more than was published, what it observed lies
    /// below its own position, and its observations never went backwards
    pub open spec fn wf_for<T: FromReader>(&self, live: &LiveValue<T>) -> bool {
        &&& self.seen_spec() <= live.version_spec() + 1
        &&& forall|k: int|
            0 <= k < self.observed_spec().len() ==> 0 <= #[trigger] self.observed_spec()[k]
                < self.seen_spec()
        &&& forall|k1: int, k2: int|
            0 <= k1 < k2 < self.observed_spec().len() ==> #[trigger] self.observed_spec()[k1]
                < #[trigger] self.observed_spec()[k2]
    }

    /// Observe the next value, without blocking. If anything was published
    /// since the last observation, this yields exactly the producer's
    /// current value — intermediate values are lost, and what is observed
    /// is never stale once the publishes stop. Otherwise nothing is
    /// yielded and the subscriber is unchanged.
    pub fn recv<'a, T: FromReader>(&mut self, live: &'a LiveValue<T>) -> (r: Option<
        &'a PathTo<T>,
    >)
        requires
            live.wf(),
            old(self).wf_for(live),
        ensures
            final(self).wf_for(live),
            final(self).seen_spec() >= old(self).seen_spec(),
            r is Some <==> old(self).seen_spec() <= live.version_spec(),
            r is Some ==> *r->0 == live.current_spec() && final(self).seen_spec()
                == live.version_spec() + 1,
            r is Some ==> *r->0 == live.history_spec()[live.version_spec() as int],
            r is Some ==> final(self).observed_spec() == old(self).observed_spec().push(
                live.version_spec() as int,
            ),
            r is Some ==> decodable(r->0.data),
            r is None ==> *final(self) == *old(self),
    {
        if self.seen <= live.version {
            self.seen = live.version + 1;
            self.observed = Ghost(self.observed@.push(live.version as int));
            proof {
                assert(live.history_spec().last() == live.current_spec());
                assert(decodable(live.history_spec()[live.history_spec().len() - 1].data));
                let new_obs = self.observed@;
                assert forall|k: int| 0 <= k < new_obs.len() implies 0 <= #[trigger] new_obs[k]
                    < self.seen by {
                    if k < new_obs.len() - 1 {
                        assert(new_obs[k] == old(self).observed_spec()[k]);
                        assert(old(self).observed_spec()[k] < old(self).seen_spec());
                    } else {
                        assert(new_obs[k] == live.version_spec() as int);
                    }
                }
                assert forall|k1: int, k2: int|
                    0 <= k1 < k2 < new_obs.len() implies #[trigger] new_obs[k1]
                    < #[trigger] new_obs[k2] by {
                    if k2 < new_obs.len() - 1 {
                        assert(new_obs[k1] == old(self).observed_spec()[k1]);
                        assert(new_obs[k2] == old(self).observed_spec()[k2]);
                        assert(old(self).observed_spec()[k1] < old(self).observed_spec()[k2]);
                    } else {
                        assert(new_obs[k1] == old(self).observed_spec()[k1]);
                        assert(old(self).observed_spec()[k1] < old(self).seen_spec());
                        assert(new_obs[k2] == live.version_spec() as int);
                    }
                }
            }
            Some(&live.current)
        } else {
            None
        }
    }

    /// One step of the lazy sequence of updates: a newly published value if
    /// there is one; otherwise the sequence is pending while the producer
    /// lives and terminates cleanly once it was torn down.
    pub fn next<'a, T: FromReader>(&mut self, live: &'a LiveValue<T>) -> (r: StreamNext<
        'a,
        T,
    >)
        requires
            live.wf(),
            old(self).wf_for(live),
        ensures
            final(self).wf_for(live),
            final(self).seen_spec() >= old(self).seen_spec(),
            r is Item <==> old(self).seen_spec() <= live.version_spec(),
            r is Ended <==> old(self).seen_spec() > live.version_spec() && live.closed_spec(),
            r is Pending <==> old(self).seen_spec() > live.version_spec() && !live.closed_spec(),
            r matches StreamNext::Item(v) ==> *v == live.current_spec() && final(self).seen_spec()
                == live.version_spec() + 1 && decodable(v.data),
            r is Item ==> final(self).observed_spec() == old(self).observed_spec().push(
                live.version_spec() as int,
            ),
            !(r is Item) ==> *final(self) == *old(self),
    {
        match self.recv(live) {
            Some(v) => StreamNext::Item(v),
            None => {
                if live.closed() {
                    StreamNext::Ended
                } else {
                    StreamNext::Pending
                }
            },
        }
    }
}

impl<T: FromReader> LiveValue<T> {
    /// Whether the producer has been torn down
    pub fn closed(&self) -> (r: bool)
        ensures
            r == self.closed_spec(),
    {
        self.closed
    }
}

/// Law: the initial load is total. While nothing has been published yet,
/// what a snapshot returns is exactly the initially loaded value — the
/// first entry of the history — and that value is a successful decode.
pub proof fn lemma_initial_load_total<T: FromReader>(live: LiveValue<T>)
    requires
        live.wf(),
        live.version_spec() == 0,
    ensures
        live.current_spec() == live.history_spec()[0],
        decodable(live.current_spec().data),
{
    assert(decodable(live.history_spec()[0].data));
}

/// Law: validity of reloads is monotone. Every value in the publish
/// history — everything any subscriber can ever have observed — is a
/// successful decode, and every published value kept the location of the
/// initial load: no decode failure and no location change is ever
/// observable through a snapshot or a stream.
pub proof fn lemma_published_are_valid<T: FromReader>(live: LiveValue<T>)
    requires
        live.wf(),
    ensures
        forall|i: int|
            0 <= i < live.history_spec().len() ==> decodable(
                (#[trigger] live.history_spec()[i]).data,
            ),
        forall|i: int|
            0 <= i < live.history_spec().len() ==> (#[trigger] live.history_spec()[i]).path
                == live.current_spec().path,
        decodable(live.current_spec().data),
{
    assert(decodable(live.history_spec()[live.history_spec().len() - 1].data));
}

/// Law: any one subscriber observes values in publish order. The history
/// positions it has observed are strictly increasing in observation order,
/// each names a published value, and every value it ever observed is a
/// successful decode.
pub proof fn lemma_observed_in_publish_order<T: FromReader>(sub: Subscriber, live: LiveValue<T>)
    requires
        live.wf(),
        sub.wf_for(&live),
    ensures
        forall|k1: int, k2: int|
            0 <= k1 < k2 < sub.observed_spec().len() ==> #[trigger] sub.observed_spec()[k1]
                < #[trigger] sub.observed_spec()[k2],
        forall|k: int|
            0 <= k < sub.observed_spec().len() ==> 0 <= #[trigger] sub.observed_spec()[k]
                < live.history_spec().len(),
        forall|k: int|
            0 <= k < sub.observed_spec().len() ==> decodable(
                live.history_spec()[#[trigger] sub.observed_spec()[k]].data,
            ),
{
}

} // verus!
