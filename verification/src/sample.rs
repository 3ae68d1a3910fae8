//! The sample/key duality: a value holding either a full sample or a key,
//! able to produce both views, computing the missing one on first access and
//! memoizing it.
//!
//! The authoritative view never changes; only the memo cell for the opposite
//! view goes from empty to populated, once. Reconstructing a full sample
//! from a key fills every non-key field with its default value, which is
//! lossy by design.

use crate::entity::InstanceHandle;
use crate::state::State;
use crate::time::Time;
use crate::topicable::Topicable;
use vstd::prelude::*;

verus! {

/// Either a full sample or a key, plus a single-assignment memo cell for
/// the opposite view.
pub enum SampleOrKeyInner<T: Topicable> {
    Sample { sample: T, materialized_key: Option<T::Key> },
    Key { key: T::Key, materialized_sample: Option<T> },
}

impl<T: Topicable> SampleOrKeyInner<T> {
    /// The duality's key: the stored key, or the projection of the stored
    /// sample. This is the same whichever view is authoritative.
    pub open spec fn spec_view_key(self) -> T::Key {
        match self {
            SampleOrKeyInner::Sample { sample, .. } => sample.spec_key(),
            SampleOrKeyInner::Key { key, .. } => key,
        }
    }

    /// Whether the sample view is the authoritative one.
    pub open spec fn spec_is_sample(self) -> bool {
        self is Sample
    }

    /// Well formed: a populated memo cell agrees with the authoritative
    /// view — a memoized key is the sample's projection, and a memoized
    /// sample is the lift of the key.
    pub open spec fn wf(self) -> bool {
        match self {
            SampleOrKeyInner::Sample { sample, materialized_key } => materialized_key matches Some(
                k,
            ) ==> k == sample.spec_key(),
            SampleOrKeyInner::Key { key, materialized_sample } => materialized_sample matches Some(
                s,
            ) ==> T::is_lift(&s, &key),
        }
    }

    /// Construct around a full sample; the memo starts empty.
    pub fn new_sample(sample: T) -> (r: Self)
        ensures
            r == (SampleOrKeyInner::Sample { sample, materialized_key: None::<T::Key> }),
            r.wf(),
    {
        SampleOrKeyInner::Sample { sample, materialized_key: None }
    }

    /// Construct around a key; the memo starts empty.
    pub fn new_key(key: T::Key) -> (r: Self)
        ensures
            r == (SampleOrKeyInner::Key { key, materialized_sample: None::<T> }),
            r.wf(),
    {
        SampleOrKeyInner::Key { key, materialized_sample: None }
    }

    /// The key view. A key-authoritative duality hands out its stored key;
    /// a sample-authoritative one projects the sample on first call,
    /// memoizes the result, and afterwards hands out the memoized value
    /// without recomputation — the memo cell is written at most once.
    pub fn key(&mut self) -> (k: &T::Key)
        requires
            old(self).wf(),
        ensures
            final(self).wf(),
            *k == old(self).spec_view_key(),
            *k == final(self).spec_view_key(),
            // The authoritative view is untouched, and a populated memo is
            // never overwritten.
            match (*old(self), *final(self)) {
                (
                    SampleOrKeyInner::Sample { sample: s0, materialized_key: m0 },
                    SampleOrKeyInner::Sample { sample: s1, materialized_key: m1 },
                ) => s1 == s0 && m1 == Some(s0.spec_key()) && (m0 matches Some(_) ==> m1 == m0),
                (a, b) => a == b,
            },
    {
        match self {
            SampleOrKeyInner::Sample { sample, materialized_key } => {
                if materialized_key.is_none() {
                    *materialized_key = Some(sample.as_key());
                }
                materialized_key.as_ref().unwrap()
            },
            SampleOrKeyInner::Key { key, .. } => key,
        }
    }

    /// The sample view. A sample-authoritative duality hands out its stored
    /// sample; a key-authoritative one lifts the key on first call (filling
    /// non-key fields with defaults), memoizes the result, and afterwards
    /// hands out the memoized value — the memo cell is written at most once.
    pub fn sample(&mut self) -> (s: &T)
        requires
            old(self).wf(),
        ensures
            final(self).wf(),
            // Whichever view was materialized, its key is the duality's key.
            s.spec_key() == old(self).spec_view_key(),
            match (*old(self), *final(self)) {
                (
                    SampleOrKeyInner::Key { key: k0, materialized_sample: m0 },
                    SampleOrKeyInner::Key { key: k1, materialized_sample: m1 },
                ) => k1 == k0 && (m1 matches Some(t) && t == *s && T::is_lift(&t, &k0)) && (
                m0 matches Some(_) ==> m1 == m0),
                (a, b) => a == b && (a matches SampleOrKeyInner::Sample { sample, .. } ==> *s
                    == sample),
            },
    {
        match self {
            SampleOrKeyInner::Sample { sample, .. } => sample,
            SampleOrKeyInner::Key { key, materialized_sample } => {
                if materialized_sample.is_none() {
                    *materialized_sample = Some(T::from_key(key));
                }
                let s = materialized_sample.as_ref().unwrap();
                proof {
                    T::lemma_lift_projects(*s, *key);
                }
                s
            },
        }
    }
}

/// Description of a sample as the middleware delivers it: its state mask,
/// timestamps, handles and generation ranks.
#[derive(Debug, Copy, Clone, PartialEq, Eq, Structural, Hash)]
pub struct Info {
    pub state: State,
    pub source_timestamp: Time,
    pub instance_handle: InstanceHandle,
    pub publication_handle: InstanceHandle,
    pub disposed_generation_count: u32,
    pub no_writers_generation_count: u32,
    pub sample_rank: u32,
    pub generation_rank: u32,
    pub absolute_generation_rank: u32,
}

impl Info {
    /// Assemble an [`Info`] from the raw words of the middleware's sample
    /// descriptor: the three state words are truncated to the defined flags
    /// and merged into one mask, everything else carries over.
    pub fn from_raw_parts(
        sample_state: u32,
        view_state: u32,
        instance_state: u32,
        source_timestamp: i64,
        instance_handle: u64,
        publication_handle: u64,
        disposed_generation_count: u32,
        no_writers_generation_count: u32,
        sample_rank: u32,
        generation_rank: u32,
        absolute_generation_rank: u32,
    ) -> (r: Info)
        ensures
            r.state.bits == (sample_state & crate::state::ALL_STATES) | (view_state
                & crate::state::ALL_STATES) | (instance_state & crate::state::ALL_STATES),
            r.source_timestamp.inner == source_timestamp,
            r.instance_handle.inner == instance_handle,
            r.publication_handle.inner == publication_handle,
            r.disposed_generation_count == disposed_generation_count,
            r.no_writers_generation_count == no_writers_generation_count,
            r.sample_rank == sample_rank,
            r.generation_rank == generation_rank,
            r.absolute_generation_rank == absolute_generation_rank,
    {
        let state = State::from_bits_truncate(sample_state).union(
            State::from_bits_truncate(view_state),
        ).union(State::from_bits_truncate(instance_state));
        Info {
            state,
            source_timestamp: Time::from_nanos(source_timestamp),
            instance_handle: InstanceHandle::from_raw(instance_handle),
            publication_handle: InstanceHandle::from_raw(publication_handle),
            disposed_generation_count,
            no_writers_generation_count,
            sample_rank,
            generation_rank,
            absolute_generation_rank,
        }
    }
}

/// A delivered sample or key together with its descriptive [`Info`].
pub struct SampleOrKey<T: Topicable> {
    inner: SampleOrKeyInner<T>,
    pub(crate) info: Info,
}

impl<T: Topicable> SampleOrKey<T> {
    /// The duality value held inside.
    pub closed spec fn spec_inner(self) -> SampleOrKeyInner<T> {
        self.inner
    }

    /// The descriptor held inside.
    pub closed spec fn spec_info(self) -> Info {
        self.info
    }

    pub open spec fn wf(self) -> bool {
        self.spec_inner().wf()
    }

    pub open spec fn spec_is_sample(self) -> bool {
        self.spec_inner() is Sample
    }

    pub open spec fn spec_is_key(self) -> bool {
        self.spec_inner() is Key
    }

    /// Wrap a full sample.
    pub fn new_sample(sample: T, info: Info) -> (r: Self)
        ensures
            r.spec_inner() == (SampleOrKeyInner::Sample {
                sample,
                materialized_key: None::<T::Key>,
            }),
            r.spec_info() == info,
            r.wf(),
    {
        SampleOrKey { inner: SampleOrKeyInner::new_sample(sample), info }
    }

    /// Wrap a key.
    pub fn new_key(key: T::Key, info: Info) -> (r: Self)
        ensures
            r.spec_inner() == (SampleOrKeyInner::Key { key, materialized_sample: None::<T> }),
            r.spec_info() == info,
            r.wf(),
    {
        SampleOrKey { inner: SampleOrKeyInner::new_key(key), info }
    }

    /// The sample's descriptor.
    pub fn info(&self) -> (i: &Info)
        ensures
            *i == self.spec_info(),
    {
        &self.info
    }

    /// The stored sample, if the sample view is the authoritative one. This
    /// never materializes a missing view.
    pub fn sample(&self) -> (r: Option<&T>)
        ensures
            self.spec_inner() matches SampleOrKeyInner::Sample { sample, .. } ==> r matches Some(s)
                && *s == sample,
            !self.spec_is_sample() ==> r is None,
    {
        match &self.inner {
            SampleOrKeyInner::Sample { sample, .. } => Some(sample),
            SampleOrKeyInner::Key { .. } => None,
        }
    }

    /// The stored sample by value, if the sample view is authoritative.
    pub fn into_sample(self) -> (r: Option<T>)
        ensures
            self.spec_inner() matches SampleOrKeyInner::Sample { sample, .. } ==> r == Some(sample),
            !self.spec_is_sample() ==> r is None,
    {
        match self.inner {
            SampleOrKeyInner::Sample { sample, .. } => Some(sample),
            SampleOrKeyInner::Key { .. } => None,
        }
    }

    /// Whether the sample view is authoritative.
    pub fn is_sample(&self) -> (b: bool)
        ensures
            b == self.spec_is_sample(),
    {
        match &self.inner {
            SampleOrKeyInner::Sample { .. } => true,
            SampleOrKeyInner::Key { .. } => false,
        }
    }

    /// Whether the sample view is authoritative and the stored sample
    /// satisfies `f`.
    pub fn is_sample_and<F: FnOnce(&T) -> bool>(&self, f: F) -> (r: bool)
        requires
            forall|t: &T| #[trigger] f.requires((t,)),
        ensures
            !self.spec_is_sample() ==> r == false,
            self.spec_inner() matches SampleOrKeyInner::Sample { sample, .. } ==> f.ensures(
                (&sample,),
                r,
            ),
    {
        match &self.inner {
            SampleOrKeyInner::Sample { sample, .. } => f(sample),
            SampleOrKeyInner::Key { .. } => false,
        }
    }

    /// The stored key, if the key view is the authoritative one. This never
    /// materializes a missing view.
    pub fn key(&self) -> (r: Option<&T::Key>)
        ensures
            self.spec_inner() matches SampleOrKeyInner::Key { key, .. } ==> r matches Some(k) && *k
                == key,
            !self.spec_is_key() ==> r is None,
    {
        match &self.inner {
            SampleOrKeyInner::Sample { .. } => None,
            SampleOrKeyInner::Key { key, .. } => Some(key),
        }
    }

    /// The stored key by value, if the key view is authoritative.
    pub fn into_key(self) -> (r: Option<T::Key>)
        ensures
            self.spec_inner() matches SampleOrKeyInner::Key { key, .. } ==> r == Some(key),
            !self.spec_is_key() ==> r is None,
    {
        match self.inner {
            SampleOrKeyInner::Sample { .. } => None,
            SampleOrKeyInner::Key { key, .. } => Some(key),
        }
    }

    /// Whether the key view is authoritative.
    pub fn is_key(&self) -> (b: bool)
        ensures
            b == self.spec_is_key(),
    {
        match &self.inner {
            SampleOrKeyInner::Sample { .. } => false,
            SampleOrKeyInner::Key { .. } => true,
        }
    }

    /// Whether the key view is authoritative and the stored key satisfies
    /// `f`.
    pub fn is_key_and<F: FnOnce(&T::Key) -> bool>(&self, f: F) -> (r: bool)
        requires
            forall|k: &T::Key| #[trigger] f.requires((k,)),
        ensures
            !self.spec_is_key() ==> r == false,
            self.spec_inner() matches SampleOrKeyInner::Key { key, .. } ==> f.ensures((&key,), r),
    {
        match &self.inner {
            SampleOrKeyInner::Sample { .. } => false,
            SampleOrKeyInner::Key { key, .. } => f(key),
        }
    }
}

/// The outcome of collecting one delivered sample from the engine: an
/// invalid delivery carries only its descriptor, a valid one must carry its
/// payload, and a valid delivery without a payload is a precondition
/// failure.
pub fn collect_delivery<T: Topicable>(valid: bool, payload: Option<T>, info: Info) -> (r: Result<
    Result<SampleOrKey<T>, Info>,
    crate::error::Error,
>)
    ensures
        !valid ==> r == Ok::<Result<SampleOrKey<T>, Info>, crate::error::Error>(
            Err::<SampleOrKey<T>, Info>(info),
        ),
        valid && payload is Some ==> (r matches Ok(Ok(s)) && s.spec_inner() == (
        SampleOrKeyInner::Sample {
            sample: payload->Some_0,
            materialized_key: None::<T::Key>,
        }) && s.spec_info() == info),
        valid && payload is None ==> r == Err::<Result<SampleOrKey<T>, Info>, crate::error::Error>(
            crate::error::Error::PreconditionNotMet,
        ),
{
    if !valid {
        Ok(Err(info))
    } else {
        match payload {
            Some(sample) => Ok(Ok(SampleOrKey::new_sample(sample, info))),
            None => Err(crate::error::Error::PreconditionNotMet),
        }
    }
}

} // verus!
