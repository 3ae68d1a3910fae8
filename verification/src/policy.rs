//! QoS policy values as plain data, with the raw words they hand to the
//! middleware. Each `as_ffi` returns exactly what the engine's setter call
//! expects: raw discriminants count up from zero in declaration order of the
//! engine's corresponding kind enum.

use crate::duration::Duration;
use vstd::prelude::*;

verus! {

/// Raw discriminants of the durability kinds.
pub const DURABILITY_VOLATILE: u32 = 0;

pub const DURABILITY_TRANSIENT_LOCAL: u32 = 1;

pub const DURABILITY_TRANSIENT: u32 = 2;

pub const DURABILITY_PERSISTENT: u32 = 3;

/// Raw discriminants of the presentation access scopes.
pub const PRESENTATION_INSTANCE: u32 = 0;

pub const PRESENTATION_TOPIC: u32 = 1;

pub const PRESENTATION_GROUP: u32 = 2;

/// Raw discriminants of the destination-order kinds.
pub const DESTINATION_ORDER_BY_RECEPTION_TIMESTAMP: u32 = 0;

pub const DESTINATION_ORDER_BY_SOURCE_TIMESTAMP: u32 = 1;

/// Raw discriminants of the history kinds.
pub const HISTORY_KEEP_LAST: u32 = 0;

pub const HISTORY_KEEP_ALL: u32 = 1;

/// Opaque bytes attached to a reader or writer.
#[derive(Clone, Debug, PartialEq, Eq)]
pub struct UserData {
    pub value: Vec<u8>,
}

impl UserData {
    pub fn as_ffi(&self) -> (r: &[u8])
        ensures
            r@ == self.value@,
    {
        self.value.as_slice()
    }
}

/// Opaque bytes attached to a topic.
#[derive(Clone, Debug, PartialEq, Eq)]
pub struct TopicData {
    pub value: Vec<u8>,
}

impl TopicData {
    pub fn as_ffi(&self) -> (r: &[u8])
        ensures
            r@ == self.value@,
    {
        self.value.as_slice()
    }
}

/// Opaque bytes attached to a publisher or subscriber.
#[derive(Clone, Debug, PartialEq, Eq)]
pub struct GroupData {
    pub value: Vec<u8>,
}

impl GroupData {
    pub fn as_ffi(&self) -> (r: &[u8])
        ensures
            r@ == self.value@,
    {
        self.value.as_slice()
    }
}

/// How long data outlives its writer.
#[derive(Clone, Copy, Debug, PartialEq, Eq, Structural)]
pub enum Durability {
    Volatile,
    TransientLocal,
    Transient,
    Persistent,
}

impl Durability {
    pub fn as_ffi(&self) -> (r: u32)
        ensures
            *self == Durability::Volatile ==> r == DURABILITY_VOLATILE,
            *self == Durability::TransientLocal ==> r == DURABILITY_TRANSIENT_LOCAL,
            *self == Durability::Transient ==> r == DURABILITY_TRANSIENT,
            *self == Durability::Persistent ==> r == DURABILITY_PERSISTENT,
    {
        match self {
            Durability::Volatile => DURABILITY_VOLATILE,
            Durability::TransientLocal => DURABILITY_TRANSIENT_LOCAL,
            Durability::Transient => DURABILITY_TRANSIENT,
            Durability::Persistent => DURABILITY_PERSISTENT,
        }
    }
}

/// The scope within which coherent and ordered access hold.
#[derive(Clone, Copy, Debug, PartialEq, Eq, Structural)]
pub enum Presentation {
    Instance { coherent_access: bool, ordered_access: bool },
    Topic { coherent_access: bool, ordered_access: bool },
    Group { coherent_access: bool, ordered_access: bool },
}

impl Presentation {
    pub fn as_ffi(&self) -> (r: (u32, bool, bool))
        ensures
            match *self {
                Presentation::Instance { coherent_access, ordered_access } => r == (
                    PRESENTATION_INSTANCE,
                    coherent_access,
                    ordered_access,
                ),
                Presentation::Topic { coherent_access, ordered_access } => r == (
                    PRESENTATION_TOPIC,
                    coherent_access,
                    ordered_access,
                ),
                Presentation::Group { coherent_access, ordered_access } => r == (
                    PRESENTATION_GROUP,
                    coherent_access,
                    ordered_access,
                ),
            },
    {
        match self {
            Presentation::Instance { coherent_access, ordered_access } => (
                PRESENTATION_INSTANCE,
                *coherent_access,
                *ordered_access,
            ),
            Presentation::Topic { coherent_access, ordered_access } => (
                PRESENTATION_TOPIC,
                *coherent_access,
                *ordered_access,
            ),
            Presentation::Group { coherent_access, ordered_access } => (
                PRESENTATION_GROUP,
                *coherent_access,
                *ordered_access,
            ),
        }
    }
}

/// Whether several writers may own one instance.
#[derive(Clone, Copy, Debug, PartialEq, Eq, Structural)]
pub enum Ownership {
    Shared,
    Exclusive { strength: i32 },
}

/// The partitions a publisher or subscriber joins.
#[derive(Clone, Debug, PartialEq, Eq)]
pub struct Partition {
    pub partitions: Vec<String>,
}

/// Transport-level priority of a writer's data.
#[derive(Clone, Copy, Debug, PartialEq, Eq, Structural)]
pub struct TransportPriority {
    pub priority: i32,
}

impl TransportPriority {
    pub fn as_ffi(&self) -> (r: i32)
        ensures
            r == self.priority,
    {
        self.priority
    }
}

/// Which timestamp orders delivered samples.
#[derive(Clone, Copy, Debug, PartialEq, Eq, Structural)]
pub enum DestinationOrder {
    ByReceptionTimestamp,
    BySourceTimestamp,
}

impl DestinationOrder {
    pub fn as_ffi(&self) -> (r: u32)
        ensures
            *self == DestinationOrder::ByReceptionTimestamp ==> r
                == DESTINATION_ORDER_BY_RECEPTION_TIMESTAMP,
            *self == DestinationOrder::BySourceTimestamp ==> r
                == DESTINATION_ORDER_BY_SOURCE_TIMESTAMP,
    {
        match self {
            DestinationOrder::ByReceptionTimestamp => DESTINATION_ORDER_BY_RECEPTION_TIMESTAMP,
            DestinationOrder::BySourceTimestamp => DESTINATION_ORDER_BY_SOURCE_TIMESTAMP,
        }
    }
}

/// How many samples per instance the cache retains.
#[derive(Clone, Copy, Debug, PartialEq, Eq, Structural)]
pub enum History {
    KeepAll,
    KeepLast { depth: i32 },
}

impl History {
    /// The raw kind and depth words, as a mathematical value.
    pub open spec fn spec_as_ffi(self) -> (u32, i32) {
        match self {
            History::KeepAll => (HISTORY_KEEP_ALL, 0i32),
            History::KeepLast { depth } => (HISTORY_KEEP_LAST, depth),
        }
    }

    pub fn as_ffi(&self) -> (r: (u32, i32))
        ensures
            r == self.spec_as_ffi(),
    {
        match self {
            History::KeepAll => (HISTORY_KEEP_ALL, 0),
            History::KeepLast { depth } => (HISTORY_KEEP_LAST, *depth),
        }
    }
}

/// Caps on the cache's samples and instances.
#[derive(Clone, Copy, Debug, PartialEq, Eq, Structural)]
pub struct ResourceLimits {
    pub max_samples: i32,
    pub max_instances: i32,
    pub max_samples_per_instance: i32,
}

impl ResourceLimits {
    pub fn as_ffi(&self) -> (r: (i32, i32, i32))
        ensures
            r == (self.max_samples, self.max_instances, self.max_samples_per_instance),
    {
        (self.max_samples, self.max_instances, self.max_samples_per_instance)
    }
}

/// Whether created entities start enabled.
#[derive(Clone, Copy, Debug, PartialEq, Eq, Structural)]
pub struct EntityFactory {
    pub autoenable_created_entities: bool,
}

impl EntityFactory {
    pub fn as_ffi(&self) -> (r: bool)
        ensures
            r == self.autoenable_created_entities,
    {
        self.autoenable_created_entities
    }
}

/// Whether unregistered instances are disposed automatically.
#[derive(Clone, Copy, Debug, PartialEq, Eq, Structural)]
pub struct WriterDataLifecycle {
    pub autodispose_unregistered_instances: bool,
}

impl WriterDataLifecycle {
    pub fn as_ffi(&self) -> (r: bool)
        ensures
            r == self.autodispose_unregistered_instances,
    {
        self.autodispose_unregistered_instances
    }
}

/// A name attached to an entity.
#[derive(Clone, Debug, PartialEq, Eq)]
pub struct EntityName {
    pub name: String,
}

/// Raw discriminants of the ownership kinds.
pub const OWNERSHIP_SHARED: u32 = 0;

pub const OWNERSHIP_EXCLUSIVE: u32 = 1;

/// Raw discriminants of the liveliness kinds.
pub const LIVELINESS_AUTOMATIC: u32 = 0;

pub const LIVELINESS_MANUAL_BY_PARTICIPANT: u32 = 1;

pub const LIVELINESS_MANUAL_BY_TOPIC: u32 = 2;

/// Raw discriminants of the reliability kinds.
pub const RELIABILITY_BEST_EFFORT: u32 = 0;

pub const RELIABILITY_RELIABLE: u32 = 1;

/// How long a writer has to assert the liveliness of its instances.
#[derive(Clone, Copy, Debug, PartialEq, Eq, Structural)]
pub enum Liveliness {
    Automatic { lease_duration: Duration },
    ManualByParticipant { lease_duration: Duration },
    ManualByTopic { lease_duration: Duration },
}

impl Liveliness {
    pub fn as_ffi(&self) -> (r: (u32, i64))
        ensures
            match *self {
                Liveliness::Automatic { lease_duration } => r == (
                    LIVELINESS_AUTOMATIC,
                    lease_duration.inner,
                ),
                Liveliness::ManualByParticipant { lease_duration } => r == (
                    LIVELINESS_MANUAL_BY_PARTICIPANT,
                    lease_duration.inner,
                ),
                Liveliness::ManualByTopic { lease_duration } => r == (
                    LIVELINESS_MANUAL_BY_TOPIC,
                    lease_duration.inner,
                ),
            },
    {
        match self {
            Liveliness::Automatic { lease_duration } => (
                LIVELINESS_AUTOMATIC,
                lease_duration.inner,
            ),
            Liveliness::ManualByParticipant { lease_duration } => (
                LIVELINESS_MANUAL_BY_PARTICIPANT,
                lease_duration.inner,
            ),
            Liveliness::ManualByTopic { lease_duration } => (
                LIVELINESS_MANUAL_BY_TOPIC,
                lease_duration.inner,
            ),
        }
    }
}

/// Whether delivery is retried until it succeeds.
#[derive(Clone, Copy, Debug, PartialEq, Eq, Structural)]
pub enum Reliability {
    BestEffort,
    Reliable { max_blocking_time: Duration },
}

impl Reliability {
    pub fn as_ffi(&self) -> (r: (u32, i64))
        ensures
            *self == Reliability::BestEffort ==> r == (RELIABILITY_BEST_EFFORT, 0i64),
            *self matches Reliability::Reliable { max_blocking_time } ==> r == (
                RELIABILITY_RELIABLE,
                max_blocking_time.inner,
            ),
    {
        match self {
            Reliability::BestEffort => (RELIABILITY_BEST_EFFORT, 0),
            Reliability::Reliable { max_blocking_time } => (
                RELIABILITY_RELIABLE,
                max_blocking_time.inner,
            ),
        }
    }
}

/// The longest an instance may go without a new sample.
#[derive(Clone, Copy, Debug, PartialEq, Eq, Structural)]
pub struct Deadline {
    pub period: Duration,
}

impl Deadline {
    pub fn as_ffi(&self) -> (r: i64)
        ensures
            r == self.period.inner,
    {
        self.period.inner
    }
}

/// The delay the application tolerates between write and delivery.
#[derive(Clone, Copy, Debug, PartialEq, Eq, Structural)]
pub struct LatencyBudget {
    pub duration: Duration,
}

impl LatencyBudget {
    pub fn as_ffi(&self) -> (r: i64)
        ensures
            r == self.duration.inner,
    {
        self.duration.inner
    }
}

/// The least time a reader wants between samples of one instance.
#[derive(Clone, Copy, Debug, PartialEq, Eq, Structural)]
pub struct TimeBasedFilter {
    pub minimum_separation: Duration,
}

impl TimeBasedFilter {
    pub fn as_ffi(&self) -> (r: i64)
        ensures
            r == self.minimum_separation.inner,
    {
        self.minimum_separation.inner
    }
}

/// How long written data stays valid.
#[derive(Clone, Copy, Debug, PartialEq, Eq, Structural)]
pub struct Lifespan {
    pub duration: Duration,
}

impl Lifespan {
    pub fn as_ffi(&self) -> (r: i64)
        ensures
            r == self.duration.inner,
    {
        self.duration.inner
    }
}

/// When a reader purges instances without writers or disposed instances.
#[derive(Clone, Copy, Debug, PartialEq, Eq, Structural)]
pub struct ReaderDataLifecycle {
    pub autopurge_nowriter_samples_delay: Duration,
    pub autopurge_disposed_samples_delay: Duration,
}

impl ReaderDataLifecycle {
    pub fn as_ffi(&self) -> (r: (i64, i64))
        ensures
            r == (
                self.autopurge_nowriter_samples_delay.inner,
                self.autopurge_disposed_samples_delay.inner,
            ),
    {
        (self.autopurge_nowriter_samples_delay.inner, self.autopurge_disposed_samples_delay.inner)
    }
}

/// What a durability service retains on behalf of late joiners.
#[derive(Clone, Copy, Debug, PartialEq, Eq, Structural)]
pub struct DurabilityService {
    pub service_cleanup_delay: Duration,
    pub history: History,
    pub max_samples: u32,
    pub max_instances: u32,
    pub max_samples_per_instance: u32,
}

impl DurabilityService {
    pub fn as_ffi(&self) -> (r: (i64, u32, i32, i32, i32, i32))
        requires
            self.max_samples <= i32::MAX,
            self.max_instances <= i32::MAX,
            self.max_samples_per_instance <= i32::MAX,
        ensures
            ({
                let (kind, depth) = self.history.spec_as_ffi();
                r == (
                    self.service_cleanup_delay.inner,
                    kind,
                    depth,
                    self.max_samples as i32,
                    self.max_instances as i32,
                    self.max_samples_per_instance as i32,
                )
            }),
    {
        let (history_kind, history_depth) = self.history.as_ffi();
        (
            self.service_cleanup_delay.inner,
            history_kind,
            history_depth,
            self.max_samples as i32,
            self.max_instances as i32,
            self.max_samples_per_instance as i32,
        )
    }
}

} // verus!
