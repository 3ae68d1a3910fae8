//! Status conditions an entity can report, as plain data: each middleware
//! status struct has a counterpart here, assembled from the raw words the
//! engine hands over.

use crate::entity::InstanceHandle;
use vstd::prelude::*;

verus! {

/// Identifies one QoS policy in an incompatible-QoS status.
#[derive(Debug, Clone, Copy, PartialEq, Eq, Structural, Hash)]
pub enum QoSPolicyId {
    Invalid,
    UserData,
    Durability,
    Presentation,
    Deadline,
    LatencyBudget,
    Ownership,
    OwnershipStrength,
    Liveliness,
    TimeBasedFilter,
    Partition,
    Reliability,
    DestinationOrder,
    History,
    ResourceLimits,
    EntityFactory,
    WriterDataLifecycle,
    ReaderDataLifecycle,
    TopicData,
    GroupData,
    TransportPriority,
    Lifespan,
    DurabilityService,
    Property,
    TypeConsistencyEnforcement,
    DataRepresentation,
}

/// The policy a raw identifier names: the identifiers count up from zero in
/// the order of the declaration above.
pub open spec fn spec_policy_of(raw: u32) -> QoSPolicyId {
    if raw == 0 { QoSPolicyId::Invalid }
    else if raw == 1 { QoSPolicyId::UserData }
    else if raw == 2 { QoSPolicyId::Durability }
    else if raw == 3 { QoSPolicyId::Presentation }
    else if raw == 4 { QoSPolicyId::Deadline }
    else if raw == 5 { QoSPolicyId::LatencyBudget }
    else if raw == 6 { QoSPolicyId::Ownership }
    else if raw == 7 { QoSPolicyId::OwnershipStrength }
    else if raw == 8 { QoSPolicyId::Liveliness }
    else if raw == 9 { QoSPolicyId::TimeBasedFilter }
    else if raw == 10 { QoSPolicyId::Partition }
    else if raw == 11 { QoSPolicyId::Reliability }
    else if raw == 12 { QoSPolicyId::DestinationOrder }
    else if raw == 13 { QoSPolicyId::History }
    else if raw == 14 { QoSPolicyId::ResourceLimits }
    else if raw == 15 { QoSPolicyId::EntityFactory }
    else if raw == 16 { QoSPolicyId::WriterDataLifecycle }
    else if raw == 17 { QoSPolicyId::ReaderDataLifecycle }
    else if raw == 18 { QoSPolicyId::TopicData }
    else if raw == 19 { QoSPolicyId::GroupData }
    else if raw == 20 { QoSPolicyId::TransportPriority }
    else if raw == 21 { QoSPolicyId::Lifespan }
    else if raw == 22 { QoSPolicyId::DurabilityService }
    else if raw == 23 { QoSPolicyId::Property }
    else if raw == 24 { QoSPolicyId::TypeConsistencyEnforcement }
    else { QoSPolicyId::DataRepresentation }
}

impl QoSPolicyId {
    /// The policy a raw identifier names. Only the twenty-six declared
    /// identifiers are meaningful.
    pub fn from_raw(raw: u32) -> (r: QoSPolicyId)
        requires
            raw <= 25,
        ensures
            r == spec_policy_of(raw),
    {
        if raw == 0 { QoSPolicyId::Invalid }
        else if raw == 1 { QoSPolicyId::UserData }
        else if raw == 2 { QoSPolicyId::Durability }
        else if raw == 3 { QoSPolicyId::Presentation }
        else if raw == 4 { QoSPolicyId::Deadline }
        else if raw == 5 { QoSPolicyId::LatencyBudget }
        else if raw == 6 { QoSPolicyId::Ownership }
        else if raw == 7 { QoSPolicyId::OwnershipStrength }
        else if raw == 8 { QoSPolicyId::Liveliness }
        else if raw == 9 { QoSPolicyId::TimeBasedFilter }
        else if raw == 10 { QoSPolicyId::Partition }
        else if raw == 11 { QoSPolicyId::Reliability }
        else if raw == 12 { QoSPolicyId::DestinationOrder }
        else if raw == 13 { QoSPolicyId::History }
        else if raw == 14 { QoSPolicyId::ResourceLimits }
        else if raw == 15 { QoSPolicyId::EntityFactory }
        else if raw == 16 { QoSPolicyId::WriterDataLifecycle }
        else if raw == 17 { QoSPolicyId::ReaderDataLifecycle }
        else if raw == 18 { QoSPolicyId::TopicData }
        else if raw == 19 { QoSPolicyId::GroupData }
        else if raw == 20 { QoSPolicyId::TransportPriority }
        else if raw == 21 { QoSPolicyId::Lifespan }
        else if raw == 22 { QoSPolicyId::DurabilityService }
        else if raw == 23 { QoSPolicyId::Property }
        else if raw == 24 { QoSPolicyId::TypeConsistencyEnforcement }
        else { QoSPolicyId::DataRepresentation }
    }
}

/// A running total and its change since the status was last read.
#[derive(Debug, Clone, Copy, PartialEq, Eq, Structural, Hash)]
pub struct Count {
    pub value: u32,
    pub delta: i32,
}

/// Why a sample was rejected.
#[derive(Debug, Copy, Clone, PartialEq, Eq, Structural, Hash)]
pub enum SampleRejectedReason {
    NotRejected,
    RejectedByInstancesLimit,
    RejectedBySamplesLimit,
    RejectedBySamplesPerInstanceLimit,
}

/// The reason a raw discriminant names, counting up from zero in
/// declaration order.
pub open spec fn spec_rejected_reason_of(raw: u32) -> SampleRejectedReason {
    if raw == 0 { SampleRejectedReason::NotRejected }
    else if raw == 1 { SampleRejectedReason::RejectedByInstancesLimit }
    else if raw == 2 { SampleRejectedReason::RejectedBySamplesLimit }
    else { SampleRejectedReason::RejectedBySamplesPerInstanceLimit }
}

impl SampleRejectedReason {
    /// The reason a raw discriminant names. Only the four declared
    /// discriminants are meaningful.
    pub fn from_raw(raw: u32) -> (r: SampleRejectedReason)
        requires
            raw <= 3,
        ensures
            r == spec_rejected_reason_of(raw),
    {
        if raw == 0 { SampleRejectedReason::NotRejected }
        else if raw == 1 { SampleRejectedReason::RejectedByInstancesLimit }
        else if raw == 2 { SampleRejectedReason::RejectedBySamplesLimit }
        else { SampleRejectedReason::RejectedBySamplesPerInstanceLimit }
    }
}

/// Another topic exists with the same name but different characteristics.
#[derive(Debug, Clone, Copy, PartialEq, Eq, Structural, Hash)]
pub struct InconsistentTopic {
    pub total: Count,
}

impl InconsistentTopic {
    /// Assemble the status from the raw words of the middleware's report.
    pub fn from_raw_parts(total_count: u32, total_count_change: i32) -> (r: Self)
        ensures
            r.total.value == total_count,
            r.total.delta == total_count_change,
    {
        InconsistentTopic {
            total: Count { value: total_count, delta: total_count_change },
        }
    }
}

/// The writer did not respect its liveliness contract.
#[derive(Debug, Clone, Copy, PartialEq, Eq, Structural, Hash)]
pub struct LivelinessLost {
    pub total: Count,
}

impl LivelinessLost {
    /// Assemble the status from the raw words of the middleware's report.
    pub fn from_raw_parts(total_count: u32, total_count_change: i32) -> (r: Self)
        ensures
            r.total.value == total_count,
            r.total.delta == total_count_change,
    {
        LivelinessLost {
            total: Count { value: total_count, delta: total_count_change },
        }
    }
}

/// The writer missed its offered deadline for an instance.
#[derive(Debug, Clone, Copy, PartialEq, Eq, Structural, Hash)]
pub struct OfferedDeadlineMissed {
    pub total: Count,
    pub last_instance_handle: InstanceHandle,
}

impl OfferedDeadlineMissed {
    /// Assemble the status from the raw words of the middleware's report.
    pub fn from_raw_parts(total_count: u32, total_count_change: i32, last_instance_handle: u64) -> (r: Self)
        ensures
            r.total.value == total_count,
            r.total.delta == total_count_change,
            r.last_instance_handle.inner == last_instance_handle,
    {
        OfferedDeadlineMissed {
            total: Count { value: total_count, delta: total_count_change },
            last_instance_handle: InstanceHandle::from_raw(last_instance_handle),
        }
    }
}

/// A QoS policy setting was incompatible with what was requested.
#[derive(Debug, Clone, Copy, PartialEq, Eq, Structural, Hash)]
pub struct OfferedIncompatibleQoS {
    pub total: Count,
    pub last_policy_id: QoSPolicyId,
}

impl OfferedIncompatibleQoS {
    /// Assemble the status from the raw words of the middleware's report.
    pub fn from_raw_parts(total_count: u32, total_count_change: i32, last_policy_id: u32) -> (r: Self)
        requires
            last_policy_id <= 25,
        ensures
            r.total.value == total_count,
            r.total.delta == total_count_change,
            r.last_policy_id == spec_policy_of(last_policy_id),
    {
        OfferedIncompatibleQoS {
            total: Count { value: total_count, delta: total_count_change },
            last_policy_id: QoSPolicyId::from_raw(last_policy_id),
        }
    }
}

/// The writer found a reader that matches topic and QoS.
#[derive(Debug, Clone, Copy, PartialEq, Eq, Structural, Hash)]
pub struct PublicationMatched {
    pub total: Count,
    pub current: Count,
    pub last_subscription_handle: InstanceHandle,
}

impl PublicationMatched {
    /// Assemble the status from the raw words of the middleware's report.
    pub fn from_raw_parts(total_count: u32, total_count_change: i32, current_count: u32, current_count_change: i32, last_subscription_handle: u64) -> (r: Self)
        ensures
            r.total.value == total_count,
            r.total.delta == total_count_change,
            r.current.value == current_count,
            r.current.delta == current_count_change,
            r.last_subscription_handle.inner == last_subscription_handle,
    {
        PublicationMatched {
            total: Count { value: total_count, delta: total_count_change },
            current: Count { value: current_count, delta: current_count_change },
            last_subscription_handle: InstanceHandle::from_raw(last_subscription_handle),
        }
    }
}

/// A sample has been lost.
#[derive(Debug, Clone, Copy, PartialEq, Eq, Structural, Hash)]
pub struct SampleLost {
    pub total: Count,
}

impl SampleLost {
    /// Assemble the status from the raw words of the middleware's report.
    pub fn from_raw_parts(total_count: u32, total_count_change: i32) -> (r: Self)
        ensures
            r.total.value == total_count,
            r.total.delta == total_count_change,
    {
        SampleLost {
            total: Count { value: total_count, delta: total_count_change },
        }
    }
}

/// A received sample has been rejected.
#[derive(Debug, Clone, Copy, PartialEq, Eq, Structural, Hash)]
pub struct SampleRejected {
    pub total: Count,
    pub last_reason: SampleRejectedReason,
    pub last_instance_handle: InstanceHandle,
}

impl SampleRejected {
    /// Assemble the status from the raw words of the middleware's report.
    pub fn from_raw_parts(total_count: u32, total_count_change: i32, last_reason: u32, last_instance_handle: u64) -> (r: Self)
        requires
            last_reason <= 3,
        ensures
            r.total.value == total_count,
            r.total.delta == total_count_change,
            r.last_reason == spec_rejected_reason_of(last_reason),
            r.last_instance_handle.inner == last_instance_handle,
    {
        SampleRejected {
            total: Count { value: total_count, delta: total_count_change },
            last_reason: SampleRejectedReason::from_raw(last_reason),
            last_instance_handle: InstanceHandle::from_raw(last_instance_handle),
        }
    }
}

/// The reader missed its requested deadline for an instance.
#[derive(Debug, Clone, Copy, PartialEq, Eq, Structural, Hash)]
pub struct RequestedDeadlineMissed {
    pub total: Count,
    pub last_instance_handle: InstanceHandle,
}

impl RequestedDeadlineMissed {
    /// Assemble the status from the raw words of the middleware's report.
    pub fn from_raw_parts(total_count: u32, total_count_change: i32, last_instance_handle: u64) -> (r: Self)
        ensures
            r.total.value == total_count,
            r.total.delta == total_count_change,
            r.last_instance_handle.inner == last_instance_handle,
    {
        RequestedDeadlineMissed {
            total: Count { value: total_count, delta: total_count_change },
            last_instance_handle: InstanceHandle::from_raw(last_instance_handle),
        }
    }
}

/// A QoS policy setting was incompatible with what is offered.
#[derive(Debug, Clone, Copy, PartialEq, Eq, Structural, Hash)]
pub struct RequestedIncompatibleQoS {
    pub total: Count,
    pub last_policy_id: QoSPolicyId,
}

impl RequestedIncompatibleQoS {
    /// Assemble the status from the raw words of the middleware's report.
    pub fn from_raw_parts(total_count: u32, total_count_change: i32, last_policy_id: u32) -> (r: Self)
        requires
            last_policy_id <= 25,
        ensures
            r.total.value == total_count,
            r.total.delta == total_count_change,
            r.last_policy_id == spec_policy_of(last_policy_id),
    {
        RequestedIncompatibleQoS {
            total: Count { value: total_count, delta: total_count_change },
            last_policy_id: QoSPolicyId::from_raw(last_policy_id),
        }
    }
}

/// The reader found a writer that matches topic and QoS.
#[derive(Debug, Clone, Copy, PartialEq, Eq, Structural, Hash)]
pub struct SubscriptionMatched {
    pub total: Count,
    pub current: Count,
    pub last_publication_handle: InstanceHandle,
}

impl SubscriptionMatched {
    /// Assemble the status from the raw words of the middleware's report.
    pub fn from_raw_parts(total_count: u32, total_count_change: i32, current_count: u32, current_count_change: i32, last_publication_handle: u64) -> (r: Self)
        ensures
            r.total.value == total_count,
            r.total.delta == total_count_change,
            r.current.value == current_count,
            r.current.delta == current_count_change,
            r.last_publication_handle.inner == last_publication_handle,
    {
        SubscriptionMatched {
            total: Count { value: total_count, delta: total_count_change },
            current: Count { value: current_count, delta: current_count_change },
            last_publication_handle: InstanceHandle::from_raw(last_publication_handle),
        }
    }
}

/// Writers of read instances became alive or stopped being alive.
#[derive(Debug, Clone, Copy, PartialEq, Eq, Structural, Hash)]
pub struct LivelinessChanged {
    pub alive: Count,
    pub not_alive: Count,
    pub last_publication_handle: InstanceHandle,
}

impl LivelinessChanged {
    /// Assemble the status from the raw words of the middleware's report.
    pub fn from_raw_parts(alive_count: u32, alive_count_change: i32, not_alive_count: u32, not_alive_count_change: i32, last_publication_handle: u64) -> (r: Self)
        ensures
            r.alive.value == alive_count,
            r.alive.delta == alive_count_change,
            r.not_alive.value == not_alive_count,
            r.not_alive.delta == not_alive_count_change,
            r.last_publication_handle.inner == last_publication_handle,
    {
        LivelinessChanged {
            alive: Count { value: alive_count, delta: alive_count_change },
            not_alive: Count { value: not_alive_count, delta: not_alive_count_change },
            last_publication_handle: InstanceHandle::from_raw(last_publication_handle),
        }
    }
}

} // verus!
