//! The QoS configuration an entity is created with: a record of which
//! policies have been chosen. Each `with_` builder sets one policy and
//! leaves the rest untouched; the runtime layer replays the chosen policies
//! into the middleware's native QoS object through the corresponding raw
//! setter calls.

use crate::policy::{
    Deadline, DestinationOrder, Durability, DurabilityService, EntityFactory, EntityName,
    GroupData, History, LatencyBudget, Lifespan, Liveliness, Ownership, Partition, Presentation,
    ReaderDataLifecycle, Reliability, ResourceLimits, TimeBasedFilter, TopicData,
    TransportPriority, UserData, WriterDataLifecycle,
};
use vstd::prelude::*;

verus! {

/// The set of policies chosen for an entity; an unset policy keeps the
/// middleware's default.
#[derive(Clone, Debug, PartialEq, Eq)]
pub struct QoS {

    pub user_data: Option<UserData>,
    pub topic_data: Option<TopicData>,
    pub group_data: Option<GroupData>,
    pub durability: Option<Durability>,
    pub durability_service: Option<DurabilityService>,
    pub presentation: Option<Presentation>,
    pub deadline: Option<Deadline>,
    pub latency_budget: Option<LatencyBudget>,
    pub ownership: Option<Ownership>,
    pub liveliness: Option<Liveliness>,
    pub time_based_filter: Option<TimeBasedFilter>,
    pub partition: Option<Partition>,
    pub reliability: Option<Reliability>,
    pub transport_priority: Option<TransportPriority>,
    pub lifespan: Option<Lifespan>,
    pub destination_order: Option<DestinationOrder>,
    pub history: Option<History>,
    pub resource_limits: Option<ResourceLimits>,
    pub entity_factory: Option<EntityFactory>,
    pub writer_data_lifecycle: Option<WriterDataLifecycle>,
    pub reader_data_lifecycle: Option<ReaderDataLifecycle>,
    pub entity_name: Option<EntityName>,
}

impl QoS {
    /// A configuration with every policy left at the middleware's default.
    pub fn new() -> (r: Self)
        ensures
            r.user_data is None,
            r.topic_data is None,
            r.group_data is None,
            r.durability is None,
            r.durability_service is None,
            r.presentation is None,
            r.deadline is None,
            r.latency_budget is None,
            r.ownership is None,
            r.liveliness is None,
            r.time_based_filter is None,
            r.partition is None,
            r.reliability is None,
            r.transport_priority is None,
            r.lifespan is None,
            r.destination_order is None,
            r.history is None,
            r.resource_limits is None,
            r.entity_factory is None,
            r.writer_data_lifecycle is None,
            r.reader_data_lifecycle is None,
            r.entity_name is None,
    {
        QoS {
            user_data: None,
            topic_data: None,
            group_data: None,
            durability: None,
            durability_service: None,
            presentation: None,
            deadline: None,
            latency_budget: None,
            ownership: None,
            liveliness: None,
            time_based_filter: None,
            partition: None,
            reliability: None,
            transport_priority: None,
            lifespan: None,
            destination_order: None,
            history: None,
            resource_limits: None,
            entity_factory: None,
            writer_data_lifecycle: None,
            reader_data_lifecycle: None,
            entity_name: None,
        }
    }

    /// Choose the `user_data` policy.
    pub fn with_user_data(self, user_data: UserData) -> (r: Self)
        ensures
            r.user_data == Some(user_data),
            r.topic_data == self.topic_data,
            r.group_data == self.group_data,
            r.durability == self.durability,
            r.durability_service == self.durability_service,
            r.presentation == self.presentation,
            r.deadline == self.deadline,
            r.latency_budget == self.latency_budget,
            r.ownership == self.ownership,
            r.liveliness == self.liveliness,
            r.time_based_filter == self.time_based_filter,
            r.partition == self.partition,
            r.reliability == self.reliability,
            r.transport_priority == self.transport_priority,
            r.lifespan == self.lifespan,
            r.destination_order == self.destination_order,
            r.history == self.history,
            r.resource_limits == self.resource_limits,
            r.entity_factory == self.entity_factory,
            r.writer_data_lifecycle == self.writer_data_lifecycle,
            r.reader_data_lifecycle == self.reader_data_lifecycle,
            r.entity_name == self.entity_name,
    {
        QoS {
            user_data: Some(user_data),
            topic_data: self.topic_data,
            group_data: self.group_data,
            durability: self.durability,
            durability_service: self.durability_service,
            presentation: self.presentation,
            deadline: self.deadline,
            latency_budget: self.latency_budget,
            ownership: self.ownership,
            liveliness: self.liveliness,
            time_based_filter: self.time_based_filter,
            partition: self.partition,
            reliability: self.reliability,
            transport_priority: self.transport_priority,
            lifespan: self.lifespan,
            destination_order: self.destination_order,
            history: self.history,
            resource_limits: self.resource_limits,
            entity_factory: self.entity_factory,
            writer_data_lifecycle: self.writer_data_lifecycle,
            reader_data_lifecycle: self.reader_data_lifecycle,
            entity_name: self.entity_name,
        }
    }

    /// Choose the `topic_data` policy.
    pub fn with_topic_data(self, topic_data: TopicData) -> (r: Self)
        ensures
            r.topic_data == Some(topic_data),
            r.user_data == self.user_data,
            r.group_data == self.group_data,
            r.durability == self.durability,
            r.durability_service == self.durability_service,
            r.presentation == self.presentation,
            r.deadline == self.deadline,
            r.latency_budget == self.latency_budget,
            r.ownership == self.ownership,
            r.liveliness == self.liveliness,
            r.time_based_filter == self.time_based_filter,
            r.partition == self.partition,
            r.reliability == self.reliability,
            r.transport_priority == self.transport_priority,
            r.lifespan == self.lifespan,
            r.destination_order == self.destination_order,
            r.history == self.history,
            r.resource_limits == self.resource_limits,
            r.entity_factory == self.entity_factory,
            r.writer_data_lifecycle == self.writer_data_lifecycle,
            r.reader_data_lifecycle == self.reader_data_lifecycle,
            r.entity_name == self.entity_name,
    {
        QoS {
            topic_data: Some(topic_data),
            user_data: self.user_data,
            group_data: self.group_data,
            durability: self.durability,
            durability_service: self.durability_service,
            presentation: self.presentation,
            deadline: self.deadline,
            latency_budget: self.latency_budget,
            ownership: self.ownership,
            liveliness: self.liveliness,
            time_based_filter: self.time_based_filter,
            partition: self.partition,
            reliability: self.reliability,
            transport_priority: self.transport_priority,
            lifespan: self.lifespan,
            destination_order: self.destination_order,
            history: self.history,
            resource_limits: self.resource_limits,
            entity_factory: self.entity_factory,
            writer_data_lifecycle: self.writer_data_lifecycle,
            reader_data_lifecycle: self.reader_data_lifecycle,
            entity_name: self.entity_name,
        }
    }

    /// Choose the `group_data` policy.
    pub fn with_group_data(self, group_data: GroupData) -> (r: Self)
        ensures
            r.group_data == Some(group_data),
            r.user_data == self.user_data,
            r.topic_data == self.topic_data,
            r.durability == self.durability,
            r.durability_service == self.durability_service,
            r.presentation == self.presentation,
            r.deadline == self.deadline,
            r.latency_budget == self.latency_budget,
            r.ownership == self.ownership,
            r.liveliness == self.liveliness,
            r.time_based_filter == self.time_based_filter,
            r.partition == self.partition,
            r.reliability == self.reliability,
            r.transport_priority == self.transport_priority,
            r.lifespan == self.lifespan,
            r.destination_order == self.destination_order,
            r.history == self.history,
            r.resource_limits == self.resource_limits,
            r.entity_factory == self.entity_factory,
            r.writer_data_lifecycle == self.writer_data_lifecycle,
            r.reader_data_lifecycle == self.reader_data_lifecycle,
            r.entity_name == self.entity_name,
    {
        QoS {
            group_data: Some(group_data),
            user_data: self.user_data,
            topic_data: self.topic_data,
            durability: self.durability,
            durability_service: self.durability_service,
            presentation: self.presentation,
            deadline: self.deadline,
            latency_budget: self.latency_budget,
            ownership: self.ownership,
            liveliness: self.liveliness,
            time_based_filter: self.time_based_filter,
            partition: self.partition,
            reliability: self.reliability,
            transport_priority: self.transport_priority,
            lifespan: self.lifespan,
            destination_order: self.destination_order,
            history: self.history,
            resource_limits: self.resource_limits,
            entity_factory: self.entity_factory,
            writer_data_lifecycle: self.writer_data_lifecycle,
            reader_data_lifecycle: self.reader_data_lifecycle,
            entity_name: self.entity_name,
        }
    }

    /// Choose the `durability` policy.
    pub fn with_durability(self, durability: Durability) -> (r: Self)
        ensures
            r.durability == Some(durability),
            r.user_data == self.user_data,
            r.topic_data == self.topic_data,
            r.group_data == self.group_data,
            r.durability_service == self.durability_service,
            r.presentation == self.presentation,
            r.deadline == self.deadline,
            r.latency_budget == self.latency_budget,
            r.ownership == self.ownership,
            r.liveliness == self.liveliness,
            r.time_based_filter == self.time_based_filter,
            r.partition == self.partition,
            r.reliability == self.reliability,
            r.transport_priority == self.transport_priority,
            r.lifespan == self.lifespan,
            r.destination_order == self.destination_order,
            r.history == self.history,
            r.resource_limits == self.resource_limits,
            r.entity_factory == self.entity_factory,
            r.writer_data_lifecycle == self.writer_data_lifecycle,
            r.reader_data_lifecycle == self.reader_data_lifecycle,
            r.entity_name == self.entity_name,
    {
        QoS {
            durability: Some(durability),
            user_data: self.user_data,
            topic_data: self.topic_data,
            group_data: self.group_data,
            durability_service: self.durability_service,
            presentation: self.presentation,
            deadline: self.deadline,
            latency_budget: self.latency_budget,
            ownership: self.ownership,
            liveliness: self.liveliness,
            time_based_filter: self.time_based_filter,
            partition: self.partition,
            reliability: self.reliability,
            transport_priority: self.transport_priority,
            lifespan: self.lifespan,
            destination_order: self.destination_order,
            history: self.history,
            resource_limits: self.resource_limits,
            entity_factory: self.entity_factory,
            writer_data_lifecycle: self.writer_data_lifecycle,
            reader_data_lifecycle: self.reader_data_lifecycle,
            entity_name: self.entity_name,
        }
    }

    /// Choose the `durability_service` policy.
    pub fn with_durability_service(self, durability_service: DurabilityService) -> (r: Self)
        ensures
            r.durability_service == Some(durability_service),
            r.user_data == self.user_data,
            r.topic_data == self.topic_data,
            r.group_data == self.group_data,
            r.durability == self.durability,
            r.presentation == self.presentation,
            r.deadline == self.deadline,
            r.latency_budget == self.latency_budget,
            r.ownership == self.ownership,
            r.liveliness == self.liveliness,
            r.time_based_filter == self.time_based_filter,
            r.partition == self.partition,
            r.reliability == self.reliability,
            r.transport_priority == self.transport_priority,
            r.lifespan == self.lifespan,
            r.destination_order == self.destination_order,
            r.history == self.history,
            r.resource_limits == self.resource_limits,
            r.entity_factory == self.entity_factory,
            r.writer_data_lifecycle == self.writer_data_lifecycle,
            r.reader_data_lifecycle == self.reader_data_lifecycle,
            r.entity_name == self.entity_name,
    {
        QoS {
            durability_service: Some(durability_service),
            user_data: self.user_data,
            topic_data: self.topic_data,
            group_data: self.group_data,
            durability: self.durability,
            presentation: self.presentation,
            deadline: self.deadline,
            latency_budget: self.latency_budget,
            ownership: self.ownership,
            liveliness: self.liveliness,
            time_based_filter: self.time_based_filter,
            partition: self.partition,
            reliability: self.reliability,
            transport_priority: self.transport_priority,
            lifespan: self.lifespan,
            destination_order: self.destination_order,
            history: self.history,
            resource_limits: self.resource_limits,
            entity_factory: self.entity_factory,
            writer_data_lifecycle: self.writer_data_lifecycle,
            reader_data_lifecycle: self.reader_data_lifecycle,
            entity_name: self.entity_name,
        }
    }

    /// Choose the `presentation` policy.
    pub fn with_presentation(self, presentation: Presentation) -> (r: Self)
        ensures
            r.presentation == Some(presentation),
            r.user_data == self.user_data,
            r.topic_data == self.topic_data,
            r.group_data == self.group_data,
            r.durability == self.durability,
            r.durability_service == self.durability_service,
            r.deadline == self.deadline,
            r.latency_budget == self.latency_budget,
            r.ownership == self.ownership,
            r.liveliness == self.liveliness,
            r.time_based_filter == self.time_based_filter,
            r.partition == self.partition,
            r.reliability == self.reliability,
            r.transport_priority == self.transport_priority,
            r.lifespan == self.lifespan,
            r.destination_order == self.destination_order,
            r.history == self.history,
            r.resource_limits == self.resource_limits,
            r.entity_factory == self.entity_factory,
            r.writer_data_lifecycle == self.writer_data_lifecycle,
            r.reader_data_lifecycle == self.reader_data_lifecycle,
            r.entity_name == self.entity_name,
    {
        QoS {
            presentation: Some(presentation),
            user_data: self.user_data,
            topic_data: self.topic_data,
            group_data: self.group_data,
            durability: self.durability,
            durability_service: self.durability_service,
            deadline: self.deadline,
            latency_budget: self.latency_budget,
            ownership: self.ownership,
            liveliness: self.liveliness,
            time_based_filter: self.time_based_filter,
            partition: self.partition,
            reliability: self.reliability,
            transport_priority: self.transport_priority,
            lifespan: self.lifespan,
            destination_order: self.destination_order,
            history: self.history,
            resource_limits: self.resource_limits,
            entity_factory: self.entity_factory,
            writer_data_lifecycle: self.writer_data_lifecycle,
            reader_data_lifecycle: self.reader_data_lifecycle,
            entity_name: self.entity_name,
        }
    }

    /// Choose the `deadline` policy.
    pub fn with_deadline(self, deadline: Deadline) -> (r: Self)
        ensures
            r.deadline == Some(deadline),
            r.user_data == self.user_data,
            r.topic_data == self.topic_data,
            r.group_data == self.group_data,
            r.durability == self.durability,
            r.durability_service == self.durability_service,
            r.presentation == self.presentation,
            r.latency_budget == self.latency_budget,
            r.ownership == self.ownership,
            r.liveliness == self.liveliness,
            r.time_based_filter == self.time_based_filter,
            r.partition == self.partition,
            r.reliability == self.reliability,
            r.transport_priority == self.transport_priority,
            r.lifespan == self.lifespan,
            r.destination_order == self.destination_order,
            r.history == self.history,
            r.resource_limits == self.resource_limits,
            r.entity_factory == self.entity_factory,
            r.writer_data_lifecycle == self.writer_data_lifecycle,
            r.reader_data_lifecycle == self.reader_data_lifecycle,
            r.entity_name == self.entity_name,
    {
        QoS {
            deadline: Some(deadline),
            user_data: self.user_data,
            topic_data: self.topic_data,
            group_data: self.group_data,
            durability: self.durability,
            durability_service: self.durability_service,
            presentation: self.presentation,
            latency_budget: self.latency_budget,
            ownership: self.ownership,
            liveliness: self.liveliness,
            time_based_filter: self.time_based_filter,
            partition: self.partition,
            reliability: self.reliability,
            transport_priority: self.transport_priority,
            lifespan: self.lifespan,
            destination_order: self.destination_order,
            history: self.history,
            resource_limits: self.resource_limits,
            entity_factory: self.entity_factory,
            writer_data_lifecycle: self.writer_data_lifecycle,
            reader_data_lifecycle: self.reader_data_lifecycle,
            entity_name: self.entity_name,
        }
    }

    /// Choose the `latency_budget` policy.
    pub fn with_latency_budget(self, latency_budget: LatencyBudget) -> (r: Self)
        ensures
            r.latency_budget == Some(latency_budget),
            r.user_data == self.user_data,
            r.topic_data == self.topic_data,
            r.group_data == self.group_data,
            r.durability == self.durability,
            r.durability_service == self.durability_service,
            r.presentation == self.presentation,
            r.deadline == self.deadline,
            r.ownership == self.ownership,
            r.liveliness == self.liveliness,
            r.time_based_filter == self.time_based_filter,
            r.partition == self.partition,
            r.reliability == self.reliability,
            r.transport_priority == self.transport_priority,
            r.lifespan == self.lifespan,
            r.destination_order == self.destination_order,
            r.history == self.history,
            r.resource_limits == self.resource_limits,
            r.entity_factory == self.entity_factory,
            r.writer_data_lifecycle == self.writer_data_lifecycle,
            r.reader_data_lifecycle == self.reader_data_lifecycle,
            r.entity_name == self.entity_name,
    {
        QoS {
            latency_budget: Some(latency_budget),
            user_data: self.user_data,
            topic_data: self.topic_data,
            group_data: self.group_data,
            durability: self.durability,
            durability_service: self.durability_service,
            presentation: self.presentation,
            deadline: self.deadline,
            ownership: self.ownership,
            liveliness: self.liveliness,
            time_based_filter: self.time_based_filter,
            partition: self.partition,
            reliability: self.reliability,
            transport_priority: self.transport_priority,
            lifespan: self.lifespan,
            destination_order: self.destination_order,
            history: self.history,
            resource_limits: self.resource_limits,
            entity_factory: self.entity_factory,
            writer_data_lifecycle: self.writer_data_lifecycle,
            reader_data_lifecycle: self.reader_data_lifecycle,
            entity_name: self.entity_name,
        }
    }

    /// Choose the `ownership` policy.
    pub fn with_ownership(self, ownership: Ownership) -> (r: Self)
        ensures
            r.ownership == Some(ownership),
            r.user_data == self.user_data,
            r.topic_data == self.topic_data,
            r.group_data == self.group_data,
            r.durability == self.durability,
            r.durability_service == self.durability_service,
            r.presentation == self.presentation,
            r.deadline == self.deadline,
            r.latency_budget == self.latency_budget,
            r.liveliness == self.liveliness,
            r.time_based_filter == self.time_based_filter,
            r.partition == self.partition,
            r.reliability == self.reliability,
            r.transport_priority == self.transport_priority,
            r.lifespan == self.lifespan,
            r.destination_order == self.destination_order,
            r.history == self.history,
            r.resource_limits == self.resource_limits,
            r.entity_factory == self.entity_factory,
            r.writer_data_lifecycle == self.writer_data_lifecycle,
            r.reader_data_lifecycle == self.reader_data_lifecycle,
            r.entity_name == self.entity_name,
    {
        QoS {
            ownership: Some(ownership),
            user_data: self.user_data,
            topic_data: self.topic_data,
            group_data: self.group_data,
            durability: self.durability,
            durability_service: self.durability_service,
            presentation: self.presentation,
            deadline: self.deadline,
            latency_budget: self.latency_budget,
            liveliness: self.liveliness,
            time_based_filter: self.time_based_filter,
            partition: self.partition,
            reliability: self.reliability,
            transport_priority: self.transport_priority,
            lifespan: self.lifespan,
            destination_order: self.destination_order,
            history: self.history,
            resource_limits: self.resource_limits,
            entity_factory: self.entity_factory,
            writer_data_lifecycle: self.writer_data_lifecycle,
            reader_data_lifecycle: self.reader_data_lifecycle,
            entity_name: self.entity_name,
        }
    }

    /// Choose the `liveliness` policy.
    pub fn with_liveliness(self, liveliness: Liveliness) -> (r: Self)
        ensures
            r.liveliness == Some(liveliness),
            r.user_data == self.user_data,
            r.topic_data == self.topic_data,
            r.group_data == self.group_data,
            r.durability == self.durability,
            r.durability_service == self.durability_service,
            r.presentation == self.presentation,
            r.deadline == self.deadline,
            r.latency_budget == self.latency_budget,
            r.ownership == self.ownership,
            r.time_based_filter == self.time_based_filter,
            r.partition == self.partition,
            r.reliability == self.reliability,
            r.transport_priority == self.transport_priority,
            r.lifespan == self.lifespan,
            r.destination_order == self.destination_order,
            r.history == self.history,
            r.resource_limits == self.resource_limits,
            r.entity_factory == self.entity_factory,
            r.writer_data_lifecycle == self.writer_data_lifecycle,
            r.reader_data_lifecycle == self.reader_data_lifecycle,
            r.entity_name == self.entity_name,
    {
        QoS {
            liveliness: Some(liveliness),
            user_data: self.user_data,
            topic_data: self.topic_data,
            group_data: self.group_data,
            durability: self.durability,
            durability_service: self.durability_service,
            presentation: self.presentation,
            deadline: self.deadline,
            latency_budget: self.latency_budget,
            ownership: self.ownership,
            time_based_filter: self.time_based_filter,
            partition: self.partition,
            reliability: self.reliability,
            transport_priority: self.transport_priority,
            lifespan: self.lifespan,
            destination_order: self.destination_order,
            history: self.history,
            resource_limits: self.resource_limits,
            entity_factory: self.entity_factory,
            writer_data_lifecycle: self.writer_data_lifecycle,
            reader_data_lifecycle: self.reader_data_lifecycle,
            entity_name: self.entity_name,
        }
    }

    /// Choose the `time_based_filter` policy.
    pub fn with_time_based_filter(self, time_based_filter: TimeBasedFilter) -> (r: Self)
        ensures
            r.time_based_filter == Some(time_based_filter),
            r.user_data == self.user_data,
            r.topic_data == self.topic_data,
            r.group_data == self.group_data,
            r.durability == self.durability,
            r.durability_service == self.durability_service,
            r.presentation == self.presentation,
            r.deadline == self.deadline,
            r.latency_budget == self.latency_budget,
            r.ownership == self.ownership,
            r.liveliness == self.liveliness,
            r.partition == self.partition,
            r.reliability == self.reliability,
            r.transport_priority == self.transport_priority,
            r.lifespan == self.lifespan,
            r.destination_order == self.destination_order,
            r.history == self.history,
            r.resource_limits == self.resource_limits,
            r.entity_factory == self.entity_factory,
            r.writer_data_lifecycle == self.writer_data_lifecycle,
            r.reader_data_lifecycle == self.reader_data_lifecycle,
            r.entity_name == self.entity_name,
    {
        QoS {
            time_based_filter: Some(time_based_filter),
            user_data: self.user_data,
            topic_data: self.topic_data,
            group_data: self.group_data,
            durability: self.durability,
            durability_service: self.durability_service,
            presentation: self.presentation,
            deadline: self.deadline,
            latency_budget: self.latency_budget,
            ownership: self.ownership,
            liveliness: self.liveliness,
            partition: self.partition,
            reliability: self.reliability,
            transport_priority: self.transport_priority,
            lifespan: self.lifespan,
            destination_order: self.destination_order,
            history: self.history,
            resource_limits: self.resource_limits,
            entity_factory: self.entity_factory,
            writer_data_lifecycle: self.writer_data_lifecycle,
            reader_data_lifecycle: self.reader_data_lifecycle,
            entity_name: self.entity_name,
        }
    }

    /// Choose the `partition` policy.
    pub fn with_partition(self, partition: Partition) -> (r: Self)
        ensures
            r.partition == Some(partition),
            r.user_data == self.user_data,
            r.topic_data == self.topic_data,
            r.group_data == self.group_data,
            r.durability == self.durability,
            r.durability_service == self.durability_service,
            r.presentation == self.presentation,
            r.deadline == self.deadline,
            r.latency_budget == self.latency_budget,
            r.ownership == self.ownership,
            r.liveliness == self.liveliness,
            r.time_based_filter == self.time_based_filter,
            r.reliability == self.reliability,
            r.transport_priority == self.transport_priority,
            r.lifespan == self.lifespan,
            r.destination_order == self.destination_order,
            r.history == self.history,
            r.resource_limits == self.resource_limits,
            r.entity_factory == self.entity_factory,
            r.writer_data_lifecycle == self.writer_data_lifecycle,
            r.reader_data_lifecycle == self.reader_data_lifecycle,
            r.entity_name == self.entity_name,
    {
        QoS {
            partition: Some(partition),
            user_data: self.user_data,
            topic_data: self.topic_data,
            group_data: self.group_data,
            durability: self.durability,
            durability_service: self.durability_service,
            presentation: self.presentation,
            deadline: self.deadline,
            latency_budget: self.latency_budget,
            ownership: self.ownership,
            liveliness: self.liveliness,
            time_based_filter: self.time_based_filter,
            reliability: self.reliability,
            transport_priority: self.transport_priority,
            lifespan: self.lifespan,
            destination_order: self.destination_order,
            history: self.history,
            resource_limits: self.resource_limits,
            entity_factory: self.entity_factory,
            writer_data_lifecycle: self.writer_data_lifecycle,
            reader_data_lifecycle: self.reader_data_lifecycle,
            entity_name: self.entity_name,
        }
    }

    /// Choose the `reliability` policy.
    pub fn with_reliability(self, reliability: Reliability) -> (r: Self)
        ensures
            r.reliability == Some(reliability),
            r.user_data == self.user_data,
            r.topic_data == self.topic_data,
            r.group_data == self.group_data,
            r.durability == self.durability,
            r.durability_service == self.durability_service,
            r.presentation == self.presentation,
            r.deadline == self.deadline,
            r.latency_budget == self.latency_budget,
            r.ownership == self.ownership,
            r.liveliness == self.liveliness,
            r.time_based_filter == self.time_based_filter,
            r.partition == self.partition,
            r.transport_priority == self.transport_priority,
            r.lifespan == self.lifespan,
            r.destination_order == self.destination_order,
            r.history == self.history,
            r.resource_limits == self.resource_limits,
            r.entity_factory == self.entity_factory,
            r.writer_data_lifecycle == self.writer_data_lifecycle,
            r.reader_data_lifecycle == self.reader_data_lifecycle,
            r.entity_name == self.entity_name,
    {
        QoS {
            reliability: Some(reliability),
            user_data: self.user_data,
            topic_data: self.topic_data,
            group_data: self.group_data,
            durability: self.durability,
            durability_service: self.durability_service,
            presentation: self.presentation,
            deadline: self.deadline,
            latency_budget: self.latency_budget,
            ownership: self.ownership,
            liveliness: self.liveliness,
            time_based_filter: self.time_based_filter,
            partition: self.partition,
            transport_priority: self.transport_priority,
            lifespan: self.lifespan,
            destination_order: self.destination_order,
            history: self.history,
            resource_limits: self.resource_limits,
            entity_factory: self.entity_factory,
            writer_data_lifecycle: self.writer_data_lifecycle,
            reader_data_lifecycle: self.reader_data_lifecycle,
            entity_name: self.entity_name,
        }
    }

    /// Choose the `transport_priority` policy.
    pub fn with_transport_priority(self, transport_priority: TransportPriority) -> (r: Self)
        ensures
            r.transport_priority == Some(transport_priority),
            r.user_data == self.user_data,
            r.topic_data == self.topic_data,
            r.group_data == self.group_data,
            r.durability == self.durability,
            r.durability_service == self.durability_service,
            r.presentation == self.presentation,
            r.deadline == self.deadline,
            r.latency_budget == self.latency_budget,
            r.ownership == self.ownership,
            r.liveliness == self.liveliness,
            r.time_based_filter == self.time_based_filter,
            r.partition == self.partition,
            r.reliability == self.reliability,
            r.lifespan == self.lifespan,
            r.destination_order == self.destination_order,
            r.history == self.history,
            r.resource_limits == self.resource_limits,
            r.entity_factory == self.entity_factory,
            r.writer_data_lifecycle == self.writer_data_lifecycle,
            r.reader_data_lifecycle == self.reader_data_lifecycle,
            r.entity_name == self.entity_name,
    {
        QoS {
            transport_priority: Some(transport_priority),
            user_data: self.user_data,
            topic_data: self.topic_data,
            group_data: self.group_data,
            durability: self.durability,
            durability_service: self.durability_service,
            presentation: self.presentation,
            deadline: self.deadline,
            latency_budget: self.latency_budget,
            ownership: self.ownership,
            liveliness: self.liveliness,
            time_based_filter: self.time_based_filter,
            partition: self.partition,
            reliability: self.reliability,
            lifespan: self.lifespan,
            destination_order: self.destination_order,
            history: self.history,
            resource_limits: self.resource_limits,
            entity_factory: self.entity_factory,
            writer_data_lifecycle: self.writer_data_lifecycle,
            reader_data_lifecycle: self.reader_data_lifecycle,
            entity_name: self.entity_name,
        }
    }

    /// Choose the `lifespan` policy.
    pub fn with_lifespan(self, lifespan: Lifespan) -> (r: Self)
        ensures
            r.lifespan == Some(lifespan),
            r.user_data == self.user_data,
            r.topic_data == self.topic_data,
            r.group_data == self.group_data,
            r.durability == self.durability,
            r.durability_service == self.durability_service,
            r.presentation == self.presentation,
            r.deadline == self.deadline,
            r.latency_budget == self.latency_budget,
            r.ownership == self.ownership,
            r.liveliness == self.liveliness,
            r.time_based_filter == self.time_based_filter,
            r.partition == self.partition,
            r.reliability == self.reliability,
            r.transport_priority == self.transport_priority,
            r.destination_order == self.destination_order,
            r.history == self.history,
            r.resource_limits == self.resource_limits,
            r.entity_factory == self.entity_factory,
            r.writer_data_lifecycle == self.writer_data_lifecycle,
            r.reader_data_lifecycle == self.reader_data_lifecycle,
            r.entity_name == self.entity_name,
    {
        QoS {
            lifespan: Some(lifespan),
            user_data: self.user_data,
            topic_data: self.topic_data,
            group_data: self.group_data,
            durability: self.durability,
            durability_service: self.durability_service,
            presentation: self.presentation,
            deadline: self.deadline,
            latency_budget: self.latency_budget,
            ownership: self.ownership,
            liveliness: self.liveliness,
            time_based_filter: self.time_based_filter,
            partition: self.partition,
            reliability: self.reliability,
            transport_priority: self.transport_priority,
            destination_order: self.destination_order,
            history: self.history,
            resource_limits: self.resource_limits,
            entity_factory: self.entity_factory,
            writer_data_lifecycle: self.writer_data_lifecycle,
            reader_data_lifecycle: self.reader_data_lifecycle,
            entity_name: self.entity_name,
        }
    }

    /// Choose the `destination_order` policy.
    pub fn with_destination_order(self, destination_order: DestinationOrder) -> (r: Self)
        ensures
            r.destination_order == Some(destination_order),
            r.user_data == self.user_data,
            r.topic_data == self.topic_data,
            r.group_data == self.group_data,
            r.durability == self.durability,
            r.durability_service == self.durability_service,
            r.presentation == self.presentation,
            r.deadline == self.deadline,
            r.latency_budget == self.latency_budget,
            r.ownership == self.ownership,
            r.liveliness == self.liveliness,
            r.time_based_filter == self.time_based_filter,
            r.partition == self.partition,
            r.reliability == self.reliability,
            r.transport_priority == self.transport_priority,
            r.lifespan == self.lifespan,
            r.history == self.history,
            r.resource_limits == self.resource_limits,
            r.entity_factory == self.entity_factory,
            r.writer_data_lifecycle == self.writer_data_lifecycle,
            r.reader_data_lifecycle == self.reader_data_lifecycle,
            r.entity_name == self.entity_name,
    {
        QoS {
            destination_order: Some(destination_order),
            user_data: self.user_data,
            topic_data: self.topic_data,
            group_data: self.group_data,
            durability: self.durability,
            durability_service: self.durability_service,
            presentation: self.presentation,
            deadline: self.deadline,
            latency_budget: self.latency_budget,
            ownership: self.ownership,
            liveliness: self.liveliness,
            time_based_filter: self.time_based_filter,
            partition: self.partition,
            reliability: self.reliability,
            transport_priority: self.transport_priority,
            lifespan: self.lifespan,
            history: self.history,
            resource_limits: self.resource_limits,
            entity_factory: self.entity_factory,
            writer_data_lifecycle: self.writer_data_lifecycle,
            reader_data_lifecycle: self.reader_data_lifecycle,
            entity_name: self.entity_name,
        }
    }

    /// Choose the `history` policy.
    pub fn with_history(self, history: History) -> (r: Self)
        ensures
            r.history == Some(history),
            r.user_data == self.user_data,
            r.topic_data == self.topic_data,
            r.group_data == self.group_data,
            r.durability == self.durability,
            r.durability_service == self.durability_service,
            r.presentation == self.presentation,
            r.deadline == self.deadline,
            r.latency_budget == self.latency_budget,
            r.ownership == self.ownership,
            r.liveliness == self.liveliness,
            r.time_based_filter == self.time_based_filter,
            r.partition == self.partition,
            r.reliability == self.reliability,
            r.transport_priority == self.transport_priority,
            r.lifespan == self.lifespan,
            r.destination_order == self.destination_order,
            r.resource_limits == self.resource_limits,
            r.entity_factory == self.entity_factory,
            r.writer_data_lifecycle == self.writer_data_lifecycle,
            r.reader_data_lifecycle == self.reader_data_lifecycle,
            r.entity_name == self.entity_name,
    {
        QoS {
            history: Some(history),
            user_data: self.user_data,
            topic_data: self.topic_data,
            group_data: self.group_data,
            durability: self.durability,
            durability_service: self.durability_service,
            presentation: self.presentation,
            deadline: self.deadline,
            latency_budget: self.latency_budget,
            ownership: self.ownership,
            liveliness: self.liveliness,
            time_based_filter: self.time_based_filter,
            partition: self.partition,
            reliability: self.reliability,
            transport_priority: self.transport_priority,
            lifespan: self.lifespan,
            destination_order: self.destination_order,
            resource_limits: self.resource_limits,
            entity_factory: self.entity_factory,
            writer_data_lifecycle: self.writer_data_lifecycle,
            reader_data_lifecycle: self.reader_data_lifecycle,
            entity_name: self.entity_name,
        }
    }

    /// Choose the `resource_limits` policy.
    pub fn with_resource_limits(self, resource_limits: ResourceLimits) -> (r: Self)
        ensures
            r.resource_limits == Some(resource_limits),
            r.user_data == self.user_data,
            r.topic_data == self.topic_data,
            r.group_data == self.group_data,
            r.durability == self.durability,
            r.durability_service == self.durability_service,
            r.presentation == self.presentation,
            r.deadline == self.deadline,
            r.latency_budget == self.latency_budget,
            r.ownership == self.ownership,
            r.liveliness == self.liveliness,
            r.time_based_filter == self.time_based_filter,
            r.partition == self.partition,
            r.reliability == self.reliability,
            r.transport_priority == self.transport_priority,
            r.lifespan == self.lifespan,
            r.destination_order == self.destination_order,
            r.history == self.history,
            r.entity_factory == self.entity_factory,
            r.writer_data_lifecycle == self.writer_data_lifecycle,
            r.reader_data_lifecycle == self.reader_data_lifecycle,
            r.entity_name == self.entity_name,
    {
        QoS {
            resource_limits: Some(resource_limits),
            user_data: self.user_data,
            topic_data: self.topic_data,
            group_data: self.group_data,
            durability: self.durability,
            durability_service: self.durability_service,
            presentation: self.presentation,
            deadline: self.deadline,
            latency_budget: self.latency_budget,
            ownership: self.ownership,
            liveliness: self.liveliness,
            time_based_filter: self.time_based_filter,
            partition: self.partition,
            reliability: self.reliability,
            transport_priority: self.transport_priority,
            lifespan: self.lifespan,
            destination_order: self.destination_order,
            history: self.history,
            entity_factory: self.entity_factory,
            writer_data_lifecycle: self.writer_data_lifecycle,
            reader_data_lifecycle: self.reader_data_lifecycle,
            entity_name: self.entity_name,
        }
    }

    /// Choose the `entity_factory` policy.
    pub fn with_entity_factory(self, entity_factory: EntityFactory) -> (r: Self)
        ensures
            r.entity_factory == Some(entity_factory),
            r.user_data == self.user_data,
            r.topic_data == self.topic_data,
            r.group_data == self.group_data,
            r.durability == self.durability,
            r.durability_service == self.durability_service,
            r.presentation == self.presentation,
            r.deadline == self.deadline,
            r.latency_budget == self.latency_budget,
            r.ownership == self.ownership,
            r.liveliness == self.liveliness,
            r.time_based_filter == self.time_based_filter,
            r.partition == self.partition,
            r.reliability == self.reliability,
            r.transport_priority == self.transport_priority,
            r.lifespan == self.lifespan,
            r.destination_order == self.destination_order,
            r.history == self.history,
            r.resource_limits == self.resource_limits,
            r.writer_data_lifecycle == self.writer_data_lifecycle,
            r.reader_data_lifecycle == self.reader_data_lifecycle,
            r.entity_name == self.entity_name,
    {
        QoS {
            entity_factory: Some(entity_factory),
            user_data: self.user_data,
            topic_data: self.topic_data,
            group_data: self.group_data,
            durability: self.durability,
            durability_service: self.durability_service,
            presentation: self.presentation,
            deadline: self.deadline,
            latency_budget: self.latency_budget,
            ownership: self.ownership,
            liveliness: self.liveliness,
            time_based_filter: self.time_based_filter,
            partition: self.partition,
            reliability: self.reliability,
            transport_priority: self.transport_priority,
            lifespan: self.lifespan,
            destination_order: self.destination_order,
            history: self.history,
            resource_limits: self.resource_limits,
            writer_data_lifecycle: self.writer_data_lifecycle,
            reader_data_lifecycle: self.reader_data_lifecycle,
            entity_name: self.entity_name,
        }
    }

    /// Choose the `writer_data_lifecycle` policy.
    pub fn with_writer_data_lifecycle(self, writer_data_lifecycle: WriterDataLifecycle) -> (r: Self)
        ensures
            r.writer_data_lifecycle == Some(writer_data_lifecycle),
            r.user_data == self.user_data,
            r.topic_data == self.topic_data,
            r.group_data == self.group_data,
            r.durability == self.durability,
            r.durability_service == self.durability_service,
            r.presentation == self.presentation,
            r.deadline == self.deadline,
            r.latency_budget == self.latency_budget,
            r.ownership == self.ownership,
            r.liveliness == self.liveliness,
            r.time_based_filter == self.time_based_filter,
            r.partition == self.partition,
            r.reliability == self.reliability,
            r.transport_priority == self.transport_priority,
            r.lifespan == self.lifespan,
            r.destination_order == self.destination_order,
            r.history == self.history,
            r.resource_limits == self.resource_limits,
            r.entity_factory == self.entity_factory,
            r.reader_data_lifecycle == self.reader_data_lifecycle,
            r.entity_name == self.entity_name,
    {
        QoS {
            writer_data_lifecycle: Some(writer_data_lifecycle),
            user_data: self.user_data,
            topic_data: self.topic_data,
            group_data: self.group_data,
            durability: self.durability,
            durability_service: self.durability_service,
            presentation: self.presentation,
            deadline: self.deadline,
            latency_budget: self.latency_budget,
            ownership: self.ownership,
            liveliness: self.liveliness,
            time_based_filter: self.time_based_filter,
            partition: self.partition,
            reliability: self.reliability,
            transport_priority: self.transport_priority,
            lifespan: self.lifespan,
            destination_order: self.destination_order,
            history: self.history,
            resource_limits: self.resource_limits,
            entity_factory: self.entity_factory,
            reader_data_lifecycle: self.reader_data_lifecycle,
            entity_name: self.entity_name,
        }
    }

    /// Choose the `reader_data_lifecycle` policy.
    pub fn with_reader_data_lifecycle(self, reader_data_lifecycle: ReaderDataLifecycle) -> (r: Self)
        ensures
            r.reader_data_lifecycle == Some(reader_data_lifecycle),
            r.user_data == self.user_data,
            r.topic_data == self.topic_data,
            r.group_data == self.group_data,
            r.durability == self.durability,
            r.durability_service == self.durability_service,
            r.presentation == self.presentation,
            r.deadline == self.deadline,
            r.latency_budget == self.latency_budget,
            r.ownership == self.ownership,
            r.liveliness == self.liveliness,
            r.time_based_filter == self.time_based_filter,
            r.partition == self.partition,
            r.reliability == self.reliability,
            r.transport_priority == self.transport_priority,
            r.lifespan == self.lifespan,
            r.destination_order == self.destination_order,
            r.history == self.history,
            r.resource_limits == self.resource_limits,
            r.entity_factory == self.entity_factory,
            r.writer_data_lifecycle == self.writer_data_lifecycle,
            r.entity_name == self.entity_name,
    {
        QoS {
            reader_data_lifecycle: Some(reader_data_lifecycle),
            user_data: self.user_data,
            topic_data: self.topic_data,
            group_data: self.group_data,
            durability: self.durability,
            durability_service: self.durability_service,
            presentation: self.presentation,
            deadline: self.deadline,
            latency_budget: self.latency_budget,
            ownership: self.ownership,
            liveliness: self.liveliness,
            time_based_filter: self.time_based_filter,
            partition: self.partition,
            reliability: self.reliability,
            transport_priority: self.transport_priority,
            lifespan: self.lifespan,
            destination_order: self.destination_order,
            history: self.history,
            resource_limits: self.resource_limits,
            entity_factory: self.entity_factory,
            writer_data_lifecycle: self.writer_data_lifecycle,
            entity_name: self.entity_name,
        }
    }

    /// Choose the `entity_name` policy.
    pub fn with_entity_name(self, entity_name: EntityName) -> (r: Self)
        ensures
            r.entity_name == Some(entity_name),
            r.user_data == self.user_data,
            r.topic_data == self.topic_data,
            r.group_data == self.group_data,
            r.durability == self.durability,
            r.durability_service == self.durability_service,
            r.presentation == self.presentation,
            r.deadline == self.deadline,
            r.latency_budget == self.latency_budget,
            r.ownership == self.ownership,
            r.liveliness == self.liveliness,
            r.time_based_filter == self.time_based_filter,
            r.partition == self.partition,
            r.reliability == self.reliability,
            r.transport_priority == self.transport_priority,
            r.lifespan == self.lifespan,
            r.destination_order == self.destination_order,
            r.history == self.history,
            r.resource_limits == self.resource_limits,
            r.entity_factory == self.entity_factory,
            r.writer_data_lifecycle == self.writer_data_lifecycle,
            r.reader_data_lifecycle == self.reader_data_lifecycle,
    {
        QoS {
            entity_name: Some(entity_name),
            user_data: self.user_data,
            topic_data: self.topic_data,
            group_data: self.group_data,
            durability: self.durability,
            durability_service: self.durability_service,
            presentation: self.presentation,
            deadline: self.deadline,
            latency_budget: self.latency_budget,
            ownership: self.ownership,
            liveliness: self.liveliness,
            time_based_filter: self.time_based_filter,
            partition: self.partition,
            reliability: self.reliability,
            transport_priority: self.transport_priority,
            lifespan: self.lifespan,
            destination_order: self.destination_order,
            history: self.history,
            resource_limits: self.resource_limits,
            entity_factory: self.entity_factory,
            writer_data_lifecycle: self.writer_data_lifecycle,
            reader_data_lifecycle: self.reader_data_lifecycle,
        }
    }
}

impl Default for QoS {
    fn default() -> (r: Self)
        ensures
            r.user_data is None,
            r.topic_data is None,
            r.group_data is None,
            r.durability is None,
            r.durability_service is None,
            r.presentation is None,
            r.deadline is None,
            r.latency_budget is None,
            r.ownership is None,
            r.liveliness is None,
            r.time_based_filter is None,
            r.partition is None,
            r.reliability is None,
            r.transport_priority is None,
            r.lifespan is None,
            r.destination_order is None,
            r.history is None,
            r.resource_limits is None,
            r.entity_factory is None,
            r.writer_data_lifecycle is None,
            r.reader_data_lifecycle is None,
            r.entity_name is None,
    {
        QoS::new()
    }
}

} // verus!
