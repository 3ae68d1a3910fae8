use cyclonedds::policy::{
    Deadline, DestinationOrder, Durability, DurabilityService, EntityFactory, EntityName,
    GroupData, History, LatencyBudget, Lifespan, Liveliness, Ownership, Partition, Presentation,
    ReaderDataLifecycle, Reliability, ResourceLimits, TimeBasedFilter, TopicData,
    TransportPriority, UserData, WriterDataLifecycle,
};
use cyclonedds::{Duration, QoS};

#[test]
fn test_durability_raw_values() {
    assert_eq!(Durability::Volatile.as_ffi(), 0);
    assert_eq!(Durability::TransientLocal.as_ffi(), 1);
    assert_eq!(Durability::Transient.as_ffi(), 2);
    assert_eq!(Durability::Persistent.as_ffi(), 3);
}

#[test]
fn test_presentation_raw_values() {
    let p = Presentation::Instance {
        coherent_access: true,
        ordered_access: false,
    };
    assert_eq!(p.as_ffi(), (0, true, false));
    let p = Presentation::Topic {
        coherent_access: false,
        ordered_access: true,
    };
    assert_eq!(p.as_ffi(), (1, false, true));
    let p = Presentation::Group {
        coherent_access: true,
        ordered_access: true,
    };
    assert_eq!(p.as_ffi(), (2, true, true));
}

#[test]
fn test_history_raw_values() {
    assert_eq!(History::KeepAll.as_ffi(), (1, 0));
    assert_eq!(History::KeepLast { depth: 9 }.as_ffi(), (0, 9));
}

#[test]
fn test_destination_order_raw_values() {
    assert_eq!(DestinationOrder::ByReceptionTimestamp.as_ffi(), 0);
    assert_eq!(DestinationOrder::BySourceTimestamp.as_ffi(), 1);
}

#[test]
fn test_plain_policy_values() {
    let user_data = UserData { value: vec![1, 2, 3] };
    assert_eq!(user_data.as_ffi(), &[1, 2, 3]);
    let topic_data = TopicData { value: vec![4] };
    assert_eq!(topic_data.as_ffi(), &[4]);
    let group_data = GroupData { value: vec![] };
    assert_eq!(group_data.as_ffi(), &[] as &[u8]);
    assert_eq!(TransportPriority { priority: -3 }.as_ffi(), -3);
    let limits = ResourceLimits {
        max_samples: 100,
        max_instances: 10,
        max_samples_per_instance: 5,
    };
    assert_eq!(limits.as_ffi(), (100, 10, 5));
    assert_eq!(
        EntityFactory { autoenable_created_entities: true }.as_ffi(),
        true
    );
    assert_eq!(
        WriterDataLifecycle { autodispose_unregistered_instances: false }.as_ffi(),
        false
    );
}

#[test]
fn test_duration_policy_raw_values() {
    let d = Duration::from_nanos(500);
    assert_eq!(Deadline { period: d }.as_ffi(), 500);
    assert_eq!(LatencyBudget { duration: d }.as_ffi(), 500);
    assert_eq!(TimeBasedFilter { minimum_separation: d }.as_ffi(), 500);
    assert_eq!(Lifespan { duration: d }.as_ffi(), 500);
    assert_eq!(
        Liveliness::Automatic { lease_duration: d }.as_ffi(),
        (0, 500)
    );
    assert_eq!(
        Liveliness::ManualByParticipant { lease_duration: d }.as_ffi(),
        (1, 500)
    );
    assert_eq!(
        Liveliness::ManualByTopic { lease_duration: d }.as_ffi(),
        (2, 500)
    );
    assert_eq!(Reliability::BestEffort.as_ffi(), (0, 0));
    assert_eq!(
        Reliability::Reliable { max_blocking_time: d }.as_ffi(),
        (1, 500)
    );
    let rdl = ReaderDataLifecycle {
        autopurge_nowriter_samples_delay: Duration::from_nanos(7),
        autopurge_disposed_samples_delay: Duration::from_nanos(8),
    };
    assert_eq!(rdl.as_ffi(), (7, 8));
    let ds = DurabilityService {
        service_cleanup_delay: Duration::from_nanos(9),
        history: History::KeepAll,
        max_samples: 1,
        max_instances: 1,
        max_samples_per_instance: 1,
    };
    assert_eq!(ds.as_ffi(), (9, 1, 0, 1, 1, 1));
}

#[test]
fn test_qos_set() {
    let user_data = UserData { value: Default::default() };
    let topic_data = TopicData { value: Default::default() };
    let group_data = GroupData { value: Default::default() };
    let durability = Durability::TransientLocal;
    let durability_service = DurabilityService {
        service_cleanup_delay: Duration::default(),
        history: History::KeepAll,
        max_samples: 1,
        max_instances: 1,
        max_samples_per_instance: 1,
    };
    let presentation = Presentation::Group {
        coherent_access: true,
        ordered_access: true,
    };
    let deadline = Deadline { period: Duration::default() };
    let latency_budget = LatencyBudget { duration: Duration::default() };
    let ownership = Ownership::Shared;
    let liveliness = Liveliness::Automatic { lease_duration: Duration::default() };
    let time_based_filter = TimeBasedFilter { minimum_separation: Duration::default() };
    let partition = Partition { partitions: Default::default() };
    let reliability = Reliability::BestEffort;
    let transport_priority = TransportPriority { priority: 0 };
    let lifespan = Lifespan { duration: Duration::default() };
    let destination_order = DestinationOrder::ByReceptionTimestamp;
    let history = History::KeepLast { depth: 3 };
    let resource_limits = ResourceLimits {
        max_samples: 1,
        max_instances: 1,
        max_samples_per_instance: 1,
    };
    let entity_factory = EntityFactory { autoenable_created_entities: true };
    let writer_data_lifecycle = WriterDataLifecycle { autodispose_unregistered_instances: true };
    let reader_data_lifecycle = ReaderDataLifecycle {
        autopurge_nowriter_samples_delay: Duration::default(),
        autopurge_disposed_samples_delay: Duration::default(),
    };
    let entity_name = EntityName { name: "an entity".to_string() };

    let qos = QoS::new()
        .with_user_data(user_data.clone())
        .with_topic_data(topic_data.clone())
        .with_group_data(group_data.clone())
        .with_durability(durability)
        .with_durability_service(durability_service)
        .with_presentation(presentation)
        .with_deadline(deadline)
        .with_latency_budget(latency_budget)
        .with_ownership(ownership)
        .with_liveliness(liveliness)
        .with_time_based_filter(time_based_filter)
        .with_partition(partition.clone())
        .with_reliability(reliability)
        .with_transport_priority(transport_priority)
        .with_lifespan(lifespan)
        .with_destination_order(destination_order)
        .with_history(history)
        .with_resource_limits(resource_limits)
        .with_entity_factory(entity_factory)
        .with_writer_data_lifecycle(writer_data_lifecycle)
        .with_reader_data_lifecycle(reader_data_lifecycle)
        .with_entity_name(entity_name.clone());

    assert_eq!(qos.user_data, Some(user_data));
    assert_eq!(qos.topic_data, Some(topic_data));
    assert_eq!(qos.group_data, Some(group_data));
    assert_eq!(qos.durability, Some(durability));
    assert_eq!(qos.durability_service, Some(durability_service));
    assert_eq!(qos.presentation, Some(presentation));
    assert_eq!(qos.deadline, Some(deadline));
    assert_eq!(qos.latency_budget, Some(latency_budget));
    assert_eq!(qos.ownership, Some(ownership));
    assert_eq!(qos.liveliness, Some(liveliness));
    assert_eq!(qos.time_based_filter, Some(time_based_filter));
    assert_eq!(qos.partition, Some(partition));
    assert_eq!(qos.reliability, Some(reliability));
    assert_eq!(qos.transport_priority, Some(transport_priority));
    assert_eq!(qos.lifespan, Some(lifespan));
    assert_eq!(qos.destination_order, Some(destination_order));
    assert_eq!(qos.history, Some(history));
    assert_eq!(qos.resource_limits, Some(resource_limits));
    assert_eq!(qos.entity_factory, Some(entity_factory));
    assert_eq!(qos.writer_data_lifecycle, Some(writer_data_lifecycle));
    assert_eq!(qos.reader_data_lifecycle, Some(reader_data_lifecycle));
    assert_eq!(qos.entity_name, Some(entity_name));

    // A fresh configuration leaves every policy unset.
    let fresh = QoS::default();
    assert_eq!(fresh.durability, None);
    assert_eq!(fresh.history, None);
}
