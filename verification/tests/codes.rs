use cyclonedds::error::{into_error, Error};
use cyclonedds::listener::{
    CallbackToken, PublisherListener, ReaderListener, SubscriberListener, TopicListener,
    WriterListener,
};
use cyclonedds::serdata::Kind;
use cyclonedds::status::{
    InconsistentTopic, LivelinessChanged, LivelinessLost, OfferedDeadlineMissed,
    OfferedIncompatibleQoS, PublicationMatched, QoSPolicyId, RequestedDeadlineMissed,
    RequestedIncompatibleQoS, SampleLost, SampleRejected, SampleRejectedReason,
    SubscriptionMatched,
};
use cyclonedds::Time;

#[test]
fn test_zero_is_success() {
    let actual = into_error(0);
    let expected = Ok(0);
    assert_eq!(actual, expected);
}

#[test]
fn test_positive_is_success() {
    let actual = into_error(i32::MAX);
    let expected = Ok(i32::MAX);
    assert_eq!(actual, expected);
}

#[test]
fn test_error_mapping() {
    let actual = into_error(-1);
    let expected = Err(Error::NonSpecific);
    assert_eq!(actual, expected);
    assert_eq!(actual.unwrap_err().message(), "non specific error occurred");
    let actual = into_error(-2);
    let expected = Err(Error::Unsupported);
    assert_eq!(actual, expected);
    assert_eq!(actual.unwrap_err().message(), "unsupported feature");
    let actual = into_error(-3);
    let expected = Err(Error::BadParameter);
    assert_eq!(actual, expected);
    assert_eq!(actual.unwrap_err().message(), "bad parameter provided");
    let actual = into_error(-4);
    let expected = Err(Error::PreconditionNotMet);
    assert_eq!(actual, expected);
    assert_eq!(
        actual.unwrap_err().message(),
        "precondition for operation not met"
    );
    let actual = into_error(-5);
    let expected = Err(Error::OutOfResources);
    assert_eq!(actual, expected);
    assert_eq!(actual.unwrap_err().message(), "out of resources");
    let actual = into_error(-6);
    let expected = Err(Error::NotEnabled);
    assert_eq!(actual, expected);
    assert_eq!(actual.unwrap_err().message(), "feature not enabled");
    let actual = into_error(-7);
    let expected = Err(Error::ImmutablePolicy);
    assert_eq!(actual, expected);
    assert_eq!(
        actual.unwrap_err().message(),
        "attempted to modify immutable policy"
    );
    let actual = into_error(-8);
    let expected = Err(Error::InconsistentPolicy);
    assert_eq!(actual, expected);
    assert_eq!(
        actual.unwrap_err().message(),
        "policy has inconsistent values"
    );
    let actual = into_error(-9);
    let expected = Err(Error::AlreadyDeleted);
    assert_eq!(actual, expected);
    assert_eq!(actual.unwrap_err().message(), "entity already deleted");
    let actual = into_error(-10);
    let expected = Err(Error::Timeout);
    assert_eq!(actual, expected);
    assert_eq!(actual.unwrap_err().message(), "timeout reached");
    let actual = into_error(-11);
    let expected = Err(Error::NoData);
    assert_eq!(actual, expected);
    assert_eq!(actual.unwrap_err().message(), "data not provided");
    let actual = into_error(-12);
    let expected = Err(Error::IllegalOperation);
    assert_eq!(actual, expected);
    assert_eq!(actual.unwrap_err().message(), "operation is illegal");
    let actual = into_error(-13);
    let expected = Err(Error::NotAllowedBySecurity);
    assert_eq!(actual, expected);
    assert_eq!(actual.unwrap_err().message(), "insufficient credentials");
}

#[test]
fn test_serdata_kind_conversion() {
    let actual = Kind::from_raw(0);
    let expected = Ok(Kind::Empty);
    assert_eq!(actual, expected);

    let actual = Kind::from_raw(1);
    let expected = Ok(Kind::Key);
    assert_eq!(actual, expected);

    let actual = Kind::from_raw(2);
    let expected = Ok(Kind::Data);
    assert_eq!(actual, expected);

    let actual: Result<Kind, _> = Kind::from_raw(u32::MAX);
    let expected = Err(Error::BadParameter);
    assert_eq!(actual, expected);

    assert_eq!(Kind::Empty.as_raw(), 0);
    assert_eq!(Kind::Key.as_raw(), 1);
    assert_eq!(Kind::Data.as_raw(), 2);
}

#[test]
fn test_qos_policy_id_conversion() {
    let result = QoSPolicyId::from_raw(0);
    assert_eq!(result, QoSPolicyId::Invalid);
    let result = QoSPolicyId::from_raw(1);
    assert_eq!(result, QoSPolicyId::UserData);
    let result = QoSPolicyId::from_raw(2);
    assert_eq!(result, QoSPolicyId::Durability);
    let result = QoSPolicyId::from_raw(3);
    assert_eq!(result, QoSPolicyId::Presentation);
    let result = QoSPolicyId::from_raw(4);
    assert_eq!(result, QoSPolicyId::Deadline);
    let result = QoSPolicyId::from_raw(5);
    assert_eq!(result, QoSPolicyId::LatencyBudget);
    let result = QoSPolicyId::from_raw(6);
    assert_eq!(result, QoSPolicyId::Ownership);
    let result = QoSPolicyId::from_raw(7);
    assert_eq!(result, QoSPolicyId::OwnershipStrength);
    let result = QoSPolicyId::from_raw(8);
    assert_eq!(result, QoSPolicyId::Liveliness);
    let result = QoSPolicyId::from_raw(9);
    assert_eq!(result, QoSPolicyId::TimeBasedFilter);
    let result = QoSPolicyId::from_raw(10);
    assert_eq!(result, QoSPolicyId::Partition);
    let result = QoSPolicyId::from_raw(11);
    assert_eq!(result, QoSPolicyId::Reliability);
    let result = QoSPolicyId::from_raw(12);
    assert_eq!(result, QoSPolicyId::DestinationOrder);
    let result = QoSPolicyId::from_raw(13);
    assert_eq!(result, QoSPolicyId::History);
    let result = QoSPolicyId::from_raw(14);
    assert_eq!(result, QoSPolicyId::ResourceLimits);
    let result = QoSPolicyId::from_raw(15);
    assert_eq!(result, QoSPolicyId::EntityFactory);
    let result = QoSPolicyId::from_raw(16);
    assert_eq!(result, QoSPolicyId::WriterDataLifecycle);
    let result = QoSPolicyId::from_raw(17);
    assert_eq!(result, QoSPolicyId::ReaderDataLifecycle);
    let result = QoSPolicyId::from_raw(18);
    assert_eq!(result, QoSPolicyId::TopicData);
    let result = QoSPolicyId::from_raw(19);
    assert_eq!(result, QoSPolicyId::GroupData);
    let result = QoSPolicyId::from_raw(20);
    assert_eq!(result, QoSPolicyId::TransportPriority);
    let result = QoSPolicyId::from_raw(21);
    assert_eq!(result, QoSPolicyId::Lifespan);
    let result = QoSPolicyId::from_raw(22);
    assert_eq!(result, QoSPolicyId::DurabilityService);
    let result = QoSPolicyId::from_raw(23);
    assert_eq!(result, QoSPolicyId::Property);
    let result = QoSPolicyId::from_raw(24);
    assert_eq!(result, QoSPolicyId::TypeConsistencyEnforcement);
    let result = QoSPolicyId::from_raw(25);
    assert_eq!(result, QoSPolicyId::DataRepresentation);
}

#[test]
fn test_sample_rejected_reason_conversion() {
    let result = SampleRejectedReason::from_raw(0);
    assert_eq!(result, SampleRejectedReason::NotRejected);
    let result = SampleRejectedReason::from_raw(1);
    assert_eq!(result, SampleRejectedReason::RejectedByInstancesLimit);
    let result = SampleRejectedReason::from_raw(2);
    assert_eq!(result, SampleRejectedReason::RejectedBySamplesLimit);
    let result = SampleRejectedReason::from_raw(3);
    assert_eq!(
        result,
        SampleRejectedReason::RejectedBySamplesPerInstanceLimit
    );
}

#[test]
fn test_inconsistent_topic_conversion() {
    let total_count = 10;
    let total_count_change = 20;

    let status = InconsistentTopic::from_raw_parts(total_count, total_count_change);

    assert_eq!(
        (status.total.value, status.total.delta),
        (total_count, total_count_change)
    );
}

#[test]
fn test_liveliness_lost_conversion() {
    let total_count = 10;
    let total_count_change = 20;
    let status = LivelinessLost::from_raw_parts(total_count, total_count_change);

    assert_eq!(
        (status.total.value, status.total.delta),
        (total_count, total_count_change)
    );
}

#[test]
fn test_offered_deadline_missed_conversion() {
    let total_count = 10;
    let total_count_change = 20;
    let last_instance_handle = 30;

    let status =
        OfferedDeadlineMissed::from_raw_parts(total_count, total_count_change, last_instance_handle);

    assert_eq!(
        (
            status.total.value,
            status.total.delta,
            status.last_instance_handle.inner
        ),
        (total_count, total_count_change, last_instance_handle)
    );
}

#[test]
fn test_offered_incompatible_qos_conversion() {
    let total_count = 10;
    let total_count_change = 20;
    let last_policy_id = 2;

    let status =
        OfferedIncompatibleQoS::from_raw_parts(total_count, total_count_change, last_policy_id);

    assert_eq!(
        (
            status.total.value,
            status.total.delta,
            status.last_policy_id
        ),
        (total_count, total_count_change, QoSPolicyId::Durability)
    )
}

#[test]
fn test_publication_matched_conversion() {
    let total_count = 10;
    let total_count_change = 20;
    let current_count = 30;
    let current_count_change = 40;
    let last_subscription_handle = 50;

    let status = PublicationMatched::from_raw_parts(
        total_count,
        total_count_change,
        current_count,
        current_count_change,
        last_subscription_handle,
    );

    assert_eq!(
        (
            status.total.value,
            status.total.delta,
            status.current.value,
            status.current.delta,
            status.last_subscription_handle.inner
        ),
        (
            total_count,
            total_count_change,
            current_count,
            current_count_change,
            last_subscription_handle
        )
    )
}

#[test]
fn test_sample_lost_conversion() {
    let total_count = 10;
    let total_count_change = 20;

    let status = SampleLost::from_raw_parts(total_count, total_count_change);

    assert_eq!(
        (status.total.value, status.total.delta),
        (total_count, total_count_change)
    );
}

#[test]
fn test_sample_rejected_conversion() {
    let total_count = 10;
    let total_count_change = 20;
    let last_reason = 1;
    let last_instance_handle = 40;

    let status = SampleRejected::from_raw_parts(
        total_count,
        total_count_change,
        last_reason,
        last_instance_handle,
    );

    assert_eq!(
        (
            status.total.value,
            status.total.delta,
            status.last_reason,
            status.last_instance_handle.inner
        ),
        (
            total_count,
            total_count_change,
            SampleRejectedReason::RejectedByInstancesLimit,
            last_instance_handle
        )
    )
}

#[test]
fn test_liveliness_changed_conversion() {
    let alive_count = 10;
    let alive_count_change = 20;
    let not_alive_count = 30;
    let not_alive_count_change = 40;
    let last_publication_handle = 50;

    let status = LivelinessChanged::from_raw_parts(
        alive_count,
        alive_count_change,
        not_alive_count,
        not_alive_count_change,
        last_publication_handle,
    );

    assert_eq!(
        (
            status.alive.value,
            status.alive.delta,
            status.not_alive.value,
            status.not_alive.delta,
            status.last_publication_handle.inner
        ),
        (
            alive_count,
            alive_count_change,
            not_alive_count,
            not_alive_count_change,
            last_publication_handle
        )
    )
}

#[test]
fn test_requested_deadline_missed_conversion() {
    let total_count = 10;
    let total_count_change = 20;
    let last_instance_handle = 30;

    let status = RequestedDeadlineMissed::from_raw_parts(
        total_count,
        total_count_change,
        last_instance_handle,
    );

    assert_eq!(
        (
            status.total.value,
            status.total.delta,
            status.last_instance_handle.inner
        ),
        (total_count, total_count_change, last_instance_handle)
    )
}

#[test]
fn test_requested_incompatible_qos_conversion() {
    let total_count = 10;
    let total_count_change = 20;
    let last_policy_id = 2;

    let status =
        RequestedIncompatibleQoS::from_raw_parts(total_count, total_count_change, last_policy_id);

    assert_eq!(
        (
            status.total.value,
            status.total.delta,
            status.last_policy_id
        ),
        (total_count, total_count_change, QoSPolicyId::Durability)
    );
}

#[test]
fn test_subscription_matched_conversion() {
    let total_count = 10;
    let total_count_change = 20;
    let current_count = 30;
    let current_count_change = 40;
    let last_publication_handle = 50;

    let status = SubscriptionMatched::from_raw_parts(
        total_count,
        total_count_change,
        current_count,
        current_count_change,
        last_publication_handle,
    );

    assert_eq!(
        (
            status.total.value,
            status.total.delta,
            status.current.value,
            status.current.delta,
            status.last_publication_handle.inner
        ),
        (
            total_count,
            total_count_change,
            current_count,
            current_count_change,
            last_publication_handle
        )
    )
}

#[test]
fn test_time_create() {
    let nanos = 1000000000;
    let time = Time::from_nanos(nanos);
    assert_eq!(time.inner, nanos);
}

#[test]
fn test_listener_create() {
    let topic_listener = TopicListener::new().with_inconsistent_topic(CallbackToken { id: 1 });
    assert_eq!(topic_listener.inconsistent_topic, Some(CallbackToken { id: 1 }));

    let subscriber_listener = SubscriberListener::new().with_data_on_readers(CallbackToken { id: 2 });
    assert_eq!(
        subscriber_listener.data_on_readers,
        Some(CallbackToken { id: 2 })
    );

    let publisher_listener = PublisherListener::new();
    assert_eq!(publisher_listener, PublisherListener::default());

    let reader_listener = ReaderListener::new()
        .with_data_available(CallbackToken { id: 3 })
        .with_liveliness_changed(CallbackToken { id: 4 })
        .with_requested_deadline_missed(CallbackToken { id: 5 })
        .with_requested_incompatible_qos(CallbackToken { id: 6 })
        .with_sample_lost(CallbackToken { id: 7 })
        .with_sample_rejected(CallbackToken { id: 8 })
        .with_subscription_matched(CallbackToken { id: 9 });
    assert_eq!(reader_listener.data_available, Some(CallbackToken { id: 3 }));
    assert_eq!(
        reader_listener.liveliness_changed,
        Some(CallbackToken { id: 4 })
    );
    assert_eq!(
        reader_listener.requested_deadline_missed,
        Some(CallbackToken { id: 5 })
    );
    assert_eq!(
        reader_listener.requested_incompatible_qos,
        Some(CallbackToken { id: 6 })
    );
    assert_eq!(reader_listener.sample_lost, Some(CallbackToken { id: 7 }));
    assert_eq!(reader_listener.sample_rejected, Some(CallbackToken { id: 8 }));
    assert_eq!(
        reader_listener.subscription_matched,
        Some(CallbackToken { id: 9 })
    );

    let writer_listener = WriterListener::new()
        .with_liveliness_lost(CallbackToken { id: 10 })
        .with_offered_deadline_missed(CallbackToken { id: 11 })
        .with_offered_incompatible_qos(CallbackToken { id: 12 })
        .with_publication_matched(CallbackToken { id: 13 });
    assert_eq!(
        writer_listener.liveliness_lost,
        Some(CallbackToken { id: 10 })
    );
    assert_eq!(
        writer_listener.offered_deadline_missed,
        Some(CallbackToken { id: 11 })
    );
    assert_eq!(
        writer_listener.offered_incompatible_qos,
        Some(CallbackToken { id: 12 })
    );
    assert_eq!(
        writer_listener.publication_matched,
        Some(CallbackToken { id: 13 })
    );

    // Attaching one handler leaves the others unset.
    let partial = ReaderListener::new().with_sample_lost(CallbackToken { id: 14 });
    assert_eq!(partial.data_available, None);
    assert_eq!(partial.subscription_matched, None);
}
