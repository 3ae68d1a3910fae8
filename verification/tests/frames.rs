use cyclonedds::error::Error;
use cyclonedds::sample::{collect_delivery, Info};
use cyclonedds::serdata::{defragment, frame_payload, framed_size, unframe, Fragment};
use cyclonedds::topics::Data;
use cyclonedds::waitset::triggered_attachments;
use cyclonedds::{State, Time};

#[test]
fn test_frame_and_unframe_round_trip() {
    let payload = vec![1u8, 2, 3, 4, 5];
    let framed = frame_payload(payload.clone());
    assert_eq!(framed, vec![0, 0, 0, 0, 1, 2, 3, 4, 5]);
    assert_eq!(framed.len(), framed_size(payload.len()));
    let back = unframe(&framed).unwrap();
    assert_eq!(back, payload.as_slice());
}

#[test]
fn test_unframe_rejects_short_input() {
    assert_eq!(unframe(&[1, 2, 3]), None);
    assert_eq!(unframe(&[]), None);
    assert_eq!(unframe(&[9, 9, 9, 9]), Some(&[] as &[u8]));
}

#[test]
fn test_defragment_single_fragment() {
    let fragments = vec![Fragment {
        min: 0,
        maxp1: 4,
        bytes: vec![10, 11, 12, 13],
    }];
    assert_eq!(defragment(&fragments, 4), Some(vec![10, 11, 12, 13]));
}

#[test]
fn test_defragment_chain_with_overlap() {
    // The second fragment starts before the current offset; only the unseen
    // tail of it is copied.
    let fragments = vec![
        Fragment {
            min: 0,
            maxp1: 4,
            bytes: vec![1, 2, 3, 4],
        },
        Fragment {
            min: 2,
            maxp1: 6,
            bytes: vec![3, 4, 5, 6],
        },
    ];
    assert_eq!(defragment(&fragments, 6), Some(vec![1, 2, 3, 4, 5, 6]));
}

#[test]
fn test_defragment_skips_stale_fragment() {
    // A fragment that ends at or before the current offset contributes
    // nothing.
    let fragments = vec![
        Fragment {
            min: 0,
            maxp1: 4,
            bytes: vec![1, 2, 3, 4],
        },
        Fragment {
            min: 0,
            maxp1: 2,
            bytes: vec![1, 2],
        },
        Fragment {
            min: 4,
            maxp1: 5,
            bytes: vec![5],
        },
    ];
    assert_eq!(defragment(&fragments, 5), Some(vec![1, 2, 3, 4, 5]));
}

#[test]
fn test_defragment_rejects_bad_chains() {
    // Empty chain.
    assert_eq!(defragment(&vec![], 0), None);
    // Does not start at the beginning.
    let late_start = vec![Fragment {
        min: 1,
        maxp1: 3,
        bytes: vec![2, 3],
    }];
    assert_eq!(defragment(&late_start, 3), None);
    // Leaves a gap before the second fragment.
    let gap = vec![
        Fragment {
            min: 0,
            maxp1: 2,
            bytes: vec![1, 2],
        },
        Fragment {
            min: 3,
            maxp1: 4,
            bytes: vec![4],
        },
    ];
    assert_eq!(defragment(&gap, 4), None);
    // Overshoots the message size.
    let overshoot = vec![Fragment {
        min: 0,
        maxp1: 4,
        bytes: vec![1, 2, 3, 4],
    }];
    assert_eq!(defragment(&overshoot, 3), None);
    // Falls short of the message size.
    let short = vec![Fragment {
        min: 0,
        maxp1: 2,
        bytes: vec![1, 2],
    }];
    assert_eq!(defragment(&short, 4), None);
}

#[test]
fn test_triggered_attachments_keep_nonzero_slots() {
    let slots: Vec<isize> = vec![0, 7, 0, -3, 12, 0];
    assert_eq!(triggered_attachments(&slots), vec![7, -3, 12]);
    assert_eq!(triggered_attachments(&vec![]), Vec::<isize>::new());
    assert_eq!(triggered_attachments(&vec![0, 0]), Vec::<isize>::new());
}

#[test]
fn test_collect_delivery_outcomes() {
    let info = Info {
        state: State::empty(),
        source_timestamp: Time::from_nanos(0),
        instance_handle: cyclonedds::entity::InstanceHandle::from_raw(0),
        publication_handle: cyclonedds::entity::InstanceHandle::from_raw(0),
        disposed_generation_count: 0,
        no_writers_generation_count: 0,
        sample_rank: 0,
        generation_rank: 0,
        absolute_generation_rank: 0,
    };
    let data = Data {
        x: 1,
        y: 2,
        message: "delivered".to_string(),
    };

    // An invalid delivery carries only the descriptor.
    match collect_delivery::<Data>(false, None, info) {
        Ok(Err(delivered_info)) => assert_eq!(delivered_info, info),
        _ => panic!("an invalid delivery must yield its descriptor"),
    }

    // A valid delivery wraps the payload.
    match collect_delivery(true, Some(data.clone()), info) {
        Ok(Ok(wrapped)) => {
            assert_eq!(wrapped.sample(), Some(&data));
            assert_eq!(wrapped.info(), &info);
        },
        _ => panic!("a valid delivery must yield its payload"),
    }

    // A valid delivery without a payload is a precondition failure.
    match collect_delivery::<Data>(true, None, info) {
        Err(e) => assert_eq!(e, Error::PreconditionNotMet),
        Ok(_) => panic!("a payloadless valid delivery must fail"),
    }
}
