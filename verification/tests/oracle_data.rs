use cyborg_oracle_feeder::error::Error;
use cyborg_oracle_feeder::feeder::SharedState;
use cyborg_oracle_feeder::oracle::{
    clone_entries, BoundedVec, MinerType, OracleKey, OracleMinerFormat, OracleValue, ProcessStatus,
};

fn entry(id: Vec<u8>, miner_type: MinerType, online: bool, available: bool) -> (OracleKey, OracleValue) {
    (
        OracleKey::Miner(OracleMinerFormat { id: BoundedVec(id), miner_type }),
        OracleValue::MinerStatus(ProcessStatus { online, available }),
    )
}

fn status_of(value: &OracleValue) -> Option<&ProcessStatus> {
    if let OracleValue::MinerStatus(s) = value {
        Some(s)
    } else {
        None
    }
}

fn data(state: &SharedState) -> &Vec<(OracleKey, OracleValue)> {
    state.current_miners_data.as_ref().unwrap()
}

#[test]
fn test_process_status_clone() {
    let status = ProcessStatus { online: true, available: false };

    let cloned = status.clone();
    assert_eq!(status.online, cloned.online);
    assert_eq!(status.available, cloned.available);
}

#[test]
fn test_miner_type_clone() {
    let cloud = MinerType::Cloud;
    let edge = MinerType::Edge;

    assert!(matches!(cloud.clone(), MinerType::Cloud));
    assert!(matches!(edge.clone(), MinerType::Edge));
}

#[test]
fn test_error_creation() {
    let custom_error = Error::custom("test error");
    assert!(matches!(custom_error, Error::Custom(_)));

    let str_error: Error = "test string error".into();
    assert!(matches!(str_error, Error::Custom(_)));
}

#[test]
fn error_carries_its_message() {
    let e = Error::custom("test error");
    assert_eq!(e.message(), "test error");
    let e: Error = "test string error".into();
    assert_eq!(e.message(), "test string error");
}

#[test]
fn oracle_key_and_value_clone_keep_their_content() {
    let key = OracleKey::Miner(OracleMinerFormat { id: BoundedVec(vec![1, 2, 3]), miner_type: MinerType::Cloud });
    match key.clone() {
        OracleKey::Miner(m) => {
            assert_eq!(m.id.0, vec![1, 2, 3]);
            assert!(matches!(m.miner_type, MinerType::Cloud));
        }
        OracleKey::NzkProofResult(_) => panic!("wrong variant"),
    }
    assert!(matches!(OracleKey::NzkProofResult(7).clone(), OracleKey::NzkProofResult(7)));
    assert!(matches!(OracleValue::ZkProofResult(true).clone(), OracleValue::ZkProofResult(true)));
    let entries = vec![entry(vec![9], MinerType::Edge, true, false)];
    let copy = clone_entries(&entries);
    assert_eq!(copy.len(), 1);
    assert_eq!(status_of(&copy[0].1).unwrap().available, false);
}

#[test]
fn test_network_partition_recovery() {
    let mut shared_state = SharedState::new();

    // Simulate network partition - no data collected
    assert!(shared_state.current_miners_data.is_none());

    // Simulate network recovery
    shared_state.record_collection(vec![entry(vec![1], MinerType::Cloud, true, true)]);

    assert!(shared_state.current_miners_data.is_some(), "Should recover after network partition");
}

#[test]
fn test_cascading_miner_failures() {
    let mut shared_state = SharedState::new();

    // All miners fail simultaneously
    let failed_miners: Vec<_> = (0..10u8)
        .map(|i| entry(vec![i], if i % 2 == 0 { MinerType::Cloud } else { MinerType::Edge }, false, false))
        .collect();

    shared_state.record_collection(failed_miners);

    let all_offline = data(&shared_state).iter().all(|(_, value)| {
        if let OracleValue::MinerStatus(status) = value {
            !status.online && !status.available
        } else {
            false
        }
    });

    assert!(all_offline, "Should handle all miners failing");
}

#[test]
fn test_partial_miner_recovery() {
    let mut shared_state = SharedState::new();

    // Initial state: all miners offline
    shared_state.record_collection((0..5u8).map(|i| entry(vec![i], MinerType::Cloud, false, false)).collect());

    // Partial recovery: 3 out of 5 miners come back online
    shared_state.record_collection((0..5u8).map(|i| entry(vec![i], MinerType::Cloud, i < 3, i < 3)).collect());

    let online_count = data(&shared_state)
        .iter()
        .filter(|(_, value)| status_of(value).map(|s| s.online).unwrap_or(false))
        .count();

    assert_eq!(online_count, 3, "Should handle partial recovery correctly");
}

#[test]
fn test_data_corruption_detection() {
    let mut shared_state = SharedState::new();

    // Valid data
    let valid_data = vec![entry(vec![1, 2, 3], MinerType::Cloud, true, true)];

    shared_state.record_collection(clone_entries(&valid_data));

    // Verify data integrity
    assert_eq!(data(&shared_state).len(), 1, "Data should maintain integrity");
}

#[test]
fn test_duplicate_miner_id_handling() {
    let mut shared_state = SharedState::new();

    // Create data with duplicate IDs
    let miners_with_duplicates = vec![
        entry(vec![1], MinerType::Cloud, true, true),
        entry(vec![1], MinerType::Edge, false, false),
    ];

    shared_state.record_collection(miners_with_duplicates);

    // System should accept the data (deduplication is chain responsibility)
    assert_eq!(data(&shared_state).len(), 2, "Should store all entries");
    assert_eq!(shared_state.feed_payload().unwrap().len(), 2);
}

#[test]
fn test_high_frequency_updates() {
    let mut shared_state = SharedState::new();

    // Rapidly update state 100 times
    for i in 0..100u8 {
        shared_state.record_collection(vec![entry(vec![i], MinerType::Cloud, true, true)]);
    }

    assert!(shared_state.current_miners_data.is_some(), "Should handle rapid updates");
    match &data(&shared_state)[0].0 {
        OracleKey::Miner(m) => assert_eq!(m.id.0, vec![99]),
        OracleKey::NzkProofResult(_) => panic!("wrong key"),
    }
}

#[test]
fn test_memory_pressure_with_large_dataset() {
    let mut shared_state = SharedState::new();

    // Create 10,000 miners
    let large_dataset: Vec<_> = (0..10000u32)
        .map(|i| {
            entry(
                vec![(i % 256) as u8, (i / 256) as u8],
                if i % 2 == 0 { MinerType::Cloud } else { MinerType::Edge },
                i % 3 != 0,
                i % 5 != 0,
            )
        })
        .collect();

    shared_state.record_collection(large_dataset);

    assert_eq!(data(&shared_state).len(), 10000, "Should handle large datasets");
}

#[test]
fn test_error_recovery_after_multiple_failures() {
    let mut shared_state = SharedState::new();

    let mut failure_count = 0;

    // Simulate 5 consecutive failures
    for _ in 0..5 {
        failure_count += 1;
    }

    // Then success
    shared_state.record_collection(vec![entry(vec![1], MinerType::Cloud, true, true)]);

    assert_eq!(failure_count, 5);
    assert!(shared_state.current_miners_data.is_some());
}

#[test]
fn test_production_like_workflow() {
    let mut shared_state = SharedState::new();

    // Simulate 10 complete oracle cycles
    for cycle in 0..10u8 {
        // Collect phase
        let miners: Vec<_> = (0..5u8)
            .map(|i| {
                entry(
                    vec![i],
                    if i % 2 == 0 { MinerType::Cloud } else { MinerType::Edge },
                    (cycle + i) % 3 != 0,
                    (cycle + i) % 2 == 0,
                )
            })
            .collect();

        shared_state.record_collection(miners);

        // Verify state
        assert!(shared_state.current_miners_data.is_some(), "Cycle {} should have data", cycle);
        assert_eq!(shared_state.feed_payload().unwrap().len(), 5);
    }
}

#[test]
fn test_miner_churn_handling() {
    let mut shared_state = SharedState::new();

    // Initial: 10 miners
    let mut current_miner_count = 10;

    for round in 0..5 {
        let miners: Vec<_> =
            (0..current_miner_count).map(|i| entry(vec![i as u8], MinerType::Cloud, true, true)).collect();

        shared_state.record_collection(miners);

        // Simulate churn: add 2, remove 1
        current_miner_count += 1;

        assert!(
            data(&shared_state).len() <= current_miner_count,
            "Round {}: Should handle miner churn",
            round
        );
    }
}

#[test]
fn test_regression_empty_bounded_vec() {
    let mut shared_state = SharedState::new();

    // This was a bug: empty BoundedVec caused panics
    shared_state.record_collection(vec![entry(vec![], MinerType::Cloud, true, true)]);

    assert!(shared_state.current_miners_data.is_some(), "Should handle empty BoundedVec");
}

#[test]
fn test_parameterized_miner_counts() {
    let test_cases = vec![1usize, 10, 50, 100, 500];

    for count in test_cases {
        let mut shared_state = SharedState::new();

        let miners: Vec<_> = (0..count).map(|i| entry(vec![(i % 256) as u8], MinerType::Cloud, true, true)).collect();

        shared_state.record_collection(miners);

        assert_eq!(data(&shared_state).len(), count, "Should handle {} miners", count);
    }
}

#[test]
fn test_parameterized_failure_rates() {
    let failure_rates = vec![0.0, 0.1, 0.3, 0.5, 0.9];

    for rate in failure_rates {
        let mut shared_state = SharedState::new();

        let miners: Vec<_> = (0..100u8)
            .map(|i| {
                let online = (i as f64 / 100.0) > rate;
                entry(vec![i], MinerType::Cloud, online, online)
            })
            .collect();

        shared_state.record_collection(miners);

        let online_count = data(&shared_state)
            .iter()
            .filter(|(_, v)| status_of(v).map(|s| s.online).unwrap_or(false))
            .count();

        let expected = ((1.0 - rate) * 100.0) as usize;
        assert!(
            (online_count as i32 - expected as i32).abs() <= 5,
            "Failure rate {} should result in ~{} online miners, got {}",
            rate,
            expected,
            online_count
        );
    }
}

#[test]
fn test_miner_status_transitions() {
    let mut shared_state = SharedState::new();

    // Initial state: miner is online
    shared_state.record_collection(vec![entry(vec![1], MinerType::Cloud, true, true)]);

    // Transition to offline
    shared_state.record_collection(vec![entry(vec![1], MinerType::Cloud, false, false)]);

    let miners = data(&shared_state);
    if let (_, OracleValue::MinerStatus(status)) = &miners[0] {
        assert!(!status.online, "Miner should be offline");
        assert!(!status.available, "Miner should be unavailable");
    }
}
