use cyborg_oracle_feeder::error::Error;
use cyborg_oracle_feeder::feeder::{miner_status, MinerHealthResponse, SharedState};
use cyborg_oracle_feeder::oracle::{
    BoundedVec, MinerType, OracleKey, OracleMinerFormat, OracleValue, ProcessStatus,
};

fn entry(id: Vec<u8>, miner_type: MinerType, online: bool, available: bool) -> (OracleKey, OracleValue) {
    (
        OracleKey::Miner(OracleMinerFormat { id: BoundedVec(id), miner_type }),
        OracleValue::MinerStatus(ProcessStatus { online, available }),
    )
}

/// A feeder whose chain and network are simulated; collecting and feeding go
/// through the library's shared state.
struct MockOracleFeeder {
    shared_state: SharedState,
    should_fail_collection: bool,
    should_fail_feed: bool,
    collection_call_count: u32,
    feed_call_count: u32,
}

impl MockOracleFeeder {
    fn new() -> Self {
        Self::with_state(SharedState::new())
    }

    fn with_state(shared_state: SharedState) -> Self {
        MockOracleFeeder {
            shared_state,
            should_fail_collection: false,
            should_fail_feed: false,
            collection_call_count: 0,
            feed_call_count: 0,
        }
    }

    fn collect_miner_data(&mut self) -> Result<(), Error> {
        self.collection_call_count += 1;
        if self.should_fail_collection {
            return Err(Error::custom("Simulated collection failure"));
        }
        self.shared_state.record_collection(vec![
            entry(vec![1], MinerType::Cloud, true, true),
            entry(vec![2], MinerType::Edge, false, false),
        ]);
        Ok(())
    }

    fn feed(&mut self) -> Result<(), Error> {
        self.feed_call_count += 1;
        if self.should_fail_feed {
            return Err(Error::custom("Simulated feed failure"));
        }
        self.shared_state.feed_payload().map(|_| ())
    }

    fn get_miner_data(&self, miner_ip: &str) -> ProcessStatus {
        let healthy = miner_ip.contains("healthy");
        miner_status(Some(MinerHealthResponse { is_active: healthy }))
    }
}

#[test]
fn test_full_oracle_cycle_success() {
    let mut feeder = MockOracleFeeder::new();

    // Collect miner data
    let result = feeder.collect_miner_data();
    assert!(result.is_ok(), "Data collection should succeed");

    // Verify data was collected
    let data = feeder.shared_state.current_miners_data.as_ref();
    assert!(data.is_some(), "Miner data should be present");
    assert_eq!(data.unwrap().len(), 2, "Should have 2 miners");

    // Feed the oracle
    let feed_result = feeder.feed();
    assert!(feed_result.is_ok(), "Feed should succeed with valid data");

    // Verify feed was called
    assert_eq!(feeder.feed_call_count, 1, "Feed should be called once");
}

#[test]
fn test_collection_failure_handling() {
    let mut feeder = MockOracleFeeder::new();

    // Simulate collection failure
    feeder.should_fail_collection = true;

    let result = feeder.collect_miner_data();
    assert!(result.is_err(), "Collection should fail when simulated");

    // Verify data was not set
    assert!(feeder.shared_state.current_miners_data.is_none(), "No data should be present after failed collection");
}

#[test]
fn test_feed_without_data_fails() {
    let mut feeder = MockOracleFeeder::new();

    // Try to feed without collecting data first
    let result = feeder.feed();
    assert!(result.is_err(), "Feed should fail without miner data");
    assert_eq!(result.unwrap_err().message(), "No miner data available to feed.");
}

#[test]
fn test_miner_health_check_timeout() {
    let feeder = MockOracleFeeder::new();

    // An address that does not answer yields no health response
    let status = miner_status(None);
    assert!(!status.online, "Timeout should result in offline status");
    assert!(!status.available, "Timeout should result in unavailable status");
    let mocked = feeder.get_miner_data("192.168.255.255:9999");
    assert!(!mocked.online && !mocked.available);
}

#[test]
fn test_retry_mechanism_on_transient_failures() {
    let mut feeder = MockOracleFeeder::new();

    // Enable failure initially
    feeder.should_fail_collection = true;

    // First attempt should fail
    let result1 = feeder.collect_miner_data();
    assert!(result1.is_err(), "First attempt should fail");

    // Disable failure for retry
    feeder.should_fail_collection = false;

    // Retry should succeed
    let result2 = feeder.collect_miner_data();
    assert!(result2.is_ok(), "Retry should succeed");

    // Verify data is now available
    assert!(feeder.shared_state.current_miners_data.is_some(), "Data should be present after successful retry");
}

#[test]
fn test_data_consistency_across_cycles() {
    let mut feeder = MockOracleFeeder::new();

    // First cycle
    feeder.collect_miner_data().unwrap();

    // Second cycle (should overwrite)
    feeder.collect_miner_data().unwrap();
    let data2 = feeder.shared_state.feed_payload();

    assert!(data2.is_ok(), "Data should exist after second cycle");
    assert_eq!(data2.unwrap().len(), 2, "Should maintain consistent miner count");
}

#[test]
fn test_feed_call_idempotency() {
    let mut feeder = MockOracleFeeder::new();

    // Collect data once
    feeder.collect_miner_data().unwrap();

    // Feed multiple times with same data
    for _ in 0..3 {
        let result = feeder.feed();
        assert!(result.is_ok(), "Feed should be idempotent");
    }

    assert_eq!(feeder.feed_call_count, 3, "Feed should be called 3 times");
}

#[test]
fn test_graceful_degradation_on_partial_failure() {
    let mut feeder = MockOracleFeeder::new();

    // Collect initial data
    feeder.collect_miner_data().unwrap();

    // Simulate feed failure
    feeder.should_fail_feed = true;
    let feed_result = feeder.feed();
    assert!(feed_result.is_err(), "Feed should fail when simulated");

    // Data should still be available for next cycle
    assert!(feeder.shared_state.current_miners_data.is_some(), "Data should persist despite feed failure");
}

#[test]
fn test_miner_type_distinction() {
    let mut feeder = MockOracleFeeder::new();
    feeder.collect_miner_data().unwrap();

    let miners = feeder.shared_state.current_miners_data.as_ref().unwrap();

    // Check we have both types
    let has_cloud = miners.iter().any(|(key, _)| {
        if let OracleKey::Miner(miner) = key { matches!(miner.miner_type, MinerType::Cloud) } else { false }
    });

    let has_edge = miners.iter().any(|(key, _)| {
        if let OracleKey::Miner(miner) = key { matches!(miner.miner_type, MinerType::Edge) } else { false }
    });

    assert!(has_cloud, "Should have at least one cloud miner");
    assert!(has_edge, "Should have at least one edge miner");
}

#[test]
fn test_empty_miner_list_handling() {
    let mut state = SharedState::new();
    state.record_collection(vec![]);
    let mut feeder = MockOracleFeeder::with_state(state);

    let result = feeder.feed();
    assert!(result.is_ok(), "Should handle empty miner list gracefully");
}

#[test]
fn test_large_miner_dataset() {
    let mut state = SharedState::new();

    // Create 1000 mock miners
    let mut miners = Vec::new();
    for i in 0..1000u32 {
        miners.push(entry(
            vec![i as u8],
            if i % 2 == 0 { MinerType::Cloud } else { MinerType::Edge },
            i % 3 != 0,
            i % 5 != 0,
        ));
    }

    state.record_collection(miners);

    let mut feeder = MockOracleFeeder::with_state(state);

    let result = feeder.feed();
    assert!(result.is_ok(), "Should handle large dataset");
}

#[test]
fn test_sequential_cycle_execution() {
    let mut feeder = MockOracleFeeder::new();

    // Simulate 5 complete cycles
    for i in 0..5 {
        let collect_result = feeder.collect_miner_data();
        assert!(collect_result.is_ok(), "Cycle {} collection failed", i);

        let feed_result = feeder.feed();
        assert!(feed_result.is_ok(), "Cycle {} feed failed", i);
    }

    assert_eq!(feeder.collection_call_count, 5, "Should have 5 collections");
    assert_eq!(feeder.feed_call_count, 5, "Should have 5 feeds");
}

#[test]
fn test_state_recovery_after_failure() {
    let mut feeder = MockOracleFeeder::new();

    // Successful cycle
    feeder.collect_miner_data().unwrap();
    feeder.feed().unwrap();

    // Failed cycle
    feeder.should_fail_feed = true;
    let _ = feeder.feed();

    // Recovery cycle
    feeder.should_fail_feed = false;
    let recovery_result = feeder.feed();

    assert!(recovery_result.is_ok(), "Should recover after failure");
}

#[test]
fn integration_test_mock_feeder_full_run() {
    let mut feeder = MockOracleFeeder::with_state(SharedState::new());
    feeder.shared_state.record_collection(vec![entry(vec![1], MinerType::Edge, true, true)]);
    assert!(feeder.feed().is_ok(), "Miner data must be set before feed()");

    // Verify miner data persisted
    let guard = feeder.shared_state.current_miners_data.as_ref();
    assert!(guard.is_some());
    assert_eq!(guard.unwrap().len(), 1);
}

/// A feeder whose miners always answer that they are active and whose feed
/// always goes through.
struct AlwaysHealthyFeeder {
    shared_state: SharedState,
}

impl AlwaysHealthyFeeder {
    fn collect_miner_data(&mut self) -> Result<(), Error> {
        self.shared_state.record_collection(Vec::new());
        Ok(())
    }

    fn get_miner_data(&self, _miner_ip: &str) -> ProcessStatus {
        miner_status(Some(MinerHealthResponse { is_active: true }))
    }

    fn feed(&self) -> Result<(), Error> {
        Ok(())
    }
}

#[test]
fn test_mock_feeder_operations() {
    let mut feeder = AlwaysHealthyFeeder { shared_state: SharedState::new() };

    feeder.collect_miner_data().unwrap();
    assert!(feeder.shared_state.current_miners_data.is_some());

    let status = feeder.get_miner_data("127.0.0.1:8080");
    assert!(status.online);
    assert!(status.available);

    feeder.feed().unwrap();
    assert!(feeder.shared_state.feed_payload().is_ok());
}
