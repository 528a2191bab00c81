use cyborg_oracle_feeder::block_tracker::{
    block_record, oldest_first, parse_last_block, parse_u32, trim, walk_continues, BlockTracker,
    LAST_BLOCK_FILE,
};

#[test]
fn last_block_record_file_name() {
    // The record lives in a file of this name inside the data directory
    assert_eq!(LAST_BLOCK_FILE, "last_block.txt");
}

#[test]
fn first_run_takes_the_current_block_without_syncing() {
    let mut tracker = BlockTracker::new(None);
    assert_eq!(tracker.last_processed_block, None);
    let check = tracker.needs_sync(120);
    assert!(!check.needs_sync);
    assert_eq!(check.record, Some(120));
    assert_eq!(tracker.last_processed_block, Some(120));
    let again = tracker.needs_sync(120);
    assert!(!again.needs_sync);
    assert_eq!(again.record, None);
}

#[test]
fn tracker_is_behind_when_the_chain_moved_on() {
    let mut tracker = BlockTracker::new(Some("100\n"));
    assert_eq!(tracker.last_processed_block, Some(100));
    assert!(tracker.needs_sync(105).needs_sync);
    assert!(!tracker.needs_sync(100).needs_sync);
    assert_eq!(tracker.missed_block_count(105), 5);
    assert_eq!(tracker.missed_block_count(90), 0);
    tracker.update_last_block(105);
    assert!(!tracker.needs_sync(105).needs_sync);
    assert_eq!(tracker.missed_block_count(105), 0);
}

#[test]
fn unreadable_record_counts_as_block_zero() {
    assert_eq!(parse_last_block("garbage"), 0);
    assert_eq!(parse_last_block(""), 0);
    assert_eq!(parse_last_block("  42  "), 42);
    assert_eq!(parse_last_block("+7"), 7);
    assert_eq!(parse_last_block("-7"), 0);
    assert_eq!(parse_last_block("4294967296"), 0);
    let tracker = BlockTracker::new(Some("x"));
    assert_eq!(tracker.last_processed_block, Some(0));
    assert_eq!(tracker.missed_block_count(3), 3);
}

#[test]
fn record_reads_back_as_written() {
    for n in [0u32, 7, 10, 123456, u32::MAX] {
        let record = block_record(n);
        assert_eq!(record, n.to_string());
        assert_eq!(parse_last_block(&record), n);
    }
}

#[test]
fn trim_removes_unicode_whitespace_like_std() {
    for s in ["  42\n", "\u{3000}7\u{a0}", "\t\r\n", "", "a b", "\u{2028}x\u{200a}", "\u{200b}y"] {
        assert_eq!(trim(s), s.trim());
    }
}

#[test]
fn parse_u32_agrees_with_std() {
    for s in ["0", "42", "+7", "-7", "+", "", "007", "4294967295", "4294967296", "99999999999", "1a", " 1"] {
        assert_eq!(parse_u32(s), s.parse::<u32>().ok(), "{:?}", s);
    }
}

#[test]
fn walk_stops_at_count_or_genesis() {
    assert!(walk_continues(0, 3, false));
    assert!(!walk_continues(3, 3, false));
    assert!(!walk_continues(1, 3, true));
    assert_eq!(oldest_first(vec![5, 4, 3]), vec![3, 4, 5]);
    assert_eq!(oldest_first(Vec::<u32>::new()), Vec::<u32>::new());
}
