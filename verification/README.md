# cyborg_oracle_feeder

The Cyborg oracle feeder asks the Cyborg parachain for its registered miners,
checks each miner's health endpoint and feeds the results to the chain's
oracle through a transaction queue that retries failures with back-off.

- `src/` is the verified library (Verus): the oracle data and its copies
  (`oracle`), the feeder's decisions (`feeder`: health status, health-check
  addresses, collected entries, what a feed sends, the order of a cycle),
  the transaction queue and its retry policy (`tx_queue`), the block
  tracker's bookkeeping and record format (`block_tracker`), key derivation
  from a secret URI (`account`), the feeder builder (`builder`), the command
  line values (`cli`), the error type (`error`) and the counters and miner
  simulator used to exercise the feeder (`test_harness`).
- `app/` is the program: command-line parsing, the parachain client, HTTP
  health checks, the queue worker task (the library settles each execution:
  deliver the result or retry after a back-off), the record file, and the loop that
  runs the feeding cycle, each step decided by the library.
- `tests/` exercises the library on concrete values.
