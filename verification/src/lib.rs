//! Verified core of the Cyborg oracle feeder: the data that is fed to the
//! oracle, the decisions of the feeding cycle, the transaction queue with its
//! retry policy, the block tracker's bookkeeping and the helpers of the test
//! harness. Everything that talks to the network, the chain, the file system
//! or the clock lives in the program around this library.

pub mod account;
pub mod block_tracker;
pub mod builder;
pub mod cli;
pub mod error;
pub mod feeder;
pub mod key_derivation;
pub mod oracle;
pub mod test_harness;
pub mod tx_queue;
