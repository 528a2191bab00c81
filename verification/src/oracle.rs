//! The values that the feeder reports to the oracle pallet of the Cyborg
//! parachain, with the shapes the chain's runtime gives them.

use vstd::prelude::*;

verus! {

/// A vector whose length the chain bounds; on this side it is a plain vector.
#[derive(Debug)]
pub struct BoundedVec<T>(pub Vec<T>);

/// The kind of a miner registered on the chain.
#[derive(Debug)]
pub enum MinerType {
    Cloud,
    Edge,
}

/// Whether a miner answered its health check, and whether it takes work.
#[derive(Debug)]
pub struct ProcessStatus {
    pub online: bool,
    pub available: bool,
}

/// The identity of a miner in an oracle key.
#[derive(Debug)]
pub struct OracleMinerFormat {
    pub id: BoundedVec<u8>,
    pub miner_type: MinerType,
}

/// What an oracle value is about.
#[derive(Debug)]
pub enum OracleKey {
    Miner(OracleMinerFormat),
    NzkProofResult(u64),
}

/// A value fed to the oracle.
#[derive(Debug)]
pub enum OracleValue {
    MinerStatus(ProcessStatus),
    ZkProofResult(bool),
}

/// An oracle key with the miner id taken by its bytes.
pub enum OracleKeyView {
    Miner { id: Seq<u8>, miner_type: MinerType },
    NzkProofResult(u64),
}

impl DeepView for BoundedVec<u8> {
    type V = Seq<u8>;

    open spec fn deep_view(&self) -> Seq<u8> {
        self.0@
    }
}

impl DeepView for OracleKey {
    type V = OracleKeyView;

    open spec fn deep_view(&self) -> OracleKeyView {
        match self {
            OracleKey::Miner(m) => OracleKeyView::Miner { id: m.id.0@, miner_type: m.miner_type },
            OracleKey::NzkProofResult(task_id) => OracleKeyView::NzkProofResult(*task_id),
        }
    }
}

impl DeepView for OracleValue {
    type V = OracleValue;

    open spec fn deep_view(&self) -> OracleValue {
        *self
    }
}

impl Clone for ProcessStatus {
    fn clone(&self) -> (cloned: Self)
        ensures
            cloned == *self,
    {
        ProcessStatus { available: self.available, online: self.online }
    }
}

impl Clone for MinerType {
    fn clone(&self) -> (cloned: Self)
        ensures
            cloned == *self,
    {
        match self {
            MinerType::Cloud => MinerType::Cloud,
            MinerType::Edge => MinerType::Edge,
        }
    }
}

impl Clone for BoundedVec<u8> {
    fn clone(&self) -> (cloned: Self)
        ensures
            cloned.0@ == self.0@,
    {
        let mut bytes: Vec<u8> = Vec::new();
        let n = self.0.len();
        let mut i: usize = 0;
        while i < n
            invariant
                n == self.0@.len(),
                i <= n,
                bytes@ == self.0@.take(i as int),
            decreases n - i,
        {
            bytes.push(self.0[i]);
            i = i + 1;
            assert(bytes@ =~= self.0@.take(i as int));
        }
        assert(bytes@ =~= self.0@);
        BoundedVec(bytes)
    }
}

impl Clone for OracleMinerFormat {
    fn clone(&self) -> (cloned: Self)
        ensures
            cloned.id.0@ == self.id.0@,
            cloned.miner_type == self.miner_type,
    {
        OracleMinerFormat { id: self.id.clone(), miner_type: self.miner_type.clone() }
    }
}

impl Clone for OracleKey {
    fn clone(&self) -> (cloned: Self)
        ensures
            cloned.deep_view() == self.deep_view(),
    {
        match self {
            Self::Miner(miner) => Self::Miner(miner.clone()),
            Self::NzkProofResult(task_id) => Self::NzkProofResult(*task_id),
        }
    }
}

impl Clone for OracleValue {
    fn clone(&self) -> (cloned: Self)
        ensures
            cloned == *self,
    {
        match self {
            Self::MinerStatus(process_status) => Self::MinerStatus(process_status.clone()),
            Self::ZkProofResult(result) => Self::ZkProofResult(*result),
        }
    }
}

/// Copies a list of oracle entries, entry by entry.
pub fn clone_entries(entries: &Vec<(OracleKey, OracleValue)>) -> (copy: Vec<(OracleKey, OracleValue)>)
    ensures
        copy.deep_view() == entries.deep_view(),
{
    let mut copy: Vec<(OracleKey, OracleValue)> = Vec::new();
    let n = entries.len();
    let mut i: usize = 0;
    while i < n
        invariant
            n == entries@.len(),
            i <= n,
            copy.deep_view() == entries.deep_view().take(i as int),
        decreases n - i,
    {
        let key = entries[i].0.clone();
        let value = entries[i].1.clone();
        let entry = (key, value);
        let ghost pushed = entry;
        let ghost before = copy.deep_view();
        assert(pushed.deep_view() == entries@[i as int].deep_view());
        copy.push(entry);
        assert(copy.deep_view() =~= before.push(pushed.deep_view()));
        i = i + 1;
        assert(copy.deep_view() =~= entries.deep_view().take(i as int));
    }
    assert(copy.deep_view() =~= entries.deep_view());
    copy
}

} // verus!
