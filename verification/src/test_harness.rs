//! Helpers for exercising the feeder: counters of collections and feeds, and
//! a simulator of miners whose health can be switched.

use vstd::prelude::*;

verus! {

/// The counters of a run: collections and feeds that succeeded or failed, and
/// the time spent, in milliseconds.
pub struct TestMetrics {
    pub successful_collections: u32,
    pub failed_collections: u32,
    pub successful_feeds: u32,
    pub failed_feeds: u32,
    pub total_duration_ms: u128,
}

/// A snapshot of the counters of a run.
#[derive(Debug)]
pub struct MetricsSummary {
    pub successful_collections: u32,
    pub failed_collections: u32,
    pub successful_feeds: u32,
    pub failed_feeds: u32,
    pub total_duration_ms: u128,
}

impl TestMetrics {
    /// Counters that are all zero.
    pub fn new() -> (m: Self)
        ensures
            m.successful_collections == 0,
            m.failed_collections == 0,
            m.successful_feeds == 0,
            m.failed_feeds == 0,
            m.total_duration_ms == 0,
    {
        TestMetrics {
            successful_collections: 0,
            failed_collections: 0,
            successful_feeds: 0,
            failed_feeds: 0,
            total_duration_ms: 0,
        }
    }

    /// Counts a successful collection.
    pub fn record_collection_success(&mut self)
        requires
            old(self).successful_collections < u32::MAX,
        ensures
            *final(self) == (TestMetrics {
                successful_collections: (old(self).successful_collections + 1) as u32,
                ..*old(self)
            }),
    {
        self.successful_collections = self.successful_collections + 1;
    }

    /// Counts a failed collection.
    pub fn record_collection_failure(&mut self)
        requires
            old(self).failed_collections < u32::MAX,
        ensures
            *final(self) == (TestMetrics {
                failed_collections: (old(self).failed_collections + 1) as u32,
                ..*old(self)
            }),
    {
        self.failed_collections = self.failed_collections + 1;
    }

    /// Counts a successful feed.
    pub fn record_feed_success(&mut self)
        requires
            old(self).successful_feeds < u32::MAX,
        ensures
            *final(self) == (TestMetrics {
                successful_feeds: (old(self).successful_feeds + 1) as u32,
                ..*old(self)
            }),
    {
        self.successful_feeds = self.successful_feeds + 1;
    }

    /// Counts a failed feed.
    pub fn record_feed_failure(&mut self)
        requires
            old(self).failed_feeds < u32::MAX,
        ensures
            *final(self) == (TestMetrics {
                failed_feeds: (old(self).failed_feeds + 1) as u32,
                ..*old(self)
            }),
    {
        self.failed_feeds = self.failed_feeds + 1;
    }

    /// Adds `duration_ms` milliseconds to the time spent.
    pub fn record_duration(&mut self, duration_ms: u128)
        requires
            old(self).total_duration_ms + duration_ms <= u128::MAX,
        ensures
            *final(self) == (TestMetrics {
                total_duration_ms: (old(self).total_duration_ms + duration_ms) as u128,
                ..*old(self)
            }),
    {
        self.total_duration_ms = self.total_duration_ms + duration_ms;
    }

    /// The current counters.
    pub fn get_summary(&self) -> (s: MetricsSummary)
        ensures
            s.successful_collections == self.successful_collections,
            s.failed_collections == self.failed_collections,
            s.successful_feeds == self.successful_feeds,
            s.failed_feeds == self.failed_feeds,
            s.total_duration_ms == self.total_duration_ms,
    {
        MetricsSummary {
            successful_collections: self.successful_collections,
            failed_collections: self.failed_collections,
            successful_feeds: self.successful_feeds,
            failed_feeds: self.failed_feeds,
            total_duration_ms: self.total_duration_ms,
        }
    }
}

/// The simulated health of a miner.
#[derive(Debug)]
pub struct MinerState {
    pub online: bool,
    pub available: bool,
    pub response_delay_ms: u64,
}

impl Clone for MinerState {
    fn clone(&self) -> (cloned: Self)
        ensures
            cloned == *self,
    {
        MinerState {
            online: self.online,
            available: self.available,
            response_delay_ms: self.response_delay_ms,
        }
    }
}

/// Simulated miners, each under its id; an id names at most one miner. The
/// miners are held as id and state pairs searched by id: vstd specifies
/// `HashMap` only for keys whose hashing it models (integers, `bool`), and a
/// miner id is a byte vector.
pub struct MinerSimulator {
    miners: Vec<(Vec<u8>, MinerState)>,
}

/// Whether `a` and `b` hold the same bytes.
fn same_bytes(a: &[u8], b: &[u8]) -> (same: bool)
    ensures
        same == (a@ == b@),
{
    if a.len() != b.len() {
        return false;
    }
    let n = a.len();
    let mut i: usize = 0;
    while i < n
        invariant
            n == a@.len(),
            n == b@.len(),
            i <= n,
            forall|j: int| 0 <= j < i ==> a@[j] == b@[j],
        decreases n - i,
    {
        if a[i] != b[i] {
            return false;
        }
        i = i + 1;
    }
    assert(a@ =~= b@);
    true
}

/// Copies the bytes of `a`.
fn copy_bytes(a: &[u8]) -> (copy: Vec<u8>)
    ensures
        copy@ == a@,
{
    let mut copy: Vec<u8> = Vec::new();
    let n = a.len();
    let mut i: usize = 0;
    while i < n
        invariant
            n == a@.len(),
            i <= n,
            copy@ == a@.take(i as int),
        decreases n - i,
    {
        copy.push(a[i]);
        i = i + 1;
        assert(copy@ =~= a@.take(i as int));
    }
    assert(copy@ =~= a@);
    copy
}

/// The miners that the entries `s` hold, by id; a later entry wins.
pub open spec fn miners_by_id(s: Seq<(Vec<u8>, MinerState)>) -> Map<Seq<u8>, MinerState>
    decreases s.len(),
{
    if s.len() == 0 {
        Map::empty()
    } else {
        miners_by_id(s.drop_last()).insert(s.last().0@, s.last().1)
    }
}

/// Whether no id occurs twice among the entries `s`.
pub open spec fn ids_unique(s: Seq<(Vec<u8>, MinerState)>) -> bool {
    forall|i: int, j: int| 0 <= i < j < s.len() ==> #[trigger] s[i].0@ != #[trigger] s[j].0@
}

/// The entries hold a miner exactly under the ids that occur among them.
proof fn lemma_miners_by_id_domain(s: Seq<(Vec<u8>, MinerState)>, id: Seq<u8>)
    ensures
        miners_by_id(s).contains_key(id) <==> exists|i: int| 0 <= i < s.len() && #[trigger] s[i].0@ == id,
    decreases s.len(),
{
    if s.len() > 0 {
        lemma_miners_by_id_domain(s.drop_last(), id);
        if miners_by_id(s.drop_last()).contains_key(id) {
            let i = choose|i: int| 0 <= i < s.drop_last().len() && #[trigger] s.drop_last()[i].0@ == id;
            assert(s[i].0@ == id);
        }
        if exists|i: int| 0 <= i < s.len() && #[trigger] s[i].0@ == id {
            let i = choose|i: int| 0 <= i < s.len() && #[trigger] s[i].0@ == id;
            if i < s.len() - 1 {
                assert(s.drop_last()[i].0@ == id);
            }
        }
    }
}

/// With unique ids, the miner under the id of entry `i` is that entry's.
proof fn lemma_miners_by_id_get(s: Seq<(Vec<u8>, MinerState)>, i: int)
    requires
        ids_unique(s),
        0 <= i < s.len(),
    ensures
        miners_by_id(s).contains_key(s[i].0@),
        miners_by_id(s)[s[i].0@] == s[i].1,
    decreases s.len(),
{
    if i < s.len() - 1 {
        assert(s.drop_last()[i] == s[i]);
        assert(ids_unique(s.drop_last()));
        lemma_miners_by_id_get(s.drop_last(), i);
        assert(s[i].0@ != s.last().0@);
    }
}

/// With unique ids, replacing entry `i` by one with the same id replaces the
/// miner under that id.
proof fn lemma_miners_by_id_update(s: Seq<(Vec<u8>, MinerState)>, i: int, e: (Vec<u8>, MinerState))
    requires
        ids_unique(s),
        0 <= i < s.len(),
        e.0@ == s[i].0@,
    ensures
        ids_unique(s.update(i, e)),
        miners_by_id(s.update(i, e)) == miners_by_id(s).insert(e.0@, e.1),
    decreases s.len(),
{
    let t = s.update(i, e);
    assert forall|a: int, b: int| 0 <= a < b < t.len() implies #[trigger] t[a].0@ != #[trigger] t[b].0@ by {
        assert(t[a].0@ == s[a].0@);
        assert(t[b].0@ == s[b].0@);
    }
    if i == s.len() - 1 {
        assert(t.drop_last() =~= s.drop_last());
        assert(miners_by_id(t) =~= miners_by_id(s).insert(e.0@, e.1));
    } else {
        assert(t.drop_last() =~= s.drop_last().update(i, e));
        assert(ids_unique(s.drop_last()));
        lemma_miners_by_id_update(s.drop_last(), i, e);
        assert(s.last().0@ != e.0@);
        assert(miners_by_id(t) =~= miners_by_id(s).insert(e.0@, e.1));
    }
}

/// The position of the entry with id `id` among `miners`, if there is one.
fn position(miners: &Vec<(Vec<u8>, MinerState)>, id: &[u8]) -> (pos: Option<usize>)
    ensures
        pos matches Some(i) ==> i < miners@.len() && miners@[i as int].0@ == id@,
        pos is None ==> forall|i: int| 0 <= i < miners@.len() ==> miners@[i].0@ != id@,
{
    let n = miners.len();
    let mut i: usize = 0;
    while i < n
        invariant
            n == miners@.len(),
            i <= n,
            forall|j: int| 0 <= j < i ==> miners@[j].0@ != id@,
        decreases n - i,
    {
        if same_bytes(miners[i].0.as_slice(), id) {
            return Some(i);
        }
        i = i + 1;
    }
    None
}

/// The miners after a miner's health was switched, if it is simulated;
/// otherwise nothing changes.
pub open spec fn switched(
    miners: Map<Seq<u8>, MinerState>,
    id: Seq<u8>,
    online: bool,
    available: bool,
) -> Map<Seq<u8>, MinerState> {
    if miners.contains_key(id) {
        miners.insert(id, MinerState { online, available, response_delay_ms: miners[id].response_delay_ms })
    } else {
        miners
    }
}

impl View for MinerSimulator {
    type V = Map<Seq<u8>, MinerState>;

    /// The simulated miners, by id.
    closed spec fn view(&self) -> Map<Seq<u8>, MinerState> {
        miners_by_id(self.miners@)
    }
}

impl MinerSimulator {
    /// No id names two miners.
    #[verifier::type_invariant]
    spec fn wf(&self) -> bool {
        ids_unique(self.miners@)
    }

    /// No miners.
    pub fn new() -> (s: Self)
        ensures
            s.view() == Map::<Seq<u8>, MinerState>::empty(),
    {
        MinerSimulator { miners: Vec::new() }
    }

    /// Takes the entries out, leaving none behind.
    fn take_miners(&mut self) -> (miners: Vec<(Vec<u8>, MinerState)>)
        ensures
            miners@ == old(self).miners@,
            ids_unique(miners@),
    {
        proof {
            use_type_invariant(&*self);
        }
        let mut miners: Vec<(Vec<u8>, MinerState)> = Vec::new();
        std::mem::swap(&mut miners, &mut self.miners);
        miners
    }

    /// Adds the miner `id` in `state`, replacing a miner of that id.
    pub fn add_miner(&mut self, id: Vec<u8>, state: MinerState)
        ensures
            final(self).view() == old(self).view().insert(id@, state),
    {
        let mut miners = self.take_miners();
        let ghost old_miners = miners@;
        match position(&miners, id.as_slice()) {
            Some(i) => {
                let ghost entry = (id, state);
                miners.set(i, (id, state));
                proof {
                    assert(miners@ == old_miners.update(i as int, entry));
                    lemma_miners_by_id_update(old_miners, i as int, entry);
                }
            },
            None => {
                miners.push((id, state));
                proof {
                    assert(miners@.drop_last() =~= old_miners);
                    assert forall|a: int, b: int|
                        0 <= a < b < miners@.len() implies #[trigger] miners@[a].0@
                        != #[trigger] miners@[b].0@ by {
                        if b < miners@.len() - 1 {
                            assert(miners@[a] == old_miners[a]);
                            assert(miners@[b] == old_miners[b]);
                        } else {
                            assert(miners@[a] == old_miners[a]);
                        }
                    }
                }
            },
        }
        self.miners = miners;
    }

    /// Switches the health of the miner `id`, keeping its response delay; an
    /// id that names no miner changes nothing.
    pub fn update_miner_state(&mut self, id: &[u8], online: bool, available: bool)
        ensures
            final(self).view() == switched(old(self).view(), id@, online, available),
    {
        let mut miners = self.take_miners();
        let ghost old_miners = miners@;
        proof {
            lemma_miners_by_id_domain(old_miners, id@);
        }
        match position(&miners, id) {
            Some(i) => {
                let key = copy_bytes(miners[i].0.as_slice());
                let delay = miners[i].1.response_delay_ms;
                let state = MinerState { online, available, response_delay_ms: delay };
                let ghost entry = (key, state);
                miners.set(i, (key, state));
                proof {
                    lemma_miners_by_id_get(old_miners, i as int);
                    assert(miners@ == old_miners.update(i as int, entry));
                    lemma_miners_by_id_update(old_miners, i as int, entry);
                }
            },
            None => {},
        }
        self.miners = miners;
    }

    /// A copy of the state of the miner `id`, if it is simulated.
    pub fn get_miner_state(&self, id: &[u8]) -> (state: Option<MinerState>)
        ensures
            state == (if self.view().contains_key(id@) {
                Some(self.view()[id@])
            } else {
                None::<MinerState>
            }),
    {
        proof {
            use_type_invariant(self);
            lemma_miners_by_id_domain(self.miners@, id@);
        }
        match position(&self.miners, id) {
            Some(i) => {
                proof {
                    lemma_miners_by_id_get(self.miners@, i as int);
                }
                Some(self.miners[i].1.clone())
            },
            None => None,
        }
    }

    /// Takes the miner `id` offline and unavailable.
    pub fn simulate_miner_failure(&mut self, id: &[u8])
        ensures
            final(self).view() == switched(old(self).view(), id@, false, false),
    {
        self.update_miner_state(id, false, false);
    }

    /// Brings the miner `id` back online and available.
    pub fn simulate_miner_recovery(&mut self, id: &[u8])
        ensures
            final(self).view() == switched(old(self).view(), id@, true, true),
    {
        self.update_miner_state(id, true, true);
    }
}

/// A miner's state reads back as it was added; switching its health changes
/// only its flags, and only for that miner; switching a miner that is not
/// simulated changes nothing.
pub proof fn law_simulator_read_back(
    miners: Map<Seq<u8>, MinerState>,
    id: Seq<u8>,
    other: Seq<u8>,
    state: MinerState,
    online: bool,
    available: bool,
)
    ensures
        miners.insert(id, state)[id] == state,
        switched(miners.insert(id, state), id, online, available)[id] == (MinerState {
            online,
            available,
            response_delay_ms: state.response_delay_ms,
        }),
        other != id ==> switched(miners, id, online, available).contains_key(other)
            == miners.contains_key(other),
        other != id && miners.contains_key(other) ==> switched(miners, id, online, available)[other]
            == miners[other],
        !miners.contains_key(id) ==> switched(miners, id, online, available) == miners,
{
}

} // verus!
