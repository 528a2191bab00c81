//! The decisions of the oracle feeder: what a miner's health answer means,
//! where its health is asked for, which entries a collection produces, what
//! is fed, and the order of the steps of a feeding cycle.

use crate::error::Error;
use crate::oracle::{
    BoundedVec, MinerType, OracleKey, OracleKeyView, OracleMinerFormat, OracleValue, ProcessStatus,
    clone_entries,
};
use vstd::prelude::*;
use vstd::string::*;
use vstd::utf8::{decode_utf8, valid_utf8};

verus! {

/// The seconds a feeding cycle waits before it collects miner data.
pub const CYCLE_DELAY_SECS: u64 = 30;

/// What follows a miner's address in its health-check address: port and path.
pub const HEALTH_PORT_AND_PATH: &'static str = ":8080/check-health";

/// What a miner's health endpoint answers (the field `isActive`).
pub struct MinerHealthResponse {
    pub is_active: bool,
}

/// The miner data collected last, waiting to be fed to the oracle.
pub struct SharedState {
    pub current_miners_data: Option<Vec<(OracleKey, OracleValue)>>,
}

/// One entry of a collection: the oracle key of a miner of the given type
/// and its status.
pub open spec fn miner_entry_view(id: Seq<u8>, miner_type: MinerType, status: ProcessStatus) -> (
    OracleKeyView,
    OracleValue,
) {
    (OracleKeyView::Miner { id, miner_type }, OracleValue::MinerStatus(status))
}

/// The entries for the miners of one chain list, all of the given type, in
/// the order the chain listed them.
pub open spec fn list_entries(miners: Seq<(Seq<u8>, ProcessStatus)>, miner_type: MinerType) -> Seq<
    (OracleKeyView, OracleValue),
> {
    miners.map_values(|m: (Seq<u8>, ProcessStatus)| miner_entry_view(m.0, miner_type, m.1))
}

/// The entries a collection produces: one per miner registered on chain,
/// cloud miners first (as `Cloud`), then edge miners (as `Edge`), each in the
/// order the chain listed them.
pub open spec fn collected_entries(
    cloud: Seq<(Seq<u8>, ProcessStatus)>,
    edge: Seq<(Seq<u8>, ProcessStatus)>,
) -> Seq<(OracleKeyView, OracleValue)> {
    list_entries(cloud, MinerType::Cloud) + list_entries(edge, MinerType::Edge)
}

/// The status a miner gets from its health answer: online and available when
/// it answered that it is active, neither when it answered otherwise or the
/// answer could not be had.
pub open spec fn status_from_health(health: Option<MinerHealthResponse>) -> ProcessStatus {
    let active = match health {
        Some(h) => h.is_active,
        None => false,
    };
    ProcessStatus { online: active, available: active }
}

impl DeepView for ProcessStatus {
    type V = ProcessStatus;

    open spec fn deep_view(&self) -> ProcessStatus {
        *self
    }
}

/// The status of a miner, given what its health endpoint answered (`None`
/// when the request failed or the answer was not a health response).
pub fn miner_status(health: Option<MinerHealthResponse>) -> (status: ProcessStatus)
    ensures
        status == status_from_health(health),
        status.online == status.available,
{
    match health {
        Some(h) => {
            if h.is_active {
                ProcessStatus { online: true, available: true }
            } else {
                ProcessStatus { online: false, available: false }
            }
        },
        None => ProcessStatus { online: false, available: false },
    }
}

/// Whether `s` begins with `prefix`.
pub open spec fn has_prefix(s: Seq<char>, prefix: Seq<char>) -> bool {
    prefix.len() <= s.len() && s.subrange(0, prefix.len() as int) == prefix
}

/// Whether `s` begins with `prefix`.
pub fn starts_with(s: &str, prefix: &str) -> (b: bool)
    ensures
        b == has_prefix(s@, prefix@),
{
    let n = prefix.unicode_len();
    let m = s.unicode_len();
    if n > m {
        return false;
    }
    let mut i: usize = 0;
    while i < n
        invariant
            n == prefix@.len(),
            m == s@.len(),
            n <= m,
            i <= n,
            forall|j: int| 0 <= j < i ==> s@[j] == prefix@[j],
        decreases n - i,
    {
        if s.get_char(i) != prefix.get_char(i) {
            assert(s@.subrange(0, n as int)[i as int] != prefix@[i as int]);
            return false;
        }
        i = i + 1;
    }
    assert(s@.subrange(0, n as int) =~= prefix@);
    true
}

/// Whether a miner's address already names its scheme.
pub open spec fn has_http_scheme(ip: Seq<char>) -> bool {
    has_prefix(ip, "http://"@) || has_prefix(ip, "https://"@)
}

/// The health-check address of a miner: its address with the health port and
/// path appended, behind `http://` unless it already names a scheme.
pub open spec fn health_check_url_spec(ip: Seq<char>) -> Seq<char> {
    if has_http_scheme(ip) {
        ip + HEALTH_PORT_AND_PATH@
    } else {
        "http://"@ + ip + HEALTH_PORT_AND_PATH@
    }
}

/// The health-check address of a miner, the one reported when the check starts.
pub fn health_check_url(miner_ip: &str) -> (url: String)
    ensures
        url@ == health_check_url_spec(miner_ip@),
{
    if starts_with(miner_ip, "http://") || starts_with(miner_ip, "https://") {
        let mut url = String::from_str(miner_ip);
        url.append(HEALTH_PORT_AND_PATH);
        url
    } else {
        let mut url = String::from_str("http://");
        url.append(miner_ip);
        url.append(HEALTH_PORT_AND_PATH);
        url
    }
}

/// The address the health request is sent to: the miner's address with the
/// health port and path appended, as it is.
pub fn health_request_url(miner_ip: &str) -> (url: String)
    ensures
        url@ == miner_ip@ + HEALTH_PORT_AND_PATH@,
{
    let mut url = String::from_str(miner_ip);
    url.append(HEALTH_PORT_AND_PATH);
    url
}

/// The text that `String::from_utf8_lossy` makes of `bytes`.
pub uninterp spec fn utf8_lossy(bytes: Seq<u8>) -> Seq<char>;

/// Calls std's `String::from_utf8_lossy` and takes the text it returns.
/// Stated: the result is a function of the bytes, and for valid UTF-8 it is
/// the text the bytes encode (as std documents). Not stated: which
/// replacement characters stand for invalid sequences.
#[verifier::external_body]
fn from_utf8_lossy(bytes: &[u8]) -> (text: String)
    ensures
        text@ == utf8_lossy(bytes@),
        valid_utf8(bytes@) ==> text@ == decode_utf8(bytes@),
{
    String::from_utf8_lossy(bytes).into_owned()
}

/// The address of a miner, read from the domain bytes it registered.
pub fn miner_ip_from_domain(domain: &BoundedVec<u8>) -> (ip: String)
    ensures
        ip@ == utf8_lossy(domain.0@),
        valid_utf8(domain.0@) ==> ip@ == decode_utf8(domain.0@),
{
    from_utf8_lossy(domain.0.as_slice())
}

/// The oracle entry for a miner of the given type with the given id and status.
pub fn miner_entry(id: &BoundedVec<u8>, miner_type: &MinerType, status: &ProcessStatus) -> (entry: (
    OracleKey,
    OracleValue,
))
    ensures
        entry.deep_view() == miner_entry_view(id.0@, *miner_type, *status),
{
    (
        OracleKey::Miner(OracleMinerFormat { id: id.clone(), miner_type: miner_type.clone() }),
        OracleValue::MinerStatus(status.clone()),
    )
}

/// The miners of one list with their ids taken by their bytes.
pub open spec fn miners_view(miners: Seq<(BoundedVec<u8>, ProcessStatus)>) -> Seq<(Seq<u8>, ProcessStatus)> {
    miners.map_values(|m: (BoundedVec<u8>, ProcessStatus)| (m.0.0@, m.1))
}

/// Appends the entries of `miners`, all of type `miner_type`, to `entries`.
fn push_entries(
    entries: &mut Vec<(OracleKey, OracleValue)>,
    miners: &Vec<(BoundedVec<u8>, ProcessStatus)>,
    miner_type: &MinerType,
)
    ensures
        final(entries).deep_view() == old(entries).deep_view() + list_entries(
            miners_view(miners@),
            *miner_type,
        ),
{
    let ghost start = entries.deep_view();
    let ghost target = list_entries(miners_view(miners@), *miner_type);
    let n = miners.len();
    let mut i: usize = 0;
    while i < n
        invariant
            n == miners@.len(),
            i <= n,
            target == list_entries(miners_view(miners@), *miner_type),
            entries.deep_view() == start + target.take(i as int),
        decreases n - i,
    {
        let entry = miner_entry(&miners[i].0, miner_type, &miners[i].1);
        let ghost pushed = entry.deep_view();
        let ghost before = entries.deep_view();
        entries.push(entry);
        assert(entries.deep_view() =~= before.push(pushed));
        assert(pushed == target[i as int]);
        i = i + 1;
        assert(entries.deep_view() =~= start + target.take(i as int));
    }
    assert(target.take(n as int) =~= target);
}

/// The entries of a collection, from the cloud miners and the edge miners
/// that the chain lists, each with the status its health check gave.
pub fn collect_entries(
    cloud: &Vec<(BoundedVec<u8>, ProcessStatus)>,
    edge: &Vec<(BoundedVec<u8>, ProcessStatus)>,
) -> (entries: Vec<(OracleKey, OracleValue)>)
    ensures
        entries.deep_view() == collected_entries(miners_view(cloud@), miners_view(edge@)),
        entries@.len() == cloud@.len() + edge@.len(),
{
    let mut entries: Vec<(OracleKey, OracleValue)> = Vec::new();
    push_entries(&mut entries, cloud, &MinerType::Cloud);
    push_entries(&mut entries, edge, &MinerType::Edge);
    assert(Seq::<(OracleKeyView, OracleValue)>::empty() + list_entries(
        miners_view(cloud@),
        MinerType::Cloud,
    ) + list_entries(miners_view(edge@), MinerType::Edge) =~= collected_entries(
        miners_view(cloud@),
        miners_view(edge@),
    ));
    assert(entries.deep_view().len() == entries@.len());
    entries
}

/// The message of the error a feed without collected data fails with.
pub const NO_MINER_DATA_MSG: &'static str = "No miner data available to feed.";

/// The stored data after a collection stored `entries`: the new entries
/// replace whatever was there.
pub open spec fn stored_after_collection(
    stored: Option<Seq<(OracleKeyView, OracleValue)>>,
    entries: Seq<(OracleKeyView, OracleValue)>,
) -> Option<Seq<(OracleKeyView, OracleValue)>> {
    Some(entries)
}

/// What a feed of the stored data yields: the data itself, or, when nothing
/// was collected, the failure with its message.
pub open spec fn feed_outcome(stored: Option<Seq<(OracleKeyView, OracleValue)>>) -> Result<
    Seq<(OracleKeyView, OracleValue)>,
    Seq<char>,
> {
    match stored {
        Some(entries) => Ok(entries),
        None => Err(NO_MINER_DATA_MSG@),
    }
}

/// A feed's payload, taken by its view.
pub open spec fn payload_view(payload: Result<Vec<(OracleKey, OracleValue)>, Error>) -> Result<
    Seq<(OracleKeyView, OracleValue)>,
    Seq<char>,
> {
    match payload {
        Ok(entries) => Ok(entries.deep_view()),
        Err(e) => Err(e->Custom_0@),
    }
}

impl SharedState {
    /// A state in which nothing has been collected yet.
    pub fn new() -> (state: Self)
        ensures
            state.current_miners_data is None,
    {
        SharedState { current_miners_data: None }
    }

    /// The collected data, taken by its view.
    pub open spec fn data_view(&self) -> Option<Seq<(OracleKeyView, OracleValue)>> {
        match self.current_miners_data {
            Some(data) => Some(data.deep_view()),
            None => None,
        }
    }

    /// Stores the result of a collection in place of whatever was there.
    pub fn record_collection(&mut self, entries: Vec<(OracleKey, OracleValue)>)
        ensures
            final(self).data_view() == stored_after_collection(old(self).data_view(), entries.deep_view()),
    {
        self.current_miners_data = Some(entries);
    }

    /// What a feed sends to the oracle: a copy of the data collected last.
    /// Without collected data the feed fails. The state is left as it is, so
    /// a failed feed can be retried with the same data.
    pub fn feed_payload(&self) -> (payload: Result<Vec<(OracleKey, OracleValue)>, Error>)
        ensures
            payload_view(payload) == feed_outcome(self.data_view()),
    {
        match &self.current_miners_data {
            Some(data) => Ok(clone_entries(data)),
            None => Err(Error::custom(NO_MINER_DATA_MSG)),
        }
    }
}

/// What a feeding cycle does next.
#[derive(Debug, PartialEq, Eq, Structural)]
pub enum CycleStep {
    /// Wait this many seconds.
    Sleep { secs: u64 },
    /// Ask the chain for its miners and check each miner's health.
    CollectMinerData,
    /// Feed the collected data to the oracle.
    Feed,
}

/// What happened last in a feeding cycle.
#[derive(Debug, PartialEq, Eq, Structural)]
pub enum CycleEvent {
    /// The feeder has just started.
    Started,
    /// The wait is over.
    Slept,
    /// The collection finished, successfully or not.
    Collected { ok: bool },
    /// The feed finished; its failure is reported and waits for the next cycle.
    Fed,
}

/// The step that follows an event: a cycle waits, collects, and feeds only
/// what it collected; a failed collection ends the cycle without a feed.
pub open spec fn cycle_step_spec(event: CycleEvent) -> CycleStep {
    match event {
        CycleEvent::Started => CycleStep::Sleep { secs: CYCLE_DELAY_SECS },
        CycleEvent::Slept => CycleStep::CollectMinerData,
        CycleEvent::Collected { ok } => if ok {
            CycleStep::Feed
        } else {
            CycleStep::Sleep { secs: CYCLE_DELAY_SECS }
        },
        CycleEvent::Fed => CycleStep::Sleep { secs: CYCLE_DELAY_SECS },
    }
}

/// The step of the feeding cycle that follows `event`.
pub fn next_cycle_step(event: CycleEvent) -> (step: CycleStep)
    ensures
        step == cycle_step_spec(event),
{
    match event {
        CycleEvent::Started => CycleStep::Sleep { secs: CYCLE_DELAY_SECS },
        CycleEvent::Slept => CycleStep::CollectMinerData,
        CycleEvent::Collected { ok } => {
            if ok {
                CycleStep::Feed
            } else {
                CycleStep::Sleep { secs: CYCLE_DELAY_SECS }
            }
        },
        CycleEvent::Fed => CycleStep::Sleep { secs: CYCLE_DELAY_SECS },
    }
}

/// A feed happens only right after a successful collection; a collection
/// happens only right after a wait of `CYCLE_DELAY_SECS` seconds; every other
/// event leads to that wait.
pub proof fn law_cycle_order(event: CycleEvent)
    ensures
        cycle_step_spec(event) == CycleStep::Feed <==> event == (CycleEvent::Collected { ok: true }),
        cycle_step_spec(event) == CycleStep::CollectMinerData <==> event == CycleEvent::Slept,
        cycle_step_spec(event) is Sleep ==> cycle_step_spec(event) == (CycleStep::Sleep {
            secs: CYCLE_DELAY_SECS,
        }),
{
}

/// What a feed sends is what the last collection stored: after a collection
/// stored `entries`, whatever was stored before, a feed sends exactly
/// `entries`, and it does so again as long as no other collection is stored;
/// before any collection a feed fails.
pub proof fn law_feed_sends_last_collection(
    stored: Option<Seq<(OracleKeyView, OracleValue)>>,
    entries: Seq<(OracleKeyView, OracleValue)>,
)
    ensures
        feed_outcome(stored_after_collection(stored, entries)) == Ok::<
            Seq<(OracleKeyView, OracleValue)>,
            Seq<char>,
        >(entries),
        feed_outcome(None) == Err::<Seq<(OracleKeyView, OracleValue)>, Seq<char>>(
            NO_MINER_DATA_MSG@,
        ),
{
}

/// A collection reports every miner registered on chain with its own type:
/// one entry per miner, the cloud miners first, each as `Cloud` with its id
/// and status, then the edge miners, each as `Edge`, both in the order the
/// chain listed them.
pub proof fn law_collection_keeps_miner_types(
    cloud: Seq<(Seq<u8>, ProcessStatus)>,
    edge: Seq<(Seq<u8>, ProcessStatus)>,
)
    ensures
        collected_entries(cloud, edge).len() == cloud.len() + edge.len(),
        forall|i: int|
            0 <= i < cloud.len() ==> #[trigger] collected_entries(cloud, edge)[i]
                == miner_entry_view(cloud[i].0, MinerType::Cloud, cloud[i].1),
        forall|j: int|
            0 <= j < edge.len() ==> #[trigger] collected_entries(cloud, edge)[cloud.len() + j]
                == miner_entry_view(edge[j].0, MinerType::Edge, edge[j].1),
{
    let all = collected_entries(cloud, edge);
    let head = list_entries(cloud, MinerType::Cloud);
    let tail = list_entries(edge, MinerType::Edge);
    assert forall|j: int| 0 <= j < edge.len() implies #[trigger] all[cloud.len() + j]
        == miner_entry_view(edge[j].0, MinerType::Edge, edge[j].1) by {
        assert(all[head.len() + j] == tail[j]);
    }
}

} // verus!
