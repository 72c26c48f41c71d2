use vstd::prelude::*;

use crate::reading::ReadingSnapshot;
use crate::sink_influxdb;
use crate::sink_influxdb::{daq_data_to_points, spec_points, spec_timestamp, timestamp_from_nanos, PointView, SinkPoint};

verus! {

/// The sink that snapshots are delivered to, chosen once at startup.
#[derive(Clone, Debug)]
pub enum Sink {
    InfluxDB(sink_influxdb::Options),
}

/// How the pipeline runs: the poll interval in seconds and the sink.
#[derive(Clone, Debug)]
pub struct Options {
    pub interval_secs: u64,
    pub sink: Sink,
}

/// Why the device could not be read in one cycle.
#[derive(Clone, Debug)]
pub struct FetchError {
    pub message: String,
}

/// Why the sink did not take a batch.
#[derive(Clone, Debug)]
pub struct SinkError {
    pub message: String,
}

/// What the poller does after one fetch: forward a snapshot, if any, to the
/// handoff queue, then sleep.
#[derive(Clone, Debug)]
pub struct PollStep {
    pub forward: Option<ReadingSnapshot>,
    pub sleep_secs: u64,
}

/// What the drain loop does next.
#[derive(Clone, Debug)]
pub enum DrainAction {
    /// Hand this batch to the sink in one call.
    Write(Vec<SinkPoint>),
    /// Wait for the next snapshot on the handoff queue.
    Receive,
    /// The queue is closed: the loop ends.
    Stop,
}

/// The decisions of the device poller, which fetches once per interval forever.
#[derive(Clone, Copy, Debug)]
pub struct Poller {
    pub interval_secs: u64,
}

/// The snapshot that one fetch outcome forwards.
pub open spec fn spec_forward(fetched: Result<ReadingSnapshot, FetchError>) -> Option<ReadingSnapshot> {
    match fetched {
        Ok(s) => Some(s),
        Err(_) => None,
    }
}

/// How long the poller sleeps after a fetch, whatever it returned.
pub open spec fn spec_sleep_after(p: Poller, fetched: Result<ReadingSnapshot, FetchError>) -> nat {
    p.interval_secs as nat
}

/// The snapshots that the poller forwards, in order, for a run of fetch outcomes.
pub open spec fn spec_forwarded(fetched: Seq<Result<ReadingSnapshot, FetchError>>) -> Seq<ReadingSnapshot>
    decreases fetched.len(),
{
    if fetched.len() == 0 {
        Seq::empty()
    } else {
        let rest = spec_forwarded(fetched.drop_last());
        match spec_forward(fetched.last()) {
            Some(s) => rest.push(s),
            None => rest,
        }
    }
}

/// The time, from the first fetch, at which fetch `i` starts.
pub open spec fn spec_fetch_start(p: Poller, fetched: Seq<Result<ReadingSnapshot, FetchError>>, i: nat) -> nat
    decreases i,
{
    if i == 0 {
        0
    } else {
        spec_fetch_start(p, fetched, (i - 1) as nat) + spec_sleep_after(p, fetched[i - 1])
    }
}

impl Poller {
    pub fn new(opts: &Options) -> (r: Poller)
        ensures
            r.interval_secs == opts.interval_secs,
    {
        Poller { interval_secs: opts.interval_secs }
    }

    /// Decides on one fetch outcome: a snapshot is forwarded, a failure is dropped,
    /// and in both cases the poller sleeps one interval and fetches again.
    pub fn after_fetch(&self, fetched: Result<ReadingSnapshot, FetchError>) -> (r: PollStep)
        ensures
            r.forward == spec_forward(fetched),
            r.sleep_secs == spec_sleep_after(*self, fetched),
    {
        let forward = match fetched {
            Ok(s) => Some(s),
            Err(_) => None,
        };
        PollStep { forward, sleep_secs: self.interval_secs }
    }
}

/// Decides on what the handoff queue gave: a closed queue ends the loop; a snapshot
/// is encoded with the one timestamp taken from `now_nanos` and written as one
/// batch of one point per reading.
pub fn on_received(received: Option<ReadingSnapshot>, now_nanos: u128) -> (r: DrainAction)
    ensures
        received is None ==> r is Stop,
        received matches Some(s) ==> (r matches DrainAction::Write(points) && points@.map_values(
            |p: SinkPoint| p@,
        ) == spec_points(s.values@, spec_timestamp(now_nanos))),
{
    match received {
        None => DrainAction::Stop,
        Some(snapshot) => {
            let timestamp = timestamp_from_nanos(now_nanos);
            DrainAction::Write(daq_data_to_points(snapshot, timestamp))
        },
    }
}

/// Decides on the sink's answer to a batch: success or failure, the batch is done
/// with and the loop waits for the next snapshot.
pub fn on_written(written: Result<(), SinkError>) -> (r: DrainAction)
    ensures
        r is Receive,
{
    match written {
        Ok(()) => DrainAction::Receive,
        Err(_) => DrainAction::Receive,
    }
}

/// The snapshots of earlier fetches are forwarded before those of later ones, and
/// a successful fetch forwards exactly its snapshot.
pub proof fn lemma_forwarding_keeps_order(
    a: Seq<Result<ReadingSnapshot, FetchError>>,
    b: Seq<Result<ReadingSnapshot, FetchError>>,
)
    ensures
        spec_forwarded(a + b) == spec_forwarded(a) + spec_forwarded(b),
    decreases b.len(),
{
    if b.len() == 0 {
        assert(a + b =~= a);
        assert(spec_forwarded(a) + spec_forwarded(b) =~= spec_forwarded(a));
    } else {
        lemma_forwarding_keeps_order(a, b.drop_last());
        assert((a + b).drop_last() =~= a + b.drop_last());
        assert((a + b).last() == b.last());
        match spec_forward(b.last()) {
            Some(s) => {
                assert(spec_forwarded(a) + spec_forwarded(b.drop_last()).push(s) =~= (spec_forwarded(a)
                    + spec_forwarded(b.drop_last())).push(s));
            },
            None => {},
        }
    }
}

/// A successful fetch forwards its snapshot and a failed one forwards nothing.
pub proof fn lemma_forwarded_single(f: Result<ReadingSnapshot, FetchError>)
    ensures
        f matches Ok(s) ==> spec_forwarded(seq![f]) == seq![s],
        f is Err ==> spec_forwarded(seq![f]) == Seq::<ReadingSnapshot>::empty(),
{
    let e = Seq::<Result<ReadingSnapshot, FetchError>>::empty();
    assert(spec_forwarded(e) =~= Seq::<ReadingSnapshot>::empty());
    assert(seq![f].drop_last() =~= e);
    assert(seq![f].last() == f);
    if let Ok(s) = f {
        assert(Seq::<ReadingSnapshot>::empty().push(s) =~= seq![s]);
    }
}

/// The batches that the drain loop writes for snapshots taken off the queue in
/// order, snapshot `k` at clock reading `clock[k]`, where each encodes.
pub open spec fn spec_batches(received: Seq<ReadingSnapshot>, clock: Seq<u128>) -> Seq<Seq<PointView>> {
    Seq::new(received.len(), |k: int| spec_points(received[k].values@, spec_timestamp(clock[k])))
}

/// Through a first-in-first-out handoff, the batches of earlier fetches are written
/// before those of later ones: a run of fetches splits into the batches of its
/// first part followed by those of the rest.
pub proof fn lemma_batches_in_fetch_order(
    a: Seq<Result<ReadingSnapshot, FetchError>>,
    b: Seq<Result<ReadingSnapshot, FetchError>>,
    clock: Seq<u128>,
)
    requires
        clock.len() >= spec_forwarded(a + b).len(),
    ensures
        spec_batches(spec_forwarded(a + b), clock) == spec_batches(spec_forwarded(a), clock)
            + spec_batches(spec_forwarded(b), clock.skip(spec_forwarded(a).len() as int)),
{
    lemma_forwarding_keeps_order(a, b);
    let fa = spec_forwarded(a);
    let fb = spec_forwarded(b);
    assert(spec_batches(fa + fb, clock) =~= spec_batches(fa, clock) + spec_batches(
        fb,
        clock.skip(fa.len() as int),
    ));
}

/// While the clock advances and stays within `i64::MAX` nanoseconds, each batch
/// carries one timestamp, and later batches carry strictly later ones.
pub proof fn lemma_batch_timestamps_increase(received: Seq<ReadingSnapshot>, clock: Seq<u128>)
    requires
        clock.len() >= received.len(),
        forall|j: int, k: int| 0 <= j < k < clock.len() ==> clock[j] < clock[k],
        forall|k: int| 0 <= k < clock.len() ==> clock[k] <= i64::MAX as u128,
    ensures
        forall|k: int, m: int|
            0 <= k < received.len() && 0 <= m < spec_batches(received, clock)[k].len() ==> (
            #[trigger] spec_batches(received, clock)[k][m]).timestamp == spec_timestamp(clock[k]),
        forall|j: int, k: int|
            0 <= j < k < received.len() ==> spec_timestamp(clock[j]) < spec_timestamp(clock[k]),
{
    assert forall|k: int, m: int|
        0 <= k < received.len() && 0 <= m < spec_batches(received, clock)[k].len() implies (
        #[trigger] spec_batches(received, clock)[k][m]).timestamp == spec_timestamp(clock[k]) by {
        assert(spec_batches(received, clock)[k] == spec_points(received[k].values@, spec_timestamp(clock[k])));
    }
}

/// Fetch `i` starts after `i` full intervals whatever the earlier fetches returned;
/// so within a runtime, fetches start exactly ceil(runtime / interval) times.
pub proof fn lemma_fetch_attempts(
    p: Poller,
    fetched: Seq<Result<ReadingSnapshot, FetchError>>,
    runtime: nat,
    i: nat,
)
    requires
        p.interval_secs > 0,
        i <= fetched.len(),
    ensures
        spec_fetch_start(p, fetched, i) == i * p.interval_secs,
        spec_fetch_start(p, fetched, i) < runtime <==> i < (runtime + p.interval_secs - 1) / (
        p.interval_secs as int),
    decreases i,
{
    let d = p.interval_secs as int;
    if i > 0 {
        lemma_fetch_attempts(p, fetched, runtime, (i - 1) as nat);
        assert(spec_fetch_start(p, fetched, i) == spec_fetch_start(p, fetched, (i - 1) as nat) + d);
        assert(i * d == (i - 1) * d + d) by (nonlinear_arith);
    } else {
        assert(i * d == 0) by (nonlinear_arith)
            requires
                i == 0,
        ;
    }
    assert(spec_fetch_start(p, fetched, i) == i * d);
    let q = (runtime + d - 1) / d;
    assert(i * d < runtime <==> i < q) by (nonlinear_arith)
        requires
            d > 0,
            q == (runtime + d - 1) / d,
            runtime >= 0,
    {
        if i < q {
            assert(i + 1 <= q);
            assert((i + 1) * d <= q * d);
            assert(q * d <= runtime + d - 1);
        }
        if i * d < runtime {
            assert(i * d <= runtime - 1);
            assert(i * d + d <= runtime + d - 1);
            assert((i + 1) * d <= runtime + d - 1);
        }
    }
}

} // verus!
