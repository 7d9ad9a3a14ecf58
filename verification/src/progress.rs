//! Progress of a download: byte counting, the sliding speed window, and what is reported.

use dashmap::DashMap;
use std::time::Instant;
use vstd::prelude::*;

verus! {

/// Length of the speed window, in nanoseconds.
pub const WINDOW_NANOS: u128 = 10_000_000_000;

/// Shortest time, in nanoseconds, that a speed is computed over.
pub const MIN_SPEED_NANOS: u128 = 1_000_000;

/// `std::time::Instant`, of which nothing is looked into.
#[verifier::external_type_specification]
#[verifier::external_body]
pub struct ExInstant(Instant);

/// `dashmap::DashMap`, whose entries are named `progress_entries` where it holds task progress.
#[verifier::external_type_specification]
#[verifier::external_body]
#[verifier::reject_recursive_types(K)]
#[verifier::reject_recursive_types(V)]
#[verifier::reject_recursive_types(S)]
pub struct ExDashMap<K, V, S>(DashMap<K, V, S>);

/// Calls `Instant::now`. Nothing is claimed of the clock.
#[verifier::external_body]
fn clock_now() -> (now: Instant) {
    Instant::now()
}

/// Calls `Instant::elapsed` and gives the result in nanoseconds. Nothing is claimed of the clock.
#[verifier::external_body]
fn nanos_since(start: &Instant) -> (nanos: u128) {
    start.elapsed().as_nanos()
}

/// Whether `start` is a reading of the machine's clock: what a call of `Instant::now` gave.
pub closed spec fn is_reading(start: Instant) -> bool {
    call_ensures(clock_now, (), start)
}

/// Whether `nanos` nanoseconds have passed since `start` by the machine's clock: what a call of
/// `Instant::elapsed` on it gave.
pub closed spec fn has_passed(start: Instant, nanos: u128) -> bool {
    call_ensures(nanos_since, (&start,), nanos)
}

/// Reads the machine's clock.
fn read_start() -> (start: Instant)
    ensures
        is_reading(start),
{
    call_now(clock_now)
}

fn call_now<F: Fn() -> Instant>(clock: F) -> (now: Instant)
    requires
        call_requires(clock, ()),
    ensures
        call_ensures(clock, (), now),
{
    clock()
}

/// The nanoseconds that have passed since `start` by the machine's clock.
fn read_elapsed(start: &Instant) -> (nanos: u128)
    ensures
        has_passed(*start, nanos),
{
    call_elapsed(nanos_since, start)
}

fn call_elapsed<F: Fn(&Instant) -> u128>(elapsed: F, start: &Instant) -> (nanos: u128)
    requires
        call_requires(elapsed, (start,)),
    ensures
        call_ensures(elapsed, (start,), nanos),
{
    elapsed(start)
}

/// A share of a whole: `numerator` parts out of `denominator`.
#[derive(Debug, Clone, Copy, PartialEq, Eq, Structural)]
pub struct Fraction {
    pub numerator: u64,
    pub denominator: u64,
}

/// Progress update for downloads.
#[derive(Debug, Clone, Copy, PartialEq, Eq, Structural)]
pub struct DownloadProgressUpdate {
    /// Total file size in bytes.
    pub total_size: u64,
    /// Downloaded bytes so far.
    pub downloaded: u64,
    /// Share of the file that is downloaded, between nothing and all of it.
    pub progress: Fraction,
    /// Download speed in bytes per second.
    pub speed_bytes_per_sec: u64,
    /// Estimated time remaining in seconds.
    pub eta_seconds: Option<u64>,
}

/// What a speed is computed from: so many bytes in so many nanoseconds.
#[derive(Debug, Clone, Copy, PartialEq, Eq, Structural)]
pub struct SpeedBasis {
    pub bytes: u64,
    pub nanos: u128,
}

/// Progress tracker for download operations, with a sliding window for the speed.
pub struct DownloadProgressTracker {
    /// Total file size in bytes.
    total_size: u64,
    /// Downloaded bytes.
    downloaded_bytes: u64,
    /// Speed samples: nanoseconds since `started`, and the byte count at that time.
    samples: Vec<(u128, u64)>,
    /// When tracking started.
    started: Instant,
}

/// A tracker as its contracts see it.
pub struct TrackerView {
    pub total_size: u64,
    pub downloaded: u64,
    pub samples: Seq<(u128, u64)>,
}

impl View for DownloadProgressTracker {
    type V = TrackerView;

    closed spec fn view(&self) -> TrackerView {
        TrackerView {
            total_size: self.total_size,
            downloaded: self.downloaded_bytes,
            samples: self.samples@,
        }
    }
}

/// Addition of byte counts, which wraps around at the largest `u64`.
pub open spec fn counted(a: u64, b: u64) -> u64 {
    ((a + b) % 0x1_0000_0000_0000_0000) as u64
}

/// Whether a sample taken at `t` is not older than the window that ends at `now`.
pub open spec fn in_window(t: u128, now: u128) -> bool {
    t + WINDOW_NANOS >= now
}

/// The samples that are not older than the window that ends at `now`, in their order.
pub open spec fn windowed(samples: Seq<(u128, u64)>, now: u128) -> Seq<(u128, u64)>
    decreases samples.len(),
{
    if samples.len() == 0 {
        samples
    } else if in_window(samples.last().0, now) {
        windowed(samples.drop_last(), now).push(samples.last())
    } else {
        windowed(samples.drop_last(), now)
    }
}

/// The tracker after a sample was taken at `now`: the count joins the samples, and those that
/// have left the window go.
pub open spec fn sampled(t: TrackerView, now: u128) -> TrackerView {
    TrackerView { samples: windowed(t.samples.push((now, t.downloaded)), now), ..t }
}

/// What the speed at `now` is computed from: the bytes and the time since the oldest sample.
/// There is none for a lone sample, nor for less than a millisecond.
pub open spec fn speed_basis(t: TrackerView, now: u128) -> Option<SpeedBasis> {
    let (time, bytes) = t.samples.first();
    if t.samples.len() >= 2 && now - time >= MIN_SPEED_NANOS {
        Some(
            SpeedBasis {
                bytes: if t.downloaded >= bytes {
                    (t.downloaded - bytes) as u64
                } else {
                    0
                },
                nanos: (now - time) as u128,
            },
        )
    } else {
        None
    }
}

/// The share of `total` that `downloaded` is: at most all of it, and all of an empty file.
pub open spec fn share(downloaded: u64, total: u64) -> Fraction {
    if total == 0 {
        Fraction { numerator: 1, denominator: 1 }
    } else if downloaded <= total {
        Fraction { numerator: downloaded, denominator: total }
    } else {
        Fraction { numerator: total, denominator: total }
    }
}

/// The whole seconds that the rest of the file takes at `speed`; none when nothing is left or
/// nothing moves.
pub open spec fn eta(downloaded: u64, total: u64, speed: u64) -> Option<u64> {
    if speed > 0 && downloaded < total {
        Some(((total - downloaded) / speed as int) as u64)
    } else {
        None
    }
}

/// The update that a tracker reports at `speed`.
pub open spec fn update_at(t: TrackerView, speed: u64) -> DownloadProgressUpdate {
    DownloadProgressUpdate {
        total_size: t.total_size,
        downloaded: t.downloaded,
        progress: share(t.downloaded, t.total_size),
        speed_bytes_per_sec: speed,
        eta_seconds: eta(t.downloaded, t.total_size, speed),
    }
}

/// Whether `update` is what a tracker in state `before`, and then in state `after`, reports when
/// it is asked at `now` and a speed is what `rate` makes of its basis.
pub open spec fn reported<F: Fn(u64, u128) -> u64>(
    before: TrackerView,
    after: TrackerView,
    now: u128,
    rate: F,
    update: DownloadProgressUpdate,
) -> bool {
    &&& after == sampled(before, now)
    &&& update == update_at(after, update.speed_bytes_per_sec)
    &&& match speed_basis(after, now) {
        Some(basis) => call_ensures(
            rate,
            (basis.bytes, basis.nanos),
            update.speed_bytes_per_sec,
        ),
        None => update.speed_bytes_per_sec == 0,
    }
}

/// Whether `update` is what a tracker reports at the time that has passed since `start` by the
/// machine's clock.
pub open spec fn reported_once<F: Fn(u64, u128) -> u64>(
    start: Instant,
    before: TrackerView,
    after: TrackerView,
    rate: F,
    update: DownloadProgressUpdate,
) -> bool {
    exists|now: u128|
        has_passed(start, now) && #[trigger] reported(before, after, now, rate, update)
}

impl DownloadProgressTracker {
    /// When tracking started: the zero of the times of the samples.
    pub closed spec fn start(&self) -> Instant {
        self.started
    }

    /// A tracker for a file of `total_size` bytes, none of which has arrived.
    pub fn new(total_size: u64) -> (tracker: Self)
        ensures
            tracker@ == (TrackerView { total_size, downloaded: 0, samples: Seq::empty() }),
            is_reading(tracker.start()),
    {
        let tracker = DownloadProgressTracker {
            total_size,
            downloaded_bytes: 0,
            samples: Vec::new(),
            started: read_start(),
        };
        assert(tracker@.samples =~= Seq::empty());
        tracker
    }

    /// Adds downloaded bytes.
    pub fn add_bytes(&mut self, bytes: u64)
        ensures
            final(self)@ == (TrackerView {
                downloaded: counted(old(self)@.downloaded, bytes),
                ..old(self)@
            }),
            final(self).start() == old(self).start(),
    {
        self.downloaded_bytes = self.downloaded_bytes.wrapping_add(bytes);
    }

    /// The bytes downloaded so far.
    pub fn downloaded(&self) -> (bytes: u64)
        ensures
            bytes == self@.downloaded,
    {
        self.downloaded_bytes
    }

    /// Takes a sample at `now` (nanoseconds since tracking started) and says what the speed is
    /// to be computed from.
    pub fn take_sample(&mut self, now: u128) -> (basis: Option<SpeedBasis>)
        ensures
            final(self)@ == sampled(old(self)@, now),
            basis == speed_basis(final(self)@, now),
            final(self).start() == old(self).start(),
    {
        let ghost before = self@;
        self.samples.push((now, self.downloaded_bytes));
        let ghost pushed = self.samples@;
        let mut kept: Vec<(u128, u64)> = Vec::new();
        let mut i: usize = 0;
        while i < self.samples.len()
            invariant
                i <= self.samples.len(),
                self.samples@ == pushed,
                kept@ == windowed(pushed.take(i as int), now),
                self.total_size == before.total_size,
                self.downloaded_bytes == before.downloaded,
                self.started == old(self).started,
            decreases self.samples.len() - i,
        {
            let sample = self.samples[i];
            proof {
                assert(pushed.take(i + 1).drop_last() == pushed.take(i as int));
                assert(pushed.take(i + 1).last() == sample);
            }
            if sample.0 >= now || now - sample.0 <= WINDOW_NANOS {
                kept.push(sample);
            }
            i = i + 1;
        }
        assert(pushed.take(i as int) == pushed);
        self.samples = kept;
        if self.samples.len() >= 2 {
            let (time, bytes) = self.samples[0];
            if now >= time && now - time >= MIN_SPEED_NANOS {
                let moved: u64 = if self.downloaded_bytes >= bytes {
                    self.downloaded_bytes - bytes
                } else {
                    0
                };
                return Some(SpeedBasis { bytes: moved, nanos: now - time });
            }
        }
        None
    }

    /// The progress update at a given speed.
    pub fn update_for(&self, speed: u64) -> (update: DownloadProgressUpdate)
        ensures
            update == update_at(self@, speed),
    {
        let downloaded = self.downloaded_bytes;
        let total = self.total_size;
        let progress = if total == 0 {
            Fraction { numerator: 1, denominator: 1 }
        } else if downloaded <= total {
            Fraction { numerator: downloaded, denominator: total }
        } else {
            Fraction { numerator: total, denominator: total }
        };
        let eta_seconds = if speed > 0 && downloaded < total {
            Some((total - downloaded) / speed)
        } else {
            None
        };
        DownloadProgressUpdate {
            total_size: total,
            downloaded,
            progress,
            speed_bytes_per_sec: speed,
            eta_seconds,
        }
    }

    /// Calculates the speed at `now` and returns the progress update. `rate` gives the bytes per
    /// second of so many bytes in so many nanoseconds.
    pub fn create_update_at<F: Fn(u64, u128) -> u64>(&mut self, now: u128, rate: F) -> (update:
        DownloadProgressUpdate)
        requires
            forall|bytes: u64, nanos: u128|
                nanos >= MIN_SPEED_NANOS ==> call_requires(rate, (bytes, nanos)),
        ensures
            reported(old(self)@, final(self)@, now, rate, update),
            final(self).start() == old(self).start(),
    {
        let speed: u64 = match self.take_sample(now) {
            Some(basis) => rate(basis.bytes, basis.nanos),
            None => 0,
        };
        self.update_for(speed)
    }

    /// Calculates the current speed and returns the progress update.
    pub fn create_update<F: Fn(u64, u128) -> u64>(&mut self, rate: F) -> (update:
        DownloadProgressUpdate)
        requires
            forall|bytes: u64, nanos: u128|
                nanos >= MIN_SPEED_NANOS ==> call_requires(rate, (bytes, nanos)),
        ensures
            reported_once(old(self).start(), old(self)@, final(self)@, rate, update),
            final(self).start() == old(self).start(),
    {
        let now: u128 = read_elapsed(&self.started);
        self.create_update_at(now, rate)
    }
}

/// What the task queue shows of a running task.
#[derive(Debug, Clone, Copy, PartialEq, Eq, Structural)]
pub struct TaskProgress {
    /// Share of the work that is done.
    pub progress: Fraction,
    /// Bytes processed so far.
    pub processed_bytes: Option<i64>,
    /// Bytes to process in all.
    pub total_bytes: Option<i64>,
    /// Speed in bytes per second.
    pub speed_bytes_per_sec: u64,
    /// Estimated time remaining in seconds.
    pub eta_seconds: Option<u64>,
}

/// The `i64` with the bits of `n`: `n` itself where it fits, and `n` less 2^64 where it does not.
pub open spec fn signed(n: u64) -> i64 {
    if n < 0x8000_0000_0000_0000 {
        n as i64
    } else {
        (n - 0x1_0000_0000_0000_0000) as i64
    }
}

/// What a task shows once `update` was reported for it.
pub open spec fn shown(update: DownloadProgressUpdate) -> TaskProgress {
    TaskProgress {
        progress: update.progress,
        processed_bytes: Some(signed(update.downloaded)),
        total_bytes: Some(signed(update.total_size)),
        speed_bytes_per_sec: update.speed_bytes_per_sec,
        eta_seconds: update.eta_seconds,
    }
}

/// The progress entries with `update` put into that of `task`; a task without an entry gets none.
pub open spec fn entries_after(
    entries: Map<Seq<char>, TaskProgress>,
    task: Seq<char>,
    update: DownloadProgressUpdate,
) -> Map<Seq<char>, TaskProgress> {
    if entries.dom().contains(task) {
        entries.insert(task, shown(update))
    } else {
        entries
    }
}

fn to_signed(n: u64) -> (res: i64)
    ensures
        res == signed(n),
{
    assert(n < 0x8000_0000_0000_0000 ==> (n as i64) == n) by (bit_vector);
    assert(n >= 0x8000_0000_0000_0000 ==> (n as i64) == n - 0x1_0000_0000_0000_0000)
        by (bit_vector);
    #[verifier::truncate]
    let res: i64 = n as i64;
    res
}

impl TaskProgress {
    /// The progress with the figures of `update` in place of the old ones.
    pub fn with_update(self, update: &DownloadProgressUpdate) -> (res: Self)
        ensures
            res == shown(*update),
    {
        let mut res = self;
        res.progress = update.progress;
        res.processed_bytes = Some(to_signed(update.downloaded));
        res.total_bytes = Some(to_signed(update.total_size));
        res.speed_bytes_per_sec = update.speed_bytes_per_sec;
        res.eta_seconds = update.eta_seconds;
        res
    }
}

/// The entries of a progress map, by task.
pub uninterp spec fn progress_entries(map: DashMap<String, TaskProgress>) -> Map<
    Seq<char>,
    TaskProgress,
>;

/// Calls `DashMap::alter`, which replaces the value of `task`, where it has one, by what
/// `TaskProgress::with_update` makes of it, and leaves every other entry as it was. The map is
/// held exclusively, so no other thread changes it meanwhile.
#[verifier::external_body]
fn alter_entry(
    map: &mut DashMap<String, TaskProgress>,
    task: &String,
    update: &DownloadProgressUpdate,
)
    ensures
        progress_entries(*final(map)) == entries_after(
            progress_entries(*old(map)),
            task@,
            *update,
        ),
{
    map.alter(task, |_, progress| progress.with_update(update));
}

/// In-memory progress reporter for download tasks.
pub struct InMemoryDownloadProgressReporter {
    task_id: String,
}

impl InMemoryDownloadProgressReporter {
    /// The task that is reported on.
    pub closed spec fn task(&self) -> Seq<char> {
        self.task_id@
    }

    /// A reporter for one task.
    pub fn new(task_id: String) -> (reporter: Self)
        ensures
            reporter.task() == task_id@,
    {
        InMemoryDownloadProgressReporter { task_id }
    }

    /// Updates the task's entry from a download progress update.
    pub fn on_progress(
        &self,
        progress_map: &mut DashMap<String, TaskProgress>,
        update: &DownloadProgressUpdate,
    )
        ensures
            progress_entries(*final(progress_map)) == entries_after(
                progress_entries(*old(progress_map)),
                self.task(),
                *update,
            ),
    {
        alter_entry(progress_map, &self.task_id, update);
    }
}

/// A tracker that was fed chunks of the given sizes, in order.
pub open spec fn fed(t: TrackerView, sizes: Seq<u64>) -> TrackerView
    decreases sizes.len(),
{
    if sizes.len() == 0 {
        t
    } else {
        let before = fed(t, sizes.drop_last());
        TrackerView { downloaded: counted(before.downloaded, sizes.last()), ..before }
    }
}

/// The sum of chunk sizes.
pub open spec fn total(sizes: Seq<u64>) -> nat
    decreases sizes.len(),
{
    if sizes.len() == 0 {
        0
    } else {
        total(sizes.drop_last()) + sizes.last() as nat
    }
}

/// However many chunks are added, the byte count is their sum on top of what it was, modulo
/// 2^64; nothing else of the tracker changes.
pub proof fn law_bytes_add_up(t: TrackerView, sizes: Seq<u64>)
    ensures
        fed(t, sizes).downloaded == (t.downloaded + total(sizes)) % 0x1_0000_0000_0000_0000,
        fed(t, sizes).total_size == t.total_size,
        fed(t, sizes).samples == t.samples,
    decreases sizes.len(),
{
    if sizes.len() > 0 {
        law_bytes_add_up(t, sizes.drop_last());
    }
}

/// A sample just taken is kept and is the newest; every sample kept lies within the window and
/// was there before; and sampling changes neither the byte count nor the size.
pub proof fn law_window_slides(t: TrackerView, now: u128)
    ensures
        sampled(t, now).samples.len() >= 1,
        sampled(t, now).samples.last() == (now, t.downloaded),
        forall|i: int|
            0 <= i < sampled(t, now).samples.len() ==> in_window(
                #[trigger] sampled(t, now).samples[i].0,
                now,
            ),
        forall|i: int|
            0 <= i < sampled(t, now).samples.len() ==> t.samples.push(
                (now, t.downloaded),
            ).contains(#[trigger] sampled(t, now).samples[i]),
        forall|s: (u128, u64)|
            t.samples.contains(s) && in_window(s.0, now) ==> #[trigger] sampled(
                t,
                now,
            ).samples.contains(s),
        sampled(t, now).downloaded == t.downloaded,
        sampled(t, now).total_size == t.total_size,
{
    let pushed = t.samples.push((now, t.downloaded));
    assert(pushed.drop_last() == t.samples);
    lemma_windowed(pushed, now);
    assert forall|s: (u128, u64)|
        t.samples.contains(s) && in_window(s.0, now) implies #[trigger] sampled(
        t,
        now,
    ).samples.contains(s) by {
        let i = choose|i: int| 0 <= i < t.samples.len() && t.samples[i] == s;
        assert(pushed[i] == s);
        assert(pushed.contains(s));
    }
}

proof fn lemma_windowed(samples: Seq<(u128, u64)>, now: u128)
    ensures
        forall|i: int|
            0 <= i < windowed(samples, now).len() ==> samples.contains(
                #[trigger] windowed(samples, now)[i],
            ) && in_window(windowed(samples, now)[i].0, now),
        forall|s: (u128, u64)|
            samples.contains(s) && in_window(s.0, now) ==> #[trigger] windowed(
                samples,
                now,
            ).contains(s),
    decreases samples.len(),
{
    if samples.len() > 0 {
        let rest = samples.drop_last();
        lemma_windowed(rest, now);
        let kept = windowed(samples, now);
        let kept_rest = windowed(rest, now);
        assert forall|i: int| 0 <= i < kept.len() implies samples.contains(
            #[trigger] kept[i],
        ) && in_window(kept[i].0, now) by {
            if i < kept_rest.len() {
                assert(kept[i] == kept_rest[i]);
                let j = choose|j: int| 0 <= j < rest.len() && rest[j] == kept_rest[i];
                assert(samples[j] == kept[i]);
            } else {
                assert(samples[samples.len() - 1] == kept[i]);
            }
        }
        assert forall|s: (u128, u64)|
            samples.contains(s) && in_window(s.0, now) implies #[trigger] kept.contains(s) by {
            let j = choose|j: int| 0 <= j < samples.len() && samples[j] == s;
            if j < rest.len() {
                assert(rest[j] == s);
                assert(kept_rest.contains(s));
                let i = choose|i: int| 0 <= i < kept_rest.len() && kept_rest[i] == s;
                assert(kept[i] == s);
            } else {
                assert(kept[kept.len() - 1] == s);
            }
        }
    }
}

/// A tracker after the given history: at each of the times the byte count stood as given, and a
/// sample was taken.
pub open spec fn after_history(t: TrackerView, history: Seq<(u128, u64)>) -> TrackerView
    decreases history.len(),
{
    if history.len() == 0 {
        t
    } else {
        let before = after_history(t, history.drop_last());
        let (now, downloaded) = history.last();
        sampled(TrackerView { downloaded, ..before }, now)
    }
}

/// Whether the times of a history never go back.
pub open spec fn in_order(history: Seq<(u128, u64)>) -> bool {
    forall|i: int, j: int|
        0 <= i <= j < history.len() ==> (#[trigger] history[i]).0 <= (#[trigger] history[j]).0
}

/// Whether `oldest` is the first sample of a history that lies in the window that ends at `now`.
pub open spec fn is_oldest(history: Seq<(u128, u64)>, now: u128, oldest: int) -> bool {
    &&& 0 <= oldest < history.len()
    &&& in_window(history[oldest].0, now)
    &&& forall|i: int| 0 <= i < oldest ==> !in_window((#[trigger] history[i]).0, now)
}

/// The whole bytes per second of so many bytes in so many nanoseconds, or the largest `u64`.
pub open spec fn mean_speed(bytes: u64, nanos: u128) -> u64 {
    let speed = bytes * 1_000_000_000 / nanos as int;
    if speed <= u64::MAX {
        speed as u64
    } else {
        u64::MAX
    }
}

/// The bytes that arrived between two byte counts; none where the count has wrapped around.
pub open spec fn arrived_since(before: u64, after: u64) -> u64 {
    if before <= after {
        (after - before) as u64
    } else {
        0
    }
}

/// Whether a rate is exact: it rounds down, and to nothing else.
pub open spec fn is_exact<F: Fn(u64, u128) -> u64>(rate: F) -> bool {
    forall|bytes: u64, nanos: u128, speed: u64|
        nanos >= MIN_SPEED_NANOS && #[trigger] call_ensures(rate, (bytes, nanos), speed) ==> speed
            == mean_speed(bytes, nanos)
}

/// However often a new tracker was asked before, an update reports the mean speed since the oldest
/// sample of the last ten seconds, as `rate` computes it: not that since the start, nor that since
/// the last update. It reports none where that sample is less than a millisecond old.
pub proof fn law_speed_is_mean_over_window<F: Fn(u64, u128) -> u64>(
    new: TrackerView,
    history: Seq<(u128, u64)>,
    oldest: int,
    now: u128,
    downloaded: u64,
    after: TrackerView,
    rate: F,
    update: DownloadProgressUpdate,
)
    requires
        new.samples.len() == 0,
        in_order(history.push((now, downloaded))),
        is_oldest(history, now, oldest),
        reported(
            TrackerView { downloaded, ..after_history(new, history) },
            after,
            now,
            rate,
            update,
        ),
    ensures
        update.downloaded == downloaded,
        update.total_size == new.total_size,
        now - history[oldest].0 < MIN_SPEED_NANOS ==> update.speed_bytes_per_sec == 0,
        now - history[oldest].0 >= MIN_SPEED_NANOS ==> call_ensures(
            rate,
            (arrived_since(history[oldest].1, downloaded), (now - history[oldest].0) as u128),
            update.speed_bytes_per_sec,
        ),
        now - history[oldest].0 >= MIN_SPEED_NANOS && is_exact(rate) ==> update.speed_bytes_per_sec
            == mean_speed(
            arrived_since(history[oldest].1, downloaded),
            (now - history[oldest].0) as u128,
        ),
{
    let all = history.push((now, downloaded));
    lemma_history(new, history, now, downloaded);
    assert(all[history.len() as int] == (now, downloaded));
    assert(all[oldest] == history[oldest]);
    assert forall|i: int| 0 <= i < oldest implies !in_window((#[trigger] all[i]).0, now) by {
        assert(all[i] == history[i]);
    }
    lemma_window_is_suffix(all, now, oldest);
    assert(after.samples == all.skip(oldest));
    assert(after.samples.first() == history[oldest]);
}

/// An update reports no speed where no sample was taken within the last ten seconds.
pub proof fn law_no_speed_without_sample<F: Fn(u64, u128) -> u64>(
    new: TrackerView,
    history: Seq<(u128, u64)>,
    now: u128,
    downloaded: u64,
    after: TrackerView,
    rate: F,
    update: DownloadProgressUpdate,
)
    requires
        new.samples.len() == 0,
        in_order(history.push((now, downloaded))),
        forall|i: int| 0 <= i < history.len() ==> !in_window((#[trigger] history[i]).0, now),
        reported(
            TrackerView { downloaded, ..after_history(new, history) },
            after,
            now,
            rate,
            update,
        ),
    ensures
        update.speed_bytes_per_sec == 0,
        update.eta_seconds is None,
{
    let all = history.push((now, downloaded));
    lemma_history(new, history, now, downloaded);
    assert forall|i: int| 0 <= i < history.len() implies !in_window((#[trigger] all[i]).0, now) by {
        assert(all[i] == history[i]);
    }
    lemma_window_is_suffix(all, now, history.len() as int);
    assert(after.samples.len() == 1);
}

/// The samples of a new tracker after a history, and a sample more, are those of the whole history
/// that lie in the last window.
proof fn lemma_history(
    new: TrackerView,
    history: Seq<(u128, u64)>,
    now: u128,
    downloaded: u64,
)
    requires
        new.samples.len() == 0,
        in_order(history.push((now, downloaded))),
    ensures
        sampled(TrackerView { downloaded, ..after_history(new, history) }, now) == (TrackerView {
            total_size: new.total_size,
            downloaded,
            samples: windowed(history.push((now, downloaded)), now),
        }),
    decreases history.len(),
{
    let all = history.push((now, downloaded));
    assert(all.drop_last() =~= history);
    if history.len() == 0 {
        assert(new.samples =~= history);
    } else {
        let (time, bytes) = history.last();
        let rest = history.drop_last();
        assert(rest.push((time, bytes)) =~= history);
        assert(all[history.len() - 1] == history.last());
        assert(all[history.len() as int] == (now, downloaded));
        assert forall|i: int, j: int| 0 <= i <= j < history.len() implies (
        #[trigger] history[i]).0 <= (#[trigger] history[j]).0 by {
            assert(all[i] == history[i] && all[j] == history[j]);
        }
        lemma_history(new, rest, time, bytes);
        let before = after_history(new, history);
        assert(before.samples == windowed(history, time));
        lemma_windows_nest(history, time, now);
        assert(before.samples.push((now, downloaded)).drop_last() =~= before.samples);
    }
}

/// What a later window keeps of what an earlier one kept is what it keeps of everything.
proof fn lemma_windows_nest(samples: Seq<(u128, u64)>, earlier: u128, now: u128)
    requires
        earlier <= now,
    ensures
        windowed(windowed(samples, earlier), now) == windowed(samples, now),
    decreases samples.len(),
{
    if samples.len() > 0 {
        lemma_windows_nest(samples.drop_last(), earlier, now);
        let kept = windowed(samples.drop_last(), earlier);
        assert(kept.push(samples.last()).drop_last() =~= kept);
    }
}

/// A window keeps of samples in order what comes from the first on that it keeps.
proof fn lemma_window_is_suffix(samples: Seq<(u128, u64)>, now: u128, from: int)
    requires
        in_order(samples),
        0 <= from < samples.len(),
        in_window(samples[from].0, now),
        forall|i: int| 0 <= i < from ==> !in_window((#[trigger] samples[i]).0, now),
    ensures
        windowed(samples, now) == samples.skip(from),
    decreases samples.len(),
{
    let rest = samples.drop_last();
    assert(in_window(samples.last().0, now)) by {
        assert(samples[from].0 <= samples[samples.len() - 1].0);
    }
    if from == samples.len() - 1 {
        lemma_window_of_old(rest, now);
        assert(windowed(samples, now) =~= samples.skip(from));
    } else {
        assert forall|i: int| 0 <= i < from implies !in_window((#[trigger] rest[i]).0, now) by {
            assert(rest[i] == samples[i]);
        }
        assert forall|i: int, j: int| 0 <= i <= j < rest.len() implies (#[trigger] rest[i]).0 <= (
        #[trigger] rest[j]).0 by {
            assert(rest[i] == samples[i] && rest[j] == samples[j]);
        }
        assert(rest[from] == samples[from]);
        lemma_window_is_suffix(rest, now, from);
        assert(rest.skip(from).push(samples.last()) =~= samples.skip(from));
    }
}

/// A window keeps nothing of samples that are all too old.
proof fn lemma_window_of_old(samples: Seq<(u128, u64)>, now: u128)
    requires
        forall|i: int| 0 <= i < samples.len() ==> !in_window((#[trigger] samples[i]).0, now),
    ensures
        windowed(samples, now).len() == 0,
    decreases samples.len(),
{
    if samples.len() > 0 {
        let rest = samples.drop_last();
        assert(!in_window(samples[samples.len() - 1].0, now));
        assert forall|i: int| 0 <= i < rest.len() implies !in_window(
            (#[trigger] rest[i]).0,
            now,
        ) by {
            assert(rest[i] == samples[i]);
        }
        lemma_window_of_old(rest, now);
    }
}

/// The reported share never exceeds the whole, grows with the byte count, and is the whole
/// exactly when every byte has arrived.
pub proof fn law_share_bounded(less: u64, more: u64, total: u64)
    requires
        less <= more,
    ensures
        0 < share(less, total).denominator,
        share(less, total).numerator <= share(less, total).denominator,
        share(less, total).denominator == share(more, total).denominator,
        share(less, total).numerator <= share(more, total).numerator,
        share(less, total).numerator == share(less, total).denominator <==> less >= total,
{
}

/// The estimate is the number of whole seconds in which the rest arrives: at the given speed
/// that many seconds bring no more than is left, and one more second brings more.
pub proof fn law_eta_covers_rest(downloaded: u64, total: u64, speed: u64)
    ensures
        eta(downloaded, total, speed) is Some <==> speed > 0 && downloaded < total,
        eta(downloaded, total, speed) matches Some(seconds) ==> {
            &&& seconds * speed <= total - downloaded
            &&& total - downloaded < (seconds + 1) * speed
        },
{
    if speed > 0 && downloaded < total {
        let rest = total - downloaded;
        let s = speed as int;
        assert(0 <= rest / s <= rest && (rest / s) * s <= rest && rest < (rest / s + 1) * s)
            by (nonlinear_arith)
            requires
                rest >= 0,
                s > 0,
        ;
    }
}

/// A report touches the entry of its own task alone, adds no entry, and says again what it said
/// before when it is repeated.
pub proof fn law_report_is_local(
    entries: Map<Seq<char>, TaskProgress>,
    task: Seq<char>,
    update: DownloadProgressUpdate,
)
    ensures
        entries_after(entries, task, update).dom() == entries.dom(),
        forall|other: Seq<char>|
            other != task && entries.dom().contains(other) ==> #[trigger] entries_after(
                entries,
                task,
                update,
            )[other] == entries[other],
        entries.dom().contains(task) ==> entries_after(entries, task, update)[task] == shown(
            update,
        ),
        entries_after(entries_after(entries, task, update), task, update) == entries_after(
            entries,
            task,
            update,
        ),
{
    assert(entries_after(entries, task, update).dom() =~= entries.dom());
    assert(entries_after(entries_after(entries, task, update), task, update) =~= entries_after(
        entries,
        task,
        update,
    ));
}

/// The window is ten seconds long, and a speed is computed over a millisecond or more.
pub proof fn law_window_is_ten_seconds(t: u128, now: u128)
    ensures
        in_window(t, now) <==> now - t <= 10 * 1_000_000_000,
        MIN_SPEED_NANOS == 1_000_000,
{
}

/// The bytes that arrived between two counts and the earlier count add up to the later one, unless
/// the count has wrapped around.
pub proof fn law_arrived_bytes(before: u64, after: u64)
    ensures
        before <= after ==> before + arrived_since(before, after) == after,
        before > after ==> arrived_since(before, after) == 0,
{
}

/// What is exact is the quotient rounded down: so many whole bytes arrive in each second, and not
/// one more.
pub proof fn law_mean_speed_is_quotient(bytes: u64, nanos: u128)
    requires
        nanos >= MIN_SPEED_NANOS,
        mean_speed(bytes, nanos) < u64::MAX,
    ensures
        mean_speed(bytes, nanos) * nanos <= bytes * 1_000_000_000,
        bytes * 1_000_000_000 < (mean_speed(bytes, nanos) + 1) * nanos,
{
    let all = bytes * 1_000_000_000;
    let n = nanos as int;
    assert(0 <= all / n && (all / n) * n <= all && all < (all / n + 1) * n) by (nonlinear_arith)
        requires
            all >= 0,
            n > 0,
    ;
}

/// The reported share is the byte count over the size, until every byte has arrived; then, and of
/// an empty file, it is the whole.
pub proof fn law_share_is_exact(downloaded: u64, total: u64)
    ensures
        0 < downloaded <= total ==> share(downloaded, total).numerator * total == downloaded
            * share(downloaded, total).denominator,
        downloaded == 0 && total > 0 ==> share(downloaded, total).numerator == 0,
        downloaded >= total ==> share(downloaded, total).numerator == share(
            downloaded,
            total,
        ).denominator,
        share(downloaded, total).denominator > 0,
{
}

/// An update reports the figures of the tracker that it is asked of: its size, its byte count and
/// their share, the speed, and the time that the rest takes at that speed.
pub proof fn law_update_reports_tracker(t: TrackerView, speed: u64)
    ensures
        update_at(t, speed).total_size == t.total_size,
        update_at(t, speed).downloaded == t.downloaded,
        update_at(t, speed).speed_bytes_per_sec == speed,
        0 < t.downloaded <= t.total_size ==> update_at(t, speed).progress.numerator * t.total_size
            == t.downloaded * update_at(t, speed).progress.denominator,
        update_at(t, speed).eta_seconds is Some <==> speed > 0 && t.downloaded < t.total_size,
        update_at(t, speed).eta_seconds matches Some(seconds) ==> {
            &&& seconds * speed <= t.total_size - t.downloaded
            &&& t.total_size - t.downloaded < (seconds + 1) * speed
        },
{
    law_share_is_exact(t.downloaded, t.total_size);
    law_eta_covers_rest(t.downloaded, t.total_size, speed);
}

/// The speed of the second of two updates of a new tracker is that of the bytes that arrived
/// between them, over the time that passed between them by the machine's clock.
pub proof fn law_speed_between_two_updates<F: Fn(u64, u128) -> u64>(
    start: Instant,
    new: TrackerView,
    first: TrackerView,
    first_update: DownloadProgressUpdate,
    downloaded: u64,
    second: TrackerView,
    second_update: DownloadProgressUpdate,
    rate: F,
)
    requires
        new.samples.len() == 0,
        reported_once(start, new, first, rate, first_update),
        reported_once(start, TrackerView { downloaded, ..first }, second, rate, second_update),
    ensures
        second_update.downloaded == downloaded,
        second_update.total_size == new.total_size,
        exists|earlier: u128, now: u128| #[trigger]
            has_passed(start, earlier) && #[trigger] has_passed(start, now) && (earlier <= now
                ==> if 1_000_000 <= now - earlier <= 10_000_000_000 {
                call_ensures(
                    rate,
                    (arrived_since(new.downloaded, downloaded), (now - earlier) as u128),
                    second_update.speed_bytes_per_sec,
                )
            } else {
                second_update.speed_bytes_per_sec == 0
            }),
{
    let earlier = choose|now: u128|
        has_passed(start, now) && #[trigger] reported(new, first, now, rate, first_update);
    let between = TrackerView { downloaded, ..first };
    let now = choose|now: u128|
        has_passed(start, now) && #[trigger] reported(between, second, now, rate, second_update);
    let history = seq![(earlier, new.downloaded)];
    assert(history.drop_last() =~= Seq::empty());
    assert(after_history(new, Seq::empty()) == new);
    assert(after_history(new, history) == sampled(new, earlier));
    assert(TrackerView { downloaded, ..after_history(new, history) } == between);
    if earlier <= now {
        let all = history.push((now, downloaded));
        assert forall|i: int, j: int| 0 <= i <= j < all.len() implies (#[trigger] all[i]).0 <= (
        #[trigger] all[j]).0 by {}
        if in_window(earlier, now) {
            law_speed_is_mean_over_window(
                new,
                history,
                0,
                now,
                downloaded,
                second,
                rate,
                second_update,
            );
        } else {
            law_no_speed_without_sample(new, history, now, downloaded, second, rate, second_update);
        }
    }
    assert(has_passed(start, earlier) && has_passed(start, now));
}

/// A count is shown by its bits: as it is where it fits, and otherwise less 2^64.
pub proof fn law_counts_are_shown_by_bits(n: u64)
    ensures
        (n - signed(n)) % 0x1_0000_0000_0000_0000 == 0,
        n <= i64::MAX ==> signed(n) == n,
{
}

/// What is shown of a task after a report is what was reported: the share, the two counts, the
/// speed and the estimate.
pub proof fn law_report_shows_update(
    entries: Map<Seq<char>, TaskProgress>,
    task: Seq<char>,
    update: DownloadProgressUpdate,
)
    requires
        entries.dom().contains(task),
        update.downloaded <= i64::MAX,
        update.total_size <= i64::MAX,
    ensures
        entries_after(entries, task, update)[task].progress == update.progress,
        entries_after(entries, task, update)[task].processed_bytes matches Some(n) && n
            == update.downloaded,
        entries_after(entries, task, update)[task].total_bytes matches Some(n) && n
            == update.total_size,
        entries_after(entries, task, update)[task].speed_bytes_per_sec
            == update.speed_bytes_per_sec,
        entries_after(entries, task, update)[task].eta_seconds == update.eta_seconds,
{
}


/// The start is what a call of `Instant::now` gave, and the time that has passed since is what a
/// call of `Instant::elapsed` on it gave, as they gave it.
proof fn law_times_are_what_the_clock_gave(start: Instant, nanos: u128)
    ensures
        is_reading(start) <==> call_ensures(clock_now, (), start),
        has_passed(start, nanos) <==> call_ensures(nanos_since, (&start,), nanos),
{
}


} // verus!
