//! The play log: which track was recorded for which device, and when.
//!
//! The log is append-only and records no play twice. A play is recorded
//! unless the same track was recorded for the same device within the
//! suppression window before it. This log lives in memory; a durable one
//! keeps the same rules.

use vstd::prelude::*;

verus! {

/// Seconds within which a repeat of a track is no new play, unless the log
/// is made with another window.
pub const SUPPRESSION_WINDOW_SECS: u32 = 3600;

/// One recorded play.
#[derive(Debug, Clone, PartialEq, Eq)]
pub struct PlayRecord {
    pub device_name: String,
    pub track_info: String,
    /// Seconds since the epoch.
    pub played_at: i64,
}

/// A [`PlayRecord`] as a mathematical value.
pub struct PlayView {
    pub device_name: Seq<char>,
    pub track_info: Seq<char>,
    pub played_at: int,
}

impl View for PlayRecord {
    type V = PlayView;

    open spec fn view(&self) -> PlayView {
        PlayView {
            device_name: self.device_name@,
            track_info: self.track_info@,
            played_at: self.played_at as int,
        }
    }
}

/// Why a play could not be logged.
#[derive(Debug, Clone, PartialEq, Eq)]
pub enum StoreError {
    /// The same track is already recorded for the device at that second.
    Duplicate,
    /// The store behind the log failed; its message.
    Backend(String),
}

/// A play log.
#[derive(Debug)]
pub struct TrackDatabase {
    records: Vec<PlayRecord>,
    window: u32,
}

/// A [`TrackDatabase`] as a mathematical value.
pub struct LogView {
    /// The recorded plays, in the order in which they were recorded.
    pub records: Seq<PlayView>,
    /// The suppression window, in seconds.
    pub window: nat,
}

/// The views of a list of records, in the same order.
pub open spec fn play_views(records: Seq<PlayRecord>) -> Seq<PlayView> {
    Seq::new(records.len(), |i: int| records[i]@)
}

/// Whether `track` is recorded for `device` at some time after `since`.
pub open spec fn played_since(
    records: Seq<PlayView>,
    device: Seq<char>,
    track: Seq<char>,
    since: int,
) -> bool {
    exists|i: int|
        0 <= i < records.len() && (#[trigger] records[i]).device_name == device
            && records[i].track_info == track && records[i].played_at > since
}

/// Whether `track` at `now` on `device` is a repeat within the window.
pub open spec fn suppressed(log: LogView, device: Seq<char>, track: Seq<char>, now: int) -> bool {
    played_since(log.records, device, track, now - log.window)
}

/// No play is recorded twice.
pub open spec fn distinct_plays(records: Seq<PlayView>) -> bool {
    forall|i: int, j: int|
        0 <= i < j < records.len() ==> #[trigger] records[i] != #[trigger] records[j]
}

/// What logging `track` at `now` on `device` answers: `Ok(true)` for a new
/// play, `Ok(false)` for a repeat within the window.
pub open spec fn log_answer(log: LogView, device: Seq<char>, track: Seq<char>, now: int) -> Result<
    bool,
    StoreError,
> {
    if suppressed(log, device, track, now) {
        Ok(false)
    } else if log.records.contains(
        PlayView { device_name: device, track_info: track, played_at: now },
    ) {
        Err(StoreError::Duplicate)
    } else {
        Ok(true)
    }
}

/// The log after `track` at `now` on `device` was logged: one record longer
/// for a new play, and as before otherwise.
pub open spec fn logged(log: LogView, device: Seq<char>, track: Seq<char>, now: int) -> LogView {
    if log_answer(log, device, track, now) == Ok::<bool, StoreError>(true) {
        LogView {
            records: log.records.push(
                PlayView { device_name: device, track_info: track, played_at: now },
            ),
            ..log
        }
    } else {
        log
    }
}

/// Whether the record at `at` is the last play on `device`: none on the
/// device is later, and of those at the same second none was recorded after
/// it.
pub open spec fn is_last_play(records: Seq<PlayView>, device: Seq<char>, at: int) -> bool {
    &&& 0 <= at < records.len()
    &&& records[at].device_name == device
    &&& forall|j: int|
        0 <= j < records.len() && (#[trigger] records[j]).device_name == device ==> {
            ||| records[j].played_at < records[at].played_at
            ||| records[j].played_at == records[at].played_at && j <= at
        }
}

/// The track that was last played on `device`, if any was.
pub open spec fn last_track(records: Seq<PlayView>, device: Seq<char>) -> Option<Seq<char>> {
    if exists|at: int| is_last_play(records, device, at) {
        Some(records[choose|at: int| is_last_play(records, device, at)].track_info)
    } else {
        None
    }
}

/// There is at most one last play on a device.
pub proof fn lemma_last_play_unique(records: Seq<PlayView>, device: Seq<char>, a: int, b: int)
    requires
        is_last_play(records, device, a),
        is_last_play(records, device, b),
    ensures
        a == b,
{
    assert(records[a].device_name == device);
    assert(records[b].device_name == device);
}

/// A device has a last play exactly if it has a play.
pub proof fn lemma_last_track_some(records: Seq<PlayView>, device: Seq<char>)
    ensures
        last_track(records, device) is Some <==> exists|i: int|
            0 <= i < records.len() && (#[trigger] records[i]).device_name == device,
    decreases records.len(),
{
    if exists|i: int| 0 <= i < records.len() && (#[trigger] records[i]).device_name == device {
        let at = lemma_find_last_play(records, device, records.len() as int);
        assert(records.take(records.len() as int) == records);
        assert(is_last_play(records, device, at));
    } else {
        if exists|at: int| is_last_play(records, device, at) {
            let at = choose|at: int| is_last_play(records, device, at);
            assert(records[at].device_name == device);
        }
    }
}

/// Among the first `upto` records, if any is on `device`, one is the last
/// play among them.
proof fn lemma_find_last_play(records: Seq<PlayView>, device: Seq<char>, upto: int) -> (at: int)
    requires
        0 <= upto <= records.len(),
        exists|i: int| 0 <= i < upto && (#[trigger] records[i]).device_name == device,
    ensures
        is_last_play(records.take(upto), device, at),
    decreases upto,
{
    let shorter = records.take(upto - 1);
    let all = records.take(upto);
    assert(forall|j: int| 0 <= j < upto - 1 ==> shorter[j] == all[j]);
    if exists|i: int| 0 <= i < upto - 1 && (#[trigger] records[i]).device_name == device {
        let best = lemma_find_last_play(records, device, upto - 1);
        if all[upto - 1].device_name == device && all[upto - 1].played_at >= shorter[best].played_at {
            assert forall|j: int|
                0 <= j < all.len() && (#[trigger] all[j]).device_name == device implies {
                ||| all[j].played_at < all[upto - 1].played_at
                ||| all[j].played_at == all[upto - 1].played_at && j <= upto - 1
            } by {
                if j < upto - 1 {
                    assert(shorter[j].device_name == device);
                }
            }
            upto - 1
        } else {
            assert forall|j: int|
                0 <= j < all.len() && (#[trigger] all[j]).device_name == device implies {
                ||| all[j].played_at < all[best].played_at
                ||| all[j].played_at == all[best].played_at && j <= best
            } by {
                if j < upto - 1 {
                    assert(shorter[j].device_name == device);
                }
            }
            best
        }
    } else {
        let i = choose|i: int| 0 <= i < upto && (#[trigger] records[i]).device_name == device;
        assert(i == upto - 1);
        assert forall|j: int|
            0 <= j < all.len() && (#[trigger] all[j]).device_name == device implies {
            ||| all[j].played_at < all[upto - 1].played_at
            ||| all[j].played_at == all[upto - 1].played_at && j <= upto - 1
        } by {
            if j < upto - 1 {
                assert(records[j].device_name == device);
            }
        }
        upto - 1
    }
}

/// Logging never records a play twice, and never loses one.
pub proof fn lemma_log_keeps_plays_distinct(
    log: LogView,
    device: Seq<char>,
    track: Seq<char>,
    now: int,
)
    requires
        distinct_plays(log.records),
    ensures
        distinct_plays(logged(log, device, track, now).records),
        logged(log, device, track, now).window == log.window,
        log.records.is_prefix_of(logged(log, device, track, now).records),
{
    let after = logged(log, device, track, now).records;
    if log_answer(log, device, track, now) == Ok::<bool, StoreError>(true) {
        assert forall|i: int, j: int| 0 <= i < j < after.len() implies #[trigger] after[i]
            != #[trigger] after[j] by {
            if j == log.records.len() {
                assert(after[i] == log.records[i]);
                assert(log.records.contains(log.records[i]));
            } else {
                assert(after[i] == log.records[i]);
                assert(after[j] == log.records[j]);
            }
        }
    }
}

/// With a window of at least one second, logging never fails: a play that
/// is already recorded at that second is a repeat within the window.
pub proof fn lemma_no_duplicate_within_window(
    log: LogView,
    device: Seq<char>,
    track: Seq<char>,
    now: int,
)
    requires
        log.window > 0,
    ensures
        log_answer(log, device, track, now) is Ok,
{
    let play = PlayView { device_name: device, track_info: track, played_at: now };
    if log.records.contains(play) {
        let i = choose|i: int| 0 <= i < log.records.len() && log.records[i] == play;
        assert(log.records[i].device_name == device);
    }
}

/// A track that was logged as a new play on a device is a repeat while the
/// window lasts: logged again before the window is over, it is suppressed
/// and the log stays as it is.
pub proof fn lemma_repeat_within_window(
    log: LogView,
    device: Seq<char>,
    track: Seq<char>,
    first: int,
    again: int,
)
    requires
        log_answer(log, device, track, first) == Ok::<bool, StoreError>(true),
        again - log.window < first,
    ensures
        log_answer(logged(log, device, track, first), device, track, again) == Ok::<
            bool,
            StoreError,
        >(false),
        logged(logged(log, device, track, first), device, track, again) == logged(
            log,
            device,
            track,
            first,
        ),
{
    let after = logged(log, device, track, first);
    let at = log.records.len() as int;
    assert(after.records[at].device_name == device);
}

/// A track that was logged as a new play on a device is a new play again
/// once the window is over: logged again then, it is recorded again.
pub proof fn lemma_repeat_after_window(
    log: LogView,
    device: Seq<char>,
    track: Seq<char>,
    first: int,
    again: int,
)
    requires
        log.window > 0,
        log_answer(log, device, track, first) == Ok::<bool, StoreError>(true),
        again - log.window >= first,
    ensures
        log_answer(logged(log, device, track, first), device, track, again) == Ok::<
            bool,
            StoreError,
        >(true),
{
    let after = logged(log, device, track, first);
    assert forall|i: int|
        0 <= i < after.records.len() && (#[trigger] after.records[i]).device_name == device
            && after.records[i].track_info == track implies after.records[i].played_at <= first by {
        if i < log.records.len() {
            assert(after.records[i] == log.records[i]);
            assert(log.records[i].device_name == device);
        }
    }
    lemma_no_duplicate_within_window(after, device, track, again);
}

/// The time after which a play counts as recent at `now`, for a window of
/// `window_secs` seconds, or nothing where that time lies before every time
/// there is, so that every play is recent.
pub fn window_start(now: i64, window_secs: u32) -> (start: Option<i64>)
    ensures
        match start {
            Some(time) => time == now - window_secs,
            None => now - window_secs < i64::MIN,
        },
{
    now.checked_sub(window_secs as i64)
}

impl View for TrackDatabase {
    type V = LogView;

    closed spec fn view(&self) -> LogView {
        LogView { records: play_views(self.records@), window: self.window as nat }
    }
}

impl TrackDatabase {
    /// An empty log with a window of one hour.
    pub fn new() -> (log: Self)
        ensures
            log@ == (LogView { records: Seq::empty(), window: SUPPRESSION_WINDOW_SECS as nat }),
            distinct_plays(log@.records),
    {
        Self::with_window(SUPPRESSION_WINDOW_SECS)
    }

    /// An empty log with a window of `window_secs` seconds.
    pub fn with_window(window_secs: u32) -> (log: Self)
        ensures
            log@ == (LogView { records: Seq::empty(), window: window_secs as nat }),
            distinct_plays(log@.records),
    {
        let log = TrackDatabase { records: Vec::new(), window: window_secs };
        assert(play_views(log.records@) =~= Seq::empty());
        log
    }

    /// The suppression window, in seconds.
    pub fn window_secs(&self) -> (window: u32)
        ensures
            window == self@.window,
    {
        self.window
    }

    /// How many plays are recorded.
    pub fn len(&self) -> (count: usize)
        ensures
            count == self@.records.len(),
    {
        self.records.len()
    }

    /// Whether `track_info` is recorded for `device_name` at some time after
    /// `since`.
    pub fn played_since(&self, device_name: &str, track_info: &str, since: i128) -> (found: bool)
        ensures
            found == played_since(self@.records, device_name@, track_info@, since as int),
    {
        let device = String::from_str(device_name);
        let track = String::from_str(track_info);
        let mut i: usize = 0;
        while i < self.records.len()
            invariant
                i <= self.records.len(),
                device@ == device_name@,
                track@ == track_info@,
                forall|j: int|
                    0 <= j < i ==> !({
                        &&& (#[trigger] self@.records[j]).device_name == device_name@
                        &&& self@.records[j].track_info == track_info@
                        &&& self@.records[j].played_at > since
                    }),
            decreases self.records.len() - i,
        {
            let record = &self.records[i];
            assert(self@.records[i as int] == record@);
            if record.device_name == device && record.track_info == track && record.played_at as i128
                > since {
                return true;
            }
            i += 1;
        }
        false
    }

    /// Whether the play is recorded.
    fn holds(&self, device_name: &str, track_info: &str, played_at: i64) -> (found: bool)
        ensures
            found == self@.records.contains(
                PlayView {
                    device_name: device_name@,
                    track_info: track_info@,
                    played_at: played_at as int,
                },
            ),
    {
        let ghost play = PlayView {
            device_name: device_name@,
            track_info: track_info@,
            played_at: played_at as int,
        };
        let device = String::from_str(device_name);
        let track = String::from_str(track_info);
        let mut i: usize = 0;
        while i < self.records.len()
            invariant
                i <= self.records.len(),
                device@ == device_name@,
                track@ == track_info@,
                play == (PlayView {
                    device_name: device_name@,
                    track_info: track_info@,
                    played_at: played_at as int,
                }),
                forall|j: int| 0 <= j < i ==> self@.records[j] != play,
            decreases self.records.len() - i,
        {
            let record = &self.records[i];
            assert(self@.records[i as int] == record@);
            if record.device_name == device && record.track_info == track && record.played_at
                == played_at {
                return true;
            }
            i += 1;
        }
        false
    }

    /// Logs that `track_info` plays on `device_name` at `now`, in seconds
    /// since the epoch, unless it is a repeat.
    ///
    /// Answers `Ok(true)` where the play was recorded, and `Ok(false)`, with
    /// the log unchanged, where the track was recorded for the device
    /// within the window before `now`.
    pub fn log_track(&mut self, device_name: &str, track_info: &str, now: i64) -> (answer: Result<
        bool,
        StoreError,
    >)
        ensures
            answer == log_answer(old(self)@, device_name@, track_info@, now as int),
            final(self)@ == logged(old(self)@, device_name@, track_info@, now as int),
            distinct_plays(old(self)@.records) ==> distinct_plays(final(self)@.records),
    {
        proof {
            if distinct_plays(self@.records) {
                lemma_log_keeps_plays_distinct(self@, device_name@, track_info@, now as int);
            }
        }
        if self.played_since(device_name, track_info, now as i128 - self.window as i128) {
            return Ok(false);
        }
        if self.holds(device_name, track_info, now) {
            return Err(StoreError::Duplicate);
        }
        let ghost before = self@.records;
        self.records.push(
            PlayRecord {
                device_name: String::from_str(device_name),
                track_info: String::from_str(track_info),
                played_at: now,
            },
        );
        assert(self@.records =~= before.push(
            PlayView {
                device_name: device_name@,
                track_info: track_info@,
                played_at: now as int,
            },
        ));
        Ok(true)
    }

    /// The track that was last played on `device_name`, if any was.
    pub fn get_last_track(&self, device_name: &str) -> (track: Option<String>)
        ensures
            match track {
                Some(info) => last_track(self@.records, device_name@) == Some(info@),
                None => last_track(self@.records, device_name@) is None,
            },
    {
        let device = String::from_str(device_name);
        let mut best: Option<usize> = None;
        let mut i: usize = 0;
        while i < self.records.len()
            invariant
                i <= self.records.len(),
                device@ == device_name@,
                match best {
                    Some(at) => at < i && is_last_play(self@.records.take(i as int), device_name@, at as int),
                    None => forall|j: int|
                        0 <= j < i ==> (#[trigger] self@.records[j]).device_name != device_name@,
                },
            decreases self.records.len() - i,
        {
            let record = &self.records[i];
            let ghost shorter = self@.records.take(i as int);
            let ghost longer = self@.records.take(i as int + 1);
            assert(self@.records[i as int] == record@);
            assert(forall|j: int| 0 <= j < i ==> shorter[j] == longer[j]);
            if record.device_name == device {
                let later = match best {
                    Some(at) => record.played_at >= self.records[at].played_at,
                    None => true,
                };
                if later {
                    assert forall|j: int|
                        0 <= j < longer.len() && (#[trigger] longer[j]).device_name
                            == device_name@ implies {
                        ||| longer[j].played_at < longer[i as int].played_at
                        ||| longer[j].played_at == longer[i as int].played_at && j <= i
                    } by {
                        if j < i {
                            assert(shorter[j].device_name == device_name@);
                            assert(self@.records[j] == shorter[j]);
                        }
                    }
                    best = Some(i);
                } else {
                    let ghost at = best->Some_0 as int;
                    assert forall|j: int|
                        0 <= j < longer.len() && (#[trigger] longer[j]).device_name
                            == device_name@ implies {
                        ||| longer[j].played_at < longer[at].played_at
                        ||| longer[j].played_at == longer[at].played_at && j <= at
                    } by {
                        if j < i {
                            assert(shorter[j].device_name == device_name@);
                        }
                    }
                }
            } else {
                match best {
                    Some(at) => {
                        assert forall|j: int|
                            0 <= j < longer.len() && (#[trigger] longer[j]).device_name
                                == device_name@ implies {
                            ||| longer[j].played_at < longer[at as int].played_at
                            ||| longer[j].played_at == longer[at as int].played_at && j <= at
                        } by {
                            if j < i {
                                assert(shorter[j].device_name == device_name@);
                            }
                        }
                    },
                    None => {},
                }
            }
            i += 1;
        }
        assert(self@.records.take(i as int) == self@.records);
        match best {
            Some(at) => {
                proof {
                    let chosen = choose|at: int| is_last_play(self@.records, device_name@, at);
                    lemma_last_play_unique(self@.records, device_name@, at as int, chosen);
                }
                Some(self.records[at].track_info.clone())
            },
            None => {
                proof {
                    if exists|at: int| is_last_play(self@.records, device_name@, at) {
                        let at = choose|at: int| is_last_play(self@.records, device_name@, at);
                        assert(self@.records[at].device_name == device_name@);
                    }
                }
                None
            },
        }
    }
}

} // verus!
