//! The change detector: which of the snapshots polled from a device are new
//! plays.
//!
//! A snapshot is a new play if its track differs from the one last reported
//! for the device and was not logged for the device within the suppression
//! window. The first test needs no store; the second is the play log's.

use crate::device_manager::UNKNOWN_ARTIST;
use crate::sonos::database::log_answer;
use crate::sonos::database::logged;
use crate::sonos::database::LogView;
use crate::sonos::database::StoreError;
use crate::sonos::database::TrackDatabase;
use crate::sonos::PlaybackState;
use crate::text::text_of;
use vstd::prelude::*;

verus! {

/// The key of a track of which neither artist nor title is known.
pub const UNKNOWN_TRACK: &'static str = "Unknown Track";

/// What stands between artist and title in a track's key.
pub const KEY_SEPARATOR: &'static str = " - ";

/// What was decided about a snapshot.
#[derive(Debug, Clone, Copy, PartialEq, Eq, Structural)]
pub enum Verdict {
    /// The track is the one last reported: nothing to do.
    Unchanged,
    /// The track changed, but it was logged within the window: no new play.
    Suppressed,
    /// A new play: it is logged, and is to be reported.
    Emit,
}

/// The change detector of one device.
#[derive(Debug)]
pub struct ChangeDetector {
    device_name: String,
    last_key: Option<String>,
}

/// A [`ChangeDetector`] as a mathematical value.
pub struct DetectorView {
    pub device_name: Seq<char>,
    /// The key of the track last reported, if any was.
    pub last_key: Option<Seq<char>>,
}

/// The key of a track: `artist - title` where both are known, the one that
/// is known where only one is, and the key of the unknown track otherwise.
pub open spec fn track_key_of(artist: Option<Seq<char>>, title: Option<Seq<char>>) -> Seq<char> {
    match (artist, title) {
        (Some(artist), Some(title)) => artist + KEY_SEPARATOR@ + title,
        (Some(artist), None) => artist,
        (None, Some(title)) => title,
        (None, None) => UNKNOWN_TRACK@,
    }
}

/// The key of the track of a snapshot.
pub open spec fn snapshot_key(snapshot: PlaybackState) -> Seq<char> {
    track_key_of(text_of(snapshot.artist), text_of(snapshot.title))
}

/// What a snapshot reports to the sink: artist, title and album. A
/// snapshot without a title reports nothing; one without an artist reports
/// the unknown artist.
pub open spec fn play_of(snapshot: PlaybackState) -> Option<
    (Seq<char>, Seq<char>, Option<Seq<char>>),
> {
    match snapshot.title {
        Some(title) => Some(
            (
                match snapshot.artist {
                    Some(artist) => artist@,
                    None => UNKNOWN_ARTIST@,
                },
                title@,
                text_of(snapshot.album),
            ),
        ),
        None => None,
    }
}

/// Whether `key` differs from the key last reported.
pub open spec fn changed(detector: DetectorView, key: Seq<char>) -> bool {
    detector.last_key != Some(key)
}

/// The detector after the log answered for `key`: it remembers the key
/// unless the log failed.
pub open spec fn settled(
    detector: DetectorView,
    key: Seq<char>,
    answer: Result<bool, StoreError>,
) -> DetectorView {
    match answer {
        Ok(_) => DetectorView { last_key: Some(key), ..detector },
        Err(_) => detector,
    }
}

/// What the log's answer means for a changed track.
pub open spec fn verdict_of(answer: Result<bool, StoreError>) -> Result<Verdict, StoreError> {
    match answer {
        Ok(true) => Ok(Verdict::Emit),
        Ok(false) => Ok(Verdict::Suppressed),
        Err(error) => Err(error),
    }
}

/// Detector, log and verdict after a track with the key `key` was seen at
/// `now`.
pub open spec fn detect(detector: DetectorView, log: LogView, key: Seq<char>, now: int) -> (
    DetectorView,
    LogView,
    Result<Verdict, StoreError>,
) {
    if changed(detector, key) {
        let answer = log_answer(log, detector.device_name, key, now);
        (settled(detector, key, answer), logged(log, detector.device_name, key, now), verdict_of(answer))
    } else {
        (detector, log, Ok(Verdict::Unchanged))
    }
}

/// Of two snapshots of the same track in a row, at most one is a new play:
/// unless the log failed on the first, the second leaves everything as it
/// is.
pub proof fn lemma_same_track_emits_once(
    detector: DetectorView,
    log: LogView,
    key: Seq<char>,
    first: int,
    second: int,
)
    ensures
        ({
            let (detector1, log1, verdict1) = detect(detector, log, key, first);
            let (detector2, log2, verdict2) = detect(detector1, log1, key, second);
            &&& !(verdict1 == Ok::<Verdict, StoreError>(Verdict::Emit) && verdict2 == Ok::<
                Verdict,
                StoreError,
            >(Verdict::Emit))
            &&& verdict1 is Ok ==> verdict2 == Ok::<Verdict, StoreError>(Verdict::Unchanged)
                && detector2 == detector1 && log2 == log1
        }),
{
}

/// A track that was reported as a new play and comes back after another
/// track, while the window lasts, is suppressed: the log is left as it is.
pub proof fn lemma_return_within_window_is_suppressed(
    detector: DetectorView,
    log: LogView,
    key: Seq<char>,
    other: Seq<char>,
    first: int,
    between: int,
    again: int,
)
    requires
        key != other,
        detect(detector, log, key, first).2 == Ok::<Verdict, StoreError>(Verdict::Emit),
        again - log.window < first,
    ensures
        ({
            let (detector1, log1, verdict1) = detect(detector, log, key, first);
            let (detector2, log2, verdict2) = detect(detector1, log1, other, between);
            let (detector3, log3, verdict3) = detect(detector2, log2, key, again);
            verdict2 is Ok ==> verdict3 == Ok::<Verdict, StoreError>(Verdict::Suppressed) && log3
                == log2
        }),
{
    let (detector1, log1, verdict1) = detect(detector, log, key, first);
    let (detector2, log2, verdict2) = detect(detector1, log1, other, between);
    let at = log.records.len() as int;
    assert(log1.records[at].device_name == detector.device_name);
    if verdict2 is Ok {
        assert(log2.records[at] == log1.records[at]);
        assert(log2.records[at].track_info == key);
    }
}

impl Verdict {
    /// Whether the snapshot is to be reported as a new play.
    pub fn is_new_play(&self) -> (new: bool)
        ensures
            new == (*self is Emit),
    {
        match self {
            Verdict::Emit => true,
            _ => false,
        }
    }
}

/// The key of a track with this artist and this title.
pub fn track_key(artist: &Option<String>, title: &Option<String>) -> (key: String)
    ensures
        key@ == track_key_of(text_of(*artist), text_of(*title)),
{
    match (artist, title) {
        (Some(artist), Some(title)) => artist.clone().concat(KEY_SEPARATOR).concat(title.as_str()),
        (Some(artist), None) => artist.clone(),
        (None, Some(title)) => title.clone(),
        (None, None) => String::from_str(UNKNOWN_TRACK),
    }
}

/// What the snapshot reports to the sink, if it reports anything.
pub fn reportable_play(snapshot: &PlaybackState) -> (play: Option<(String, String, Option<String>)>)
    ensures
        match play {
            Some((artist, title, album)) => play_of(*snapshot) == Some(
                (artist@, title@, text_of(album)),
            ),
            None => play_of(*snapshot) is None,
        },
{
    match &snapshot.title {
        Some(title) => {
            let artist = match &snapshot.artist {
                Some(artist) => artist.clone(),
                None => String::from_str(UNKNOWN_ARTIST),
            };
            Some((artist, title.clone(), snapshot.album.clone()))
        },
        None => None,
    }
}

impl View for ChangeDetector {
    type V = DetectorView;

    closed spec fn view(&self) -> DetectorView {
        DetectorView { device_name: self.device_name@, last_key: text_of(self.last_key) }
    }
}

impl ChangeDetector {
    /// A detector for `device_name` that has reported nothing yet.
    pub fn new(device_name: String) -> (detector: Self)
        ensures
            detector@ == (DetectorView { device_name: device_name@, last_key: None }),
    {
        ChangeDetector { device_name, last_key: None }
    }

    /// The device that the detector watches.
    pub fn device_name(&self) -> (name: &String)
        ensures
            name@ == self@.device_name,
    {
        &self.device_name
    }

    /// The key of the track last reported, if any was.
    pub fn last_key(&self) -> (key: &Option<String>)
        ensures
            text_of(*key) == self@.last_key,
    {
        &self.last_key
    }

    /// The key of the snapshot's track if it differs from the one last
    /// reported, and nothing if it does not.
    pub fn observe(&self, snapshot: &PlaybackState) -> (candidate: Option<String>)
        ensures
            match candidate {
                Some(key) => key@ == snapshot_key(*snapshot) && changed(self@, key@),
                None => !changed(self@, snapshot_key(*snapshot)),
            },
    {
        let key = track_key(&snapshot.artist, &snapshot.title);
        let same = match &self.last_key {
            Some(last) => *last == key,
            None => false,
        };
        if same {
            None
        } else {
            Some(key)
        }
    }

    /// Takes in what the play log answered for a changed track.
    ///
    /// The track is remembered as the one last reported whether it was
    /// logged or suppressed, so that it is not looked up again on the next
    /// tick. Where the log failed nothing is remembered: the next tick asks
    /// the log again.
    pub fn settle(&mut self, key: String, answer: Result<bool, StoreError>) -> (verdict: Result<
        Verdict,
        StoreError,
    >)
        ensures
            final(self)@ == settled(old(self)@, key@, answer),
            verdict == verdict_of(answer),
    {
        match answer {
            Ok(new_play) => {
                self.last_key = Some(key);
                if new_play {
                    Ok(Verdict::Emit)
                } else {
                    Ok(Verdict::Suppressed)
                }
            },
            Err(error) => Err(error),
        }
    }

    /// Decides about a snapshot taken at `now`, against the play log `log`.
    pub fn process(&mut self, snapshot: &PlaybackState, log: &mut TrackDatabase, now: i64) -> (verdict:
        Result<Verdict, StoreError>)
        ensures
            (final(self)@, final(log)@, verdict) == detect(
                old(self)@,
                old(log)@,
                snapshot_key(*snapshot),
                now as int,
            ),
    {
        match self.observe(snapshot) {
            Some(key) => {
                let answer = log.log_track(self.device_name.as_str(), key.as_str(), now);
                self.settle(key, answer)
            },
            None => Ok(Verdict::Unchanged),
        }
    }
}

} // verus!
