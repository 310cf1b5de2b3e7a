//! A discovery run, kept for listing: the speakers it found, as lines to
//! show.

use crate::discovery::DiscoveryError;
use crate::discovery::SpeakerInfo;
use crate::discovery::SpeakerInfoView;
use vstd::prelude::*;

verus! {

/// Seconds for which a first discovery listens for answers.
pub const DISCOVERY_SEARCH_TIMEOUT: u64 = 2;

/// Seconds for which a first discovery waits on a single answer.
pub const DISCOVERY_RESPONSE_TIMEOUT: u64 = 5;

/// What stands between a speaker's name and its room in a listing.
pub const LISTING_SEPARATOR: &'static str = ", ";

/// The speakers that one discovery run found.
#[derive(Debug)]
pub struct SonosDiscovery {
    devices: Vec<SpeakerInfo>,
}

/// The views of a list of speakers, in the same order.
pub open spec fn speaker_views(speakers: Seq<SpeakerInfo>) -> Seq<SpeakerInfoView> {
    Seq::new(speakers.len(), |i: int| speakers[i]@)
}

/// The line that lists a speaker: its name, then its room.
pub open spec fn listing_of(speaker: SpeakerInfoView) -> Seq<char> {
    speaker.friendly_name + LISTING_SEPARATOR@ + speaker.room_name
}

impl View for SonosDiscovery {
    type V = Seq<SpeakerInfoView>;

    closed spec fn view(&self) -> Seq<SpeakerInfoView> {
        speaker_views(self.devices@)
    }
}

impl SonosDiscovery {
    /// Keeps what a discovery run found. A run that failed is an error
    /// with the transport's message; one that found nothing is not.
    pub fn new(found: Result<Vec<SpeakerInfo>, String>) -> (result: Result<Self, DiscoveryError>)
        ensures
            match (found, result) {
                (Ok(speakers), Ok(discovery)) => discovery@ == speaker_views(speakers@),
                (Err(cause), Err(error)) => error.message == cause,
                _ => false,
            },
    {
        match found {
            Ok(devices) => Ok(SonosDiscovery { devices }),
            Err(message) => Err(DiscoveryError { message }),
        }
    }

    /// One line for each speaker found, in the order in which they were
    /// found.
    pub fn discover_devices(&self) -> (result: Result<Vec<String>, DiscoveryError>)
        ensures
            result matches Ok(lines) && lines.len() == self@.len() && forall|i: int|
                0 <= i < lines.len() ==> (#[trigger] lines[i])@ == listing_of(self@[i]),
    {
        let mut lines: Vec<String> = Vec::new();
        let mut i: usize = 0;
        while i < self.devices.len()
            invariant
                i <= self.devices.len(),
                lines.len() == i,
                forall|j: int| 0 <= j < i ==> (#[trigger] lines[j])@ == listing_of(self@[j]),
            decreases self.devices.len() - i,
        {
            let device = &self.devices[i];
            assert(self@[i as int] == device@);
            lines.push(
                device.friendly_name.clone().concat(LISTING_SEPARATOR).concat(
                    device.room_name.as_str(),
                ),
            );
            i += 1;
        }
        Ok(lines)
    }
}

} // verus!
