//! Device descriptors, as the discovery transport reports them and as the
//! rest of the library uses them.

use vstd::prelude::*;

verus! {

/// What discovery reports about one speaker on the network.
#[derive(Debug, Clone, PartialEq, Eq)]
pub struct SpeakerInfo {
    pub ip_addr: String,
    pub friendly_name: String,
    pub room_name: String,
    pub model: String,
}

/// A [`SpeakerInfo`] as a mathematical value.
pub struct SpeakerInfoView {
    pub ip_addr: Seq<char>,
    pub friendly_name: Seq<char>,
    pub room_name: Seq<char>,
    pub model: Seq<char>,
}

impl View for SpeakerInfo {
    type V = SpeakerInfoView;

    open spec fn view(&self) -> SpeakerInfoView {
        SpeakerInfoView {
            ip_addr: self.ip_addr@,
            friendly_name: self.friendly_name@,
            room_name: self.room_name@,
            model: self.model@,
        }
    }
}

/// A device that can be monitored: where it is, what it is called, what it is.
#[derive(Debug, Clone, PartialEq, Eq)]
pub struct SonosDevice {
    pub ip_addr: String,
    pub room_name: String,
    pub model_name: String,
}

/// A [`SonosDevice`] as a mathematical value.
pub struct DeviceView {
    pub ip_addr: Seq<char>,
    pub room_name: Seq<char>,
    pub model_name: Seq<char>,
}

impl View for SonosDevice {
    type V = DeviceView;

    open spec fn view(&self) -> DeviceView {
        DeviceView {
            ip_addr: self.ip_addr@,
            room_name: self.room_name@,
            model_name: self.model_name@,
        }
    }
}

/// Why a discovery run produced no device list.
#[derive(Debug, Clone, PartialEq, Eq)]
pub struct DiscoveryError {
    pub message: String,
}

/// The device that stands for a reported speaker.
pub open spec fn device_of(info: SpeakerInfoView) -> DeviceView {
    DeviceView { ip_addr: info.ip_addr, room_name: info.room_name, model_name: info.model }
}

/// The devices that stand for a list of reported speakers, in the same order.
pub open spec fn devices_of(found: Seq<SpeakerInfo>) -> Seq<DeviceView> {
    Seq::new(found.len(), |i: int| device_of(found[i]@))
}

/// The views of a list of devices, in the same order.
pub open spec fn device_views(devices: Seq<SonosDevice>) -> Seq<DeviceView> {
    Seq::new(devices.len(), |i: int| devices[i]@)
}

/// The text that opens the message of a failed discovery.
pub open spec fn discovery_failure_prefix() -> Seq<char> {
    "Failed to discover devices: "@
}

/// Turns the outcome of one discovery run into the devices it found.
///
/// A transport failure becomes a [`DiscoveryError`] whose message is the
/// transport's own, behind a fixed prefix. An empty list is no error.
pub fn discover_sonos_devices(found: Result<Vec<SpeakerInfo>, String>) -> (result: Result<
    Vec<SonosDevice>,
    DiscoveryError,
>)
    ensures
        match (found, result) {
            (Ok(speakers), Ok(devices)) => device_views(devices@) == devices_of(speakers@),
            (Err(cause), Err(error)) => error.message@ == discovery_failure_prefix() + cause@,
            _ => false,
        },
{
    match found {
        Ok(speakers) => {
            let mut devices: Vec<SonosDevice> = Vec::new();
            let mut i: usize = 0;
            while i < speakers.len()
                invariant
                    i <= speakers.len(),
                    devices.len() == i,
                    forall|j: int| 0 <= j < i ==> devices[j]@ == device_of(#[trigger] speakers[j]@),
                decreases speakers.len() - i,
            {
                let info = &speakers[i];
                devices.push(
                    SonosDevice {
                        ip_addr: info.ip_addr.clone(),
                        room_name: info.room_name.clone(),
                        model_name: info.model.clone(),
                    },
                );
                i += 1;
            }
            assert(device_views(devices@) =~= devices_of(speakers@));
            Ok(devices)
        },
        Err(cause) => {
            let message = String::from_str("Failed to discover devices: ").concat(cause.as_str());
            Err(DiscoveryError { message })
        },
    }
}

} // verus!
