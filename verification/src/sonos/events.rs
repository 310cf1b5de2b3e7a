//! The event subscriber: which speaker a listed device name stands for,
//! and what to send it to subscribe to its transport events.

use crate::discovery::SpeakerInfo;
use crate::discovery::SpeakerInfoView;
use crate::sonos::discovery::speaker_views;
use crate::text::chars_of;
use crate::text::contains_text;
use crate::text::find_from;
use crate::text::find_text;
use crate::text::lemma_find_from;
use crate::text::occurs_at;
use crate::text::text_of;
use vstd::prelude::*;

verus! {

/// What parts the fields of a device name: address, model, identifier.
pub const NAME_SEPARATOR: &'static str = " - ";

/// What ends the identifier in a device name, before the room.
pub const ROOM_SEPARATOR: &'static str = ",";

/// The path of a player's transport event endpoint.
pub const EVENT_PATH: &'static str = "/MediaRenderer/AVTransport/Event";

/// The path under which the listener takes notifications.
pub const NOTIFY_PATH: &'static str = "/notify";

/// The value of the `NT` header of a subscription.
pub const NOTIFICATION_TYPE: &'static str = "upnp:event";

/// The value of the `TIMEOUT` header of a subscription.
pub const SUBSCRIPTION_TIMEOUT: &'static str = "Second-300";

/// Why no subscriber could be made for a device name.
#[derive(Debug, Clone, PartialEq, Eq)]
pub enum SubscriberError {
    /// The discovery run failed; the transport's message.
    Discovery(String),
    /// The name has no third field; the name.
    InvalidName(String),
    /// No speaker found carries the name's identifier; the name.
    NotFound(String),
}

/// A [`SubscriberError`] as a mathematical value.
pub enum SubscriberErrorView {
    Discovery(Seq<char>),
    InvalidName(Seq<char>),
    NotFound(Seq<char>),
}

impl View for SubscriberError {
    type V = SubscriberErrorView;

    open spec fn view(&self) -> SubscriberErrorView {
        match self {
            SubscriberError::Discovery(message) => SubscriberErrorView::Discovery(message@),
            SubscriberError::InvalidName(name) => SubscriberErrorView::InvalidName(name@),
            SubscriberError::NotFound(name) => SubscriberErrorView::NotFound(name@),
        }
    }
}

/// A subscription to a player's transport events, ready to be sent.
#[derive(Debug, Clone, PartialEq, Eq)]
pub struct SubscriptionRequest {
    pub url: String,
    pub callback: String,
    pub notification_type: String,
    pub timeout: String,
}

/// The speaker whose events are subscribed to.
#[derive(Debug, Clone)]
pub struct EventSubscriber {
    device_ip: String,
    friendly_name: String,
}

/// An [`EventSubscriber`] as a mathematical value.
pub struct SubscriberView {
    pub device_ip: Seq<char>,
    pub friendly_name: Seq<char>,
}

/// `text` up to the first `pattern` in it, or all of it where it holds
/// none.
pub open spec fn before_first(text: Seq<char>, pattern: Seq<char>) -> Seq<char> {
    match find_from(text, pattern, 0) {
        Some(at) => text.take(at),
        None => text,
    }
}

/// The identifier in a device name of the form
/// `address - model - identifier, room`: of the fields that ` - ` parts,
/// the third, up to its first comma. A name with fewer fields has none.
pub open spec fn rincon_id_of(name: Seq<char>) -> Option<Seq<char>> {
    match find_from(name, NAME_SEPARATOR@, 0) {
        Some(first) => match find_from(name, NAME_SEPARATOR@, first + NAME_SEPARATOR@.len()) {
            Some(second) => {
                let rest = name.skip(second + NAME_SEPARATOR@.len());
                Some(before_first(before_first(rest, NAME_SEPARATOR@), ROOM_SEPARATOR@))
            },
            None => None,
        },
        None => None,
    }
}

/// The first of `speakers` whose name holds `id`.
pub open spec fn first_named(speakers: Seq<SpeakerInfoView>, id: Seq<char>) -> Option<
    SpeakerInfoView,
>
    decreases speakers.len(),
{
    if speakers.len() == 0 {
        None
    } else if contains_text(speakers[0].friendly_name, id) {
        Some(speakers[0])
    } else {
        first_named(speakers.drop_first(), id)
    }
}

/// The subscriber for the device name `name`, given what discovery found.
pub open spec fn subscriber_for(name: Seq<char>, found: Result<Seq<SpeakerInfoView>, Seq<char>>) -> Result<
    SubscriberView,
    SubscriberErrorView,
> {
    match found {
        Err(cause) => Err(SubscriberErrorView::Discovery(cause)),
        Ok(speakers) => match rincon_id_of(name) {
            None => Err(SubscriberErrorView::InvalidName(name)),
            Some(id) => match first_named(speakers, id) {
                None => Err(SubscriberErrorView::NotFound(name)),
                Some(speaker) => Ok(
                    SubscriberView {
                        device_ip: speaker.ip_addr,
                        friendly_name: speaker.friendly_name,
                    },
                ),
            },
        },
    }
}

/// The outcome of a discovery run as a mathematical value.
pub open spec fn found_speakers(found: Result<Vec<SpeakerInfo>, String>) -> Result<
    Seq<SpeakerInfoView>,
    Seq<char>,
> {
    match found {
        Ok(speakers) => Ok(speaker_views(speakers@)),
        Err(cause) => Err(cause@),
    }
}

/// The outcome of making a subscriber as a mathematical value.
pub open spec fn subscriber_outcome(result: Result<EventSubscriber, SubscriberError>) -> Result<
    SubscriberView,
    SubscriberErrorView,
> {
    match result {
        Ok(subscriber) => Ok(subscriber@),
        Err(error) => Err(error@),
    }
}

impl SubscriberError {
    /// The error in words.
    pub fn message(&self) -> (text: String)
        ensures
            text@ == match self@ {
                SubscriberErrorView::Discovery(cause) => cause,
                SubscriberErrorView::InvalidName(name) => "Invalid device name format: "@ + name,
                SubscriberErrorView::NotFound(name) => "Device not found: "@ + name,
            },
    {
        match self {
            SubscriberError::Discovery(cause) => cause.clone(),
            SubscriberError::InvalidName(name) => String::from_str(
                "Invalid device name format: ",
            ).concat(name.as_str()),
            SubscriberError::NotFound(name) => String::from_str("Device not found: ").concat(
                name.as_str(),
            ),
        }
    }
}

/// `text` up to the first `pattern` in it, or all of it where it holds
/// none.
pub fn text_before<'a>(text: &'a str, pattern: &str) -> (head: &'a str)
    ensures
        head@ == before_first(text@, pattern@),
{
    let chars = chars_of(text);
    let wanted = chars_of(pattern);
    match find_text(&chars, &wanted, 0) {
        Some(at) => {
            proof {
                lemma_find_from(text@, pattern@, 0);
            }
            let head = text.substring_char(0, at);
            assert(text@.subrange(0, at as int) == text@.take(at as int));
            head
        },
        None => text,
    }
}

/// The identifier in a device name, if the name has one.
pub fn rincon_id(name: &str) -> (id: Option<String>)
    ensures
        text_of(id) == rincon_id_of(name@),
{
    let chars = chars_of(name);
    let separator = chars_of(NAME_SEPARATOR);
    let first = match find_text(&chars, &separator, 0) {
        Some(at) => at,
        None => { return None; },
    };
    proof {
        lemma_find_from(name@, NAME_SEPARATOR@, 0);
        assert(occurs_at(name@, NAME_SEPARATOR@, first as int));
        assert(first + separator.len() <= chars.len());
    }
    let second = match find_text(&chars, &separator, first + separator.len()) {
        Some(at) => at,
        None => { return None; },
    };
    proof {
        lemma_find_from(name@, NAME_SEPARATOR@, first + NAME_SEPARATOR@.len());
        assert(occurs_at(name@, NAME_SEPARATOR@, second as int));
        assert(second + separator.len() <= chars.len());
    }
    let rest = name.substring_char(second + separator.len(), chars.len());
    assert(name@.subrange(second + separator.len(), chars.len() as int) == name@.skip(
        second + NAME_SEPARATOR@.len(),
    ));
    let field = text_before(rest, NAME_SEPARATOR);
    Some(String::from_str(text_before(field, ROOM_SEPARATOR)))
}

impl View for EventSubscriber {
    type V = SubscriberView;

    closed spec fn view(&self) -> SubscriberView {
        SubscriberView { device_ip: self.device_ip@, friendly_name: self.friendly_name@ }
    }
}

impl EventSubscriber {
    /// The subscriber for the speaker that `device_name` stands for.
    ///
    /// The name is one of a listing; its third field, up to the comma, is
    /// the speaker's identifier. The speaker is the first that discovery
    /// found whose name holds the identifier. It is an error if discovery
    /// failed, if the name has no third field, and if no speaker found
    /// carries the identifier, in this order.
    pub fn new(device_name: &str, found: Result<Vec<SpeakerInfo>, String>) -> (result: Result<
        Self,
        SubscriberError,
    >)
        ensures
            subscriber_outcome(result) == subscriber_for(device_name@, found_speakers(found)),
    {
        let speakers = match found {
            Ok(speakers) => speakers,
            Err(cause) => { return Err(SubscriberError::Discovery(cause)); },
        };
        let id = match rincon_id(device_name) {
            Some(id) => id,
            None => { return Err(SubscriberError::InvalidName(String::from_str(device_name))); },
        };
        let wanted = chars_of(id.as_str());
        let ghost views = speaker_views(speakers@);
        let mut i: usize = 0;
        assert(views.skip(0) == views);
        while i < speakers.len()
            invariant
                i <= speakers.len(),
                views == speaker_views(speakers@),
                found_speakers(found) == Ok::<Seq<SpeakerInfoView>, Seq<char>>(views),
                rincon_id_of(device_name@) == Some(id@),
                wanted@ == id@,
                first_named(views, id@) == first_named(views.skip(i as int), id@),
            decreases speakers.len() - i,
        {
            let speaker = &speakers[i];
            assert(views.skip(i as int).len() > 0);
            assert(views.skip(i as int)[0] == speaker@);
            let name = chars_of(speaker.friendly_name.as_str());
            if find_text(&name, &wanted, 0).is_some() {
                return Ok(
                    EventSubscriber {
                        device_ip: speaker.ip_addr.clone(),
                        friendly_name: speaker.friendly_name.clone(),
                    },
                );
            }
            assert(views.skip(i as int).drop_first() == views.skip(i as int + 1));
            i += 1;
        }
        assert(views.skip(i as int).len() == 0);
        Err(SubscriberError::NotFound(String::from_str(device_name)))
    }

    /// The address of the speaker.
    pub fn device_ip(&self) -> (address: &String)
        ensures
            address@ == self@.device_ip,
    {
        &self.device_ip
    }

    /// The name of the speaker.
    pub fn friendly_name(&self) -> (name: &String)
        ensures
            name@ == self@.friendly_name,
    {
        &self.friendly_name
    }

    /// The subscription to send to the speaker, so that it notifies the
    /// listener at `listener_addr` of its transport events.
    pub fn subscribe(&self, listener_addr: &str) -> (request: SubscriptionRequest)
        ensures
            request.url@ == "http://"@ + self@.device_ip + EVENT_PATH@,
            request.callback@ == "<http://"@ + listener_addr@ + NOTIFY_PATH@ + ">"@,
            request.notification_type@ == NOTIFICATION_TYPE@,
            request.timeout@ == SUBSCRIPTION_TIMEOUT@,
    {
        SubscriptionRequest {
            url: String::from_str("http://").concat(self.device_ip.as_str()).concat(EVENT_PATH),
            callback: String::from_str("<http://").concat(listener_addr).concat(NOTIFY_PATH).concat(
                ">",
            ),
            notification_type: String::from_str(NOTIFICATION_TYPE),
            timeout: String::from_str(SUBSCRIPTION_TIMEOUT),
        }
    }
}

} // verus!
