//! The track metadata client: what to ask a player, and how to read what it
//! answers.
//!
//! A player answers with an envelope that carries two duration strings and
//! a second XML document, the track's metadata, as a string. This module
//! reads the metadata; sending the request and opening the envelope is the
//! caller's part.

pub mod database;
pub mod discovery;
pub mod events;
pub mod xml;

pub use crate::sonos::database::TrackDatabase;
pub use crate::sonos::discovery::SonosDiscovery;
pub use crate::sonos::events::EventSubscriber;

use crate::sonos::xml::bytes_equal;
use crate::sonos::xml::ends_in_terminal;
use crate::sonos::xml::last_index;
use crate::sonos::xml::lemma_last_index_is;
use crate::sonos::xml::local_name;
use crate::sonos::xml::local_part;
use crate::sonos::xml::next_token;
use crate::sonos::xml::reader_pending;
use crate::sonos::xml::trimming_reader;
use crate::sonos::xml::unescape;
use crate::sonos::xml::xml_tokens;
use crate::sonos::xml::xml_unescaped;
use crate::sonos::xml::Token;
use crate::sonos::xml::XmlToken;
use crate::sonos::xml::COLON;
use crate::text::blank;
use crate::text::is_blank;
use crate::text::text_of;
use vstd::prelude::*;
use vstd::slice::slice_subrange;
use vstd::slice::slice_to_vec;
use vstd::string::StringSliceAdditionalSpecFns;

verus! {

/// The path of a player's transport control endpoint.
pub const CONTROL_PATH: &'static str = "/MediaRenderer/AVTransport/Control";

/// The value of the `SOAPAction` header of a position request: the action's
/// URI, in double quotes.
pub const POSITION_INFO_ACTION: &'static str =
    "\"urn:schemas-upnp-org:service:AVTransport:1#GetPositionInfo\"";

/// The value of the `Content-Type` header of a position request.
pub const SOAP_CONTENT_TYPE: &'static str = "text/xml";

/// The envelope of a position request.
pub const POSITION_INFO_BODY: &'static str =
    "<?xml version=\"1.0\"?>\n        <s:Envelope xmlns:s=\"http://schemas.xmlsoap.org/soap/envelope/\">\n            <s:Body>\n                <u:GetPositionInfo xmlns:u=\"urn:schemas-upnp-org:service:AVTransport:1\">\n                    <InstanceID>0</InstanceID>\n                </u:GetPositionInfo>\n            </s:Body>\n        </s:Envelope>";

/// The tag of a track's title in its metadata.
pub const TITLE_TAG: &'static str = "dc:title";

/// The tag of a track's artist in its metadata.
pub const ARTIST_TAG: &'static str = "dc:creator";

/// The tag of a track's album in its metadata.
pub const ALBUM_TAG: &'static str = "upnp:album";

/// A request to a player's control endpoint, ready to be posted.
#[derive(Debug, Clone, PartialEq, Eq)]
pub struct SoapRequest {
    pub url: String,
    pub soap_action: String,
    pub content_type: String,
    pub body: String,
}

/// What the envelope of a position answer carries.
#[derive(Debug, Clone, PartialEq, Eq)]
pub struct PositionInfo {
    pub track_meta_data: String,
    pub rel_time: String,
    pub track_duration: String,
}

/// What a player says about the track it is playing.
#[derive(Debug)]
pub struct SonosResponse {
    pub title: Option<String>,
    pub artist: Option<String>,
    pub album: Option<String>,
    pub position: String,
    pub duration: String,
}

/// The track that is playing, and how far into it the player is.
#[derive(Debug)]
pub struct PlaybackState {
    pub title: Option<String>,
    pub artist: Option<String>,
    pub album: Option<String>,
    pub position: Option<String>,
    pub duration: Option<String>,
}

/// Why a value could not be read from a track's metadata.
#[derive(Debug, Clone, PartialEq, Eq)]
pub enum DidlError {
    /// The metadata is not well-formed XML; the reader's message.
    Malformed(String),
    /// The metadata closes an element that is not open, or ends with an
    /// element still open.
    Unbalanced,
    /// The element's text holds an escape that cannot be resolved; the
    /// reader's message.
    Unescape(String),
    /// No element of that name holds text; the tag that was asked for.
    NotFound(String),
}

/// A [`DidlError`] as a mathematical value.
pub enum DidlErrorView {
    Malformed(Seq<char>),
    Unbalanced,
    Unescape(Seq<char>),
    NotFound(Seq<char>),
}

impl View for DidlError {
    type V = DidlErrorView;

    open spec fn view(&self) -> DidlErrorView {
        match self {
            DidlError::Malformed(message) => DidlErrorView::Malformed(message@),
            DidlError::Unbalanced => DidlErrorView::Unbalanced,
            DidlError::Unescape(message) => DidlErrorView::Unescape(message@),
            DidlError::NotFound(tag) => DidlErrorView::NotFound(tag@),
        }
    }
}

/// How far the scan of a track's metadata has come.
#[derive(Debug, Clone, PartialEq, Eq)]
pub struct ScanState {
    /// Whether the next token lies inside the wanted element.
    pub inside: bool,
    /// How many elements are open.
    pub depth: usize,
    /// The first text inside the wanted element, still escaped, once it
    /// was read.
    pub found: Option<String>,
}

/// A [`ScanState`] as a mathematical value.
pub struct ScanView {
    pub inside: bool,
    pub depth: int,
    pub found: Option<Seq<char>>,
}

impl View for ScanState {
    type V = ScanView;

    open spec fn view(&self) -> ScanView {
        ScanView { inside: self.inside, depth: self.depth as int, found: text_of(self.found) }
    }
}

/// What the scan of a track's metadata does after a token.
#[derive(Debug, Clone, PartialEq, Eq)]
pub enum ScanStep {
    /// Read on, from this state.
    Continue(ScanState),
    /// The document is complete; the wanted text, still escaped, if it
    /// holds any.
    Complete(Option<String>),
    /// An element is closed that is not open, or the document ends with an
    /// element still open.
    Unbalanced,
    /// The document is malformed; the reader's message.
    Malformed(String),
}

/// A [`ScanStep`] as a mathematical value.
pub enum ScanStepView {
    Continue(ScanView),
    Complete(Option<Seq<char>>),
    Unbalanced,
    Malformed(Seq<char>),
}

impl View for ScanStep {
    type V = ScanStepView;

    open spec fn view(&self) -> ScanStepView {
        match self {
            ScanStep::Continue(state) => ScanStepView::Continue(state@),
            ScanStep::Complete(found) => ScanStepView::Complete(text_of(*found)),
            ScanStep::Unbalanced => ScanStepView::Unbalanced,
            ScanStep::Malformed(message) => ScanStepView::Malformed(message@),
        }
    }
}

/// The outcome of a reading as a mathematical value.
pub open spec fn outcome_of(result: Result<String, DidlError>) -> Result<Seq<char>, DidlErrorView> {
    match result {
        Ok(value) => Ok(value@),
        Err(error) => Err(error@),
    }
}

/// The outcome of an unescaping as a mathematical value.
pub open spec fn unescaped_of(result: Result<String, String>) -> Result<Seq<char>, Seq<char>> {
    match result {
        Ok(text) => Ok(text@),
        Err(message) => Err(message@),
    }
}

/// The name that an element must have to match the tag `tag`: what follows
/// the tag's last colon, or all of it where it has none.
pub open spec fn tag_local(tag: Seq<u8>) -> Seq<u8> {
    tag.skip(last_index(tag, COLON) + 1)
}

/// Whether the token at `at` lies inside an element whose local name is
/// `target`: of the tags of that name before it, the last one opens.
pub open spec fn inside_at(tokens: Seq<Token>, target: Seq<u8>, at: int) -> bool
    decreases at,
{
    if at <= 0 {
        false
    } else {
        match tokens[at - 1] {
            Token::Start(name) => local_part(name) == target || inside_at(tokens, target, at - 1),
            Token::End(name) => local_part(name) != target && inside_at(tokens, target, at - 1),
            _ => inside_at(tokens, target, at - 1),
        }
    }
}

/// How many elements are open after the first `upto` tokens: those that
/// were opened less those that were closed.
pub open spec fn open_elements(tokens: Seq<Token>, upto: int) -> int
    decreases upto,
{
    if upto <= 0 {
        0
    } else {
        open_elements(tokens, upto - 1) + match tokens[upto - 1] {
            Token::Start(_) => 1int,
            Token::End(_) => -1int,
            _ => 0int,
        }
    }
}

/// Whether the document closes every element it opens and no other: no
/// element is closed that is not open, and none is open at the end.
pub open spec fn balanced(tokens: Seq<Token>) -> bool {
    &&& forall|upto: int| 0 <= upto <= tokens.len() ==> open_elements(tokens, upto) >= 0
    &&& open_elements(tokens, tokens.len() as int) == 0
}

/// Whether the document is complete: it ends without a fault, and is
/// balanced.
pub open spec fn complete(tokens: Seq<Token>) -> bool {
    tokens.last() is Eof && balanced(tokens)
}

/// Whether the token at `at` is text inside the wanted element.
pub open spec fn wanted_text_at(tokens: Seq<Token>, target: Seq<u8>, at: int) -> bool {
    tokens[at] is Text && inside_at(tokens, target, at)
}

/// Whether the token at `at` is the first text inside the wanted element.
pub open spec fn first_wanted_text(tokens: Seq<Token>, target: Seq<u8>, at: int) -> bool {
    &&& 0 <= at < tokens.len()
    &&& wanted_text_at(tokens, target, at)
    &&& forall|before: int| 0 <= before < at ==> !wanted_text_at(tokens, target, before)
}

/// The first text inside the wanted element, still escaped, if the
/// document holds any.
pub open spec fn wanted_text(tokens: Seq<Token>, target: Seq<u8>) -> Option<Seq<char>> {
    if exists|at: int| first_wanted_text(tokens, target, at) {
        Some(tokens[choose|at: int| first_wanted_text(tokens, target, at)]->Text_0)
    } else {
        None
    }
}

/// What unescaped text is worth as the value of `tag`: empty text counts as
/// no value.
pub open spec fn text_value(unescaped: Result<Seq<char>, Seq<char>>, tag: Seq<char>) -> Result<
    Seq<char>,
    DidlErrorView,
> {
    match unescaped {
        Ok(value) => if value.len() == 0 {
            Err(DidlErrorView::NotFound(tag))
        } else {
            Ok(value)
        },
        Err(message) => Err(DidlErrorView::Unescape(message)),
    }
}

/// What the wanted text of a complete document is worth as the value of
/// `tag`.
pub open spec fn found_value(found: Option<Seq<char>>, tag: Seq<char>) -> Result<
    Seq<char>,
    DidlErrorView,
> {
    match found {
        Some(raw) => text_value(xml_unescaped(raw), tag),
        None => Err(DidlErrorView::NotFound(tag)),
    }
}

/// The value of `tag` in the document `tokens`: the unescaped text of the
/// first text token inside an element whose local name is `target`.
///
/// Only a complete document has values. One that the reader faults, and
/// one that is not balanced, is an error whatever it holds.
pub open spec fn didl_value(tokens: Seq<Token>, target: Seq<u8>, tag: Seq<char>) -> Result<
    Seq<char>,
    DidlErrorView,
> {
    if exists|upto: int| 0 <= upto <= tokens.len() && open_elements(tokens, upto) < 0 {
        Err(DidlErrorView::Unbalanced)
    } else {
        match tokens.last() {
            Token::Invalid(message) => Err(DidlErrorView::Malformed(message)),
            _ => if open_elements(tokens, tokens.len() as int) != 0 {
                Err(DidlErrorView::Unbalanced)
            } else {
                found_value(wanted_text(tokens, target), tag)
            },
        }
    }
}

/// The state in which a scan starts: outside the wanted element, with no
/// element open and nothing found.
pub open spec fn scan_start() -> ScanView {
    ScanView { inside: false, depth: 0, found: None }
}

/// What the scan for `target` does after `token`.
pub open spec fn scan_step(state: ScanView, token: Token, target: Seq<u8>) -> ScanStepView {
    match token {
        Token::Start(name) => ScanStepView::Continue(
            ScanView {
                inside: state.inside || local_part(name) == target,
                depth: state.depth + 1,
                ..state
            },
        ),
        Token::End(name) => if state.depth <= 0 {
            ScanStepView::Unbalanced
        } else {
            ScanStepView::Continue(
                ScanView {
                    inside: state.inside && local_part(name) != target,
                    depth: state.depth - 1,
                    ..state
                },
            )
        },
        Token::Text(raw) => ScanStepView::Continue(
            ScanView {
                found: if state.inside && state.found is None {
                    Some(raw)
                } else {
                    state.found
                },
                ..state
            },
        ),
        Token::Other => ScanStepView::Continue(state),
        Token::Eof => if state.depth == 0 {
            ScanStepView::Complete(state.found)
        } else {
            ScanStepView::Unbalanced
        },
        Token::Invalid(message) => ScanStepView::Malformed(message),
    }
}

/// Whether `state` is what the scan for `target` knows after the first
/// `at` tokens of a document that is balanced so far.
pub open spec fn scanned(state: ScanView, tokens: Seq<Token>, target: Seq<u8>, at: int) -> bool {
    &&& state.inside == inside_at(tokens, target, at)
    &&& state.depth == open_elements(tokens, at)
    &&& forall|upto: int| 0 <= upto <= at ==> open_elements(tokens, upto) >= 0
    &&& match state.found {
        Some(raw) => exists|first: int|
            first < at && first_wanted_text(tokens, target, first) && tokens[first]
                == Token::Text(raw),
        None => forall|before: int| 0 <= before < at ==> !wanted_text_at(tokens, target, before),
    }
}

/// The three tagged values of a track's metadata: title, artist, album.
/// Blank metadata has none; a value that cannot be read is absent.
pub open spec fn metadata_fields(metadata: Seq<char>) -> (
    Option<Seq<char>>,
    Option<Seq<char>>,
    Option<Seq<char>>,
) {
    if blank(metadata) {
        (None, None, None)
    } else {
        (
            field_of(metadata, TITLE_TAG),
            field_of(metadata, ARTIST_TAG),
            field_of(metadata, ALBUM_TAG),
        )
    }
}

/// The value of `tag` in `metadata`, if it can be read.
pub open spec fn field_of(metadata: Seq<char>, tag: &str) -> Option<Seq<char>> {
    match didl_value(xml_tokens(metadata), tag_local(tag.spec_bytes()), tag@) {
        Ok(value) => Some(value),
        Err(_) => None,
    }
}

/// There is at most one first text inside the wanted element.
pub proof fn lemma_first_wanted_text_unique(tokens: Seq<Token>, target: Seq<u8>, a: int, b: int)
    requires
        first_wanted_text(tokens, target, a),
        first_wanted_text(tokens, target, b),
    ensures
        a == b,
{
    if a < b {
        assert(!wanted_text_at(tokens, target, a));
    } else if b < a {
        assert(!wanted_text_at(tokens, target, b));
    }
}

/// No more elements are open than tokens were read.
pub proof fn lemma_open_elements_bound(tokens: Seq<Token>, upto: int)
    ensures
        open_elements(tokens, upto) <= upto || upto < 0,
    decreases upto,
{
    if upto > 0 {
        lemma_open_elements_bound(tokens, upto - 1);
    }
}

/// A step of the scan keeps what the scan knows: after a token that lets
/// it read on, the state is that of one token more.
pub proof fn lemma_scan_step_reads_on(
    state: ScanView,
    tokens: Seq<Token>,
    target: Seq<u8>,
    at: int,
)
    requires
        0 <= at < tokens.len(),
        scanned(state, tokens, target, at),
    ensures
        scan_step(state, tokens[at], target) matches ScanStepView::Continue(next) ==> scanned(
            next,
            tokens,
            target,
            at + 1,
        ),
        scan_step(state, tokens[at], target) is Unbalanced && tokens[at] is End ==> open_elements(
            tokens,
            at + 1,
        ) < 0,
{
    if let ScanStepView::Continue(next) = scan_step(state, tokens[at], target) {
        assert forall|upto: int| 0 <= upto <= at + 1 implies open_elements(tokens, upto) >= 0 by {
            if upto == at + 1 {
                assert(open_elements(tokens, at + 1) == next.depth);
            }
        }
        match next.found {
            Some(raw) => {
                if state.found is None {
                    assert(first_wanted_text(tokens, target, at));
                } else {
                    let first = choose|first: int|
                        first < at && first_wanted_text(tokens, target, first) && tokens[first]
                            == Token::Text(raw);
                    assert(first < at + 1);
                }
            },
            None => {
                assert forall|before: int| 0 <= before < at + 1 implies !wanted_text_at(
                    tokens,
                    target,
                    before,
                ) by {
                    if before == at {
                        assert(!(tokens[at] is Text && state.inside));
                    }
                }
            },
        }
    }
}

/// What the scan has found at the end of a document is the document's
/// wanted text.
pub proof fn lemma_scan_finds_wanted_text(state: ScanView, tokens: Seq<Token>, target: Seq<u8>)
    requires
        tokens.len() > 0,
        !(tokens.last() is Text),
        scanned(state, tokens, target, tokens.len() - 1),
    ensures
        state.found == wanted_text(tokens, target),
{
    let end = tokens.len() - 1;
    match state.found {
        Some(raw) => {
            let first = choose|first: int|
                first < end && first_wanted_text(tokens, target, first) && tokens[first]
                    == Token::Text(raw);
            let chosen = choose|at: int| first_wanted_text(tokens, target, at);
            lemma_first_wanted_text_unique(tokens, target, first, chosen);
        },
        None => {
            if exists|at: int| first_wanted_text(tokens, target, at) {
                let at = choose|at: int| first_wanted_text(tokens, target, at);
                assert(wanted_text_at(tokens, target, at));
                assert(at < end);
            }
        },
    }
}

/// Text that holds no escape is its own unescaped form, so where the
/// wanted text of a complete document is such text and not empty, it is
/// the value as it stands.
pub proof fn lemma_plain_text_is_the_value(
    tokens: Seq<Token>,
    target: Seq<u8>,
    tag: Seq<char>,
    raw: Seq<char>,
)
    requires
        complete(tokens),
        wanted_text(tokens, target) == Some(raw),
        xml_unescaped(raw) == Ok::<Seq<char>, Seq<char>>(raw),
        raw.len() > 0,
    ensures
        didl_value(tokens, target, tag) == Ok::<Seq<char>, DidlErrorView>(raw),
{
}

/// A document that the reader faults has no values, and neither has one
/// that ends with an element open.
pub proof fn lemma_incomplete_document_is_an_error(
    tokens: Seq<Token>,
    target: Seq<u8>,
    tag: Seq<char>,
)
    requires
        ends_in_terminal(tokens),
        !complete(tokens),
    ensures
        didl_value(tokens, target, tag) is Err,
        !(didl_value(tokens, target, tag)->Err_0 is NotFound),
        !(didl_value(tokens, target, tag)->Err_0 is Unescape),
{
}

/// The three tags look for elements named `title`, `creator` and `album`,
/// whatever prefix the elements have.
pub proof fn lemma_tags_look_for_local_names()
    ensures
        tag_local(TITLE_TAG.spec_bytes()) == "title".spec_bytes(),
        tag_local(ARTIST_TAG.spec_bytes()) == "creator".spec_bytes(),
        tag_local(ALBUM_TAG.spec_bytes()) == "album".spec_bytes(),
{
    broadcast use vstd::string::is_ascii_spec_bytes;

    reveal_strlit("dc:title");
    reveal_strlit("title");
    reveal_strlit("dc:creator");
    reveal_strlit("creator");
    reveal_strlit("upnp:album");
    reveal_strlit("album");
    assert(vstd::string::is_ascii(TITLE_TAG) && vstd::string::is_ascii("title"));
    assert(vstd::string::is_ascii(ARTIST_TAG) && vstd::string::is_ascii("creator"));
    assert(vstd::string::is_ascii(ALBUM_TAG) && vstd::string::is_ascii("album"));
    let title = TITLE_TAG.spec_bytes();
    assert(title =~= seq![100u8, 99u8, 58u8, 116u8, 105u8, 116u8, 108u8, 101u8]);
    lemma_last_index_is(title, COLON, 2);
    assert(title.skip(3) =~= "title".spec_bytes());
    let artist = ARTIST_TAG.spec_bytes();
    assert(artist =~= seq![100u8, 99u8, 58u8, 99u8, 114u8, 101u8, 97u8, 116u8, 111u8, 114u8]);
    lemma_last_index_is(artist, COLON, 2);
    assert(artist.skip(3) =~= "creator".spec_bytes());
    let album = ALBUM_TAG.spec_bytes();
    assert(album =~= seq![117u8, 112u8, 110u8, 112u8, 58u8, 97u8, 108u8, 98u8, 117u8, 109u8]);
    lemma_last_index_is(album, COLON, 4);
    assert(album.skip(5) =~= "album".spec_bytes());
}

impl DidlError {
    /// The error in words.
    pub fn message(&self) -> (text: String)
        ensures
            text@ == match self@ {
                DidlErrorView::Malformed(cause) => "Error parsing XML: "@ + cause,
                DidlErrorView::Unbalanced => "Error parsing XML: unbalanced elements"@,
                DidlErrorView::Unescape(cause) => "Failed to unescape XML text: "@ + cause,
                DidlErrorView::NotFound(tag) => "Tag "@ + tag + " not found or empty"@,
            },
    {
        match self {
            DidlError::Malformed(cause) => String::from_str("Error parsing XML: ").concat(
                cause.as_str(),
            ),
            DidlError::Unbalanced => String::from_str("Error parsing XML: unbalanced elements"),
            DidlError::Unescape(cause) => String::from_str("Failed to unescape XML text: ").concat(
                cause.as_str(),
            ),
            DidlError::NotFound(tag) => String::from_str("Tag ").concat(tag.as_str()).concat(
                " not found or empty",
            ),
        }
    }
}

/// The address of the control interface of the player at `device_ip`.
pub fn base_url(device_ip: &str) -> (url: String)
    ensures
        url@ == "http://"@ + device_ip@ + ":1400"@,
{
    String::from_str("http://").concat(device_ip).concat(":1400")
}

/// The request that asks the player at `base_url` for its position and the
/// track it is playing.
pub fn position_info_request(base_url: &str) -> (request: SoapRequest)
    ensures
        request.url@ == base_url@ + CONTROL_PATH@,
        request.soap_action@ == POSITION_INFO_ACTION@,
        request.content_type@ == SOAP_CONTENT_TYPE@,
        request.body@ == POSITION_INFO_BODY@,
{
    SoapRequest {
        url: String::from_str(base_url).concat(CONTROL_PATH),
        soap_action: String::from_str(POSITION_INFO_ACTION),
        content_type: String::from_str(SOAP_CONTENT_TYPE),
        body: String::from_str(POSITION_INFO_BODY),
    }
}

/// The name that an element must have to match `tag`.
pub fn tag_local_name(tag: &str) -> (local: Vec<u8>)
    ensures
        local@ == tag_local(tag.spec_bytes()),
{
    let bytes = tag.as_bytes();
    let mut start: usize = bytes.len();
    while start > 0 && bytes[start - 1] != COLON
        invariant
            start <= bytes.len(),
            forall|j: int| start <= j < bytes.len() ==> bytes[j] != COLON,
        decreases start,
    {
        start -= 1;
    }
    proof {
        lemma_last_index_is(bytes@, COLON, start as int - 1);
        assert(bytes@.subrange(start as int, bytes.len() as int) == bytes@.skip(start as int));
    }
    slice_to_vec(slice_subrange(bytes, start, bytes.len()))
}

impl ScanState {
    /// The state in which a scan starts.
    pub fn start() -> (state: Self)
        ensures
            state@ == scan_start(),
    {
        ScanState { inside: false, depth: 0, found: None }
    }
}

/// One step of the scan for the element named `target`.
pub fn scan_token(state: ScanState, token: XmlToken, target: &[u8]) -> (next: ScanStep)
    requires
        token@ is Start ==> state.depth < usize::MAX,
    ensures
        next@ == scan_step(state@, token@, target@),
{
    match token {
        XmlToken::Start(name) => {
            let local = local_name(name.as_slice());
            let opens = bytes_equal(local.as_slice(), target);
            ScanStep::Continue(
                ScanState {
                    inside: state.inside || opens,
                    depth: state.depth + 1,
                    found: state.found,
                },
            )
        },
        XmlToken::End(name) => {
            if state.depth == 0 {
                return ScanStep::Unbalanced;
            }
            let local = local_name(name.as_slice());
            let closes = bytes_equal(local.as_slice(), target);
            ScanStep::Continue(
                ScanState {
                    inside: state.inside && !closes,
                    depth: state.depth - 1,
                    found: state.found,
                },
            )
        },
        XmlToken::Text(raw) => {
            let found = if state.inside && state.found.is_none() {
                Some(raw)
            } else {
                state.found
            };
            ScanStep::Continue(ScanState { inside: state.inside, depth: state.depth, found })
        },
        XmlToken::Other => ScanStep::Continue(state),
        XmlToken::Eof => if state.depth == 0 {
            ScanStep::Complete(state.found)
        } else {
            ScanStep::Unbalanced
        },
        XmlToken::Invalid(message) => ScanStep::Malformed(message),
    }
}

/// What the unescaped text of the wanted element is worth as the value of
/// `tag`.
pub fn value_from_text(unescaped: Result<String, String>, tag: &str) -> (result: Result<
    String,
    DidlError,
>)
    ensures
        outcome_of(result) == text_value(unescaped_of(unescaped), tag@),
{
    match unescaped {
        Ok(value) => if value.as_str().is_empty() {
            Err(DidlError::NotFound(String::from_str(tag)))
        } else {
            Ok(value)
        },
        Err(message) => Err(DidlError::Unescape(message)),
    }
}

/// Reads the value of `tag` from the metadata `xml`.
///
/// The value is the text of the first element with the tag's local name
/// that holds text, whatever prefix the element has, with its escapes
/// resolved. The metadata must be a complete document: it is an error if
/// the reader faults it anywhere, and if it closes an element that is not
/// open or ends with one still open. In a complete document it is an error
/// if there is no such text, and if the text cannot be unescaped. Text
/// that holds no `&` has no escapes, and is the value as it stands.
pub fn extract_didl_value(xml: &str, tag: &str) -> (result: Result<String, DidlError>)
    ensures
        outcome_of(result) == didl_value(xml_tokens(xml@), tag_local(tag.spec_bytes()), tag@),
        complete(xml_tokens(xml@)) ==> match wanted_text(
            xml_tokens(xml@),
            tag_local(tag.spec_bytes()),
        ) {
            Some(raw) => raw.len() > 0 && !raw.contains('&') ==> outcome_of(result) == Ok::<
                Seq<char>,
                DidlErrorView,
            >(raw),
            None => outcome_of(result) == Err::<Seq<char>, DidlErrorView>(
                DidlErrorView::NotFound(tag@),
            ),
        },
{
    let target = tag_local_name(tag);
    let limit = xml.as_bytes().len();
    let mut reader = trimming_reader(xml);
    let ghost tokens = xml_tokens(xml@);
    let ghost mut at: int = 0;
    let mut state = ScanState::start();
    assert(tokens.skip(0) == tokens);
    loop
        invariant
            ends_in_terminal(tokens),
            tokens.len() <= limit + 1,
            0 <= at < tokens.len(),
            reader_pending(reader) == tokens.skip(at),
            scanned(state@, tokens, target@, at),
            tokens == xml_tokens(xml@),
            target@ == tag_local(tag.spec_bytes()),
        decreases tokens.len() - at,
    {
        let token = next_token(&mut reader);
        assert(token@ == tokens[at]);
        assert(tokens.skip(at).skip(1) == tokens.skip(at + 1));
        proof {
            lemma_open_elements_bound(tokens, at);
            lemma_scan_step_reads_on(state@, tokens, target@, at);
            if at == tokens.len() - 1 {
                lemma_scan_finds_wanted_text(state@, tokens, target@);
            }
        }
        match scan_token(state, token, target.as_slice()) {
            ScanStep::Continue(next) => {
                state = next;
                proof {
                    at = at + 1;
                }
            },
            ScanStep::Complete(found) => {
                return match found {
                    Some(raw) => value_from_text(unescape(raw.as_str()), tag),
                    None => Err(DidlError::NotFound(String::from_str(tag))),
                };
            },
            ScanStep::Unbalanced => {
                return Err(DidlError::Unbalanced);
            },
            ScanStep::Malformed(message) => {
                return Err(DidlError::Malformed(message));
            },
        }
    }
}

/// Reads a position answer: the track's tagged values out of its metadata,
/// and the two durations as they stand.
///
/// Metadata that is blank, as from an idle player, gives a track without
/// title, artist and album. A value that is missing or cannot be read is
/// absent, and the others are read all the same.
pub fn get_sonos_info(info: PositionInfo) -> (response: SonosResponse)
    ensures
        (text_of(response.title), text_of(response.artist), text_of(response.album))
            == metadata_fields(info.track_meta_data@),
        response.position@ == info.rel_time@,
        response.duration@ == info.track_duration@,
{
    let (title, artist, album) = if is_blank(info.track_meta_data.as_str()) {
        (None, None, None)
    } else {
        (
            extract_didl_value(info.track_meta_data.as_str(), TITLE_TAG).ok(),
            extract_didl_value(info.track_meta_data.as_str(), ARTIST_TAG).ok(),
            extract_didl_value(info.track_meta_data.as_str(), ALBUM_TAG).ok(),
        )
    };
    SonosResponse { title, artist, album, position: info.rel_time, duration: info.track_duration }
}

impl From<SonosResponse> for PlaybackState {
    fn from(response: SonosResponse) -> (state: Self) {
        PlaybackState {
            title: response.title,
            artist: response.artist,
            album: response.album,
            position: Some(response.position),
            duration: Some(response.duration),
        }
    }
}

impl vstd::std_specs::convert::FromSpecImpl<SonosResponse> for PlaybackState {
    open spec fn obeys_from_spec() -> bool {
        true
    }

    open spec fn from_spec(response: SonosResponse) -> Self {
        PlaybackState {
            title: response.title,
            artist: response.artist,
            album: response.album,
            position: Some(response.position),
            duration: Some(response.duration),
        }
    }
}

/// The playback state that a position answer describes.
pub fn get_current_track_info(info: PositionInfo) -> (state: PlaybackState)
    ensures
        (text_of(state.title), text_of(state.artist), text_of(state.album)) == metadata_fields(
            info.track_meta_data@,
        ),
        text_of(state.position) == Some(info.rel_time@),
        text_of(state.duration) == Some(info.track_duration@),
{
    PlaybackState::from(get_sonos_info(info))
}

} // verus!
