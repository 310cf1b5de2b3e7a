//! The XML tokens that the metadata parser works on, and the `quick_xml`
//! reader that produces them.
//!
//! Nothing is proved here about `quick_xml` itself. What the parser relies
//! on is written down in this file, as the contracts of the four small
//! functions that make the calls, and is believed as written.

use quick_xml::events::BytesText;
use quick_xml::events::Event;
use quick_xml::name::QName;
use quick_xml::Reader;
use vstd::prelude::*;
use vstd::string::StringSliceAdditionalSpecFns;

verus! {

/// The byte that parts a prefix from a local name.
pub const COLON: u8 = 58;

/// A token of an XML document, as a mathematical value.
pub enum Token {
    /// An opening tag, with its qualified name.
    Start(Seq<u8>),
    /// A closing tag, with its qualified name.
    End(Seq<u8>),
    /// Character data between tags, still escaped.
    Text(Seq<char>),
    /// Markup that carries no name and no text: a comment, a declaration, an
    /// element closed in its own tag, and the like.
    Other,
    /// The end of the document.
    Eof,
    /// The document is malformed here; the reader's message.
    Invalid(Seq<char>),
}

/// A token of an XML document.
#[derive(Debug, Clone, PartialEq, Eq)]
pub enum XmlToken {
    Start(Vec<u8>),
    End(Vec<u8>),
    Text(String),
    Other,
    Eof,
    Invalid(String),
}

impl View for XmlToken {
    type V = Token;

    open spec fn view(&self) -> Token {
        match self {
            XmlToken::Start(name) => Token::Start(name@),
            XmlToken::End(name) => Token::End(name@),
            XmlToken::Text(raw) => Token::Text(raw@),
            XmlToken::Other => Token::Other,
            XmlToken::Eof => Token::Eof,
            XmlToken::Invalid(message) => Token::Invalid(message@),
        }
    }
}

/// The token ends a document: nothing is read after it.
pub open spec fn is_terminal(token: Token) -> bool {
    token is Eof || token is Invalid
}

/// `tokens` is a whole document: it ends in a terminal token and holds no
/// other.
pub open spec fn ends_in_terminal(tokens: Seq<Token>) -> bool {
    &&& tokens.len() > 0
    &&& is_terminal(tokens.last())
    &&& forall|i: int| 0 <= i < tokens.len() - 1 ==> !is_terminal(#[trigger] tokens[i])
}

/// The index of the first `byte` in `bytes`, or the length of `bytes` where
/// it holds none.
pub open spec fn first_index(bytes: Seq<u8>, byte: u8) -> int
    decreases bytes.len(),
{
    if bytes.len() == 0 {
        0
    } else if bytes[0] == byte {
        0
    } else {
        1 + first_index(bytes.drop_first(), byte)
    }
}

/// The index of the last `byte` in `bytes`, or -1 where it holds none.
pub open spec fn last_index(bytes: Seq<u8>, byte: u8) -> int
    decreases bytes.len(),
{
    if bytes.len() == 0 {
        -1
    } else if bytes.last() == byte {
        bytes.len() - 1
    } else {
        last_index(bytes.drop_last(), byte)
    }
}

/// The local part of a qualified name: what follows its first colon, or all
/// of it where it has none.
pub open spec fn local_part(name: Seq<u8>) -> Seq<u8> {
    if first_index(name, COLON) < name.len() {
        name.skip(first_index(name, COLON) + 1)
    } else {
        name
    }
}

#[verifier::external_type_specification]
#[verifier::external_body]
#[verifier::reject_recursive_types(R)]
pub struct ExReader<R>(Reader<R>);

/// The tokens that a reader which trims text yields on `input`, from the
/// first up to and including the first end of document or error.
pub uninterp spec fn xml_tokens(input: Seq<char>) -> Seq<Token>;

/// The tokens that `reader` has yet to yield, up to and including the first
/// end of document or error.
pub uninterp spec fn reader_pending(reader: Reader<&[u8]>) -> Seq<Token>;

/// What unescaping makes of the escaped text `raw`: the text with each
/// entity and character reference resolved, or the message of the error.
pub uninterp spec fn xml_unescaped(raw: Seq<char>) -> Result<Seq<char>, Seq<char>>;

/// A reader over `xml` that trims the white space around text:
/// `Reader::from_str`, then `trim_text(true)`.
///
/// Believed: what the reader will yield depends on `xml` alone. Every
/// token before the end of the document or the first error takes up at
/// least one byte of `xml`, so there are no more of them than `xml` has
/// bytes.
#[verifier::external_body]
pub(crate) fn trimming_reader<'a>(xml: &'a str) -> (reader: Reader<&'a [u8]>)
    ensures
        reader_pending(reader) == xml_tokens(xml@),
        ends_in_terminal(reader_pending(reader)),
        reader_pending(reader).len() <= xml.spec_bytes().len() + 1,
{
    let mut reader = Reader::from_str(xml);
    reader.trim_text(true);
    reader
}

/// The next token of `reader`: `Reader::read_event_into`.
///
/// Believed: the reader yields its pending tokens in order. A start or end
/// tag is handed on with the bytes of its name, text with its content as
/// read, an error with its message; every other kind of markup is `Other`.
#[verifier::external_body]
pub(crate) fn next_token(reader: &mut Reader<&[u8]>) -> (token: XmlToken)
    requires
        reader_pending(*old(reader)).len() > 0,
    ensures
        token@ == reader_pending(*old(reader))[0],
        reader_pending(*final(reader)) == reader_pending(*old(reader)).skip(1),
{
    let mut buf = Vec::new();
    match reader.read_event_into(&mut buf) {
        Ok(Event::Start(e)) => XmlToken::Start(e.name().as_ref().to_vec()),
        Ok(Event::End(e)) => XmlToken::End(e.name().as_ref().to_vec()),
        Ok(Event::Text(e)) => XmlToken::Text(String::from_utf8_lossy(&e).into_owned()),
        Ok(Event::Eof) => XmlToken::Eof,
        Ok(_) => XmlToken::Other,
        Err(e) => XmlToken::Invalid(e.to_string()),
    }
}

/// The local part of the qualified name `name`: `QName::local_name`.
///
/// Believed: all of the name up to and including its first colon is
/// removed; a name without a colon is its own local part.
#[verifier::external_body]
pub(crate) fn local_name(name: &[u8]) -> (local: Vec<u8>)
    ensures
        local@ == local_part(name@),
{
    QName(name).local_name().as_ref().to_vec()
}

/// The text of a text token with its escapes resolved:
/// `BytesText::unescape`, on a text event whose content is `raw`.
///
/// Believed: the outcome depends on `raw` alone, and text that holds no `&`
/// comes back as it is.
#[verifier::external_body]
pub(crate) fn unescape(raw: &str) -> (result: Result<String, String>)
    ensures
        match result {
            Ok(text) => xml_unescaped(raw@) == Ok::<Seq<char>, Seq<char>>(text@),
            Err(message) => xml_unescaped(raw@) == Err::<Seq<char>, Seq<char>>(message@),
        },
        !raw@.contains('&') ==> result is Ok && result->Ok_0@ == raw@,
{
    match BytesText::from_escaped(raw).unescape() {
        Ok(text) => Ok(text.into_owned()),
        Err(error) => Err(error.to_string()),
    }
}

/// Whether two byte strings are the same.
pub fn bytes_equal(a: &[u8], b: &[u8]) -> (same: bool)
    ensures
        same == (a@ == b@),
{
    if a.len() != b.len() {
        return false;
    }
    let mut i: usize = 0;
    while i < a.len()
        invariant
            i <= a.len(),
            a.len() == b.len(),
            forall|j: int| 0 <= j < i ==> a[j] == b[j],
        decreases a.len() - i,
    {
        if a[i] != b[i] {
            return false;
        }
        i += 1;
    }
    assert(a@ =~= b@);
    true
}

/// `last_index` finds a `byte`, the last in `bytes`, and finds none only
/// where `bytes` holds none.
pub proof fn lemma_last_index(bytes: Seq<u8>, byte: u8)
    ensures
        -1 <= last_index(bytes, byte) < bytes.len(),
        last_index(bytes, byte) >= 0 ==> bytes[last_index(bytes, byte)] == byte,
        forall|j: int| last_index(bytes, byte) < j < bytes.len() ==> bytes[j] != byte,
    decreases bytes.len(),
{
    if bytes.len() > 0 && bytes.last() != byte {
        lemma_last_index(bytes.drop_last(), byte);
        assert forall|j: int| last_index(bytes, byte) < j < bytes.len() implies bytes[j]
            != byte by {
            if j < bytes.len() - 1 {
                assert(bytes.drop_last()[j] == bytes[j]);
            }
        }
    }
}

/// `first_index` finds a `byte`, the first in `bytes`, and finds none only
/// where `bytes` holds none.
pub proof fn lemma_first_index(bytes: Seq<u8>, byte: u8)
    ensures
        0 <= first_index(bytes, byte) <= bytes.len(),
        first_index(bytes, byte) < bytes.len() ==> bytes[first_index(bytes, byte)] == byte,
        forall|j: int| 0 <= j < first_index(bytes, byte) ==> bytes[j] != byte,
    decreases bytes.len(),
{
    if bytes.len() > 0 && bytes[0] != byte {
        let rest = bytes.drop_first();
        lemma_first_index(rest, byte);
        assert forall|j: int| 0 <= j < first_index(bytes, byte) implies bytes[j] != byte by {
            if j > 0 {
                assert(rest[j - 1] == bytes[j]);
            }
        }
    }
}

/// An index that holds `byte` and has no `byte` after it is the last
/// index of `byte`; and -1 is, where `bytes` holds no `byte` at all.
pub proof fn lemma_last_index_is(bytes: Seq<u8>, byte: u8, at: int)
    requires
        -1 <= at < bytes.len(),
        at >= 0 ==> bytes[at] == byte,
        forall|j: int| at < j < bytes.len() ==> bytes[j] != byte,
    ensures
        last_index(bytes, byte) == at,
    decreases bytes.len(),
{
    if bytes.len() > 0 && bytes.last() != byte {
        let shorter = bytes.drop_last();
        assert(at < bytes.len() - 1);
        assert forall|j: int| at < j < shorter.len() implies shorter[j] != byte by {
            assert(shorter[j] == bytes[j]);
        }
        if at >= 0 {
            assert(shorter[at] == bytes[at]);
        }
        lemma_last_index_is(shorter, byte, at);
    } else if bytes.len() > 0 {
        if at < bytes.len() - 1 {
            assert(bytes[bytes.len() - 1] != byte);
        }
    }
}

} // verus!
