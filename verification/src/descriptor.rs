//! Session descriptors and their JSON form.

use crate::codec::{
    decode, decode_spec, encode_spec, lemma_decode_encode, text_result, try_encode,
    try_encode_spec,
};
use crate::error::SignalError;
use crate::text::same_text;
use vstd::prelude::*;

verus! {

/// serde_json's `Value`, read only through `json_string_member`.
#[verifier::external_type_specification]
#[verifier::external_body]
pub struct ExJsonValue(serde_json::Value);

/// serde_json's `Error`, of which nothing is read.
#[verifier::external_type_specification]
#[verifier::external_body]
pub struct ExJsonError(serde_json::Error);

/// The members of a JSON object whose values are strings, by key. A value
/// that is no object has none.
pub uninterp spec fn json_strings(value: serde_json::Value) -> Map<Seq<char>, Seq<char>>;

/// What serde_json reads from a text: the string members of the value that
/// the text holds, or nothing where it refuses the text.
pub uninterp spec fn json_document(text: Seq<char>) -> Option<Map<Seq<char>, Seq<char>>>;

/// The text that serde_json writes for an object of two string members, in
/// this order.
pub uninterp spec fn json_object_text(
    first_key: Seq<char>,
    first: Seq<char>,
    second_key: Seq<char>,
    second: Seq<char>,
) -> Seq<char>;

/// The string members of an object made of two of them, the second put in
/// after the first.
pub open spec fn two_members(
    first_key: Seq<char>,
    first: Seq<char>,
    second_key: Seq<char>,
    second: Seq<char>,
) -> Map<Seq<char>, Seq<char>> {
    Map::<Seq<char>, Seq<char>>::empty().insert(first_key, first).insert(second_key, second)
}

/// `serde_json::from_str` at the type `Value`. The contract claims that
/// whether it accepts a text, and which string members the value then has,
/// depends on the text alone.
#[verifier::external_body]
fn json_parse(text: &str) -> (r: Result<serde_json::Value, serde_json::Error>)
    ensures
        r matches Ok(value) ==> json_document(text@) == Some(json_strings(value)),
        r is Err ==> json_document(text@) is None,
{
    serde_json::from_str::<serde_json::Value>(text)
}

/// `Value::get` with a string key. The contract claims that it hands out the
/// member of that key where the value is an object and the member a string,
/// and nothing in every other case.
#[verifier::external_body]
fn json_string_member(value: &serde_json::Value, key: &str) -> (r: Option<String>)
    ensures
        r matches Some(s) ==> json_strings(*value).contains_key(key@) && json_strings(*value)[key@]
            == s@,
        r is None ==> !json_strings(*value).contains_key(key@),
{
    match value.get(key) {
        Some(serde_json::Value::String(s)) => Some(s.clone()),
        _ => None,
    }
}

/// `serde_json::to_string` on an object that `Map::insert` filled with two
/// strings. The contract claims that it always writes, since it writes into
/// a vector and the keys and values are strings; that the text depends on
/// the four strings alone; and that serde_json reads from it the members
/// that were put in.
#[verifier::external_body]
fn json_write_object(first_key: &str, first: &str, second_key: &str, second: &str) -> (r: Result<
    String,
    serde_json::Error,
>)
    ensures
        r is Ok,
        r matches Ok(text) ==> text@ == json_object_text(first_key@, first@, second_key@, second@)
            && json_document(text@) == Some(two_members(first_key@, first@, second_key@, second@)),
{
    let mut members = serde_json::Map::new();
    members.insert(first_key.to_owned(), serde_json::Value::String(first.to_owned()));
    members.insert(second_key.to_owned(), serde_json::Value::String(second.to_owned()));
    serde_json::to_string(&serde_json::Value::Object(members))
}

/// The kind of a session descriptor.
#[derive(Clone, Copy, Debug, PartialEq, Eq, Structural)]
pub enum SdpKind {
    /// An offer.
    Offer,
    /// An answer that is not final.
    Pranswer,
    /// A final answer.
    Answer,
    /// A return to the last stable state.
    Rollback,
}

impl SdpKind {
    /// The word that stands for the kind in a signaling message.
    pub open spec fn tag(self) -> Seq<char> {
        match self {
            SdpKind::Offer => "offer"@,
            SdpKind::Pranswer => "pranswer"@,
            SdpKind::Answer => "answer"@,
            SdpKind::Rollback => "rollback"@,
        }
    }

    /// The kind that a word stands for.
    pub open spec fn of_tag(tag: Seq<char>) -> Option<SdpKind> {
        if tag == "offer"@ {
            Some(SdpKind::Offer)
        } else if tag == "pranswer"@ {
            Some(SdpKind::Pranswer)
        } else if tag == "answer"@ {
            Some(SdpKind::Answer)
        } else if tag == "rollback"@ {
            Some(SdpKind::Rollback)
        } else {
            None
        }
    }

    /// The word that stands for the kind in a signaling message.
    pub fn as_str(&self) -> (r: &'static str)
        ensures
            r@ == self.tag(),
    {
        match self {
            SdpKind::Offer => "offer",
            SdpKind::Pranswer => "pranswer",
            SdpKind::Answer => "answer",
            SdpKind::Rollback => "rollback",
        }
    }

    /// The kind that a word stands for, if it stands for one.
    pub fn from_tag(tag: &str) -> (r: Option<SdpKind>)
        ensures
            r == Self::of_tag(tag@),
    {
        if same_text(tag, "offer") {
            Some(SdpKind::Offer)
        } else if same_text(tag, "pranswer") {
            Some(SdpKind::Pranswer)
        } else if same_text(tag, "answer") {
            Some(SdpKind::Answer)
        } else if same_text(tag, "rollback") {
            Some(SdpKind::Rollback)
        } else {
            None
        }
    }

    /// Every kind is the one that its own word stands for.
    pub proof fn lemma_tag_round_trip(self)
        ensures
            Self::of_tag(self.tag()) == Some(self),
    {
        reveal_strlit("offer");
        reveal_strlit("pranswer");
        reveal_strlit("answer");
        reveal_strlit("rollback");
        assert("offer"@.len() == 5);
        assert("answer"@.len() == 6);
        assert("pranswer"@.len() == 8);
        assert("rollback"@.len() == 8);
        assert("pranswer"@[0] == 'p');
        assert("rollback"@[0] == 'r');
    }
}

/// A session descriptor: what one peer tells the other of its transport. It
/// stays as it was made.
#[derive(Clone, Debug, PartialEq, Eq)]
pub struct SessionDescriptor {
    kind: SdpKind,
    sdp: String,
}

/// A session descriptor as a mathematical value.
pub struct DescriptorView {
    /// Whether this is an offer, an answer, and so on.
    pub kind: SdpKind,
    /// The characters of the session description.
    pub sdp: Seq<char>,
}

impl View for SessionDescriptor {
    type V = DescriptorView;

    closed spec fn view(&self) -> DescriptorView {
        DescriptorView { kind: self.kind, sdp: self.sdp@ }
    }
}

/// A result that holds a descriptor, read as one that holds its view.
pub open spec fn descriptor_result(r: Result<SessionDescriptor, SignalError>) -> Result<
    DescriptorView,
    SignalError,
> {
    match r {
        Ok(d) => Ok(d@),
        Err(e) => Err(e),
    }
}

/// The key of the member that holds the kind.
pub open spec fn type_key() -> Seq<char> {
    "type"@
}

/// The key of the member that holds the session description.
pub open spec fn sdp_key() -> Seq<char> {
    "sdp"@
}

/// The two keys differ.
pub proof fn lemma_keys_differ()
    ensures
        type_key() != sdp_key(),
{
    reveal_strlit("type");
    reveal_strlit("sdp");
    assert("type"@.len() != "sdp"@.len());
}

/// The string members of the JSON form of a descriptor.
pub open spec fn descriptor_members(d: DescriptorView) -> Map<Seq<char>, Seq<char>> {
    two_members(type_key(), d.kind.tag(), sdp_key(), d.sdp)
}

/// The JSON text of a descriptor: an object with the kind under `type`, then
/// the session description under `sdp`.
pub open spec fn descriptor_json(d: DescriptorView) -> Seq<char> {
    json_object_text(type_key(), d.kind.tag(), sdp_key(), d.sdp)
}

/// The member of a key, where there is one.
pub open spec fn member(members: Map<Seq<char>, Seq<char>>, key: Seq<char>) -> Option<Seq<char>> {
    if members.contains_key(key) {
        Some(members[key])
    } else {
        None
    }
}

/// The descriptor that the members `type` and `sdp` of a document make.
pub open spec fn descriptor_of_fields(kind: Option<Seq<char>>, sdp: Option<Seq<char>>) -> Result<
    DescriptorView,
    SignalError,
> {
    match kind {
        None => Err(SignalError::MissingType),
        Some(tag) => match SdpKind::of_tag(tag) {
            None => Err(SignalError::UnknownType),
            Some(kind) => match sdp {
                None => Err(SignalError::MissingSdp),
                Some(sdp) => Ok(DescriptorView { kind, sdp }),
            },
        },
    }
}

/// The descriptor that a JSON document holds.
pub open spec fn descriptor_of_document(document: Option<Map<Seq<char>, Seq<char>>>) -> Result<
    DescriptorView,
    SignalError,
> {
    match document {
        None => Err(SignalError::InvalidJson),
        Some(members) => descriptor_of_fields(
            member(members, type_key()),
            member(members, sdp_key()),
        ),
    }
}

/// The descriptor that a signaling message holds: base64 of JSON.
pub open spec fn descriptor_of_wire(wire: Seq<char>) -> Result<DescriptorView, SignalError> {
    match decode_spec(wire) {
        Err(e) => Err(e),
        Ok(json) => descriptor_of_document(json_document(json)),
    }
}

/// The signaling message of a descriptor: base64 of its JSON text.
pub open spec fn descriptor_wire(d: DescriptorView) -> Seq<char> {
    encode_spec(descriptor_json(d))
}

/// A document with the members of a descriptor holds that descriptor.
pub proof fn lemma_members_round_trip(d: DescriptorView)
    ensures
        descriptor_of_document(Some(descriptor_members(d))) == Ok::<DescriptorView, SignalError>(d),
{
    lemma_keys_differ();
    d.kind.lemma_tag_round_trip();
}

/// A descriptor written out for the peer.
#[derive(Clone, Debug, PartialEq, Eq)]
pub struct SignalingMessage {
    /// The JSON text of the descriptor.
    pub json: String,
    /// The JSON text in base64: the line that is handed to the peer.
    pub wire: String,
}

/// A descriptor written out for the peer, as a mathematical value.
pub struct MessageView {
    /// The characters of the JSON text.
    pub json: Seq<char>,
    /// The characters of the line that is handed to the peer.
    pub wire: Seq<char>,
}

impl View for SignalingMessage {
    type V = MessageView;

    open spec fn view(&self) -> MessageView {
        MessageView { json: self.json@, wire: self.wire@ }
    }
}

/// A result that holds a message, read as one that holds its view.
pub open spec fn message_result(r: Result<SignalingMessage, SignalError>) -> Result<
    MessageView,
    SignalError,
> {
    match r {
        Ok(m) => Ok(m@),
        Err(e) => Err(e),
    }
}

/// What a descriptor is written out as: its JSON text and that text in
/// base64, or `TooLong` where the JSON text is too long for base64.
pub open spec fn message_of(d: DescriptorView) -> Result<MessageView, SignalError> {
    match try_encode_spec(descriptor_json(d)) {
        Ok(wire) => Ok(MessageView { json: descriptor_json(d), wire }),
        Err(e) => Err(e),
    }
}

/// A signaling message reads back as the descriptor that it was made from,
/// wherever serde_json reads from the JSON text of the descriptor the members
/// that were put in.
pub proof fn lemma_wire_round_trip(d: DescriptorView)
    requires
        json_document(descriptor_json(d)) == Some(descriptor_members(d)),
    ensures
        descriptor_of_wire(descriptor_wire(d)) == Ok::<DescriptorView, SignalError>(d),
{
    lemma_decode_encode(descriptor_json(d));
    lemma_members_round_trip(d);
}

impl SessionDescriptor {
    /// A descriptor of the given kind.
    pub fn new(kind: SdpKind, sdp: String) -> (r: SessionDescriptor)
        ensures
            r@ == (DescriptorView { kind, sdp: sdp@ }),
    {
        SessionDescriptor { kind, sdp }
    }

    /// Whether this is an offer, an answer, and so on.
    pub fn kind(&self) -> (kind: SdpKind)
        ensures
            kind == self@.kind,
    {
        self.kind
    }

    /// The session description itself.
    pub fn sdp(&self) -> (sdp: &str)
        ensures
            sdp@ == self@.sdp,
    {
        self.sdp.as_str()
    }

    /// The descriptor that the members `type` and `sdp` of a document make.
    pub fn from_fields(kind: Option<String>, sdp: Option<String>) -> (r: Result<
        SessionDescriptor,
        SignalError,
    >)
        ensures
            descriptor_result(r) == descriptor_of_fields(
                match kind {
                    Some(k) => Some(k@),
                    None => None,
                },
                match sdp {
                    Some(s) => Some(s@),
                    None => None,
                },
            ),
    {
        match kind {
            None => Err(SignalError::MissingType),
            Some(tag) => match SdpKind::from_tag(tag.as_str()) {
                None => Err(SignalError::UnknownType),
                Some(kind) => match sdp {
                    None => Err(SignalError::MissingSdp),
                    Some(sdp) => Ok(SessionDescriptor { kind, sdp }),
                },
            },
        }
    }

    /// Reads a descriptor from JSON text. Members other than `type` and `sdp`
    /// are passed over, and of a member that comes twice serde_json keeps the
    /// last.
    pub fn from_json(text: &str) -> (r: Result<SessionDescriptor, SignalError>)
        ensures
            descriptor_result(r) == descriptor_of_document(json_document(text@)),
    {
        match json_parse(text) {
            Err(_) => Err(SignalError::InvalidJson),
            Ok(value) => {
                let kind = json_string_member(&value, "type");
                let sdp = json_string_member(&value, "sdp");
                Self::from_fields(kind, sdp)
            },
        }
    }

    /// Writes the descriptor as JSON text. It always succeeds, and the text
    /// reads back as this descriptor.
    pub fn to_json(&self) -> (r: Result<String, SignalError>)
        ensures
            r matches Ok(text) && text@ == descriptor_json(self@) && json_document(text@) == Some(
                descriptor_members(self@),
            ) && descriptor_of_document(json_document(text@)) == Ok::<DescriptorView, SignalError>(
                self@,
            ),
    {
        match json_write_object("type", self.kind.as_str(), "sdp", self.sdp.as_str()) {
            Ok(text) => {
                proof {
                    lemma_members_round_trip(self@);
                }
                Ok(text)
            },
            Err(_) => Err(SignalError::InvalidJson),
        }
    }

    /// Reads a descriptor from a signaling message.
    pub fn from_wire(wire: &str) -> (r: Result<SessionDescriptor, SignalError>)
        ensures
            descriptor_result(r) == descriptor_of_wire(wire@),
    {
        match decode(wire) {
            Err(e) => Err(e),
            Ok(json) => Self::from_json(json.as_str()),
        }
    }

    /// Writes the descriptor as a signaling message: its JSON text in
    /// base64. The error is `TooLong` exactly where the JSON text is too long
    /// for base64. A message that was written reads back as this descriptor.
    pub fn to_wire(&self) -> (r: Result<String, SignalError>)
        ensures
            text_result(r) == try_encode_spec(descriptor_json(self@)),
            r matches Ok(wire) ==> wire@ == descriptor_wire(self@) && descriptor_of_wire(wire@)
                == Ok::<DescriptorView, SignalError>(self@),
    {
        match self.to_json() {
            Err(e) => Err(e),
            Ok(json) => {
                proof {
                    lemma_wire_round_trip(self@);
                }
                try_encode(json.as_str())
            },
        }
    }

    /// Writes the descriptor out for the peer: its JSON text, and that text
    /// in base64. The error is `TooLong` exactly where the JSON text is too
    /// long for base64. The base64 line of a message that was written reads
    /// back as this descriptor.
    pub fn to_message(&self) -> (r: Result<SignalingMessage, SignalError>)
        ensures
            message_result(r) == message_of(self@),
            r matches Ok(m) ==> descriptor_of_wire(m@.wire) == Ok::<DescriptorView, SignalError>(
                self@,
            ),
    {
        match self.to_json() {
            Err(e) => Err(e),
            Ok(json) => {
                proof {
                    lemma_wire_round_trip(self@);
                }
                match try_encode(json.as_str()) {
                    Err(e) => Err(e),
                    Ok(wire) => Ok(SignalingMessage { json, wire }),
                }
            },
        }
    }
}

} // verus!
