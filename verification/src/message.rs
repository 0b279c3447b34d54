//! Queue deliveries and the telemetry message that a valid one carries.

use crate::double::Double;
use vstd::prelude::*;
use vstd::string::StringExecFns;
use vstd::utf8::{decode_utf8, valid_utf8};

verus! {

/// The media type that a delivery must declare when nothing else is configured.
pub const DEFAULT_CONTENT_TYPE: &'static str = "application/json";

/// What the broker hands over for one delivery: the declared content type, if
/// any, and the body as it came.
#[derive(Clone, Debug, PartialEq, Eq)]
pub struct RawDelivery {
    pub content_type: Option<String>,
    pub data: Vec<u8>,
}

/// Mathematical value of a [`RawDelivery`].
#[verifier::ext_equal]
pub ghost struct RawDeliveryView {
    pub content_type: Option<Seq<char>>,
    pub data: Seq<u8>,
}

impl View for RawDelivery {
    type V = RawDeliveryView;

    open spec fn view(&self) -> RawDeliveryView {
        RawDeliveryView {
            content_type: match self.content_type {
                Some(declared) => Some(declared@),
                None => None,
            },
            data: self.data@,
        }
    }
}

/// One road-roughness sample as a device reports it.
#[derive(Clone, Debug, PartialEq, Eq)]
pub struct JsonMessage {
    pub lat: Double,
    pub lon: Double,
    pub timestamp: i64,
    pub device_id: String,
    pub bumpiness: i16,
}

/// Mathematical value of a [`JsonMessage`].
#[verifier::ext_equal]
pub ghost struct JsonMessageView {
    pub lat: Double,
    pub lon: Double,
    pub timestamp: int,
    pub device_id: Seq<char>,
    pub bumpiness: int,
}

impl View for JsonMessage {
    type V = JsonMessageView;

    open spec fn view(&self) -> JsonMessageView {
        JsonMessageView {
            lat: self.lat,
            lon: self.lon,
            timestamp: self.timestamp as int,
            device_id: self.device_id@,
            bumpiness: self.bumpiness as int,
        }
    }
}

impl DeepView for JsonMessage {
    type V = JsonMessageView;

    open spec fn deep_view(&self) -> JsonMessageView {
        self@
    }
}

/// Why a delivery was dropped before it reached a batch.
#[derive(Clone, Copy, Debug, PartialEq, Eq, Structural)]
pub enum RejectReason {
    /// The declared content type is missing or differs from the expected one.
    ContentTypeMismatch,
    /// The body is not a telemetry message.
    ParseError,
}

impl RejectReason {
    /// The text under which the rejection is logged.
    pub fn describe(&self) -> (text: String)
        ensures
            text@ == (match *self {
                RejectReason::ContentTypeMismatch => "Unsupported content type"@,
                RejectReason::ParseError => "Malformed telemetry message"@,
            }),
    {
        match self {
            RejectReason::ContentTypeMismatch => String::from_str("Unsupported content type"),
            RejectReason::ParseError => String::from_str("Malformed telemetry message"),
        }
    }
}

/// Whether a declared content type is the expected one. A delivery that
/// declares none never is.
pub open spec fn content_type_matches(declared: Option<Seq<char>>, expected: Seq<char>) -> bool {
    declared == Some(expected)
}

/// What a delivery yields, given what decoding its body against the message
/// schema gave: the message only if the content type is the expected one, the
/// body is text and the decoding succeeded.
pub open spec fn parse_outcome(
    delivery: RawDeliveryView,
    expected: Seq<char>,
    decoded: Option<JsonMessageView>,
) -> Result<JsonMessageView, RejectReason> {
    if !content_type_matches(delivery.content_type, expected) {
        Err(RejectReason::ContentTypeMismatch)
    } else if !valid_utf8(delivery.data) {
        Err(RejectReason::ParseError)
    } else {
        match decoded {
            Some(message) => Ok(message),
            None => Err(RejectReason::ParseError),
        }
    }
}

/// `std::str::from_utf8`.
///
/// Trusted: the bytes are accepted exactly when they are well-formed UTF-8,
/// and the text handed back is their decoding.
#[verifier::external_body]
pub(crate) fn text_of(bytes: &[u8]) -> (text: Option<&str>)
    ensures
        text is Some <==> valid_utf8(bytes@),
        text matches Some(t) ==> t@ == decode_utf8(bytes@),
{
    match std::str::from_utf8(bytes) {
        Ok(text) => Some(text),
        Err(_) => None,
    }
}

/// Whether `declared` is present and equal to `expected`.
pub fn content_type_accepted(declared: &Option<String>, expected: &String) -> (accepted: bool)
    ensures
        accepted == content_type_matches(
            match *declared {
                Some(d) => Some(d@),
                None => None,
            },
            expected@,
        ),
{
    match declared {
        Some(content_type) => *content_type == *expected,
        None => false,
    }
}

/// A delivery together with the content type it is held to.
#[derive(Clone, Debug, PartialEq, Eq)]
pub struct QueueMessage {
    pub msg: RawDelivery,
    pub expected_content_type: String,
}

impl QueueMessage {
    /// Wraps a delivery. `configured` is the expected content type from the
    /// configuration; where it is absent the default JSON media type applies.
    pub fn new(message: RawDelivery, configured: Option<String>) -> (wrapped: QueueMessage)
        ensures
            wrapped.msg == message,
            wrapped.expected_content_type@ == (match configured {
                Some(expected) => expected@,
                None => DEFAULT_CONTENT_TYPE@,
            }),
    {
        let expected_content_type = match configured {
            Some(expected) => expected,
            None => String::from_str(DEFAULT_CONTENT_TYPE),
        };
        QueueMessage { msg: message, expected_content_type }
    }

    /// The body as text, for a delivery whose content type is the expected
    /// one and whose body is well-formed UTF-8; `None` for any other.
    pub fn body_text(&self) -> (text: Option<&str>)
        ensures
            text is Some <==> content_type_matches(
                self.msg@.content_type,
                self.expected_content_type@,
            ) && valid_utf8(self.msg.data@),
            text matches Some(t) ==> t@ == decode_utf8(self.msg.data@),
    {
        if content_type_accepted(&self.msg.content_type, &self.expected_content_type) {
            text_of(self.msg.data.as_slice())
        } else {
            None
        }
    }
}

/// Turning a delivery into a telemetry message.
pub trait MessageParser {
    /// The delivery and the content type expected of it.
    spec fn subject(&self) -> (RawDeliveryView, Seq<char>);

    /// Accepts or rejects the delivery. `decoded` is what decoding the body
    /// against the message schema gave, `None` where it failed.
    fn parse_message(&self, decoded: Option<JsonMessage>) -> (outcome: Result<
        JsonMessage,
        RejectReason,
    >)
        ensures
            (match outcome {
                Ok(message) => Ok::<JsonMessageView, RejectReason>(message@),
                Err(reason) => Err(reason),
            }) == parse_outcome(
                self.subject().0,
                self.subject().1,
                match decoded {
                    Some(message) => Some(message@),
                    None => None,
                },
            ),
    ;
}

impl MessageParser for QueueMessage {
    open spec fn subject(&self) -> (RawDeliveryView, Seq<char>) {
        (self.msg@, self.expected_content_type@)
    }

    fn parse_message(&self, decoded: Option<JsonMessage>) -> (outcome: Result<
        JsonMessage,
        RejectReason,
    >) {
        if !content_type_accepted(&self.msg.content_type, &self.expected_content_type) {
            return Err(RejectReason::ContentTypeMismatch);
        }
        if text_of(self.msg.data.as_slice()).is_none() {
            return Err(RejectReason::ParseError);
        }
        match decoded {
            Some(message) => Ok(message),
            None => Err(RejectReason::ParseError),
        }
    }
}

} // verus!
