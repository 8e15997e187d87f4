//! Classification of a payload by what its bytes hold.

use crate::shapes::LogMessage;
use crate::text::is_utf8;
use vstd::prelude::*;
use vstd::utf8::valid_utf8;

verus! {

/// The media type of a log record written as JSON.
pub const JSON: &'static str = "application/json";

/// The media type of a payload passed along as opaque bytes.
pub const PROTOBUF: &'static str = "application/x-protobuf";

/// What a payload was found to be.
#[derive(Clone, Copy, Debug, PartialEq, Eq, Structural)]
pub enum ClassificationResult {
    /// Text that decodes as a log record.
    Structured,
    /// Anything else: bytes that are no text, or text that is no log record.
    Opaque,
}

impl ClassificationResult {
    /// The media type that goes with the classification.
    pub open spec fn media_type(self) -> Seq<char> {
        match self {
            ClassificationResult::Structured => JSON@,
            ClassificationResult::Opaque => PROTOBUF@,
        }
    }

    /// The media type that goes with the classification.
    pub fn content_type(self) -> (name: &'static str)
        ensures
            name@ == self.media_type(),
    {
        match self {
            ClassificationResult::Structured => JSON,
            ClassificationResult::Opaque => PROTOBUF,
        }
    }
}

/// The classification of a payload, given whether its bytes are text and
/// whether that text decoded as a log record.
pub open spec fn classification(text: bool, record: bool) -> ClassificationResult {
    if text && record {
        ClassificationResult::Structured
    } else {
        ClassificationResult::Opaque
    }
}

/// The media type under which a payload is sent on: text goes out as JSON
/// whether or not it decoded as a log record, everything else as opaque bytes.
pub open spec fn forwarding_type(text: bool) -> Seq<char> {
    if text {
        JSON@
    } else {
        PROTOBUF@
    }
}

/// Classifies from the two findings about a payload.
pub fn classify_findings(text: bool, record: bool) -> (verdict: ClassificationResult)
    ensures
        verdict == classification(text, record),
{
    if text && record {
        ClassificationResult::Structured
    } else {
        ClassificationResult::Opaque
    }
}

/// Classifies `raw_bytes`, where `decoded` is the log record that their text
/// decoded to, if it did.
///
/// Bytes that are not well-formed UTF-8 are opaque whatever `decoded` holds;
/// text is structured exactly when it decoded.
pub fn classify(raw_bytes: &[u8], decoded: Option<&LogMessage>) -> (verdict: ClassificationResult)
    ensures
        verdict == classification(valid_utf8(raw_bytes@), decoded is Some),
        !valid_utf8(raw_bytes@) ==> verdict == ClassificationResult::Opaque && verdict.media_type()
            == PROTOBUF@,
        valid_utf8(raw_bytes@) && decoded is Some ==> verdict == ClassificationResult::Structured
            && verdict.media_type() == JSON@,
{
    classify_findings(is_utf8(raw_bytes), decoded.is_some())
}

/// The media type under which a payload is sent on, from whether it is text.
pub fn forwarding_content_type(text: bool) -> (name: &'static str)
    ensures
        name@ == forwarding_type(text),
{
    if text {
        JSON
    } else {
        PROTOBUF
    }
}

/// A structured payload is sent on under the media type of its
/// classification: the two ways of naming a media type agree wherever the
/// payload is a log record, and wherever it is no text.
pub proof fn forwarding_type_follows_classification(text: bool, record: bool)
    ensures
        classification(text, record) == ClassificationResult::Structured ==> forwarding_type(text)
            == classification(text, record).media_type(),
        !text ==> forwarding_type(text) == classification(text, record).media_type(),
{
}

} // verus!
