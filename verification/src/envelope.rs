//! The event envelope as the library models it: fixed attributes, typed
//! extensions and an optional payload, together with the mathematical view
//! each part is specified by.

use vstd::prelude::*;

verus! {

#[verifier::external_type_specification]
#[verifier::external_body]
pub struct ExJsonValue(serde_json::Value);

/// The compact serialized text of a structured JSON value. The text is a
/// function of the value alone; nothing further is assumed about it.
pub uninterp spec fn json_text_of(v: serde_json::Value) -> Seq<char>;

/// Relies on serde_json's `Display` implementation for `Value` (through
/// `to_string`): serialization is deterministic in the value.
#[verifier::external_body]
pub(crate) fn json_value_text(v: &serde_json::Value) -> (r: String)
    ensures
        r@ == json_text_of(*v),
{
    v.to_string()
}

/// A typed extension value: the type domain is closed to boolean, integer
/// and string.
#[derive(Debug, Clone)]
pub enum ExtensionValue {
    Boolean(bool),
    Integer(i64),
    Text(String),
}

/// The mathematical view of an extension value.
pub enum ExtVal {
    Boolean(bool),
    Integer(int),
    Text(Seq<char>),
}

impl View for ExtensionValue {
    type V = ExtVal;

    open spec fn view(&self) -> ExtVal {
        match self {
            ExtensionValue::Boolean(b) => ExtVal::Boolean(*b),
            ExtensionValue::Integer(i) => ExtVal::Integer(*i as int),
            ExtensionValue::Text(s) => ExtVal::Text(s@),
        }
    }
}

/// An event payload: structured JSON, plain text, or raw bytes of unknown
/// encoding.
pub enum Payload {
    Json(serde_json::Value),
    Text(String),
    Binary(Vec<u8>),
}

/// The mathematical view of a payload. A structured payload is viewed
/// through its serialized text.
pub enum PayloadModel {
    Json(Seq<char>),
    Text(Seq<char>),
    Binary(Seq<u8>),
}

impl View for Payload {
    type V = PayloadModel;

    open spec fn view(&self) -> PayloadModel {
        match self {
            Payload::Json(v) => PayloadModel::Json(json_text_of(*v)),
            Payload::Text(s) => PayloadModel::Text(s@),
            Payload::Binary(b) => PayloadModel::Binary(b@),
        }
    }
}

/// The model of an extension list: each name paired with its value's view.
pub open spec fn ext_pairs_model(exts: Seq<(String, ExtensionValue)>) -> Seq<(Seq<char>, ExtVal)> {
    exts.map_values(|p: (String, ExtensionValue)| (p.0@, p.1@))
}

/// The view of an optional string.
pub open spec fn opt_str_model(o: Option<String>) -> Option<Seq<char>> {
    match o {
        Option::Some(s) => Option::Some(s@),
        Option::None => Option::None,
    }
}

/// The view of an optional payload.
pub open spec fn opt_payload_model(o: Option<Payload>) -> Option<PayloadModel> {
    match o {
        Option::Some(p) => Option::Some(p@),
        Option::None => Option::None,
    }
}

/// An event envelope. The four fixed attributes are always present
/// (enforced upstream); everything else is optional. `time`, when present,
/// is the RFC 3339 text of a timezone-aware timestamp.
pub struct Envelope {
    pub specversion: String,
    pub id: String,
    pub source: String,
    pub event_type: String,
    pub datacontenttype: Option<String>,
    pub dataschema: Option<String>,
    pub subject: Option<String>,
    pub time: Option<String>,
    pub extensions: Vec<(String, ExtensionValue)>,
    pub data: Option<Payload>,
}

/// The mathematical view of an envelope.
pub struct EnvelopeModel {
    pub specversion: Seq<char>,
    pub id: Seq<char>,
    pub source: Seq<char>,
    pub event_type: Seq<char>,
    pub datacontenttype: Option<Seq<char>>,
    pub dataschema: Option<Seq<char>>,
    pub subject: Option<Seq<char>>,
    pub time: Option<Seq<char>>,
    pub extensions: Seq<(Seq<char>, ExtVal)>,
    pub data: Option<PayloadModel>,
}

impl View for Envelope {
    type V = EnvelopeModel;

    open spec fn view(&self) -> EnvelopeModel {
        EnvelopeModel {
            specversion: self.specversion@,
            id: self.id@,
            source: self.source@,
            event_type: self.event_type@,
            datacontenttype: opt_str_model(self.datacontenttype),
            dataschema: opt_str_model(self.dataschema),
            subject: opt_str_model(self.subject),
            time: opt_str_model(self.time),
            extensions: ext_pairs_model(self.extensions@),
            data: opt_payload_model(self.data),
        }
    }
}

/// Extension names are unique within one envelope.
pub open spec fn keys_unique(exts: Seq<(Seq<char>, ExtVal)>) -> bool {
    forall|i: int, j: int|
        0 <= i < exts.len() && 0 <= j < exts.len() && i != j ==> (#[trigger] exts[i]).0 != (
        #[trigger] exts[j]).0
}

impl Envelope {
    /// The envelope invariant the upstream parser establishes: extension
    /// names are unique.
    pub open spec fn wf(&self) -> bool {
        keys_unique(self@.extensions)
    }
}

} // verus!
