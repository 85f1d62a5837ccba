//! Decoding one protocol line into a message.
//!
//! Each complete line is a JSON object. Three shapes exist: a reply that
//! names the request it answers, a reply without a request id, and a
//! spontaneous event, of which a property-change notification is a subtype.
//! The JSON parse itself is done by an outside library; everything that the
//! protocol reads out of the parsed object travels through [`LineFields`],
//! a record of plain values, and the classification of those fields into a
//! [`Message`] is verified against [`classify_model`].
//!
//! Payloads are carried as the JSON text of the line's `data` field; a reply
//! whose `data` field is absent carries the text `null`, which is how the
//! player's protocol spells an empty payload.

use vstd::prelude::*;

verus! {

/// What a decoded reply or notification carries: the JSON text of the
/// payload on success, the player's error message on failure.
pub type Outcome = Result<String, String>;

/// One decoded protocol message.
#[derive(Debug)]
pub enum Message {
    /// A reply naming the request it answers.
    Response { request_id: i64, data: Outcome },
    /// A reply the player produced with no correlation id; logged only.
    ResponseWithoutId { data: Outcome },
    /// A notification that an observed property has a new value.
    PropertyChange { name: String, data: String },
    /// Any other spontaneous notification.
    Event { event: String },
}

/// Why a line could not be decoded.
#[derive(Debug, Clone, Copy, PartialEq, Eq, Structural)]
pub enum DecodeError {
    /// The line is not a JSON value.
    NotJson,
    /// The line is JSON but has neither a reply shape nor an event shape.
    UnknownShape,
}

/// The fields that the protocol reads out of one parsed JSON line.
///
/// `has_request_id` records that the key is present at all; `request_id` is
/// set only when the key holds an integer. The string-valued fields are set
/// only when the key is present and holds a string. `data` is the payload
/// re-rendered as JSON text, set whenever the key is present.
#[derive(Debug)]
pub struct LineFields {
    pub has_request_id: bool,
    pub request_id: Option<i64>,
    pub error: Option<String>,
    pub data: Option<String>,
    pub event: Option<String>,
    pub name: Option<String>,
}

/// Mathematical image of [`LineFields`]: strings as character sequences.
pub struct LineFieldsModel {
    pub has_request_id: bool,
    pub request_id: Option<i64>,
    pub error: Option<Seq<char>>,
    pub data: Option<Seq<char>>,
    pub event: Option<Seq<char>>,
    pub name: Option<Seq<char>>,
}

impl DeepView for LineFields {
    type V = LineFieldsModel;

    open spec fn deep_view(&self) -> LineFieldsModel {
        LineFieldsModel {
            has_request_id: self.has_request_id,
            request_id: self.request_id,
            error: self.error.deep_view(),
            data: self.data.deep_view(),
            event: self.event.deep_view(),
            name: self.name.deep_view(),
        }
    }
}

/// Mathematical image of an [`Outcome`].
pub open spec fn outcome_view(o: Outcome) -> Result<Seq<char>, Seq<char>> {
    match o {
        Ok(d) => Ok(d@),
        Err(e) => Err(e@),
    }
}

/// Mathematical image of [`Message`].
pub enum MessageModel {
    Response { request_id: i64, data: Result<Seq<char>, Seq<char>> },
    ResponseWithoutId { data: Result<Seq<char>, Seq<char>> },
    PropertyChange { name: Seq<char>, data: Seq<char> },
    Event { event: Seq<char> },
}

impl DeepView for Message {
    type V = MessageModel;

    open spec fn deep_view(&self) -> MessageModel {
        match self {
            Message::Response { request_id, data } => MessageModel::Response {
                request_id: *request_id,
                data: outcome_view(*data),
            },
            Message::ResponseWithoutId { data } => MessageModel::ResponseWithoutId {
                data: outcome_view(*data),
            },
            Message::PropertyChange { name, data } => MessageModel::PropertyChange {
                name: name@,
                data: data@,
            },
            Message::Event { event } => MessageModel::Event { event: event@ },
        }
    }
}

/// Mathematical image of a decode result.
pub open spec fn decode_view(r: Result<Message, DecodeError>) -> Result<MessageModel, DecodeError> {
    match r {
        Ok(m) => Ok(m.deep_view()),
        Err(e) => Err(e),
    }
}

/// The parsed fields of one line, as a function of the line's bytes alone.
pub uninterp spec fn fields_of(line: Seq<u8>) -> Option<LineFieldsModel>;

/// Relies on `serde_json::from_slice` and `serde_json::Value`'s accessors
/// `get`, `as_i64` and `as_str`, and on `Value`'s JSON rendering for the
/// payload text: all are functions of the line's bytes alone.
#[verifier::external_body]
fn parse_line_fields(line: &[u8]) -> (r: Option<LineFields>)
    ensures
        r.deep_view() == fields_of(line@),
{
    let v: serde_json::Value = match serde_json::from_slice(line) {
        Ok(v) => v,
        Err(_) => return None,
    };
    Some(LineFields {
        has_request_id: v.get("request_id").is_some(),
        request_id: v.get("request_id").and_then(|x| x.as_i64()),
        error: v.get("error").and_then(|x| x.as_str()).map(|s| s.to_string()),
        data: v.get("data").map(|d| d.to_string()),
        event: v.get("event").and_then(|x| x.as_str()).map(|s| s.to_string()),
        name: v.get("name").and_then(|x| x.as_str()).map(|s| s.to_string()),
    })
}

/// The payload or error that a reply shape carries: success exactly when the
/// status string is `success`, with the payload defaulting to `null`.
pub open spec fn outcome_model(f: LineFieldsModel) -> Result<Seq<char>, Seq<char>> {
    match f.error {
        Some(e) => if e == "success"@ {
            Ok(payload_or_null(f.data))
        } else {
            Err(e)
        },
        None => Err(Seq::empty()),  // unreachable: callers test f.error first
    }
}

/// A payload text, or the text `null` where the field was absent.
pub open spec fn payload_or_null(data: Option<Seq<char>>) -> Seq<char> {
    match data {
        Some(d) => d,
        None => "null"@,
    }
}

/// How the parsed fields of one line classify into a message.
///
/// A line with a status string is a reply: correlated when it names an
/// integer request id, uncorrelated when the key is absent, and malformed
/// when the key is present but not an integer. A line without a status but
/// with an event name is a notification; the event `property-change`
/// together with a property name is a property-change notification. Anything
/// else has no known shape.
pub open spec fn classify_model(f: LineFieldsModel) -> Result<MessageModel, DecodeError> {
    match f.error {
        Some(_) => {
            if f.has_request_id {
                match f.request_id {
                    Some(id) => Ok(
                        MessageModel::Response { request_id: id, data: outcome_model(f) },
                    ),
                    None => Err(DecodeError::UnknownShape),
                }
            } else {
                Ok(MessageModel::ResponseWithoutId { data: outcome_model(f) })
            }
        },
        None => match f.event {
            Some(ev) => if ev == "property-change"@ && f.name is Some {
                Ok(
                    MessageModel::PropertyChange {
                        name: f.name.unwrap(),
                        data: payload_or_null(f.data),
                    },
                )
            } else {
                Ok(MessageModel::Event { event: ev })
            },
            None => Err(DecodeError::UnknownShape),
        },
    }
}

/// What one line of bytes decodes to.
pub open spec fn decode_line_model(line: Seq<u8>) -> Result<MessageModel, DecodeError> {
    match fields_of(line) {
        None => Err(DecodeError::NotJson),
        Some(f) => classify_model(f),
    }
}

/// What a sequence of complete lines decodes to, in order.
pub open spec fn decode_lines_model(lines: Seq<Seq<u8>>) -> Seq<Result<MessageModel, DecodeError>> {
    lines.map_values(|l: Seq<u8>| decode_line_model(l))
}

/// The mathematical images of a sequence of decode results.
pub open spec fn decode_views(rs: Seq<Result<Message, DecodeError>>) -> Seq<
    Result<MessageModel, DecodeError>,
> {
    rs.map_values(|r: Result<Message, DecodeError>| decode_view(r))
}

impl Message {
    /// Classifies the fields parsed out of one line.
    pub fn from_fields(f: LineFields) -> (r: Result<Message, DecodeError>)
        ensures
            decode_view(r) == classify_model(f.deep_view()),
    {
        let LineFields { has_request_id, request_id, error, data, event, name } = f;
        match error {
            Some(e) => {
                let success: String = "success".to_owned();
                let outcome: Outcome = if e == success {
                    Ok(unwrap_payload(data))
                } else {
                    Err(e)
                };
                if has_request_id {
                    match request_id {
                        Some(id) => Ok(Message::Response { request_id: id, data: outcome }),
                        None => Err(DecodeError::UnknownShape),
                    }
                } else {
                    Ok(Message::ResponseWithoutId { data: outcome })
                }
            },
            None => match event {
                Some(ev) => {
                    let property_change: String = "property-change".to_owned();
                    if ev == property_change {
                        match name {
                            Some(n) => Ok(
                                Message::PropertyChange { name: n, data: unwrap_payload(data) },
                            ),
                            None => Ok(Message::Event { event: ev }),
                        }
                    } else {
                        Ok(Message::Event { event: ev })
                    }
                },
                None => Err(DecodeError::UnknownShape),
            },
        }
    }

    /// Decodes one complete line: parse, then classify.
    pub fn from_slice(line: &[u8]) -> (r: Result<Message, DecodeError>)
        ensures
            decode_view(r) == decode_line_model(line@),
    {
        match parse_line_fields(line) {
            None => Err(DecodeError::NotJson),
            Some(f) => Message::from_fields(f),
        }
    }
}

/// The payload text, or `null` where the field was absent.
fn unwrap_payload(data: Option<String>) -> (r: String)
    ensures
        r@ == payload_or_null(data.deep_view()),
{
    match data {
        Some(d) => d,
        None => {
            let n: String = "null".to_owned();
            n
        },
    }
}

} // verus!
