//! Building outbound JSON-RPC envelopes. The payload of a parameter value is
//! opaque wire data; what the dispatcher itself decides — whether the
//! parameters serialize at all, and whether a notification's params field is
//! present or absent on the wire — is plain and proved exact.

use vstd::prelude::*;

use crate::types::EditorParams;

verus! {

/// Declares jsonrpc_core::Params, the opaque payload of a parameter value;
/// the dispatcher never looks inside one, only at how it was obtained.
#[verifier::external_type_specification]
#[verifier::external_body]
pub struct ExParams(jsonrpc_core::Params);

/// What parsing a parameter text as a JSON-RPC parameter value yields, as
/// far as the dispatcher reads it: `None` when the text is not a parameter
/// value at all, `Some(true)` when it parses to the distinguished
/// no-parameters value, `Some(false)` when it parses to a real payload.
pub uninterp spec fn parsed_wire_params(s: Seq<char>) -> Option<bool>;

/// The text parses as a wire parameter value.
pub open spec fn params_text_valid(s: Seq<char>) -> bool {
    parsed_wire_params(s) is Some
}

/// The text parses to the no-parameters value.
pub open spec fn params_text_blank(s: Seq<char>) -> bool {
    parsed_wire_params(s) == Some(true)
}

/// The params field of an outbound envelope. `Absent` stands for wire-level
/// absence of the field; `Present` carries a payload.
pub enum ParamsField {
    Absent,
    Present(jsonrpc_core::Params),
}

/// Relies on serde_json::from_str together with the Deserialize impl of
/// jsonrpc_core::Params: whether a text parses, and whether it parses to
/// Params::None (the no-parameters value), depends on the text alone.
#[verifier::external_body]
fn parse_params_text(s: &String) -> (r: Option<ParamsField>)
    ensures
        r is Some <==> parsed_wire_params(s@) is Some,
        r matches Some(f) ==> ((f is Absent) <==> parsed_wire_params(s@) == Some(true)),
{
    match serde_json::from_str::<jsonrpc_core::Params>(s) {
        Ok(jsonrpc_core::Params::None) => Some(ParamsField::Absent),
        Ok(p) => Some(ParamsField::Present(p)),
        Err(_) => None,
    }
}

/// The editor parameters convert to a wire parameter value.
pub open spec fn params_ok(p: EditorParams) -> bool {
    match p {
        EditorParams::Blank => true,
        EditorParams::Json(s) => params_text_valid(s@),
    }
}

/// The editor parameters convert to the no-parameters value.
pub open spec fn params_blank(p: EditorParams) -> bool {
    match p {
        EditorParams::Blank => true,
        EditorParams::Json(s) => params_text_blank(s@),
    }
}

/// Turn editor parameters into the wire params field, or report that the
/// payload does not serialize.
pub fn to_wire_params(p: EditorParams) -> (r: Option<ParamsField>)
    ensures
        r is Some <==> params_ok(p),
        r matches Some(f) ==> ((f is Absent) <==> params_blank(p)),
{
    match p {
        EditorParams::Blank => Some(ParamsField::Absent),
        EditorParams::Json(s) => parse_params_text(&s),
    }
}

/// One message bound for the backend transport. A `Call` always carries its
/// params field — when there are no parameters it rides as the explicit
/// no-parameters wire value — while a `Notification` whose field is `Absent`
/// is serialized without a params key at all: strict backends distinguish
/// the two.
pub enum ServerMessage {
    Call { id: u64, method: String, params: ParamsField },
    Notification { method: String, params: ParamsField },
}

/// Build a method-call envelope, or nothing when the parameters do not
/// serialize.
pub fn build_call(id: u64, method: String, params: EditorParams) -> (r: Option<ServerMessage>)
    ensures
        r is Some <==> params_ok(params),
        r matches Some(m) ==> (m matches ServerMessage::Call { id: i, method: mth, params: f }
            && i == id && mth == method && ((f is Absent) <==> params_blank(params))),
{
    match to_wire_params(params) {
        Some(f) => Some(ServerMessage::Call { id, method, params: f }),
        None => None,
    }
}

/// Build a notification envelope, or nothing when the parameters do not
/// serialize. The params field is absent exactly when the parameters are
/// empty.
pub fn build_notification(method: String, params: EditorParams) -> (r: Option<ServerMessage>)
    ensures
        r is Some <==> params_ok(params),
        r matches Some(m) ==> (m matches ServerMessage::Notification { method: mth, params: f }
            && mth == method && ((f is Absent) <==> params_blank(params))),
{
    match to_wire_params(params) {
        Some(f) => Some(ServerMessage::Notification { method, params: f }),
        None => None,
    }
}

} // verus!
