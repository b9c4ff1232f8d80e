//! The two LSP data types the session state store holds for its owner. The
//! bridge never looks inside either: capabilities are set once after the
//! initialize handshake and read back whole, and diagnostics are cached per
//! document exactly as they arrived.

use vstd::prelude::*;

verus! {

/// Declares lsp_types::ServerCapabilities, carried whole from the
/// initialize handshake to whoever asks for it.
#[verifier::external_type_specification]
#[verifier::external_body]
pub struct ExServerCapabilities(lsp_types::ServerCapabilities);

/// Declares lsp_types::Diagnostic, cached per document exactly as received.
#[verifier::external_type_specification]
#[verifier::external_body]
pub struct ExDiagnostic(lsp_types::Diagnostic);

/// Relies on the derived Clone of lsp_types::Diagnostic: a field-by-field
/// copy of plain data, equal to the value it was made from.
pub assume_specification[ <lsp_types::Diagnostic as Clone>::clone ](
    d: &lsp_types::Diagnostic,
) -> (r: lsp_types::Diagnostic)
    ensures
        r == *d,
;

} // verus!
