//! Session correlation bridge between an interactive editor and an LSP
//! backend: it turns editor intents into JSON-RPC calls or notifications,
//! keeps the per-session state (request ids, pending requests, document
//! versions, diagnostics, negotiated capabilities), and routes each finished
//! result back to the editor over the right delivery path.

pub mod channel;
pub mod context;
pub mod laws;
pub mod lsp;
pub mod responder;
pub mod strmap;
pub mod types;
pub mod wire;
