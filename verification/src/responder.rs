//! The editor responder's routing rule: a finished result goes either to a
//! one-shot fifo named in the request's metadata, or onto the persistent
//! editor-facing channel. The two paths are made explicit as a tagged
//! variant, and the choice is a total function of the metadata.

use vstd::prelude::*;

use crate::types::{EditorMeta, EditorResponse};

verus! {

/// A one-shot write of a command to a named pipe, to be performed
/// synchronously by the caller that owns the filesystem edge.
pub struct FifoWrite {
    pub path: String,
    pub command: String,
}

/// Where one finished result must go.
pub enum Delivery {
    Channel(EditorResponse),
    Fifo(FifoWrite),
}

/// The routing rule: a fifo target set in the metadata wins; otherwise the
/// result rides the persistent channel together with its metadata.
pub open spec fn route_spec(meta: EditorMeta, command: String) -> Delivery {
    match meta.fifo {
        Some(p) => Delivery::Fifo(FifoWrite { path: p, command }),
        None => Delivery::Channel(EditorResponse { meta, command }),
    }
}

/// Decide the delivery path for one finished result.
pub fn route(meta: EditorMeta, command: String) -> (d: Delivery)
    ensures
        d == route_spec(meta, command),
{
    let EditorMeta { session, client, buffile, fifo } = meta;
    match fifo {
        Some(path) => Delivery::Fifo(FifoWrite { path, command }),
        None => Delivery::Channel(
            EditorResponse { meta: EditorMeta { session, client, buffile, fifo: None }, command },
        ),
    }
}

} // verus!
