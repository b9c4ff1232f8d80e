//! Plain data the bridge exchanges with the editor-facing layer.

use vstd::prelude::*;

verus! {

/// Static configuration the session was started with: how the backend server
/// is launched. The bridge only carries it for its owner; it never interprets
/// the command itself.
pub struct Config {
    pub server_cmd: String,
    pub server_args: Vec<String>,
}

/// Everything the editor-facing layer needs to resume an intent once its
/// reply arrives: the owning session, the client within it, the buffer the
/// intent came from, and an optional one-shot fifo path for the answer.
pub struct EditorMeta {
    pub session: String,
    pub client: Option<String>,
    pub buffile: String,
    pub fifo: Option<String>,
}

/// Parameters of an editor intent. `Blank` means the intent carries no
/// parameters at all; `Json` carries a textual payload that is parsed into a
/// wire-level parameter value at dispatch time, and may fail to parse.
pub enum EditorParams {
    Blank,
    Json(String),
}

/// A unit of work requested by the editor: its metadata, the backend method
/// it asks for, and the parameters to pass along.
pub struct EditorRequest {
    pub meta: EditorMeta,
    pub method: String,
    pub params: EditorParams,
}

/// A finished result on its way back to the editor over the persistent
/// editor-facing channel.
pub struct EditorResponse {
    pub meta: EditorMeta,
    pub command: String,
}

/// What the response waitlist remembers about one outstanding request: the
/// editor context to resume, and the method and parameters it was sent with.
pub struct PendingEntry {
    pub meta: EditorMeta,
    pub method: String,
    pub params: EditorParams,
}

/// The peer of an outbound channel has gone away. Per the error policy this
/// is fatal to the whole session and is propagated to the owner.
pub struct ChannelClosed;

impl Clone for EditorParams {
    fn clone(&self) -> (r: Self)
        ensures
            r == *self,
    {
        match self {
            EditorParams::Blank => EditorParams::Blank,
            EditorParams::Json(s) => EditorParams::Json(s.clone()),
        }
    }
}

impl Clone for EditorMeta {
    fn clone(&self) -> (r: Self)
        ensures
            r == *self,
    {
        EditorMeta {
            session: self.session.clone(),
            client: match &self.client {
                Some(c) => Some(c.clone()),
                None => None,
            },
            buffile: self.buffile.clone(),
            fifo: match &self.fifo {
                Some(f) => Some(f.clone()),
                None => None,
            },
        }
    }
}

impl Clone for PendingEntry {
    fn clone(&self) -> (r: Self)
        ensures
            r == *self,
    {
        PendingEntry {
            meta: self.meta.clone(),
            method: self.method.clone(),
            params: self.params.clone(),
        }
    }
}

} // verus!
