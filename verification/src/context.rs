//! The session context: one value per (editor-session, language,
//! project-root) triple, exclusively owning the request-id allocator, the
//! response waitlist, the per-document state, and the two outbound channels.

use vstd::prelude::*;

use std::collections::HashMap;

use crate::channel::channel_send;
use crate::responder::{route, Delivery, FifoWrite};
use crate::strmap::StrMap;
use crate::types::{
    ChannelClosed, Config, EditorMeta, EditorParams, EditorRequest, EditorResponse, PendingEntry,
};
use crate::wire::{build_call, build_notification, params_ok, to_wire_params, ParamsField, ServerMessage};

verus! {

/// State of one editor-to-backend conversation.
pub struct Context {
    pub capabilities: Option<lsp_types::ServerCapabilities>,
    pub config: Config,
    pub diagnostics: StrMap<Vec<lsp_types::Diagnostic>>,
    pub editor_tx: crossbeam_channel::Sender<EditorResponse>,
    pub lang_srv_tx: crossbeam_channel::Sender<ServerMessage>,
    pub language_id: String,
    pub pending_requests: Vec<EditorRequest>,
    pub request_counter: u64,
    pub response_waitlist: HashMap<u64, PendingEntry>,
    pub root_path: String,
    pub session: String,
    pub versions: StrMap<u64>,
}

impl Context {
    /// Internal consistency: the string-keyed stores hold each key once, and
    /// every id still waited on was issued by this context's allocator, so a
    /// fresh id is never already in the waitlist.
    pub open spec fn wf(self) -> bool {
        &&& self.diagnostics.wf()
        &&& self.versions.wf()
        &&& forall|id: u64| self.response_waitlist@.contains_key(id) ==> id < self.request_counter
    }

    /// The version counter a document is at: its stored value, or zero if it
    /// was never opened.
    pub open spec fn stored_version(self, path: Seq<char>) -> u64 {
        if self.versions@.contains_key(path) {
            self.versions@[path]
        } else {
            0u64
        }
    }

    /// The cached diagnostics of a document: the last sequence stored for
    /// it, or the empty sequence if none ever arrived.
    pub open spec fn diagnostics_of(self, path: Seq<char>) -> Seq<lsp_types::Diagnostic> {
        if self.diagnostics@.contains_key(path) {
            self.diagnostics@[path]@
        } else {
            Seq::empty()
        }
    }

    pub fn new(
        language_id: &str,
        initial_request: EditorRequest,
        lang_srv_tx: crossbeam_channel::Sender<ServerMessage>,
        editor_tx: crossbeam_channel::Sender<EditorResponse>,
        config: Config,
        root_path: String,
    ) -> (ctx: Self)
        ensures
            ctx.wf(),
            ctx.capabilities is None,
            ctx.config == config,
            ctx.diagnostics@ == Map::<Seq<char>, Vec<lsp_types::Diagnostic>>::empty(),
            ctx.editor_tx == editor_tx,
            ctx.lang_srv_tx == lang_srv_tx,
            ctx.language_id@ == language_id@,
            ctx.pending_requests@ == seq![initial_request],
            ctx.request_counter == 0,
            ctx.response_waitlist@ == Map::<u64, PendingEntry>::empty(),
            ctx.root_path == root_path,
            ctx.session == initial_request.meta.session,
            ctx.versions@ == Map::<Seq<char>, u64>::empty(),
    {
        let session = initial_request.meta.session.clone();
        let mut pending_requests: Vec<EditorRequest> = Vec::new();
        pending_requests.push(initial_request);
        Context {
            capabilities: None,
            config,
            diagnostics: StrMap::new(),
            editor_tx,
            lang_srv_tx,
            language_id: language_id.to_owned(),
            pending_requests,
            request_counter: 0,
            response_waitlist: HashMap::new(),
            root_path,
            session,
            versions: StrMap::new(),
        }
    }

    // ------------------------------------------------------------------
    // Identifier allocator
    // ------------------------------------------------------------------

    /// Hand out the next request id: the pre-increment counter value. Ids
    /// are unique for the context's lifetime and never reused; the counter
    /// wrapping around is treated as unreachable.
    pub fn next_request_id(&mut self) -> (id: u64)
        requires
            old(self).request_counter < u64::MAX,
        ensures
            allocates(*old(self), *final(self), id),
    {
        let id = self.request_counter;
        self.request_counter = self.request_counter + 1;
        id
    }

    // ------------------------------------------------------------------
    // Response waitlist
    // ------------------------------------------------------------------

    /// Record the editor context to resume once the reply to `id` arrives.
    /// Each id is registered at most once, which ids from the allocator
    /// satisfy by construction.
    pub fn register(&mut self, id: u64, entry: PendingEntry)
        requires
            !old(self).response_waitlist@.contains_key(id),
        ensures
            registers(*old(self), *final(self), id, entry),
    {
        self.response_waitlist.insert(id, entry);
    }

    /// Remove and return the entry waiting on `id`. `None` reports an
    /// unknown id — a protocol anomaly on a reply, never fatal.
    pub fn take(&mut self, id: u64) -> (r: Option<PendingEntry>)
        ensures
            takes(*old(self), *final(self), id, r),
    {
        self.response_waitlist.remove(&id)
    }

    // ------------------------------------------------------------------
    // Session state store
    // ------------------------------------------------------------------

    /// Store the capabilities negotiated in the initialize handshake. Meant
    /// to be called once; a later call overwrites (last write wins).
    pub fn set_capabilities(&mut self, c: lsp_types::ServerCapabilities)
        ensures
            final(self).capabilities == Some(c),
            *final(self) == (Context { capabilities: final(self).capabilities, ..*old(self) }),
    {
        self.capabilities = Some(c);
    }

    pub fn get_capabilities(&self) -> (r: &Option<lsp_types::ServerCapabilities>)
        ensures
            *r == self.capabilities,
    {
        &self.capabilities
    }

    /// Advance a document's version counter and return the new value; a
    /// document never opened starts from zero.
    pub fn bump_version(&mut self, path: &String) -> (v: u64)
        requires
            old(self).wf(),
            old(self).stored_version(path@) < u64::MAX,
        ensures
            final(self).wf(),
            bumps(*old(self), *final(self), path@, v),
    {
        let cur: u64 = match self.versions.get(path) {
            Some(v) => *v,
            None => 0,
        };
        let v = cur + 1;
        self.versions.insert(path.clone(), v);
        v
    }

    /// The version a document is at, or `None` if it was never opened.
    pub fn get_version(&self, path: &String) -> (r: Option<u64>)
        requires
            self.wf(),
        ensures
            r == (if self.versions@.contains_key(path@) {
                Some(self.versions@[path@])
            } else {
                None::<u64>
            }),
    {
        match self.versions.get(path) {
            Some(v) => Some(*v),
            None => None,
        }
    }

    /// Replace a document's cached diagnostics wholesale — arrival order,
    /// last write wins, no merging.
    pub fn set_diagnostics(&mut self, path: String, diags: Vec<lsp_types::Diagnostic>)
        requires
            old(self).wf(),
        ensures
            final(self).wf(),
            sets_diagnostics(*old(self), *final(self), path@, diags),
    {
        self.diagnostics.insert(path, diags);
    }

    /// The most recently stored diagnostics of a document, empty if none
    /// ever arrived.
    pub fn get_diagnostics(&self, path: &String) -> (r: Vec<lsp_types::Diagnostic>)
        requires
            self.wf(),
        ensures
            r@ == self.diagnostics_of(path@),
    {
        match self.diagnostics.get(path) {
            Some(v) => {
                let n = v.len();
                let mut out: Vec<lsp_types::Diagnostic> = Vec::new();
                let mut i: usize = 0;
                while i < n
                    invariant
                        n == v@.len(),
                        i <= n,
                        out@ == v@.subrange(0, i as int),
                    decreases n - i,
                {
                    out.push(v[i].clone());
                    proof {
                        assert(out@ =~= v@.subrange(0, i + 1));
                    }
                    i = i + 1;
                }
                proof {
                    assert(out@ =~= v@);
                }
                out
            },
            None => Vec::new(),
        }
    }

    // ------------------------------------------------------------------
    // Outbound dispatcher
    // ------------------------------------------------------------------

    /// Send a method call under an already-allocated id. If the parameters
    /// do not serialize the call is dropped — nothing is sent and the
    /// context is untouched, so no waitlist entry can be left behind for
    /// it. `Ok(true)` means the envelope was handed to the backend channel;
    /// a closed channel is fatal to the session.
    pub fn call(&mut self, id: u64, method: String, params: EditorParams) -> (r: Result<
        bool,
        ChannelClosed,
    >)
        ensures
            *final(self) == *old(self),
            r matches Ok(sent) ==> (sent <==> params_ok(params)),
            r matches Err(_) ==> params_ok(params),
    {
        match build_call(id, method, params) {
            Some(msg) => match channel_send(&self.lang_srv_tx, msg) {
                Ok(()) => Ok(true),
                Err(_) => Err(ChannelClosed),
            },
            None => Ok(false),
        }
    }

    /// Send a notification. Empty parameters become the wire-level absence
    /// of the params field; parameters that do not serialize drop the
    /// notification with no further effect.
    pub fn notify(&mut self, method: String, params: EditorParams) -> (r: Result<
        bool,
        ChannelClosed,
    >)
        ensures
            *final(self) == *old(self),
            r matches Ok(sent) ==> (sent <==> params_ok(params)),
            r matches Err(_) ==> params_ok(params),
    {
        match build_notification(method, params) {
            Some(msg) => match channel_send(&self.lang_srv_tx, msg) {
                Ok(()) => Ok(true),
                Err(_) => Err(ChannelClosed),
            },
            None => Ok(false),
        }
    }

    /// The full outbound path for one editor intent, in the only order that
    /// cannot leak: serialize first, then allocate the id, record the entry
    /// under it, and send the call. A request whose parameters do not
    /// serialize is dropped whole — `Ok(None)`, context untouched. On
    /// success the fresh id is returned.
    pub fn dispatch(&mut self, request: EditorRequest) -> (r: Result<Option<u64>, ChannelClosed>)
        requires
            old(self).wf(),
            old(self).request_counter < u64::MAX,
        ensures
            final(self).wf(),
            (r == Ok::<Option<u64>, ChannelClosed>(None)) <==> !params_ok(request.params),
            !params_ok(request.params) ==> *final(self) == *old(self),
            params_ok(request.params) ==> dispatches(*old(self), *final(self), request)
                && (r matches Ok(o) ==> o == Some(old(self).request_counter)),
    {
        let EditorRequest { meta, method, params } = request;
        match to_wire_params(params.clone()) {
            None => Ok(None),
            Some(f) => {
                let id = self.next_request_id();
                self.register(id, PendingEntry { meta, method: method.clone(), params });
                let msg = ServerMessage::Call { id, method, params: f };
                match channel_send(&self.lang_srv_tx, msg) {
                    Ok(()) => Ok(Some(id)),
                    Err(_) => Err(ChannelClosed),
                }
            },
        }
    }

    // ------------------------------------------------------------------
    // Editor responder
    // ------------------------------------------------------------------

    /// Deliver a finished result to the editor. A fifo target named in the
    /// metadata is a synchronous filesystem edge, so the write is returned
    /// to the caller that owns it; otherwise the result is queued on the
    /// persistent editor channel, whose closing is fatal to the session.
    pub fn exec(&self, meta: EditorMeta, command: String) -> (r: Result<
        Option<FifoWrite>,
        ChannelClosed,
    >)
        ensures
            (match meta.fifo {
                Some(p) => r == Ok::<Option<FifoWrite>, ChannelClosed>(
                    Some((FifoWrite { path: p, command })),
                ),
                None => r matches Ok(o) ==> o is None,
            }),
            r matches Err(_) ==> meta.fifo is None,
    {
        match route(meta, command) {
            Delivery::Fifo(w) => Ok(Some(w)),
            Delivery::Channel(resp) => match channel_send(&self.editor_tx, resp) {
                Ok(()) => Ok(None),
                Err(_) => Err(ChannelClosed),
            },
        }
    }
}

/// One call of the identifier allocator: `id` is the pre-increment counter,
/// the counter advanced by one, and nothing else moved.
pub open spec fn allocates(pre: Context, post: Context, id: u64) -> bool {
    &&& id == pre.request_counter
    &&& post.request_counter == pre.request_counter + 1
    &&& post == (Context { request_counter: post.request_counter, ..pre })
}

/// One registration in the response waitlist.
pub open spec fn registers(pre: Context, post: Context, id: u64, entry: PendingEntry) -> bool {
    &&& post.response_waitlist@ == pre.response_waitlist@.insert(id, entry)
    &&& post == (Context { response_waitlist: post.response_waitlist, ..pre })
}

/// One consumption of a reply id: the entry comes out exactly when it was
/// waited on, and afterwards the id waits no more.
pub open spec fn takes(pre: Context, post: Context, id: u64, r: Option<PendingEntry>) -> bool {
    &&& r == (if pre.response_waitlist@.contains_key(id) {
        Some(pre.response_waitlist@[id])
    } else {
        None::<PendingEntry>
    })
    &&& post.response_waitlist@ == pre.response_waitlist@.remove(id)
    &&& post == (Context { response_waitlist: post.response_waitlist, ..pre })
}

/// One version bump: the stored counter of that document advanced by one,
/// other documents and the rest of the context untouched.
pub open spec fn bumps(pre: Context, post: Context, path: Seq<char>, v: u64) -> bool {
    &&& v == pre.stored_version(path) + 1
    &&& post.versions@ == pre.versions@.insert(path, v)
    &&& post == (Context { versions: post.versions, ..pre })
}

/// One diagnostics publication: the document's cache replaced wholesale.
pub open spec fn sets_diagnostics(
    pre: Context,
    post: Context,
    path: Seq<char>,
    diags: Vec<lsp_types::Diagnostic>,
) -> bool {
    &&& post.diagnostics@ == pre.diagnostics@.insert(path, diags)
    &&& post == (Context { diagnostics: post.diagnostics, ..pre })
}

/// One successful dispatch of an editor request: a fresh id was issued and
/// the pending entry recorded under it, and nothing else moved.
pub open spec fn dispatches(pre: Context, post: Context, request: EditorRequest) -> bool {
    &&& post.request_counter == pre.request_counter + 1
    &&& !pre.response_waitlist@.contains_key(pre.request_counter)
    &&& post.response_waitlist@ == pre.response_waitlist@.insert(
        pre.request_counter,
        (PendingEntry { meta: request.meta, method: request.method, params: request.params }),
    )
    &&& post == (Context {
        request_counter: post.request_counter,
        response_waitlist: post.response_waitlist,
        ..pre
    })
}

} // verus!
