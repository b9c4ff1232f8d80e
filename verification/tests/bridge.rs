//! Behavioral tests of the session bridge, run against the real outside
//! crates: the crossbeam channels, jsonrpc-core parameter values and
//! lsp-types data that the library's trusted layer touches.

use crossbeam_channel::{unbounded, Receiver, Sender};

use lsp_bridge::context::Context;
use lsp_bridge::responder::{route, Delivery, FifoWrite};
use lsp_bridge::types::{
    ChannelClosed, Config, EditorMeta, EditorParams, EditorRequest, EditorResponse, PendingEntry,
};
use lsp_bridge::wire::{build_call, build_notification, ParamsField, ServerMessage};

fn meta(fifo: Option<&str>) -> EditorMeta {
    EditorMeta {
        session: "kak-session".to_string(),
        client: Some("client0".to_string()),
        buffile: "/work/src/main.rs".to_string(),
        fifo: fifo.map(|f| f.to_string()),
    }
}

fn request(method: &str, params: EditorParams) -> EditorRequest {
    EditorRequest { meta: meta(None), method: method.to_string(), params }
}

fn config() -> Config {
    Config { server_cmd: "rust-analyzer".to_string(), server_args: Vec::new() }
}

fn new_context() -> (Context, Receiver<ServerMessage>, Receiver<EditorResponse>) {
    let (lang_srv_tx, lang_srv_rx): (Sender<ServerMessage>, _) = unbounded();
    let (editor_tx, editor_rx): (Sender<EditorResponse>, _) = unbounded();
    let ctx = Context::new(
        "rust",
        request("textDocument/didOpen", EditorParams::Blank),
        lang_srv_tx,
        editor_tx,
        config(),
        "/work".to_string(),
    );
    (ctx, lang_srv_rx, editor_rx)
}

#[test]
fn new_context_starts_clean() {
    let (ctx, _lang_rx, _ed_rx) = new_context();
    assert_eq!(ctx.request_counter, 0);
    assert_eq!(ctx.session, "kak-session");
    assert_eq!(ctx.language_id, "rust");
    assert_eq!(ctx.root_path, "/work");
    assert_eq!(ctx.pending_requests.len(), 1);
    assert_eq!(ctx.pending_requests[0].method, "textDocument/didOpen");
    assert!(ctx.capabilities.is_none());
}

#[test]
fn request_ids_strictly_increase() {
    let (mut ctx, _lang_rx, _ed_rx) = new_context();
    let a = ctx.next_request_id();
    let b = ctx.next_request_id();
    let c = ctx.next_request_id();
    assert_eq!(a, 0);
    assert_eq!(b, 1);
    assert_eq!(c, 2);
    assert!(a < b && b < c);
}

#[test]
fn waitlist_round_trip() {
    let (mut ctx, _lang_rx, _ed_rx) = new_context();
    let id = ctx.next_request_id();
    let entry = PendingEntry {
        meta: meta(None),
        method: "textDocument/hover".to_string(),
        params: EditorParams::Blank,
    };
    ctx.register(id, entry);
    let got = ctx.take(id);
    match got {
        Some(e) => {
            assert_eq!(e.method, "textDocument/hover");
            assert_eq!(e.meta.session, "kak-session");
            assert!(matches!(e.params, EditorParams::Blank));
        }
        None => panic!("registered entry must come back"),
    }
    assert!(ctx.take(id).is_none());
}

#[test]
fn unknown_reply_id_is_an_anomaly_not_a_crash() {
    let (mut ctx, _lang_rx, _ed_rx) = new_context();
    // a reply for id 7 arrives though nothing was ever registered
    assert!(ctx.take(7).is_none());
    // the session goes on: dispatching still works afterwards
    let r = ctx.dispatch(request("textDocument/hover", EditorParams::Blank));
    assert!(matches!(r, Ok(Some(0))));
}

#[test]
fn notification_with_empty_params_omits_the_field() {
    let msg = build_notification("exit".to_string(), EditorParams::Blank);
    match msg {
        Some(ServerMessage::Notification { method, params }) => {
            assert_eq!(method, "exit");
            assert!(matches!(params, ParamsField::Absent));
        }
        _ => panic!("empty params must still build a notification"),
    }
    // a payload that parses to the no-parameters wire value is also omitted
    let msg = build_notification("exit".to_string(), EditorParams::Json("null".to_string()));
    match msg {
        Some(ServerMessage::Notification { params, .. }) => {
            assert!(matches!(params, ParamsField::Absent));
        }
        _ => panic!("null params must still build a notification"),
    }
}

#[test]
fn notification_with_real_params_keeps_the_field() {
    let msg = build_notification(
        "textDocument/didChange".to_string(),
        EditorParams::Json("{\"contentChanges\":[]}".to_string()),
    );
    match msg {
        Some(ServerMessage::Notification { params, .. }) => match params {
            ParamsField::Present(p) => match p {
                jsonrpc_core::Params::Map(m) => {
                    assert!(m.contains_key("contentChanges"));
                }
                _ => panic!("an object payload must arrive as a map"),
            },
            ParamsField::Absent => panic!("non-empty params must stay present"),
        },
        _ => panic!("a well-formed payload must build a notification"),
    }
}

/// Serialize a notification envelope the way the transport does: the params
/// key is written only when the field is present.
fn wire_json_of_notification(msg: ServerMessage) -> String {
    match msg {
        ServerMessage::Notification { method, params } => {
            let mut obj = serde_json::Map::new();
            obj.insert("jsonrpc".to_string(), serde_json::Value::String("2.0".to_string()));
            obj.insert("method".to_string(), serde_json::Value::String(method));
            if let ParamsField::Present(p) = params {
                let v: serde_json::Value = serde_json::to_value(p).unwrap();
                obj.insert("params".to_string(), v);
            }
            serde_json::Value::Object(obj).to_string()
        }
        _ => panic!("not a notification"),
    }
}

#[test]
fn params_omission_reaches_the_wire() {
    let blank = build_notification("exit".to_string(), EditorParams::Blank).unwrap();
    let text = wire_json_of_notification(blank);
    assert!(!text.contains("params"));

    let full = build_notification(
        "initialized".to_string(),
        EditorParams::Json("{\"x\":1}".to_string()),
    )
    .unwrap();
    let text = wire_json_of_notification(full);
    assert!(text.contains("\"params\""));
    assert!(text.contains("\"x\":1"));
}

#[test]
fn unparseable_params_drop_the_message() {
    let (mut ctx, lang_rx, _ed_rx) = new_context();
    let bad = EditorParams::Json("not json at all".to_string());
    match ctx.notify("textDocument/didSave".to_string(), bad) {
        Ok(sent) => assert!(!sent),
        Err(ChannelClosed) => panic!("a dropped notification is not fatal"),
    }
    assert!(lang_rx.try_recv().is_err(), "nothing may reach the backend");

    let bad = EditorParams::Json("{broken".to_string());
    match ctx.call(0, "textDocument/hover".to_string(), bad) {
        Ok(sent) => assert!(!sent),
        Err(ChannelClosed) => panic!("a dropped call is not fatal"),
    }
    assert!(lang_rx.try_recv().is_err());
}

#[test]
fn dispatch_does_not_leak_on_serialization_failure() {
    let (mut ctx, lang_rx, _ed_rx) = new_context();
    let r = ctx.dispatch(request("textDocument/hover", EditorParams::Json("{oops".to_string())));
    assert!(matches!(r, Ok(None)));
    assert_eq!(ctx.request_counter, 0, "no id may be consumed");
    assert!(ctx.take(0).is_none(), "no waitlist entry may be left behind");
    assert!(lang_rx.try_recv().is_err(), "nothing may be sent");
}

#[test]
fn dispatch_sends_registers_and_resumes() {
    // the end-to-end scenario: intent in, call out, reply back, delivery out
    let (mut ctx, lang_rx, ed_rx) = new_context();
    let r = ctx.dispatch(request("textDocument/hover", EditorParams::Json("{\"pos\":3}".to_string())));
    let id = match r {
        Ok(Some(id)) => id,
        _ => panic!("a well-formed intent must dispatch"),
    };
    assert_eq!(id, 0);

    // the backend transport sees exactly one call envelope with that id
    let msg = lang_rx.try_recv().expect("one call must be on the backend channel");
    match msg {
        ServerMessage::Call { id: sent_id, method, params } => {
            assert_eq!(sent_id, 0);
            assert_eq!(method, "textDocument/hover");
            assert!(matches!(params, ParamsField::Present(_)));
        }
        _ => panic!("a call envelope was expected"),
    }
    assert!(lang_rx.try_recv().is_err(), "exactly one message goes out");

    // the reply arrives: the waitlist resumes the original intent
    let entry = ctx.take(0).expect("the reply id must find its entry");
    assert_eq!(entry.method, "textDocument/hover");
    assert_eq!(entry.meta.buffile, "/work/src/main.rs");

    // the finished result is delivered over the editor channel
    let r = ctx.exec(entry.meta, "info -title hover 'result'".to_string());
    assert!(matches!(r, Ok(None)));
    let resp = ed_rx.try_recv().expect("the editor channel must carry the response");
    assert_eq!(resp.command, "info -title hover 'result'");
    assert_eq!(resp.meta.session, "kak-session");

    // the id is spent for good
    assert!(ctx.take(0).is_none());
}

#[test]
fn abandoned_entries_stay_visible_until_the_end() {
    // a session torn down before every reply arrived leaves the unanswered
    // ids in the waitlist, where a leak check can still see them
    let (mut ctx, _lang_rx, _ed_rx) = new_context();
    let first = ctx.dispatch(request("textDocument/hover", EditorParams::Blank));
    let second = ctx.dispatch(request("textDocument/definition", EditorParams::Blank));
    assert!(matches!(first, Ok(Some(0))));
    assert!(matches!(second, Ok(Some(1))));
    assert!(ctx.take(0).is_some());
    // the second intent was never answered: its entry is still pending
    let leaked = ctx.take(1).expect("the abandoned entry must still be there");
    assert_eq!(leaked.method, "textDocument/definition");
}

#[test]
fn version_counters_rise_per_document() {
    let (mut ctx, _lang_rx, _ed_rx) = new_context();
    let a = "/work/a.rs".to_string();
    let b = "/work/b.rs".to_string();
    assert_eq!(ctx.get_version(&a), None);
    assert_eq!(ctx.bump_version(&a), 1);
    assert_eq!(ctx.bump_version(&a), 2);
    assert_eq!(ctx.bump_version(&b), 1);
    assert_eq!(ctx.bump_version(&a), 3);
    assert_eq!(ctx.get_version(&a), Some(3));
    assert_eq!(ctx.get_version(&b), Some(1));
}

fn diag(line: u32, message: &str) -> lsp_types::Diagnostic {
    lsp_types::Diagnostic::new_simple(
        lsp_types::Range::new(
            lsp_types::Position::new(line, 0),
            lsp_types::Position::new(line, 5),
        ),
        message.to_string(),
    )
}

#[test]
fn diagnostics_are_overwritten_wholesale() {
    let (mut ctx, _lang_rx, _ed_rx) = new_context();
    let p = "/work/a.rs".to_string();
    assert!(ctx.get_diagnostics(&p).is_empty());

    let a = vec![diag(1, "first"), diag(2, "second")];
    ctx.set_diagnostics(p.clone(), a);
    assert_eq!(ctx.get_diagnostics(&p).len(), 2);

    let b = vec![diag(9, "only")];
    ctx.set_diagnostics(p.clone(), b.clone());
    let got = ctx.get_diagnostics(&p);
    assert_eq!(got, b, "the second write must replace the first, not merge");

    // other documents are untouched
    assert!(ctx.get_diagnostics(&"/work/b.rs".to_string()).is_empty());
}

#[test]
fn capabilities_are_stored_once_and_read_back() {
    let (mut ctx, _lang_rx, _ed_rx) = new_context();
    assert!(ctx.get_capabilities().is_none());
    let mut caps = lsp_types::ServerCapabilities::default();
    caps.hover_provider = Some(lsp_types::HoverProviderCapability::Simple(true));
    ctx.set_capabilities(caps.clone());
    assert_eq!(ctx.get_capabilities().as_ref(), Some(&caps));
}

#[test]
fn routing_picks_the_fifo_when_one_is_set() {
    let d = route(meta(Some("/tmp/kak-fifo")), "echo done".to_string());
    match d {
        Delivery::Fifo(FifoWrite { path, command }) => {
            assert_eq!(path, "/tmp/kak-fifo");
            assert_eq!(command, "echo done");
        }
        Delivery::Channel(_) => panic!("a set fifo must win"),
    }
    let d = route(meta(None), "echo done".to_string());
    match d {
        Delivery::Channel(resp) => assert_eq!(resp.command, "echo done"),
        Delivery::Fifo(_) => panic!("no fifo was set"),
    }
}

#[test]
fn exec_with_fifo_does_not_touch_the_editor_channel() {
    let (ctx, _lang_rx, ed_rx) = new_context();
    let r = ctx.exec(meta(Some("/tmp/kak-fifo")), "echo done".to_string());
    match r {
        Ok(Some(FifoWrite { path, command })) => {
            assert_eq!(path, "/tmp/kak-fifo");
            assert_eq!(command, "echo done");
        }
        _ => panic!("the fifo write must be handed back"),
    }
    assert!(ed_rx.try_recv().is_err(), "nothing may be queued for the editor");
}

#[test]
fn exec_without_fifo_uses_the_editor_channel() {
    let (ctx, _lang_rx, ed_rx) = new_context();
    let r = ctx.exec(meta(None), "echo done".to_string());
    assert!(matches!(r, Ok(None)));
    let resp = ed_rx.try_recv().expect("the response must ride the channel");
    assert_eq!(resp.command, "echo done");
    assert_eq!(resp.meta.client, Some("client0".to_string()));
}

#[test]
fn closed_channels_are_fatal() {
    let (mut ctx, lang_rx, ed_rx) = new_context();
    drop(lang_rx);
    let r = ctx.notify("exit".to_string(), EditorParams::Blank);
    assert!(matches!(r, Err(ChannelClosed)));
    let r = ctx.call(0, "shutdown".to_string(), EditorParams::Blank);
    assert!(matches!(r, Err(ChannelClosed)));
    let r = ctx.dispatch(request("shutdown", EditorParams::Blank));
    assert!(matches!(r, Err(ChannelClosed)));
    drop(ed_rx);
    let r = ctx.exec(meta(None), "quit".to_string());
    assert!(matches!(r, Err(ChannelClosed)));
}

#[test]
fn calls_always_carry_a_params_field() {
    let msg = build_call(4, "shutdown".to_string(), EditorParams::Blank);
    match msg {
        Some(ServerMessage::Call { id, method, params }) => {
            assert_eq!(id, 4);
            assert_eq!(method, "shutdown");
            // absent editor params still ride as the explicit
            // no-parameters wire value on a call
            assert!(matches!(params, ParamsField::Absent));
        }
        _ => panic!("a call must build"),
    }
}

#[test]
fn array_params_parse_too() {
    let msg = build_call(1, "m".to_string(), EditorParams::Json("[1,2]".to_string()));
    match msg {
        Some(ServerMessage::Call { params: ParamsField::Present(p), .. }) => match p {
            jsonrpc_core::Params::Array(v) => assert_eq!(v.len(), 2),
            _ => panic!("an array payload must arrive as an array"),
        },
        _ => panic!("array params must build a call"),
    }
}
