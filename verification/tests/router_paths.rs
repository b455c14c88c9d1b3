use livetex::escape::escape_js_string;
use livetex::paths::{artifact_paths, base_name, id_is_safe, join_path, log_file, pdf_name, with_extension};
use livetex::router::{
    render_index, reply_empty, reply_file, reply_not_found, reply_page, reply_state, respond,
    route, state_json, FileKind, Reply, ReplyBody, Route,
};
use livetex::state::{StateStore, TexState};

#[test]
fn route_state() {
    assert_eq!(route("GET", "/state/a.tex"), Route::State("a.tex".to_string()));
}

#[test]
fn route_state_ignores_method() {
    assert_eq!(route("DELETE", "/state/a.tex"), Route::State("a.tex".to_string()));
}

#[test]
fn route_state_empty_identifier() {
    assert_eq!(route("GET", "/state/"), Route::State(String::new()));
}

#[test]
fn route_update_with_delete() {
    assert_eq!(route("DELETE", "/update/a.tex"), Route::ClearUpdate("a.tex".to_string()));
}

#[test]
fn route_update_with_other_method_falls_through() {
    // Without the DELETE method the update pattern does not match; the path
    // still ends in the source extension, so the page route catches it.
    assert_eq!(route("GET", "/update/a.tex"), Route::Page("update/a.tex".to_string()));
    assert_eq!(route("GET", "/update/a"), Route::NotFound);
}

#[test]
fn route_pdf() {
    assert_eq!(route("GET", "/pdf/a.tex"), Route::Pdf("a.tex".to_string()));
}

#[test]
fn route_log() {
    assert_eq!(route("GET", "/log/a.tex"), Route::Log("a.tex".to_string()));
}

#[test]
fn route_page() {
    assert_eq!(route("GET", "/a.tex"), Route::Page("a.tex".to_string()));
    assert_eq!(route("GET", "/.tex"), Route::Page(".tex".to_string()));
}

#[test]
fn route_no_match() {
    assert_eq!(route("GET", "/a.pdf"), Route::NotFound);
    assert_eq!(route("GET", "/"), Route::NotFound);
    assert_eq!(route("GET", ""), Route::NotFound);
    assert_eq!(route("GET", "a.tex"), Route::NotFound);
}

#[test]
fn state_json_exact_values() {
    assert_eq!(state_json(None), "null");
    assert_eq!(
        state_json(Some(TexState { update: false, error: false })),
        "{\"update\":false,\"error\":false}"
    );
    assert_eq!(
        state_json(Some(TexState { update: true, error: false })),
        "{\"update\":true,\"error\":false}"
    );
    assert_eq!(
        state_json(Some(TexState { update: false, error: true })),
        "{\"update\":false,\"error\":true}"
    );
    assert_eq!(
        state_json(Some(TexState { update: true, error: true })),
        "{\"update\":true,\"error\":true}"
    );
}

fn body_text(r: &Reply) -> &str {
    match &r.body {
        ReplyBody::Text(t) => t.as_str(),
        _ => panic!("expected a text body"),
    }
}

#[test]
fn state_reply_for_unknown_source_is_null_not_error() {
    let store = StateStore::new();
    let reply = reply_state(store.get("never-built.tex"));
    assert_eq!(reply.status, 200);
    assert_eq!(reply.content_type.as_deref(), Some("application/json"));
    assert_eq!(body_text(&reply), "null");
}

#[test]
fn state_reply_after_clear_update() {
    let mut store = StateStore::new();
    store.put("a.tex".to_string(), TexState { update: true, error: true });
    store.clear_update("a.tex");
    let reply = reply_state(store.get("a.tex"));
    assert_eq!(reply.status, 200);
    assert_eq!(body_text(&reply), "{\"update\":false,\"error\":true}");
}

#[test]
fn file_reply_serves_bytes_with_content_type() {
    let bytes = vec![0x25u8, 0x50, 0x44, 0x46, 0x2d];
    let reply = reply_file(Some(bytes.clone()), FileKind::Pdf);
    assert_eq!(reply.status, 200);
    assert_eq!(reply.content_type.as_deref(), Some("application/pdf"));
    match &reply.body {
        ReplyBody::Data(d) => assert_eq!(*d, bytes),
        _ => panic!("expected a data body"),
    }
}

#[test]
fn artifact_round_trip_keeps_bytes() {
    // A deterministic build writes <stem>.pdf into the output directory; the
    // pdf route serves that very file, bytes untouched, as a PDF.
    let plan = artifact_paths("/tmp/intermediates", "/srv/live-compiled", "a.tex");
    assert_eq!(plan.destination, "/srv/live-compiled/a.pdf");
    assert_eq!(route("GET", "/pdf/a.tex"), Route::Pdf("a.tex".to_string()));
    assert_eq!(pdf_name("a.tex"), "a.pdf");
    let produced = vec![0x25u8, 0x50, 0x44, 0x46, 0x0a, 0x00, 0xff];
    let reply = reply_file(Some(produced.clone()), FileKind::Pdf);
    assert_eq!(reply.status, 200);
    assert_eq!(reply.content_type.as_deref(), Some("application/pdf"));
    match &reply.body {
        ReplyBody::Data(d) => assert_eq!(*d, produced),
        _ => panic!("expected a data body"),
    }
}

#[test]
fn unreadable_file_is_a_500() {
    let reply = reply_file(None, FileKind::Pdf);
    assert_eq!(reply.status, 500);
    assert!(reply.content_type.is_none());
    assert!(matches!(reply.body, ReplyBody::Empty));
    let reply = reply_file(None, FileKind::PlainText);
    assert_eq!(reply.status, 500);
}

#[test]
fn log_reply_is_plain_text() {
    let reply = reply_file(Some(b"Output written on a.pdf".to_vec()), FileKind::PlainText);
    assert_eq!(reply.content_type.as_deref(), Some("text/plain"));
}

#[test]
fn empty_and_not_found_replies() {
    let reply = reply_empty();
    assert_eq!(reply.status, 200);
    assert!(reply.content_type.is_none());
    assert!(matches!(reply.body, ReplyBody::Empty));
    let reply = reply_not_found();
    assert_eq!(reply.status, 404);
    assert!(reply.content_type.is_none());
    assert!(matches!(reply.body, ReplyBody::Empty));
}

#[test]
fn escape_ascii_identifier() {
    assert_eq!(escape_js_string("a"), "\"\\u0061\"");
    assert_eq!(escape_js_string("a.tex"), "\"\\u0061\\u002e\\u0074\\u0065\\u0078\"");
}

#[test]
fn escape_empty_identifier() {
    assert_eq!(escape_js_string(""), "\"\"");
}

#[test]
fn escape_blocks_breakout_sequences() {
    // Quotes, backslashes and tag terminators never appear verbatim.
    assert_eq!(escape_js_string("\""), "\"\\u0022\"");
    assert_eq!(escape_js_string("\\"), "\"\\u005c\"");
    let escaped = escape_js_string("</script>\"';");
    assert!(!escaped[1..escaped.len() - 1].contains('"'));
    assert!(!escaped.contains('<'));
    assert!(!escaped.contains(';'));
}

#[test]
fn escape_supplementary_plane_as_surrogate_pair() {
    assert_eq!(escape_js_string("\u{1D11E}"), "\"\\ud834\\udd1e\"");
}

#[test]
fn render_index_injects_escaped_name() {
    let template = "<script>const TEX_NAME = ''; poll();</script>";
    let rendered = render_index(template, "a.tex");
    assert_eq!(
        rendered,
        "<script>const TEX_NAME = \"\\u0061\\u002e\\u0074\\u0065\\u0078\"; poll();</script>"
    );
}

#[test]
fn render_index_without_marker_is_unchanged() {
    let template = "<p>no marker here</p>";
    assert_eq!(render_index(template, "a.tex"), template);
}

#[test]
fn page_reply_is_html() {
    let reply = reply_page("const TEX_NAME = ''", "a.tex");
    assert_eq!(reply.status, 200);
    assert_eq!(reply.content_type.as_deref(), Some("text/html"));
    assert_eq!(
        body_text(&reply),
        "const TEX_NAME = \"\\u0061\\u002e\\u0074\\u0065\\u0078\""
    );
}

#[test]
fn pdf_name_replaces_extension() {
    assert_eq!(pdf_name("a.tex"), "a.pdf");
    assert_eq!(pdf_name("a"), "a.pdf");
    assert_eq!(pdf_name("a.b.tex"), "a.b.pdf");
    assert_eq!(pdf_name("dir/a.tex"), "dir/a.pdf");
    assert_eq!(pdf_name(".tex"), ".tex.pdf");
}

#[test]
fn with_extension_cases() {
    assert_eq!(with_extension("a.tex", "log"), "a.log");
    assert_eq!(with_extension("di.r/a", "log"), "di.r/a.log");
}

#[test]
fn log_file_lands_in_intermediates() {
    assert_eq!(log_file("/tmp/intermediates", "a.tex"), "/tmp/intermediates/a.log");
    assert_eq!(log_file("/tmp/intermediates/", "dir/a.tex"), "/tmp/intermediates/a.log");
}

#[test]
fn artifact_paths_share_one_name() {
    let plan = artifact_paths("/tmp/work", "/srv/out", "notes.tex");
    assert_eq!(plan.intermediate, "/tmp/work/notes.pdf");
    assert_eq!(plan.destination, "/srv/out/notes.pdf");
}

#[test]
fn base_name_strips_directories() {
    assert_eq!(base_name("dir/sub/a.tex"), "a.tex");
    assert_eq!(base_name("a.tex"), "a.tex");
    assert_eq!(base_name("dir/"), "");
}

#[test]
fn join_path_cases() {
    assert_eq!(join_path("/srv/out", "a.pdf"), "/srv/out/a.pdf");
    assert_eq!(join_path("/srv/out/", "a.pdf"), "/srv/out/a.pdf");
    assert_eq!(join_path("", "a.pdf"), "a.pdf");
}

#[test]
fn identifier_safety() {
    assert!(id_is_safe("a.tex"));
    assert!(id_is_safe("notes-v2.tex"));
    assert!(!id_is_safe(""));
    assert!(!id_is_safe("."));
    assert!(!id_is_safe(".."));
    assert!(!id_is_safe("../etc/passwd"));
    assert!(!id_is_safe("dir/a.tex"));
    assert!(!id_is_safe("dir\\a.tex"));
}

#[test]
fn respond_state_route() {
    let mut store = StateStore::new();
    store.put("a.tex".to_string(), TexState { update: true, error: false });
    let reply = respond(&mut store, Route::State("a.tex".to_string()), None, "");
    assert_eq!(reply.status, 200);
    assert_eq!(reply.content_type.as_deref(), Some("application/json"));
    assert_eq!(body_text(&reply), "{\"update\":true,\"error\":false}");
}

#[test]
fn respond_clear_update_route() {
    let mut store = StateStore::new();
    store.put("a.tex".to_string(), TexState { update: true, error: true });
    let reply = respond(&mut store, Route::ClearUpdate("a.tex".to_string()), None, "");
    assert_eq!(reply.status, 200);
    assert!(reply.content_type.is_none());
    assert!(matches!(reply.body, ReplyBody::Empty));
    assert_eq!(store.get("a.tex"), Some(TexState { update: false, error: true }));
}

#[test]
fn respond_pdf_route_serves_or_fails() {
    let mut store = StateStore::new();
    let bytes = vec![1u8, 2, 3];
    let reply = respond(&mut store, Route::Pdf("a.tex".to_string()), Some(bytes.clone()), "");
    assert_eq!(reply.status, 200);
    assert_eq!(reply.content_type.as_deref(), Some("application/pdf"));
    match &reply.body {
        ReplyBody::Data(d) => assert_eq!(*d, bytes),
        _ => panic!("expected a data body"),
    }
    let reply = respond(&mut store, Route::Pdf("a.tex".to_string()), None, "");
    assert_eq!(reply.status, 500);
}

#[test]
fn respond_log_route_is_plain_text() {
    let mut store = StateStore::new();
    let reply = respond(&mut store, Route::Log("a.tex".to_string()), Some(b"log".to_vec()), "");
    assert_eq!(reply.content_type.as_deref(), Some("text/plain"));
}

#[test]
fn respond_page_route_renders_template() {
    let mut store = StateStore::new();
    let reply = respond(
        &mut store,
        Route::Page("a.tex".to_string()),
        None,
        "const TEX_NAME = ''",
    );
    assert_eq!(reply.status, 200);
    assert_eq!(reply.content_type.as_deref(), Some("text/html"));
    assert_eq!(
        body_text(&reply),
        "const TEX_NAME = \"\\u0061\\u002e\\u0074\\u0065\\u0078\""
    );
}

#[test]
fn respond_not_found_route() {
    let mut store = StateStore::new();
    let reply = respond(&mut store, Route::NotFound, None, "");
    assert_eq!(reply.status, 404);
    assert!(matches!(reply.body, ReplyBody::Empty));
}
