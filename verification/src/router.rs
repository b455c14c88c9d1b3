//! The request router: resolves a method and path to a route, and builds the
//! reply for each route from plain values (the stored outcome, the bytes of a
//! file the caller read, the page template). The caller performs the actual
//! network and file I/O and hands the results in.

use crate::escape::{escape_js_string, spec_js_string_literal};
use crate::state::{spec_clear_update, spec_get, StateStore, TexState};
use crate::strutil::{
    has_prefix, has_suffix, replace_all, spec_replace_all, str_ends_with, str_eq, str_starts_with,
    str_tail,
};
use vstd::prelude::*;

verus! {

/// A parsed request: the handler that answers it, with the identifier
/// extracted from the path.
#[derive(Debug, PartialEq, Eq)]
pub enum Route {
    /// `/state/<id>`: report the stored build outcome.
    State(String),
    /// `DELETE /update/<id>`: clear the update flag.
    ClearUpdate(String),
    /// `/pdf/<id>`: serve the compiled artifact.
    Pdf(String),
    /// `/log/<id>`: serve the build log.
    Log(String),
    /// `/<id>` for a recognized source name: serve the preview page.
    Page(String),
    /// No pattern matched.
    NotFound,
}

/// The route of a request, over the views of its method and path.
pub enum RouteSpec {
    State(Seq<char>),
    ClearUpdate(Seq<char>),
    Pdf(Seq<char>),
    Log(Seq<char>),
    Page(Seq<char>),
    NotFound,
}

impl View for Route {
    type V = RouteSpec;

    open spec fn view(&self) -> RouteSpec {
        match self {
            Route::State(id) => RouteSpec::State(id@),
            Route::ClearUpdate(id) => RouteSpec::ClearUpdate(id@),
            Route::Pdf(id) => RouteSpec::Pdf(id@),
            Route::Log(id) => RouteSpec::Log(id@),
            Route::Page(id) => RouteSpec::Page(id@),
            Route::NotFound => RouteSpec::NotFound,
        }
    }
}

/// Which route a request resolves to. The patterns are tried in a fixed
/// order; the identifier is the remainder of the path after the matched
/// prefix, taken verbatim. Only the update route constrains the method; a
/// path that begins with a route prefix but fails the method check falls
/// through to the later patterns.
pub open spec fn spec_route(method: Seq<char>, path: Seq<char>) -> RouteSpec {
    if has_prefix(path, "/state/"@) {
        RouteSpec::State(path.skip(7))
    } else if method == "DELETE"@ && has_prefix(path, "/update/"@) {
        RouteSpec::ClearUpdate(path.skip(8))
    } else if has_prefix(path, "/pdf/"@) {
        RouteSpec::Pdf(path.skip(5))
    } else if has_prefix(path, "/log/"@) {
        RouteSpec::Log(path.skip(5))
    } else if path.len() >= 5 && has_prefix(path, "/"@) && has_suffix(path, ".tex"@) {
        RouteSpec::Page(path.skip(1))
    } else {
        RouteSpec::NotFound
    }
}

/// Resolves a request to its route.
pub fn route(method: &str, path: &str) -> (r: Route)
    ensures
        r@ == spec_route(method@, path@),
{
    proof {
        reveal_strlit("/state/");
        reveal_strlit("/update/");
        reveal_strlit("/pdf/");
        reveal_strlit("/log/");
        reveal_strlit("/");
        reveal_strlit(".tex");
        reveal_strlit("DELETE");
    }
    if str_starts_with(path, "/state/") {
        Route::State(str_tail(path, 7))
    } else if str_eq(method, "DELETE") && str_starts_with(path, "/update/") {
        Route::ClearUpdate(str_tail(path, 8))
    } else if str_starts_with(path, "/pdf/") {
        Route::Pdf(str_tail(path, 5))
    } else if str_starts_with(path, "/log/") {
        Route::Log(str_tail(path, 5))
    } else if path.unicode_len() >= 5 && str_starts_with(path, "/") && str_ends_with(path, ".tex")
     {
        Route::Page(str_tail(path, 1))
    } else {
        Route::NotFound
    }
}

/// The JSON text for one boolean.
pub open spec fn spec_bool_json(b: bool) -> Seq<char> {
    if b {
        "true"@
    } else {
        "false"@
    }
}

/// The JSON encoding of a state lookup: `null` for a source never built,
/// else an object holding the two flags in declaration order.
pub open spec fn spec_state_json(o: Option<TexState>) -> Seq<char> {
    match o {
        None => "null"@,
        Some(st) => "{\"update\":"@ + spec_bool_json(st.update) + ",\"error\":"@ + spec_bool_json(
            st.error,
        ) + "}"@,
    }
}

/// The JSON text reporting a state lookup result.
pub fn state_json(o: Option<TexState>) -> (r: String)
    ensures
        r@ == spec_state_json(o),
{
    match o {
        None => String::from_str("null"),
        Some(st) => {
            let mut out = String::from_str("{\"update\":");
            let u: &str = if st.update {
                "true"
            } else {
                "false"
            };
            out.append(u);
            out.append(",\"error\":");
            let e: &str = if st.error {
                "true"
            } else {
                "false"
            };
            out.append(e);
            out.append("}");
            out
        },
    }
}

/// The body of a reply: text the library rendered, raw bytes the caller read
/// from a file, or nothing.
#[derive(Debug)]
pub enum ReplyBody {
    Text(String),
    Data(Vec<u8>),
    Empty,
}

/// What a handler answers: a status code, a content type when one is set,
/// and the body.
#[derive(Debug)]
pub struct Reply {
    pub status: u16,
    pub content_type: Option<String>,
    pub body: ReplyBody,
}

/// The kind of file a file-serving route returns.
#[derive(Clone, Copy, Debug, PartialEq, Eq, Structural)]
pub enum FileKind {
    /// A compiled artifact.
    Pdf,
    /// A build log.
    PlainText,
}

/// The content type served for each file kind.
pub open spec fn spec_content_type(k: FileKind) -> Seq<char> {
    match k {
        FileKind::Pdf => "application/pdf"@,
        FileKind::PlainText => "text/plain"@,
    }
}

/// The answer to a state request: always status 200, with the stored outcome
/// as JSON, `null` included for a source never built.
pub fn reply_state(o: Option<TexState>) -> (r: Reply)
    ensures
        r.status == 200,
        r.content_type matches Some(c) && c@ == "application/json"@,
        r.body matches ReplyBody::Text(t) && t@ == spec_state_json(o),
{
    Reply {
        status: 200,
        content_type: Some(String::from_str("application/json")),
        body: ReplyBody::Text(state_json(o)),
    }
}

/// The answer after clearing an update flag: status 200 with an empty body
/// and no content type.
pub fn reply_empty() -> (r: Reply)
    ensures
        r.status == 200,
        r.content_type is None,
        r.body is Empty,
{
    Reply { status: 200, content_type: None, body: ReplyBody::Empty }
}

/// The answer to an artifact or log request, given the bytes the caller
/// could read: exactly those bytes under the kind's content type, or status
/// 500 with an empty body when the file could not be read.
pub fn reply_file(data: Option<Vec<u8>>, kind: FileKind) -> (r: Reply)
    ensures
        data matches Some(d) ==> r.status == 200 && (r.content_type matches Some(c) && c@
            == spec_content_type(kind)) && (r.body matches ReplyBody::Data(b) && b@ == d@),
        data is None ==> r.status == 500 && r.content_type is None && r.body is Empty,
{
    proof {
        reveal_strlit("application/pdf");
        reveal_strlit("text/plain");
    }
    match data {
        Some(d) => {
            let ct = match kind {
                FileKind::Pdf => String::from_str("application/pdf"),
                FileKind::PlainText => String::from_str("text/plain"),
            };
            Reply { status: 200, content_type: Some(ct), body: ReplyBody::Data(d) }
        },
        None => Reply { status: 500, content_type: None, body: ReplyBody::Empty },
    }
}

/// The answer to a path no pattern matches: status 404, empty body.
pub fn reply_not_found() -> (r: Reply)
    ensures
        r.status == 404,
        r.content_type is None,
        r.body is Empty,
{
    Reply { status: 404, content_type: None, body: ReplyBody::Empty }
}

/// The preview page: the template with every marker assignment replaced by
/// one that assigns the escaped identifier, so that no identifier can break
/// out of the script string literal.
pub open spec fn spec_render_index(template: Seq<char>, id: Seq<char>) -> Seq<char> {
    spec_replace_all(
        template,
        "const TEX_NAME = ''"@,
        "const TEX_NAME = "@ + spec_js_string_literal(id),
    )
}

/// Injects the identifier into the preview page template.
pub fn render_index(template: &str, id: &str) -> (r: String)
    ensures
        r@ == spec_render_index(template@, id@),
{
    let mut rep = String::from_str("const TEX_NAME = ");
    let lit = escape_js_string(id);
    rep.append(lit.as_str());
    replace_all(template, "const TEX_NAME = ''", rep.as_str())
}

/// The answer to a preview page request: status 200 and the rendered page as
/// HTML.
pub fn reply_page(template: &str, id: &str) -> (r: Reply)
    ensures
        r.status == 200,
        r.content_type matches Some(c) && c@ == "text/html"@,
        r.body matches ReplyBody::Text(t) && t@ == spec_render_index(template@, id@),
{
    Reply {
        status: 200,
        content_type: Some(String::from_str("text/html")),
        body: ReplyBody::Text(render_index(template, id)),
    }
}

/// Answers a resolved route: the reply for the request and the store
/// transition it causes. Only the clear-update route changes the store. For
/// the artifact and log routes the caller passes the bytes it could read
/// from the file the path modules derive — `None` when the read failed —
/// and the reply reports those bytes or the failure; every other route
/// ignores `file`. The page routes render `template`.
pub fn respond(store: &mut StateStore, r: Route, file: Option<Vec<u8>>, template: &str) -> (reply:
    Reply)
    requires
        old(store).wf(),
    ensures
        final(store).wf(),
        match r@ {
            RouteSpec::State(id) => {
                &&& final(store)@ == old(store)@
                &&& reply.status == 200
                &&& reply.content_type matches Some(c) && c@ == "application/json"@
                &&& reply.body matches ReplyBody::Text(t) && t@ == spec_state_json(
                    spec_get(old(store)@, id),
                )
            },
            RouteSpec::ClearUpdate(id) => {
                &&& final(store)@ == spec_clear_update(old(store)@, id)
                &&& reply.status == 200
                &&& reply.content_type is None
                &&& reply.body is Empty
            },
            RouteSpec::Pdf(_) => {
                &&& final(store)@ == old(store)@
                &&& file matches Some(d) ==> reply.status == 200 && (reply.content_type matches Some(
                    c,
                ) && c@ == "application/pdf"@) && (reply.body matches ReplyBody::Data(b) && b@
                    == d@)
                &&& file is None ==> reply.status == 500 && reply.content_type is None
                    && reply.body is Empty
            },
            RouteSpec::Log(_) => {
                &&& final(store)@ == old(store)@
                &&& file matches Some(d) ==> reply.status == 200 && (reply.content_type matches Some(
                    c,
                ) && c@ == "text/plain"@) && (reply.body matches ReplyBody::Data(b) && b@ == d@)
                &&& file is None ==> reply.status == 500 && reply.content_type is None
                    && reply.body is Empty
            },
            RouteSpec::Page(id) => {
                &&& final(store)@ == old(store)@
                &&& reply.status == 200
                &&& reply.content_type matches Some(c) && c@ == "text/html"@
                &&& reply.body matches ReplyBody::Text(t) && t@ == spec_render_index(template@, id)
            },
            RouteSpec::NotFound => {
                &&& final(store)@ == old(store)@
                &&& reply.status == 404
                &&& reply.content_type is None
                &&& reply.body is Empty
            },
        },
{
    match r {
        Route::State(id) => reply_state(store.get(id.as_str())),
        Route::ClearUpdate(id) => {
            store.clear_update(id.as_str());
            reply_empty()
        },
        Route::Pdf(_) => reply_file(file, FileKind::Pdf),
        Route::Log(_) => reply_file(file, FileKind::PlainText),
        Route::Page(id) => reply_page(template, id.as_str()),
        Route::NotFound => reply_not_found(),
    }
}

/// A state request for a source never built is answered, never failed: its
/// body is the JSON `null`.
pub proof fn lemma_unknown_state_is_null(m: Map<Seq<char>, TexState>, id: Seq<char>)
    requires
        !m.contains_key(id),
    ensures
        spec_state_json(spec_get(m, id)) == "null"@,
{
}

} // verus!
