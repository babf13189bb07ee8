//! The request pipeline's decisions: splitting one read buffer into a
//! connection record, dispatching it to document serving or the login flow,
//! and classifying the login outcome. The callers own the sockets and the
//! document store; everything here is about what the bytes mean.
//!
//! The framing is deliberately the preserved one, not a mended one: the
//! request comes from a single fixed-size read, so the body is taken as the
//! buffer's last line rather than framed by the declared content length,
//! and an over-long request arrives truncated; only the path's first
//! `/`-delimited segment is parsed; and a storage failure during login is
//! answered with the same `403 Forbidden` as a credential mismatch, so the
//! client cannot tell the two apart. These limits are part of the contract
//! surface (`last_line_of`, `spec_file`, `login_response`), not accidents.

use crate::database::db::{Database, GQuery, StoreError};
use crate::server::response::{error_status_line, http_rendered, Response, ResponseStatus};
use crate::tools::text::{
    find_char, find_from, lemma_find_from, rfind_before, rfind_char, str_eq, trim, trim_of,
};
use crate::ConnectionData;
use vstd::prelude::*;

verus! {

/// A line without its trailing carriage return, if it had one.
pub open spec fn strip_cr(l: Seq<char>) -> Seq<char> {
    if l.len() > 0 && l.last() == '\r' {
        l.drop_last()
    } else {
        l
    }
}

/// The first line of the buffer, without its line break.
pub open spec fn first_line_of(s: Seq<char>) -> Seq<char> {
    strip_cr(s.subrange(0, find_from(s, '\n', 0)))
}

/// The last line of the buffer — where the body of a single-read request
/// sits: a trailing line break is ignored, and the line is what follows the
/// last remaining line break.
pub open spec fn last_line_of(s: Seq<char>) -> Seq<char> {
    let t = if s.len() > 0 && s.last() == '\n' {
        s.drop_last()
    } else {
        s
    };
    strip_cr(t.subrange(rfind_before(t, '\n', t.len() as int) + 1, t.len() as int))
}

/// The piece of the request line between its first slash and the next slash
/// or end of line: the path's first segment together with the start of the
/// protocol token.
pub open spec fn spec_segment(s: Seq<char>) -> Seq<char> {
    let line = first_line_of(s);
    let slash = find_from(line, '/', 0);
    line.subrange(slash + 1, find_from(line, '/', slash + 1))
}

/// Whether the buffer parses as a request at all: it is non-empty, its first
/// line holds a slash, and a space follows the path segment (so that method,
/// path and protocol tokens all exist).
pub open spec fn parse_ok(s: Seq<char>) -> bool {
    let line = first_line_of(s);
    let slash = find_from(line, '/', 0);
    s.len() > 0 && slash < line.len() && find_from(spec_segment(s), ' ', 0) < spec_segment(
        s,
    ).len()
}

/// The method token: what precedes the first slash, trimmed.
pub open spec fn spec_method(s: Seq<char>) -> Seq<char> {
    let line = first_line_of(s);
    trim_of(line.subrange(0, find_from(line, '/', 0)))
}

/// The path's first segment: what precedes the first space of the segment,
/// trimmed.
pub open spec fn spec_file(s: Seq<char>) -> Seq<char> {
    let seg = spec_segment(s);
    trim_of(seg.subrange(0, find_from(seg, ' ', 0)))
}

/// The protocol token: what stands between the first and second spaces of
/// the segment, trimmed.
pub open spec fn spec_protocol(s: Seq<char>) -> Seq<char> {
    let seg = spec_segment(s);
    let sp = find_from(seg, ' ', 0);
    trim_of(seg.subrange(sp + 1, find_from(seg, ' ', sp + 1)))
}

/// A line without its trailing carriage return, if it had one.
fn strip_cr_str<'a>(l: &'a str) -> (r: &'a str)
    ensures
        r@ == strip_cr(l@),
{
    let n = l.unicode_len();
    if n > 0 && l.get_char(n - 1) == '\r' {
        l.substring_char(0, n - 1)
    } else {
        l
    }
}

/// The last line of the buffer (the body position of a single-read
/// request).
fn last_line(raw: &str) -> (r: String)
    ensures
        r@ == last_line_of(raw@),
{
    let n = raw.unicode_len();
    let t: &str = if n > 0 && raw.get_char(n - 1) == '\n' {
        raw.substring_char(0, n - 1)
    } else {
        raw
    };
    let tn = t.unicode_len();
    let start: usize = match rfind_char(t, '\n', tn) {
        Some(k) => k + 1,
        None => 0,
    };
    strip_cr_str(t.substring_char(start, tn)).to_owned()
}

/// Splits one read buffer into a connection record: method token, first
/// path segment, protocol token, the peer address as the transport reported
/// it, and the body (the buffer's last line). Returns nothing exactly when
/// the buffer is not shaped like a request (`parse_ok`); a parse failure is
/// the caller's cue for a classified error response, never a crash.
pub fn parse_request(raw: &str, peer: Option<String>) -> (r: Option<ConnectionData>)
    ensures
        r is Some <==> parse_ok(raw@),
        r matches Some(cd) ==> cd.method@ == spec_method(raw@) && cd.file@ == spec_file(raw@)
            && cd.protocol@ == spec_protocol(raw@) && cd.body@ == last_line_of(raw@) && cd.conn_ip
            == peer,
{
    let n = raw.unicode_len();
    if n == 0 {
        return None;
    }
    proof {
        lemma_find_from(raw@, '\n', 0);
    }
    let eol = find_char(raw, '\n', 0);
    let line = strip_cr_str(raw.substring_char(0, eol));
    let ln = line.unicode_len();
    let slash = find_char(line, '/', 0);
    if slash == ln {
        return None;
    }
    proof {
        lemma_find_from(line@, '/', 0);
        lemma_find_from(line@, '/', slash as int + 1);
    }
    let seg_end = find_char(line, '/', slash + 1);
    let seg = line.substring_char(slash + 1, seg_end);
    let segn = seg.unicode_len();
    let sp = find_char(seg, ' ', 0);
    if sp == segn {
        return None;
    }
    proof {
        lemma_find_from(seg@, ' ', 0);
        lemma_find_from(seg@, ' ', sp as int + 1);
    }
    let method_tok = trim(line.substring_char(0, slash));
    let file_tok = trim(seg.substring_char(0, sp));
    let sp2 = find_char(seg, ' ', sp + 1);
    let proto_tok = trim(seg.substring_char(sp + 1, sp2));
    let body = last_line(raw);
    Some(
        ConnectionData {
            method: method_tok,
            file: file_tok,
            protocol: proto_tok,
            conn_ip: peer,
            body,
        },
    )
}

/// A login request's fields.
pub struct Credentials {
    pub username: String,
    pub password: String,
}

/// The username and password of a login body, when the body parses as a
/// structured object holding both as strings; a fixed body text always
/// yields the same answer.
pub uninterp spec fn credentials_of(body: Seq<char>) -> Option<(Seq<char>, Seq<char>)>;

/// Relies on `serde_json::from_str` and `Value::get` / `Value::as_str`:
/// parses the body as a JSON document and extracts the string fields
/// `username` and `password`; the answer is a function of the body text
/// alone, and any parse or extraction failure is `None`.
#[verifier::external_body]
fn extract_credentials(body: &str) -> (r: Option<Credentials>)
    ensures
        r is Some <==> credentials_of(body@) is Some,
        r matches Some(c) ==> credentials_of(body@) == Some((c.username@, c.password@)),
{
    let parsed: serde_json::Value = serde_json::from_str(body).ok()?;
    let username = parsed.get("username")?.as_str()?;
    let password = parsed.get("password")?.as_str()?;
    Some(Credentials { username: username.to_string(), password: password.to_string() })
}

/// What the pipeline decided to do with one (possibly unparseable) request.
pub enum Action {
    ServeDocument { file: String },
    AttemptLogin { username: String, password: String },
    Reject,
}

/// The dispatch decision. A `GET` over HTTP asks for a document — the root
/// document for the empty path, the named one otherwise. A `POST` to
/// `login` whose body parses as credentials attempts a login. Everything
/// else — an unparseable request, a body without credentials, any other
/// method or path — is rejected and will be answered with the `404`
/// response.
pub fn dispatch(conn: &Option<ConnectionData>) -> (r: Action)
    ensures
        match conn {
            Option::None => r is Reject,
            Option::Some(cd) => {
                if cd.method@ == "GET"@ && cd.protocol@ == "HTTP"@ {
                    (r matches Action::ServeDocument { file } && file@ == (if cd.file@
                        == Seq::<char>::empty() {
                        "index.html"@
                    } else {
                        cd.file@
                    }))
                } else if cd.method@ == "POST"@ && cd.file@ == "login"@ {
                    match credentials_of(cd.body@) {
                        Some(up) => (r matches Action::AttemptLogin { username, password }
                            && username@ == up.0 && password@ == up.1),
                        None => r is Reject,
                    }
                } else {
                    r is Reject
                }
            },
        },
{
    match conn {
        Some(cd) => {
            if str_eq(cd.method.as_str(), "GET") && str_eq(cd.protocol.as_str(), "HTTP") {
                if cd.file.as_str().is_empty() {
                    proof {
                        assert(cd.file@ =~= Seq::<char>::empty());
                    }
                    Action::ServeDocument { file: "index.html".to_owned() }
                } else {
                    Action::ServeDocument { file: cd.file.clone() }
                }
            } else if str_eq(cd.method.as_str(), "POST") && str_eq(cd.file.as_str(), "login") {
                match extract_credentials(cd.body.as_str()) {
                    Some(c) => Action::AttemptLogin {
                        username: c.username,
                        password: c.password,
                    },
                    None => Action::Reject,
                }
            } else {
                Action::Reject
            }
        },
        None => Action::Reject,
    }
}

/// Whether any returned row's first cell equals the supplied password.
pub open spec fn any_row_matches(rows: Seq<Vec<String>>, password: Seq<char>) -> bool {
    exists|i: int|
        0 <= i < rows.len() && #[trigger] rows[i]@.len() >= 1 && rows[i]@[0]@ == password
}

/// Whether any returned row's first cell equals the supplied password,
/// stopping at the first match.
pub fn password_matches(rows: &Vec<Vec<String>>, password: &str) -> (r: bool)
    ensures
        r == any_row_matches(rows@, password@),
{
    let n = rows.len();
    let mut i: usize = 0;
    while i < n
        invariant
            n == rows@.len(),
            0 <= i <= n,
            forall|k: int|
                0 <= k < i ==> !(#[trigger] rows@[k]@.len() >= 1 && rows@[k]@[0]@ == password@),
        decreases n - i,
    {
        let row = &rows[i];
        if row.len() >= 1 {
            if str_eq(row[0].as_str(), password) {
                return true;
            }
        }
        i = i + 1;
    }
    false
}

/// The response shape of a successful login: the bare `200` acknowledgment.
pub open spec fn is_ok_ack(r: Response) -> bool {
    &&& r.status_line@ == "HTTP/1.1 200"@
    &&& r.contents@ == "ok"@
    &&& r.response_data@ == http_rendered("HTTP/1.1 200"@, "ok"@)
    &&& r.response_status == ResponseStatus::Success
}

/// The response shape of a refused login: `403 Forbidden`, classified as
/// denied.
pub open spec fn is_forbidden(r: Response) -> bool {
    &&& r.status_line@ == error_status_line(403, "Forbidden"@)
    &&& r.contents@ == "Forbidden"@
    &&& r.response_data@ == http_rendered(error_status_line(403, "Forbidden"@), "Forbidden"@)
    &&& r.response_status == ResponseStatus::Denied
}

/// Classifies a finished credential lookup. A row whose first cell equals
/// the supplied password yields the success acknowledgment; no match, no
/// row at all, or a lookup error of any kind yields `403 Forbidden` — a
/// missing user and a storage failure are indistinguishable to the client.
pub fn login_response(result: &Result<Vec<Vec<String>>, StoreError>, password: &str,
    response: &mut Response)
    ensures
        match result {
            Ok(rows) => {
                if any_row_matches(rows@, password@) {
                    is_ok_ack(*final(response))
                } else {
                    is_forbidden(*final(response))
                }
            },
            Err(_) => is_forbidden(*final(response)),
        },
{
    match result {
        Ok(rows) => {
            if password_matches(rows, password) {
                response.format_status("ok");
            } else {
                response.format_error(403, "Forbidden");
            }
        },
        Err(_) => {
            response.format_error(403, "Forbidden");
        },
    }
}

/// Runs the login flow: one fresh password lookup through the facade, then
/// classification. The response always ends up as the success
/// acknowledgment or as `403 Forbidden`; on a facade without query
/// semantics it is always the latter.
pub fn handle_login(db: &Database, username: String, password: &str, response: &mut Response)
    ensures
        is_ok_ack(*final(response)) || is_forbidden(*final(response)),
        !(db.conn is Sqlite) ==> is_forbidden(*final(response)),
{
    let query = GQuery::Password { username };
    let result = db.get(&query);
    login_response(&result, password, response);
}

} // verus!
