use vstd::prelude::*;

use http::{HeaderName, HeaderValue};
use std::str::FromStr;

use crate::error::{AppError, ErrorKind};
use crate::js::base64::{base64_encoded, encode};
use crate::schema::Schema;
use crate::text::{char_count, concat2, concat3, join, join_with, lowercase, owned, push_char, str_eq, to_lowercase, views};

verus! {

/// A user name and password for HTTP basic authentication.
#[derive(Debug, Clone)]
pub struct McpBasicCredentials {
    pub username: String,
    pub password: String,
}

/// How to authenticate at an MCP server: basic or bearer (not both), and
/// headers of its own, in order.
#[derive(Debug, Clone)]
pub struct McpCredentials {
    pub basic: Option<McpBasicCredentials>,
    pub bearer: Option<String>,
    pub headers: Option<Vec<(String, String)>>,
}

/// A configured MCP server.
#[derive(Debug, Clone)]
pub struct McpServer {
    pub name: String,
    pub description: String,
    pub url: String,
    pub credentials: Option<McpCredentials>,
}

/// Header name/value pairs by their contents.
pub open spec fn pairs_view(v: Seq<(String, String)>) -> Seq<(Seq<char>, Seq<char>)> {
    v.map_values(|p: (String, String)| (p.0@, p.1@))
}

/// Whether `http` accepts `text` as a header value: every byte of its UTF-8
/// form is visible (at least 32 and not 127) or a tab. Bytes of a char
/// beyond ASCII are all at least 128, so the test reads on chars.
pub open spec fn header_value_ok(text: Seq<char>) -> bool {
    forall|i: int| 0 <= i < text.len() ==> {
        let c = #[trigger] text[i] as int;
        (c >= 32 && c != 127) || c == 9
    }
}

/// A character that may stand in a header name (the `http` crate's table
/// of token characters; upper-case letters are taken as lower-case).
pub open spec fn header_name_char(c: char) -> bool {
    let n = c as int;
    ||| n == 0x21
    ||| 0x23 <= n <= 0x27
    ||| n == 0x2A || n == 0x2B || n == 0x2D || n == 0x2E
    ||| 0x30 <= n <= 0x39
    ||| 0x41 <= n <= 0x5A
    ||| 0x5E <= n <= 0x7A
    ||| n == 0x7C || n == 0x7E
}

/// Whether `HeaderName::from_str` of the `http` crate accepts `name`: 1 to
/// 65535 characters, each a token character. A character beyond ASCII is
/// no token character, so the count of characters is that of bytes.
pub open spec fn header_name_valid(name: Seq<char>) -> bool {
    &&& 1 <= name.len() <= 65535
    &&& forall|i: int| 0 <= i < name.len() ==> header_name_char(#[trigger] name[i])
}

/// `HeaderValue::from_str` of the `http` crate, used only to check the text: `Ok`
/// exactly for text whose bytes are all visible ASCII, tabs or beyond
/// ASCII, else the error's text.
#[verifier::external_body]
fn check_header_value(text: &str) -> (r: Result<(), String>)
    ensures
        (r is Ok) == header_value_ok(text@),
        r matches Err(m) ==> m@ == "failed to parse header value"@,
{
    match HeaderValue::from_str(text) {
        Ok(_) => Ok(()),
        Err(e) => Err(e.to_string()),
    }
}

/// `HeaderName::from_str` of the `http` crate, used only to check the text:
/// `Ok` exactly for the names that `header_name_valid` describes.
#[verifier::external_body]
fn check_header_name(name: &str) -> (r: Result<(), String>)
    ensures
        (r is Ok) == header_name_valid(name@),
        r matches Err(m) ==> m@ == "invalid HTTP header name"@,
{
    match HeaderName::from_str(name) {
        Ok(_) => Ok(()),
        Err(e) => Err(e.to_string()),
    }
}

/// The custom headers as sent (names lower-cased), or the message of the
/// first one that `http` refuses.
pub open spec fn custom_headers_plan(hs: Seq<(Seq<char>, Seq<char>)>) -> Result<Seq<(Seq<char>, Seq<char>)>, Seq<char>>
    decreases hs.len(),
{
    if hs.len() == 0 {
        Ok(Seq::empty())
    } else {
        match custom_headers_plan(hs.drop_last()) {
            Err(m) => Err(m),
            Ok(t) => {
                let (k, v) = hs.last();
                if !header_name_valid(lowercase(k)) {
                    Err("Failed to create custom header name '"@ + k + "': "@ + "invalid HTTP header name"@)
                } else if !header_value_ok(v) {
                    Err("Failed to create custom header value for header '"@ + k + "' "@ + "failed to parse header value"@)
                } else {
                    Ok(t.push((lowercase(k), v)))
                }
            },
        }
    }
}

/// The value of the basic authorization header for `username` and
/// `password`.
pub open spec fn basic_value(username: Seq<char>, password: Seq<char>) -> Seq<char> {
    "Basic "@ + base64_encoded(username + ":"@ + password)
}

/// The authentication headers for a server's credentials, in order, or the
/// error's kind and message.
pub open spec fn auth_plan(c: Option<McpCredentials>) -> Result<Seq<(Seq<char>, Seq<char>)>, (ErrorKind, Seq<char>)> {
    match c {
        None => Ok(Seq::empty()),
        Some(c) => if c.basic is Some && c.bearer is Some {
            Err((ErrorKind::Validation, "MCP server configuration cannot have both basic and bearer credentials set"@))
        } else {
            let first: Result<Seq<(Seq<char>, Seq<char>)>, (ErrorKind, Seq<char>)> = match c.basic {
                Some(b) => if header_value_ok(basic_value(b.username@, b.password@)) {
                    Ok(seq![("authorization"@, basic_value(b.username@, b.password@))])
                } else {
                    Err((ErrorKind::Internal, "Failed to create basic auth header: "@ + "failed to parse header value"@))
                },
                None => match c.bearer {
                    Some(t) => if header_value_ok("Bearer "@ + t@) {
                        Ok(seq![("authorization"@, "Bearer "@ + t@)])
                    } else {
                        Err((ErrorKind::Internal, "Failed to create bearer auth header: "@ + "failed to parse header value"@))
                    },
                    None => Ok(Seq::empty()),
                },
            };
            match first {
                Err(e) => Err(e),
                Ok(auth) => match c.headers {
                    None => Ok(auth),
                    Some(hs) => match custom_headers_plan(pairs_view(hs@)) {
                        Ok(custom) => Ok(auth + custom),
                        Err(m) => Err((ErrorKind::Internal, m)),
                    },
                },
            }
        },
    }
}

/// The custom headers as sent: names lower-cased, each checked by `http`.
fn custom_headers(hs: &Vec<(String, String)>) -> (r: Result<Vec<(String, String)>, String>)
    ensures
        match custom_headers_plan(pairs_view(hs@)) {
            Ok(p) => r matches Ok(v) && pairs_view(v@) == p,
            Err(m) => r matches Err(e) && e@ == m,
        },
{
    let mut out: Vec<(String, String)> = Vec::new();
    let mut i: usize = 0;
    assert(pairs_view(hs@).take(0) =~= Seq::<(Seq<char>, Seq<char>)>::empty());
    assert(pairs_view(out@) =~= Seq::<(Seq<char>, Seq<char>)>::empty());
    while i < hs.len()
        invariant
            i <= hs@.len(),
            custom_headers_plan(pairs_view(hs@).take(i as int)) == Ok::<Seq<(Seq<char>, Seq<char>)>, Seq<char>>(pairs_view(out@)),
        decreases hs.len() - i,
    {
        let ghost before = pairs_view(hs@).take(i as int);
        let ghost after = pairs_view(hs@).take(i as int + 1);
        assert(after.drop_last() =~= before);
        assert(after.last() == (hs@[i as int].0@, hs@[i as int].1@));
        let key = hs[i].0.as_str();
        let value = hs[i].1.as_str();
        let name = to_lowercase(key);
        match check_header_name(name.as_str()) {
            Ok(()) => {},
            Err(e) => {
                let head = concat3("Failed to create custom header name '", key, "': ");
                proof {
                    lemma_plan_fails_from(pairs_view(hs@), i as int + 1);
                }
                return Err(concat2(head.as_str(), e.as_str()));
            },
        }
        match check_header_value(value) {
            Ok(()) => {},
            Err(e) => {
                let head = concat3("Failed to create custom header value for header '", key, "' ");
                proof {
                    lemma_plan_fails_from(pairs_view(hs@), i as int + 1);
                }
                return Err(concat2(head.as_str(), e.as_str()));
            },
        }
        let ghost old_out = out@;
        out.push((name, owned(value)));
        proof {
            assert(pairs_view(out@) =~= pairs_view(old_out).push((lowercase(key@), value@)));
            assert(custom_headers_plan(after) == Ok::<Seq<(Seq<char>, Seq<char>)>, Seq<char>>(pairs_view(old_out).push((lowercase(key@), value@))));
        }
        i = i + 1;
    }
    assert(pairs_view(hs@).take(hs@.len() as int) =~= pairs_view(hs@));
    Ok(out)
}

/// Once a prefix of the headers fails, the whole list fails with the same
/// message.
proof fn lemma_plan_fails_from(hs: Seq<(Seq<char>, Seq<char>)>, k: int)
    requires
        0 <= k <= hs.len(),
        custom_headers_plan(hs.take(k)) is Err,
    ensures
        custom_headers_plan(hs) == custom_headers_plan(hs.take(k)),
    decreases hs.len() - k,
{
    if k < hs.len() {
        let next = hs.take(k + 1);
        assert(next.drop_last() =~= hs.take(k));
        lemma_plan_fails_from(hs, k + 1);
    } else {
        assert(hs.take(k) =~= hs);
    }
}

/// The error of building the authentication headers.
fn header_error(kind: ErrorKind, message: String) -> (e: AppError)
    ensures
        e.is(kind, "configuration_load_failed"@, message@),
{
    AppError::new(kind, "configuration_load_failed", message)
}

/// The headers to send to a server with `credentials`: the authorization
/// header, then the custom ones.
pub fn auth_headers(credentials: &Option<McpCredentials>) -> (r: Result<Vec<(String, String)>, AppError>)
    ensures
        match auth_plan(*credentials) {
            Ok(p) => r matches Ok(v) && pairs_view(v@) == p,
            Err((k, m)) => r matches Err(e) && e.is(k, "configuration_load_failed"@, m),
        },
        match *credentials {
            Some(c) => match c.basic {
                Some(b) => c.bearer is None ==> header_value_ok(basic_value(b.username@, b.password@)),
                None => true,
            },
            None => true,
        },
{
    let c = match credentials {
        None => {
            let v: Vec<(String, String)> = Vec::new();
            assert(pairs_view(v@) =~= Seq::<(Seq<char>, Seq<char>)>::empty());
            return Ok(v);
        },
        Some(c) => c,
    };
    if c.basic.is_some() && c.bearer.is_some() {
        return Err(header_error(
            ErrorKind::Validation,
            owned("MCP server configuration cannot have both basic and bearer credentials set"),
        ));
    }
    let mut headers: Vec<(String, String)> = Vec::new();
    match &c.basic {
        Some(b) => {
            let joined = concat3(b.username.as_str(), ":", b.password.as_str());
            let encoded = encode(joined.as_str());
            let value = concat2("Basic ", encoded.as_str());
            proof {
                reveal_strlit("Basic ");
                assert forall|i: int| 0 <= i < value@.len() implies {
                    let c = #[trigger] value@[i] as int;
                    (c >= 32 && c != 127) || c == 9
                } by {
                    if i >= 6 {
                        assert(value@[i] == encoded@[i - 6]);
                    }
                }
                assert(header_value_ok(basic_value(b.username@, b.password@)));
            }
            match check_header_value(value.as_str()) {
                Ok(()) => {},
                Err(e) => {
                    return Err(header_error(ErrorKind::Internal, concat2("Failed to create basic auth header: ", e.as_str())));
                },
            }
            headers.push((owned("authorization"), value));
        },
        None => {},
    }
    match &c.bearer {
        Some(t) => {
            let value = concat2("Bearer ", t.as_str());
            match check_header_value(value.as_str()) {
                Ok(()) => {},
                Err(e) => {
                    return Err(header_error(ErrorKind::Internal, concat2("Failed to create bearer auth header: ", e.as_str())));
                },
            }
            headers.push((owned("authorization"), value));
        },
        None => {},
    }
    let ghost auth = pairs_view(headers@);
    match &c.headers {
        None => Ok(headers),
        Some(hs) => match custom_headers(hs) {
            Ok(custom) => {
                let mut all = headers;
                let mut j: usize = 0;
                while j < custom.len()
                    invariant
                        j <= custom@.len(),
                        pairs_view(all@) == auth + pairs_view(custom@).take(j as int),
                    decreases custom.len() - j,
                {
                    let ghost before = all@;
                    all.push((owned(custom[j].0.as_str()), owned(custom[j].1.as_str())));
                    proof {
                        assert(pairs_view(all@) =~= pairs_view(before).push((custom@[j as int].0@, custom@[j as int].1@)));
                        assert(pairs_view(custom@).take(j as int + 1) =~= pairs_view(custom@).take(j as int).push((custom@[j as int].0@, custom@[j as int].1@)));
                    }
                    j = j + 1;
                }
                assert(pairs_view(custom@).take(j as int) =~= pairs_view(custom@));
                Ok(all)
            },
            Err(m) => Err(header_error(ErrorKind::Internal, m)),
        },
    }
}

/// A connection to an MCP server: the server, and the client once the
/// session has started.
pub struct McpSession<C> {
    server: McpServer,
    client: Option<C>,
}

/// The error of using a session before it started.
fn not_started() -> (e: AppError)
    ensures
        e.is(ErrorKind::Internal, "internal_error"@, "MCP client is not initialized. Call start_session() first."@),
{
    AppError::new(ErrorKind::Internal, "internal_error", owned("MCP client is not initialized. Call start_session() first."))
}

impl<C> McpSession<C> {
    /// Whether the session has a client.
    pub closed spec fn started(&self) -> bool {
        self.client is Some
    }

    /// The session's client, once started.
    pub closed spec fn client_of(&self) -> Option<C> {
        self.client
    }

    /// The server the session talks to.
    pub closed spec fn server_of(&self) -> McpServer {
        self.server
    }

    pub fn server(&self) -> (r: &McpServer)
        ensures
            *r == self.server_of(),
    {
        &self.server
    }

    pub fn new(server: McpServer) -> (s: McpSession<C>)
        ensures
            !s.started(),
            s.server_of() == server,
    {
        McpSession { server, client: None }
    }

    /// Keeps `client` as the session's client.
    pub fn start(&mut self, client: C)
        ensures
            final(self).started(),
            final(self).client_of() == Some(client),
            final(self).server_of() == old(self).server_of(),
    {
        self.client = Some(client);
    }

    /// The session's client.
    pub fn client(&self) -> (r: Result<&C, AppError>)
        ensures
            self.started() <==> r is Ok,
            r matches Ok(c) ==> self.client_of() == Some(*c),
            r matches Err(e) ==> e.is(ErrorKind::Internal, "internal_error"@, "MCP client is not initialized. Call start_session() first."@),
    {
        match &self.client {
            Some(c) => Ok(c),
            None => Err(not_started()),
        }
    }

    /// Gives up the session's client, to be shut down.
    pub fn end(&mut self) -> (r: Result<C, AppError>)
        ensures
            old(self).started() <==> r is Ok,
            r matches Ok(c) ==> old(self).client_of() == Some(c),
            !final(self).started(),
            final(self).server_of() == old(self).server_of(),
            r matches Err(e) ==> e.is(ErrorKind::Internal, "internal_error"@, "MCP client is not initialized. Call start_session() first."@),
    {
        match self.client.take() {
            Some(c) => Ok(c),
            None => Err(not_started()),
        }
    }
}

/// The text of a tool's answer: its text blocks joined by newlines, then
/// its structured content (if any), on a line of its own when there was
/// text.
pub open spec fn answer_text(texts: Seq<Seq<char>>, structured: Option<Seq<char>>) -> Seq<char> {
    let t = join_with(texts, "\n"@);
    match structured {
        Some(j) => if t.len() > 0 { t.push('\n') + j } else { j },
        None => t,
    }
}

/// Whether a result type reports success.
pub open spec fn result_ok(result_type: Option<Seq<char>>) -> bool {
    match result_type {
        Some(t) => t == "success"@ || t == "text"@,
        None => true,
    }
}

/// The answer of a call of the tool `name`, from what the server returned:
/// its result type, its text blocks and its structured content as JSON.
pub fn tool_answer(name: &str, result_type: Option<&str>, texts: &Vec<String>, structured: Option<&str>) -> (r: Result<String, AppError>)
    ensures
        ({
            let text = answer_text(views(texts@), match structured { Some(j) => Some(j@), None => None });
            match result_type {
                Some(t) => if result_ok(Some(t@)) {
                    r matches Ok(a) && a@ == text
                } else {
                    r matches Err(e) && e.is(ErrorKind::Internal, "tool_call_failed"@, "Tool '"@ + name@ + "' call failed with result type '"@ + t@ + "'"@)
                },
                None => r matches Ok(a) && a@ == text,
            }
        }),
{
    match result_type {
        Some(t) => {
            if !str_eq(t, "success") && !str_eq(t, "text") {
                let head = concat3("Tool '", name, "' call failed with result type '");
                let message = concat3(head.as_str(), t, "'");
                return Err(AppError::new(ErrorKind::Internal, "tool_call_failed", message));
            }
        },
        None => {},
    }
    let mut all = join(texts, "\n");
    match structured {
        Some(j) => {
            if char_count(all.as_str()) > 0 {
                push_char(&mut all, '\n');
                let r = concat2(all.as_str(), j);
                Ok(r)
            } else {
                proof {
                    assert(all@.len() == 0);
                    assert(all@ + j@ =~= j@);
                }
                Ok(owned(j))
            }
        },
        None => Ok(all),
    }
}

/// A tool or skill as an MCP server lists it: kept only with a description
/// and parameters that could be read.
pub fn listed(name: String, description: Option<String>, parameters: Option<Schema>) -> (r: Option<(String, String, Schema)>)
    ensures
        (description is Some && parameters is Some) <==> r is Some,
        r matches Some((n, d, p)) ==> n == name && Some(d) == description && Some(p) == parameters,
{
    match (description, parameters) {
        (Some(d), Some(p)) => Some((name, d, p)),
        _ => None,
    }
}

} // verus!
