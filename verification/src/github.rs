//! The transport client: credentials, authenticated request construction,
//! and normalization of raw responses into results or structured errors.
use crate::json::{
    lemma_parse_plain_string, obj_get, obj_lookup, obj_views_of, parse_json, plain_string_char,
    spec_parse_obj_items, spec_parse_string_body, spec_parse_text, spec_parse_value, spec_ws_end,
    views_of, Json, JsonValue,
};
use crate::organizations::Organization;
use crate::users::User;
use vstd::prelude::*;

verus! {

/// The HTTP methods the client uses.
#[derive(Clone, Copy, PartialEq, Eq, Structural, Debug)]
pub enum Method {
    Get,
    Post,
    Delete,
}

/// A fully described authenticated request, ready to be sent by the caller:
/// the method and absolute URL, the HTTP Basic credentials, the user-agent
/// identifier, and an optional body.
pub struct AuthedRequest {
    pub method: Method,
    pub url: String,
    pub username: String,
    pub password: String,
    pub user_agent: String,
    pub body: Option<String>,
}

/// The fixed base prepended to every request path.
pub open spec fn api_base() -> Seq<char> {
    "https://api.github.com"@
}

/// The fixed user-agent identifier attached to every request.
pub open spec fn user_agent_string() -> Seq<char> {
    "rust github/0.1.0"@
}

/// Whether an HTTP status belongs to the success class.
pub open spec fn success_class(status: u16) -> bool {
    200 <= status < 300
}

/// The transport client: the credentials every request is authenticated
/// with. Sending is the caller's job; this type only builds requests and
/// interprets raw responses.
pub struct GitHub {
    pub username: String,
    pub api_key: String,
}

/// One field-level error reported by the API.
#[derive(Debug)]
pub struct GitHubErrorPart {
    pub field: String,
    pub code: String,
    pub message: Option<String>,
}

impl View for GitHubErrorPart {
    type V = (Seq<char>, Seq<char>, Option<Seq<char>>);

    open spec fn view(&self) -> (Seq<char>, Seq<char>, Option<Seq<char>>) {
        (
            self.field@,
            self.code@,
            match self.message {
                Some(m) => Some(m@),
                None => None,
            },
        )
    }
}

/// The views of a list of field-level errors.
pub open spec fn parts_view(s: Seq<GitHubErrorPart>) -> Seq<
    (Seq<char>, Seq<char>, Option<Seq<char>>),
> {
    Seq::new(s.len(), |i: int| s[i]@)
}

/// Every failure the library surfaces: a network-level failure, a payload
/// that could not be decoded, or a failure reported by the API itself.
#[derive(Debug)]
pub enum GitHubError {
    Transport(String),
    Serialization(String),
    Api { message: String, errors: Vec<GitHubErrorPart> },
}

/// The field-level error denoted by one element of the `errors` array:
/// `field` and `code` strings plus an optional `message`.
pub open spec fn part_of_json(j: Json) -> Option<(Seq<char>, Seq<char>, Option<Seq<char>>)> {
    match j {
        Json::Obj(m) => match (obj_lookup(m, "field"@), obj_lookup(m, "code"@)) {
            (Some(Json::Str(f)), Some(Json::Str(c))) => match obj_lookup(m, "message"@) {
                None => Some((f, c, None)),
                Some(Json::Str(t)) => Some((f, c, Some(t))),
                Some(Json::Null) => Some((f, c, None)),
                Some(_) => None,
            },
            _ => None,
        },
        _ => None,
    }
}

/// The field-level errors denoted by the elements of the `errors` array
/// from position `i` on, or `None` when one of them has the wrong shape.
pub open spec fn parts_of_arr(a: Seq<Json>, i: int) -> Option<
    Seq<(Seq<char>, Seq<char>, Option<Seq<char>>)>,
>
    decreases a.len() - i,
{
    if i < 0 {
        None
    } else if i >= a.len() {
        Some(Seq::empty())
    } else {
        match part_of_json(a[i]) {
            None => None,
            Some(p) => match parts_of_arr(a, i + 1) {
                None => None,
                Some(rest) => Some(seq![p] + rest),
            },
        }
    }
}

/// The message and field-level errors denoted by a JSON value of the API's
/// error schema: an object with a `message` string and an optional
/// `errors` array.
pub open spec fn error_body_of(j: Json) -> Option<
    (Seq<char>, Seq<(Seq<char>, Seq<char>, Option<Seq<char>>)>),
> {
    match j {
        Json::Obj(m) => match obj_lookup(m, "message"@) {
            Some(Json::Str(msg)) => match obj_lookup(m, "errors"@) {
                None => Some((msg, Seq::empty())),
                Some(Json::Arr(a)) => match parts_of_arr(a, 0) {
                    None => None,
                    Some(ps) => Some((msg, ps)),
                },
                Some(_) => None,
            },
            _ => None,
        },
        _ => None,
    }
}

/// The error body denoted by a response text, when it is well-formed.
pub open spec fn error_body_of_text(t: Seq<char>) -> Option<
    (Seq<char>, Seq<(Seq<char>, Seq<char>, Option<Seq<char>>)>),
> {
    match spec_parse_text(t) {
        Some(j) => error_body_of(j),
        None => None,
    }
}

/// The synthesized message used when an error body cannot be understood:
/// it names the parse failure and embeds the raw body, so nothing is lost.
pub open spec fn parse_failure_message(body: Seq<char>) -> Seq<char> {
    "could not convert github's response into an error\n\n"@ + body
}

/// The canonical text of an error body that carries a message alone.
pub open spec fn simple_error_body_text(m: Seq<char>) -> Seq<char> {
    "{\"message\":\""@ + m + "\"}"@
}

/// The law that a well-formed error body `{"message": "m"}` denotes exactly
/// the message `m` with no sub-errors, for every message that needs no
/// escapes. Together with `get_result`'s contract, a non-success response
/// with such a body yields an API error carrying exactly `m`.
pub proof fn lemma_error_body_round_trip(m: Seq<char>)
    requires
        forall|k: int| 0 <= k < m.len() ==> plain_string_char(#[trigger] m[k]),
    ensures
        error_body_of_text(simple_error_body_text(m)) == Some((
            m,
            Seq::<(Seq<char>, Seq<char>, Option<Seq<char>>)>::empty(),
        )),
{
    reveal_strlit("{\"message\":\"");
    reveal_strlit("\"}");
    reveal_strlit("message");
    reveal_strlit("errors");
    let t = simple_error_body_text(m);
    let a = "{\"message\":\""@;
    let b = "\"}"@;
    let n = m.len() as int;
    assert(a.len() == 12);
    assert(b.len() == 2);
    assert(t.len() == 14 + n);
    assert forall|k: int| 0 <= k < 12 implies t[k] == a[k] by {
        assert(t[k] == (a + m)[k]);
    }
    assert forall|k: int| 0 <= k < n implies t[12 + k] == m[k] by {
        assert(t[12 + k] == (a + m)[12 + k]);
    }
    assert(t[12 + n] == b[0]);
    assert(t[13 + n] == b[1]);
    assert forall|k: int| 0 <= k < 7 implies t[2 + k] == "message"@[k] by {
        assert(t[2 + k] == a[2 + k]);
    }
    assert forall|k: int| 0 <= k < 7 implies plain_string_char(#[trigger] "message"@[k]) by {
        assert("message"@[k] == t[2 + k]);
    }
    lemma_parse_plain_string(t, "message"@, 2, Seq::empty());
    assert(Seq::<char>::empty() + "message"@ =~= "message"@);
    assert(spec_parse_string_body(t, 2, Seq::empty()) == Some(("message"@, 10int)));
    lemma_parse_plain_string(t, m, 12, Seq::empty());
    assert(Seq::<char>::empty() + m =~= m);
    assert(spec_parse_string_body(t, 12, Seq::empty()) == Some((m, 13 + n)));
    assert(spec_ws_end(t, 0) == 0);
    assert(spec_ws_end(t, 1) == 1);
    assert(spec_ws_end(t, 10) == 10);
    assert(spec_ws_end(t, 11) == 11);
    assert(spec_ws_end(t, 13 + n) == 13 + n);
    assert(spec_ws_end(t, 14 + n) == 14 + n);
    let kv = ("message"@, Json::Str(m));
    assert(spec_parse_value(t, 11) == Some((Json::Str(m), 13 + n)));
    assert(spec_parse_obj_items(t, 1, Seq::empty()) == Some((
        Json::Obj(Seq::empty().push(kv)),
        14 + n,
    )));
    assert(spec_parse_value(t, 0) == Some((Json::Obj(Seq::empty().push(kv)), 14 + n)));
    assert(spec_parse_text(t) == Some(Json::Obj(Seq::empty().push(kv))));
    let members = Seq::<(Seq<char>, Json)>::empty().push(kv);
    assert(members[0] == kv);
    assert(obj_lookup(members, "message"@) == Some(Json::Str(m)));
    assert("errors"@.len() == 6);
    assert(members[0].0 != "errors"@);
    assert(members.drop_first() =~= Seq::<(Seq<char>, Json)>::empty());
    assert(obj_lookup(Seq::<(Seq<char>, Json)>::empty(), "errors"@) is None);
    assert(obj_lookup(members, "errors"@) is None);
    assert(error_body_of(Json::Obj(members)) == Some((
        m,
        Seq::<(Seq<char>, Seq<char>, Option<Seq<char>>)>::empty(),
    )));
}

fn part_from_json(v: &JsonValue) -> (r: Option<GitHubErrorPart>)
    ensures
        match r {
            Some(p) => part_of_json(v@) == Some(p@),
            None => part_of_json(v@) is None,
        },
{
    match v {
        JsonValue::Obj(m) => {
            let f = match obj_get(m, "field") {
                Some(x) => match x {
                    JsonValue::Str(t) => t.clone(),
                    _ => { return None; },
                },
                None => { return None; },
            };
            let c = match obj_get(m, "code") {
                Some(x) => match x {
                    JsonValue::Str(t) => t.clone(),
                    _ => { return None; },
                },
                None => { return None; },
            };
            let msg: Option<String> = match obj_get(m, "message") {
                None => None,
                Some(x) => match x {
                    JsonValue::Str(t) => Some(t.clone()),
                    JsonValue::Null => None,
                    _ => { return None; },
                },
            };
            Some(GitHubErrorPart { field: f, code: c, message: msg })
        },
        _ => None,
    }
}

fn parts_from_arr(a: &Vec<JsonValue>) -> (r: Option<Vec<GitHubErrorPart>>)
    ensures
        match r {
            Some(ps) => parts_of_arr(views_of(a@), 0) == Some(parts_view(ps@)),
            None => parts_of_arr(views_of(a@), 0) is None,
        },
{
    let n = a.len();
    let mut out: Vec<GitHubErrorPart> = Vec::new();
    let mut i: usize = 0;
    proof {
        crate::json::lemma_views_of_len_index(a@);
    }
    while i < n
        invariant
            i <= n,
            n == a@.len(),
            views_of(a@).len() == n,
            forall|k: int| 0 <= k < n ==> views_of(a@)[k] == a@[k]@,
            parts_view(out@).len() == i,
            match parts_of_arr(views_of(a@), i as int) {
                Some(rest) => parts_of_arr(views_of(a@), 0) == Some(parts_view(out@) + rest),
                None => parts_of_arr(views_of(a@), 0) is None,
            },
        decreases n - i,
    {
        match part_from_json(&a[i]) {
            None => {
                proof {
                    assert(parts_of_arr(views_of(a@), i as int) is None);
                }
                return None;
            },
            Some(p) => {
                proof {
                    assert(part_of_json(views_of(a@)[i as int]) == Some(p@));
                }
                let ghost old_out = out@;
                out.push(p);
                proof {
                    assert(parts_view(out@) =~= parts_view(old_out).push(p@));
                    match parts_of_arr(views_of(a@), i as int + 1) {
                        Some(rest2) => {
                            assert(parts_of_arr(views_of(a@), i as int) == Some(
                                seq![p@] + rest2,
                            ));
                            assert(parts_view(old_out) + (seq![p@] + rest2) =~= parts_view(out@)
                                + rest2);
                        },
                        None => {
                            assert(parts_of_arr(views_of(a@), i as int) is None);
                        },
                    }
                }
                i += 1;
            },
        }
    }
    proof {
        assert(parts_of_arr(views_of(a@), n as int) == Some(
            Seq::<(Seq<char>, Seq<char>, Option<Seq<char>>)>::empty(),
        ));
        assert(parts_view(out@) + Seq::<(Seq<char>, Seq<char>, Option<Seq<char>>)>::empty()
            =~= parts_view(out@));
    }
    Some(out)
}

fn extract_error_body(v: &JsonValue) -> (r: Option<(String, Vec<GitHubErrorPart>)>)
    ensures
        match r {
            Some(p) => error_body_of(v@) == Some((p.0@, parts_view(p.1@))),
            None => error_body_of(v@) is None,
        },
{
    match v {
        JsonValue::Obj(m) => {
            let msg = match obj_get(m, "message") {
                Some(x) => match x {
                    JsonValue::Str(t) => t.clone(),
                    _ => { return None; },
                },
                None => { return None; },
            };
            match obj_get(m, "errors") {
                None => {
                    let empty: Vec<GitHubErrorPart> = Vec::new();
                    proof {
                        assert(parts_view(empty@) =~= Seq::<
                            (Seq<char>, Seq<char>, Option<Seq<char>>),
                        >::empty());
                    }
                    Some((msg, empty))
                },
                Some(x) => match x {
                    JsonValue::Arr(a) => match parts_from_arr(a) {
                        Some(ps) => Some((msg, ps)),
                        None => None,
                    },
                    _ => None,
                },
            }
        },
        _ => None,
    }
}

fn convert_failure(body: &str) -> (r: GitHubError)
    ensures
        match r {
            GitHubError::Api { message, errors } => message@ == parse_failure_message(body@)
                && errors@.len() == 0,
            _ => false,
        },
{
    let mut m = String::new();
    m.append("could not convert github's response into an error\n\n");
    m.append(body);
    proof {
        assert(m@ =~= parse_failure_message(body@));
    }
    GitHubError::Api { message: m, errors: Vec::new() }
}

impl GitHub {
    /// Builds a client from the credential pair; the strings are stored
    /// unchanged and never altered afterwards.
    pub fn new(username: &str, api_key: &str) -> (r: Self)
        ensures
            r.username@ == username@,
            r.api_key@ == api_key@,
    {
        GitHub { username: username.to_owned(), api_key: api_key.to_owned() }
    }

    /// The principal acting as the credential owner itself.
    pub fn get_user<'a>(&'a self) -> (r: User<'a>)
        ensures
            r.github == self,
    {
        User { github: self }
    }

    /// The principal acting as the named organization.
    pub fn get_organization<'a>(&'a self, name: &'a str) -> (r: Organization<'a>)
        ensures
            r.github == self,
            r.name@ == name@,
    {
        Organization { github: self, name }
    }

    /// Builds a request for `url` under the fixed API base, authenticated
    /// with HTTP Basic credentials and the fixed user-agent identifier.
    /// Nothing is sent.
    pub fn make_authorized_request(&self, method: Method, url: &str) -> (r: AuthedRequest)
        ensures
            r.method == method,
            r.url@ == api_base() + url@,
            r.username@ == self.username@,
            r.password@ == self.api_key@,
            r.user_agent@ == user_agent_string(),
            r.body is None,
    {
        let mut u = String::new();
        u.append("https://api.github.com");
        u.append(url);
        let mut ua = String::new();
        ua.append("rust github/0.1.0");
        proof {
            assert(u@ =~= api_base() + url@);
            assert(ua@ =~= user_agent_string());
        }
        AuthedRequest {
            method,
            url: u,
            username: self.username.clone(),
            password: self.api_key.clone(),
            user_agent: ua,
            body: None,
        }
    }

    /// Extracts the outcome of a raw response. A success-class status yields
    /// the body text unchanged. Any other status yields the structured API
    /// error when the body has the error schema's shape, and otherwise an
    /// API error whose message embeds both the parse failure and the raw
    /// body, so that nothing is silently dropped.
    pub fn get_result(&self, status: u16, body: &str) -> (r: Result<String, GitHubError>)
        ensures
            success_class(status) ==> (r matches Ok(b) && b@ == body@),
            !success_class(status) ==> match (r, error_body_of_text(body@)) {
                (Err(GitHubError::Api { message, errors }), Some(eb)) => message@ == eb.0
                    && parts_view(errors@) == eb.1,
                (Err(GitHubError::Api { message, errors }), None) => message@
                    == parse_failure_message(body@) && errors@.len() == 0,
                _ => false,
            },
    {
        if 200 <= status && status < 300 {
            return Ok(body.to_owned());
        }
        match parse_json(body) {
            Some(v) => match extract_error_body(&v) {
                Some(p) => Err(GitHubError::Api { message: p.0, errors: p.1 }),
                None => Err(convert_failure(body)),
            },
            None => Err(convert_failure(body)),
        }
    }
}

} // verus!
