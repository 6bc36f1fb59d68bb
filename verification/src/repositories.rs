//! Repository lifecycle operations: creating, fetching and deleting a
//! repository under a principal, with the URL paths and JSON payloads the
//! API expects.
//!
//! Owner and repository names are percent-encoded when they are placed in
//! a URL path, so a crafted name cannot change the shape of the path.
use crate::github::{
    api_base, error_body_of_text, parse_failure_message, parts_view, success_class,
    user_agent_string, AuthedRequest, GitHub, GitHubError, Method,
};
use crate::json::{
    bool_field_ok, get_bool, get_opt_str, get_opt_u64, get_str, get_u64,
    lemma_parse_plain_string, obj_get, obj_lookup, opt_str_field_ok, opt_u64_field_ok, parse_json,
    plain_string_char, spec_parse_obj_items, spec_parse_string_body, spec_parse_text,
    spec_parse_value, spec_ws_end, str_field_ok, u64_field_ok, Json, JsonValue,
};
use crate::organizations::Organization;
use crate::text::{dec_digits, digit_char, digit_char_x, push_char, push_udec};
use crate::users::{user_info_matches, user_info_ok, User, UserInfo};
use vstd::prelude::*;

verus! {

/// Characters that stand for themselves in a URL path segment.
pub open spec fn is_unreserved(c: char) -> bool {
    ('a' <= c && c <= 'z') || ('A' <= c && c <= 'Z') || ('0' <= c && c <= '9') || c == '-' || c
        == '.' || c == '_' || c == '~'
}

/// The three characters of one percent-encoded byte.
pub open spec fn percent_byte(b: u8) -> Seq<char> {
    seq!['%', digit_char(b as int / 16), digit_char(b as int % 16)]
}

pub open spec fn percent_bytes(bs: Seq<u8>) -> Seq<char>
    decreases bs.len(),
{
    if bs.len() == 0 {
        Seq::empty()
    } else {
        percent_byte(bs[0]) + percent_bytes(bs.drop_first())
    }
}

/// How one character appears in an escaped path segment: unreserved
/// characters stand for themselves, every other character becomes the
/// percent-encoding of its UTF-8 bytes.
pub open spec fn escape_char(c: char) -> Seq<char> {
    if is_unreserved(c) {
        seq![c]
    } else {
        percent_bytes(vstd::utf8::encode_scalar(c as u32))
    }
}

/// The percent-encoded form of a whole path segment.
pub open spec fn spec_escape(s: Seq<char>) -> Seq<char>
    decreases s.len(),
{
    if s.len() == 0 {
        Seq::empty()
    } else {
        spec_escape(s.drop_last()) + escape_char(s.last())
    }
}

/// The metadata path of one repository.
pub open spec fn spec_repos_path(owner: Seq<char>, name: Seq<char>) -> Seq<char> {
    "/repos/"@ + spec_escape(owner) + "/"@ + spec_escape(name)
}

proof fn lemma_pb1(b0: u8)
    ensures
        percent_bytes(seq![b0]) == percent_byte(b0),
{
    assert(seq![b0].drop_first() =~= Seq::<u8>::empty());
    assert(percent_bytes(Seq::<u8>::empty()) == Seq::<char>::empty());
    assert(seq![b0][0] == b0);
    assert(percent_byte(b0) + Seq::<char>::empty() =~= percent_byte(b0));
}

proof fn lemma_pb2(b0: u8, b1: u8)
    ensures
        percent_bytes(seq![b0, b1]) == percent_byte(b0) + percent_byte(b1),
{
    lemma_pb1(b1);
    assert(seq![b0, b1].drop_first() =~= seq![b1]);
    assert(seq![b0, b1][0] == b0);
}

proof fn lemma_pb3(b0: u8, b1: u8, b2: u8)
    ensures
        percent_bytes(seq![b0, b1, b2]) == percent_byte(b0) + (percent_byte(b1) + percent_byte(
            b2,
        )),
{
    lemma_pb2(b1, b2);
    assert(seq![b0, b1, b2].drop_first() =~= seq![b1, b2]);
    assert(seq![b0, b1, b2][0] == b0);
}

proof fn lemma_pb4(b0: u8, b1: u8, b2: u8, b3: u8)
    ensures
        percent_bytes(seq![b0, b1, b2, b3]) == percent_byte(b0) + (percent_byte(b1) + (
        percent_byte(b2) + percent_byte(b3))),
{
    lemma_pb3(b1, b2, b3);
    assert(seq![b0, b1, b2, b3].drop_first() =~= seq![b1, b2, b3]);
    assert(seq![b0, b1, b2, b3][0] == b0);
}

fn push_pct(out: &mut String, b: u8)
    ensures
        final(out)@ == old(out)@ + percent_byte(b),
{
    push_char(out, '%');
    push_char(out, digit_char_x(b / 16));
    push_char(out, digit_char_x(b % 16));
    proof {
        assert(final(out)@ =~= old(out)@ + percent_byte(b));
    }
}

/// Percent-encodes `s` for use as one URL path segment.
pub fn escape_path_segment(s: &str) -> (r: String)
    ensures
        r@ == spec_escape(s@),
{
    let n = s.unicode_len();
    let mut out = String::new();
    let mut i: usize = 0;
    while i < n
        invariant
            i <= n,
            n == s@.len(),
            out@ == spec_escape(s@.take(i as int)),
        decreases n - i,
    {
        let ghost prev = out@;
        let c = s.get_char(i);
        if ('a' <= c && c <= 'z') || ('A' <= c && c <= 'Z') || ('0' <= c && c <= '9') || c == '-'
            || c == '.' || c == '_' || c == '~' {
            push_char(&mut out, c);
            proof {
                assert(out@ =~= prev + escape_char(c));
            }
        } else {
            let u = c as u32;
            proof {
                broadcast use vstd::utf8::char_is_scalar;

            }
            if u <= 0x7F {
                assert((u & 0x7F) < 256) by (bit_vector);
                let b0 = (u & 0x7F) as u8;
                push_pct(&mut out, b0);
                proof {
                    assert(vstd::utf8::encode_scalar(u) == seq![b0]);
                    lemma_pb1(b0);
                    assert(out@ =~= prev + escape_char(c));
                }
            } else if u <= 0x7FF {
                assert(((u >> 6) & 0x1F) < 256 && (u & 0x3F) < 256) by (bit_vector);
                let b0 = 0xC0u8 | ((u >> 6) & 0x1F) as u8;
                let b1 = 0x80u8 | (u & 0x3F) as u8;
                push_pct(&mut out, b0);
                push_pct(&mut out, b1);
                proof {
                    assert(vstd::utf8::encode_scalar(u) == seq![b0, b1]);
                    lemma_pb2(b0, b1);
                    assert(out@ =~= prev + escape_char(c));
                }
            } else if u <= 0xFFFF {
                assert(((u >> 12) & 0x0F) < 256 && ((u >> 6) & 0x3F) < 256 && (u & 0x3F) < 256)
                    by (bit_vector);
                let b0 = 0xE0u8 | ((u >> 12) & 0x0F) as u8;
                let b1 = 0x80u8 | ((u >> 6) & 0x3F) as u8;
                let b2 = 0x80u8 | (u & 0x3F) as u8;
                push_pct(&mut out, b0);
                push_pct(&mut out, b1);
                push_pct(&mut out, b2);
                proof {
                    assert(vstd::utf8::encode_scalar(u) == seq![b0, b1, b2]);
                    lemma_pb3(b0, b1, b2);
                    assert(out@ =~= prev + escape_char(c));
                }
            } else {
                assert(((u >> 18) & 0x7) < 256 && ((u >> 12) & 0x3F) < 256 && ((u >> 6) & 0x3F)
                    < 256 && (u & 0x3F) < 256) by (bit_vector);
                let b0 = 0xF0u8 | ((u >> 18) & 0x7) as u8;
                let b1 = 0x80u8 | ((u >> 12) & 0x3F) as u8;
                let b2 = 0x80u8 | ((u >> 6) & 0x3F) as u8;
                let b3 = 0x80u8 | (u & 0x3F) as u8;
                push_pct(&mut out, b0);
                push_pct(&mut out, b1);
                push_pct(&mut out, b2);
                push_pct(&mut out, b3);
                proof {
                    assert(vstd::utf8::encode_scalar(u) == seq![b0, b1, b2, b3]);
                    lemma_pb4(b0, b1, b2, b3);
                    assert(out@ =~= prev + escape_char(c));
                }
            }
        }
        proof {
            assert(s@.take(i + 1).drop_last() =~= s@.take(i as int));
            assert(s@.take(i + 1).last() == s@[i as int]);
            assert(out@ == spec_escape(s@.take(i + 1)));
        }
        i += 1;
    }
    proof {
        assert(s@.take(n as int) =~= s@);
    }
    out
}

/// Builds `/repos/{owner}/{name}` with both segments escaped.
pub fn repos_path(owner: &str, name: &str) -> (r: String)
    ensures
        r@ == spec_repos_path(owner@, name@),
{
    let mut u = String::new();
    u.append("/repos/");
    let e1 = escape_path_segment(owner);
    u.append(e1.as_str());
    u.append("/");
    let e2 = escape_path_segment(name);
    u.append(e2.as_str());
    proof {
        assert(u@ =~= spec_repos_path(owner@, name@));
    }
    u
}

/// How one character appears inside a JSON string literal.
pub open spec fn render_escaped_char(c: char) -> Seq<char> {
    if c == '"' {
        seq!['\\', '"']
    } else if c == '\\' {
        seq!['\\', '\\']
    } else if c == '\n' {
        seq!['\\', 'n']
    } else if c == '\r' {
        seq!['\\', 'r']
    } else if c == '\t' {
        seq!['\\', 't']
    } else if (c as u32) < 0x20 {
        seq!['\\', 'u', '0', '0', digit_char((c as u32) as int / 16), digit_char(
            (c as u32) as int % 16,
        )]
    } else {
        seq![c]
    }
}

pub open spec fn render_string_body(s: Seq<char>) -> Seq<char>
    decreases s.len(),
{
    if s.len() == 0 {
        Seq::empty()
    } else {
        render_string_body(s.drop_last()) + render_escaped_char(s.last())
    }
}

/// A JSON string literal denoting `s`.
pub open spec fn render_json_string(s: Seq<char>) -> Seq<char> {
    seq!['"'] + render_string_body(s) + seq!['"']
}

fn push_json_string(out: &mut String, s: &str)
    ensures
        final(out)@ == old(out)@ + render_json_string(s@),
{
    let ghost orig = out@;
    push_char(out, '"');
    let n = s.unicode_len();
    let mut i: usize = 0;
    while i < n
        invariant
            i <= n,
            n == s@.len(),
            out@ == orig + seq!['"'] + render_string_body(s@.take(i as int)),
        decreases n - i,
    {
        let ghost prev = out@;
        let c = s.get_char(i);
        if c == '"' {
            push_char(out, '\\');
            push_char(out, '"');
        } else if c == '\\' {
            push_char(out, '\\');
            push_char(out, '\\');
        } else if c == '\n' {
            push_char(out, '\\');
            push_char(out, 'n');
        } else if c == '\r' {
            push_char(out, '\\');
            push_char(out, 'r');
        } else if c == '\t' {
            push_char(out, '\\');
            push_char(out, 't');
        } else {
            let u = c as u32;
            if u < 0x20 {
                push_char(out, '\\');
                push_char(out, 'u');
                push_char(out, '0');
                push_char(out, '0');
                push_char(out, digit_char_x((u / 16) as u8));
                push_char(out, digit_char_x((u % 16) as u8));
            } else {
                push_char(out, c);
            }
        }
        proof {
            assert(out@ =~= prev + render_escaped_char(c));
            assert(s@.take(i + 1).drop_last() =~= s@.take(i as int));
            assert(s@.take(i + 1).last() == s@[i as int]);
            assert(out@ =~= orig + seq!['"'] + render_string_body(s@.take(i + 1)));
        }
        i += 1;
    }
    push_char(out, '"');
    proof {
        assert(s@.take(n as int) =~= s@);
        assert(final(out)@ =~= orig + render_json_string(s@));
    }
}

/// The decimal rendering of an integer.
pub open spec fn render_int(n: int) -> Seq<char> {
    if n < 0 {
        seq!['-'] + dec_digits(-n)
    } else {
        dec_digits(n)
    }
}

pub open spec fn render_opt_str_field(prefix: Seq<char>, v: Option<String>) -> Seq<char> {
    match v {
        None => Seq::empty(),
        Some(s) => prefix + render_json_string(s@),
    }
}

pub open spec fn render_opt_bool_field(prefix: Seq<char>, v: Option<bool>) -> Seq<char> {
    match v {
        None => Seq::empty(),
        Some(b) => prefix + (if b {
            "true"@
        } else {
            "false"@
        }),
    }
}

pub open spec fn render_opt_int_field(prefix: Seq<char>, v: Option<i64>) -> Seq<char> {
    match v {
        None => Seq::empty(),
        Some(n) => prefix + render_int(n as int),
    }
}

/// A write-only repository creation request. The API distinguishes a field
/// that is absent from one that is false or empty, so every unset optional
/// field is omitted from the serialized body entirely.
pub struct RepositoryCreationInfo {
    pub name: String,
    pub description: Option<String>,
    pub homepage: Option<String>,
    pub private: Option<bool>,
    pub has_issues: Option<bool>,
    pub has_wiki: Option<bool>,
    pub has_downloads: Option<bool>,
    pub team_id: Option<i64>,
    pub auto_init: Option<bool>,
    pub gitignore_template: Option<String>,
    pub license_template: Option<String>,
}

/// The serialized JSON body of a creation request: the `name` member first,
/// then one member for each optional field that is set, in declaration
/// order, and nothing else.
pub open spec fn render_creation(r: RepositoryCreationInfo) -> Seq<char> {
    "{\"name\":"@ + render_json_string(r.name@) + render_opt_str_field(
        ",\"description\":"@,
        r.description,
    ) + render_opt_str_field(",\"homepage\":"@, r.homepage) + render_opt_bool_field(
        ",\"private\":"@,
        r.private,
    ) + render_opt_bool_field(",\"has_issues\":"@, r.has_issues) + render_opt_bool_field(
        ",\"has_wiki\":"@,
        r.has_wiki,
    ) + render_opt_bool_field(",\"has_downloads\":"@, r.has_downloads) + render_opt_int_field(
        ",\"team_id\":"@,
        r.team_id,
    ) + render_opt_bool_field(",\"auto_init\":"@, r.auto_init) + render_opt_str_field(
        ",\"gitignore_template\":"@,
        r.gitignore_template,
    ) + render_opt_str_field(",\"license_template\":"@, r.license_template) + "}"@
}

impl RepositoryCreationInfo {
    /// A creation request with only the repository name set.
    pub fn new(name: &str) -> (r: Self)
        ensures
            r.name@ == name@,
            r.description is None,
            r.homepage is None,
            r.private is None,
            r.has_issues is None,
            r.has_wiki is None,
            r.has_downloads is None,
            r.team_id is None,
            r.auto_init is None,
            r.gitignore_template is None,
            r.license_template is None,
    {
        RepositoryCreationInfo {
            name: name.to_owned(),
            description: None,
            homepage: None,
            private: None,
            has_issues: None,
            has_wiki: None,
            has_downloads: None,
            team_id: None,
            auto_init: None,
            gitignore_template: None,
            license_template: None,
        }
    }

    /// Serializes the request as the API's JSON schema, omitting every
    /// unset optional field.
    #[verifier::rlimit(100)]
    pub fn to_json(&self) -> (r: String)
        ensures
            r@ == render_creation(*self),
    {
        let mut out = String::new();
        out.append("{\"name\":");
        push_json_string(&mut out, self.name.as_str());
        push_opt_str_field(&mut out, ",\"description\":", &self.description);
        push_opt_str_field(&mut out, ",\"homepage\":", &self.homepage);
        push_opt_bool_field(&mut out, ",\"private\":", &self.private);
        push_opt_bool_field(&mut out, ",\"has_issues\":", &self.has_issues);
        push_opt_bool_field(&mut out, ",\"has_wiki\":", &self.has_wiki);
        push_opt_bool_field(&mut out, ",\"has_downloads\":", &self.has_downloads);
        push_opt_int_field(&mut out, ",\"team_id\":", &self.team_id);
        push_opt_bool_field(&mut out, ",\"auto_init\":", &self.auto_init);
        push_opt_str_field(&mut out, ",\"gitignore_template\":", &self.gitignore_template);
        push_opt_str_field(&mut out, ",\"license_template\":", &self.license_template);
        out.append("}");
        proof {
            assert(out@ =~= render_creation(*self));
        }
        out
    }
}

fn push_opt_str_field(out: &mut String, prefix: &str, v: &Option<String>)
    ensures
        final(out)@ == old(out)@ + render_opt_str_field(prefix@, *v),
{
    match v {
        Some(s) => {
            out.append(prefix);
            push_json_string(out, s.as_str());
            proof {
                assert(final(out)@ =~= old(out)@ + render_opt_str_field(prefix@, *v));
            }
        },
        None => {
            proof {
                assert(final(out)@ =~= old(out)@ + render_opt_str_field(prefix@, *v));
            }
        },
    }
}

fn push_opt_bool_field(out: &mut String, prefix: &str, v: &Option<bool>)
    ensures
        final(out)@ == old(out)@ + render_opt_bool_field(prefix@, *v),
{
    match v {
        Some(b) => {
            out.append(prefix);
            out.append(if *b { "true" } else { "false" });
            proof {
                assert(final(out)@ =~= old(out)@ + render_opt_bool_field(prefix@, *v));
            }
        },
        None => {
            proof {
                assert(final(out)@ =~= old(out)@ + render_opt_bool_field(prefix@, *v));
            }
        },
    }
}

fn push_opt_int_field(out: &mut String, prefix: &str, v: &Option<i64>)
    ensures
        final(out)@ == old(out)@ + render_opt_int_field(prefix@, *v),
{
    match v {
        Some(n) => {
            out.append(prefix);
            push_i64(out, *n);
            proof {
                assert(final(out)@ =~= old(out)@ + render_opt_int_field(prefix@, *v));
            }
        },
        None => {
            proof {
                assert(final(out)@ =~= old(out)@ + render_opt_int_field(prefix@, *v));
            }
        },
    }
}

/// Appends the decimal rendering of `n`.
fn push_i64(out: &mut String, n: i64)
    ensures
        final(out)@ == old(out)@ + render_int(n as int),
{
    if n >= 0 {
        push_udec(out, n as u64);
    } else {
        push_char(out, '-');
        let m: u64 = if n == -9_223_372_036_854_775_808i64 {
            9_223_372_036_854_775_808u64
        } else {
            (-n) as u64
        };
        push_udec(out, m);
        proof {
            assert(final(out)@ =~= old(out)@ + render_int(n as int));
        }
    }
}

/// The law that a request with only `name` set serializes to a body with
/// exactly the single `name` member.
pub proof fn lemma_creation_body_only_name(r: RepositoryCreationInfo)
    requires
        r.description is None,
        r.homepage is None,
        r.private is None,
        r.has_issues is None,
        r.has_wiki is None,
        r.has_downloads is None,
        r.team_id is None,
        r.auto_init is None,
        r.gitignore_template is None,
        r.license_template is None,
    ensures
        render_creation(r) == "{\"name\":"@ + render_json_string(r.name@) + "}"@,
{
    assert(render_creation(r) =~= "{\"name\":"@ + render_json_string(r.name@) + "}"@);
}


proof fn lemma_render_plain_body(s: Seq<char>)
    requires
        forall|k: int| 0 <= k < s.len() ==> plain_string_char(#[trigger] s[k]),
    ensures
        render_string_body(s) == s,
    decreases s.len(),
{
    if s.len() == 0 {
        assert(render_string_body(s) =~= s);
    } else {
        lemma_render_plain_body(s.drop_last());
        assert(plain_string_char(s.last()));
        assert(render_escaped_char(s.last()) == seq![s.last()]);
        assert(render_string_body(s) =~= s);
    }
}

/// The law that a creation request with only `name` set serializes to a
/// body denoting an object with exactly the single member `name`, for
/// every name that needs no escapes.
pub proof fn lemma_creation_body_single_key(r: RepositoryCreationInfo)
    requires
        r.description is None,
        r.homepage is None,
        r.private is None,
        r.has_issues is None,
        r.has_wiki is None,
        r.has_downloads is None,
        r.team_id is None,
        r.auto_init is None,
        r.gitignore_template is None,
        r.license_template is None,
        forall|k: int| 0 <= k < r.name@.len() ==> plain_string_char(#[trigger] r.name@[k]),
    ensures
        spec_parse_text(render_creation(r)) == Some(Json::Obj(seq![("name"@, Json::Str(r.name@))])),
{
    reveal_strlit("{\"name\":");
    reveal_strlit("}");
    reveal_strlit("name");
    lemma_creation_body_only_name(r);
    let nm = r.name@;
    let n = nm.len() as int;
    lemma_render_plain_body(nm);
    let a = "{\"name\":"@;
    assert(a.len() == 8);
    let t = render_creation(r);
    assert(render_json_string(nm) == seq!['"'] + nm + seq!['"']);
    assert(t =~= a + (seq!['"'] + nm + seq!['"']) + "}"@);
    assert(t.len() == 11 + n);
    assert forall|k: int| 0 <= k < 8 implies t[k] == a[k] by {
        assert(t[k] == (a + (seq!['"'] + nm + seq!['"']))[k]);
    }
    assert(t[8] == '"');
    assert forall|k: int| 0 <= k < n implies t[9 + k] == nm[k] by {
        assert(t[9 + k] == (a + (seq!['"'] + nm + seq!['"']))[9 + k]);
    }
    assert(t[9 + n] == '"');
    assert(t[10 + n] == '}');
    assert forall|k: int| 0 <= k < 4 implies t[2 + k] == "name"@[k] by {
        assert(t[2 + k] == a[2 + k]);
    }
    assert forall|k: int| 0 <= k < 4 implies plain_string_char(#[trigger] "name"@[k]) by {
        assert("name"@[k] == t[2 + k]);
    }
    lemma_parse_plain_string(t, "name"@, 2, Seq::empty());
    assert(Seq::<char>::empty() + "name"@ =~= "name"@);
    assert(spec_parse_string_body(t, 2, Seq::empty()) == Some(("name"@, 7int)));
    lemma_parse_plain_string(t, nm, 9, Seq::empty());
    assert(Seq::<char>::empty() + nm =~= nm);
    assert(spec_parse_string_body(t, 9, Seq::empty()) == Some((nm, 10 + n)));
    assert(spec_ws_end(t, 0) == 0);
    assert(spec_ws_end(t, 1) == 1);
    assert(spec_ws_end(t, 7) == 7);
    assert(spec_ws_end(t, 8) == 8);
    assert(spec_ws_end(t, 10 + n) == 10 + n);
    assert(spec_ws_end(t, 11 + n) == 11 + n);
    let kv = ("name"@, Json::Str(nm));
    assert(spec_parse_value(t, 8) == Some((Json::Str(nm), 10 + n)));
    assert(spec_parse_obj_items(t, 1, Seq::empty()) == Some((
        Json::Obj(Seq::empty().push(kv)),
        11 + n,
    )));
    assert(spec_parse_value(t, 0) == Some((Json::Obj(Seq::empty().push(kv)), 11 + n)));
    assert(Seq::<(Seq<char>, Json)>::empty().push(kv) =~= seq![kv]);
    assert(spec_parse_text(t) == Some(Json::Obj(seq![("name"@, Json::Str(nm))])));
}

/// A principal that can own repositories. The two variants share all of
/// the request construction below and differ only in the owner name used
/// in paths and in the creation path.
pub trait RepositoryOwner: Sized {
    /// The name identifying this principal in URL paths.
    spec fn spec_name(&self) -> Seq<char>;

    /// The transport client this principal acts through.
    spec fn spec_github(&self) -> GitHub;

    /// The path repositories are created under for this principal.
    spec fn spec_create_path(&self) -> Seq<char>;

    /// A handle on one repository owned by this principal.
    fn get_repository<'b>(&'b self, name: &'b str) -> (r: Repository<'b, Self>)
        ensures
            r.owner.spec_name() == self.spec_name(),
            r.github.username@ == self.spec_github().username@,
            r.github.api_key@ == self.spec_github().api_key@,
            r.name@ == name@,
    ;

    /// The request that creates a repository under this principal.
    fn create_repository(&self, info: &RepositoryCreationInfo) -> (r: AuthedRequest)
        ensures
            r.method == Method::Post,
            r.url@ == api_base() + self.spec_create_path(),
            r.username@ == self.spec_github().username@,
            r.password@ == self.spec_github().api_key@,
            r.user_agent@ == user_agent_string(),
            match r.body {
                Some(b) => b@ == render_creation(*info),
                None => false,
            },
    ;

    /// The request that deletes the named repository of this principal.
    fn delete_repository(&self, name: &str) -> (r: AuthedRequest)
        ensures
            r.method == Method::Delete,
            r.url@ == api_base() + spec_repos_path(self.spec_name(), name@),
            r.username@ == self.spec_github().username@,
            r.password@ == self.spec_github().api_key@,
            r.user_agent@ == user_agent_string(),
            r.body is None,
    ;

    /// The owner name used in URL paths.
    fn get_name(&self) -> (r: String)
        ensures
            r@ == self.spec_name(),
    ;
}

/// Shared request construction for deleting `/repos/{owner}/{name}`.
pub fn internal_delete_repository(github: &GitHub, owner: &str, name: &str) -> (r: AuthedRequest)
    ensures
        r.method == Method::Delete,
        r.url@ == api_base() + spec_repos_path(owner@, name@),
        r.username@ == github.username@,
        r.password@ == github.api_key@,
        r.user_agent@ == user_agent_string(),
        r.body is None,
{
    let url = repos_path(owner, name);
    github.make_authorized_request(Method::Delete, url.as_str())
}

/// Shared request construction for creating a repository under `url`.
pub fn internal_create_repository(
    github: &GitHub,
    url: &str,
    info: &RepositoryCreationInfo,
) -> (r: AuthedRequest)
    ensures
        r.method == Method::Post,
        r.url@ == api_base() + url@,
        r.username@ == github.username@,
        r.password@ == github.api_key@,
        r.user_agent@ == user_agent_string(),
        match r.body {
            Some(b) => b@ == render_creation(*info),
            None => false,
        },
{
    let mut req = github.make_authorized_request(Method::Post, url);
    req.body = Some(info.to_json());
    req
}

/// A lightweight, stateless handle on one repository under one principal.
pub struct Repository<'a, Owner> {
    pub github: &'a GitHub,
    pub owner: &'a Owner,
    pub name: &'a str,
}

impl<'a, Owner> Repository<'a, Owner> {
    pub fn new(github: &'a GitHub, owner: &'a Owner, name: &'a str) -> (r: Self)
        ensures
            r.github == github,
            r.owner == owner,
            r.name@ == name@,
    {
        Repository { github, owner, name }
    }
}

impl<'a, Owner: RepositoryOwner> Repository<'a, Owner> {

    /// The request that fetches this repository's metadata: a GET of
    /// `/repos/{owner}/{name}` under this handle's owner name.
    pub fn info(&self) -> (r: AuthedRequest)
        ensures
            r.method == Method::Get,
            r.url@ == api_base() + spec_repos_path(self.owner.spec_name(), self.name@),
            r.username@ == self.github.username@,
            r.password@ == self.github.api_key@,
            r.user_agent@ == user_agent_string(),
            r.body is None,
    {
        let owner_name = self.owner.get_name();
        let url = repos_path(owner_name.as_str(), self.name);
        self.github.make_authorized_request(Method::Get, url.as_str())
    }
}

impl<'a> RepositoryOwner for User<'a> {
    open spec fn spec_name(&self) -> Seq<char> {
        self.github.username@
    }

    open spec fn spec_github(&self) -> GitHub {
        *self.github
    }

    open spec fn spec_create_path(&self) -> Seq<char> {
        "/user/repos"@
    }

    fn get_repository<'b>(&'b self, name: &'b str) -> (r: Repository<'b, Self>) {
        Repository::new(self.github, self, name)
    }

    fn create_repository(&self, info: &RepositoryCreationInfo) -> (r: AuthedRequest) {
        internal_create_repository(self.github, "/user/repos", info)
    }

    fn delete_repository(&self, name: &str) -> (r: AuthedRequest) {
        internal_delete_repository(self.github, self.github.username.as_str(), name)
    }

    fn get_name(&self) -> (r: String) {
        self.github.username.clone()
    }
}

impl<'a> RepositoryOwner for Organization<'a> {
    open spec fn spec_name(&self) -> Seq<char> {
        self.name@
    }

    open spec fn spec_github(&self) -> GitHub {
        *self.github
    }

    open spec fn spec_create_path(&self) -> Seq<char> {
        "/orgs/"@ + spec_escape(self.name@) + "/repos"@
    }

    fn get_repository<'b>(&'b self, name: &'b str) -> (r: Repository<'b, Self>) {
        Repository::new(self.github, self, name)
    }

    fn create_repository(&self, info: &RepositoryCreationInfo) -> (r: AuthedRequest) {
        let mut url = String::new();
        url.append("/orgs/");
        let e = escape_path_segment(self.name);
        url.append(e.as_str());
        url.append("/repos");
        proof {
            assert(url@ =~= self.spec_create_path());
        }
        internal_create_repository(self.github, url.as_str(), info)
    }

    fn delete_repository(&self, name: &str) -> (r: AuthedRequest) {
        internal_delete_repository(self.github, self.name, name)
    }

    fn get_name(&self) -> (r: String) {
        self.name.to_owned()
    }
}

/// Read-only access flags of a repository.
pub struct RepositoryPermissions {
    pub admin: bool,
    pub push: bool,
    pub pull: bool,
}

/// The repository metadata record as the API returns it; optional fields
/// are present only when the API includes them.
pub struct RepositoryInfo {
    pub id: u64,
    pub owner: UserInfo,
    pub name: String,
    pub full_name: String,
    pub description: Option<String>,
    pub private: bool,
    pub fork: bool,
    pub url: String,
    pub html_url: String,
    pub archive_url: String,
    pub assignees_url: String,
    pub blobs_url: String,
    pub branches_url: String,
    pub clone_url: String,
    pub collaborators_url: String,
    pub comments_url: String,
    pub commits_url: String,
    pub compare_url: String,
    pub contents_url: String,
    pub contributors_url: String,
    pub deployments_url: String,
    pub downloads_url: String,
    pub events_url: String,
    pub forks_url: String,
    pub git_commits_url: String,
    pub git_refs_url: String,
    pub git_tags_url: String,
    pub git_url: String,
    pub hooks_url: String,
    pub issue_comment_url: String,
    pub issue_events_url: String,
    pub issues_url: String,
    pub keys_url: String,
    pub labels_url: String,
    pub languages_url: String,
    pub merges_url: String,
    pub milestones_url: String,
    pub mirror_url: Option<String>,
    pub notifications_url: String,
    pub pulls_url: String,
    pub releases_url: String,
    pub ssh_url: String,
    pub stargazers_url: String,
    pub statuses_url: String,
    pub subscribers_url: String,
    pub subscription_url: String,
    pub svn_url: String,
    pub tags_url: String,
    pub teams_url: String,
    pub trees_url: String,
    pub homepage: Option<String>,
    pub language: Option<String>,
    pub forks_count: u64,
    pub stargazers_count: u64,
    pub watchers_count: u64,
    pub size: u64,
    pub default_branch: String,
    pub open_issues_count: u64,
    pub has_issues: bool,
    pub has_wiki: bool,
    pub has_pages: bool,
    pub has_downloads: bool,
    pub pushed_at: String,
    pub created_at: String,
    pub updated_at: String,
    pub permissions: RepositoryPermissions,
    pub subscribers_count: Option<u64>,
    pub organization: Option<UserInfo>,
    pub parent: Option<Box<RepositoryInfo>>,
    pub source: Option<Box<RepositoryInfo>>,
}


/// Whether a JSON value has the permissions record's shape.
pub open spec fn permissions_ok(j: Json) -> bool {
    match j {
        Json::Obj(m) => {
        &&& bool_field_ok(m, "admin"@)
        &&& bool_field_ok(m, "push"@)
        &&& bool_field_ok(m, "pull"@)
        },
        _ => false,
    }
}

/// Whether `p` is the faithful decoding of the JSON value `j`.
pub open spec fn permissions_matches(p: RepositoryPermissions, j: Json) -> bool {
    match j {
        Json::Obj(m) => {
        &&& obj_lookup(m, "admin"@) == Some(Json::Bool(p.admin))
        &&& obj_lookup(m, "push"@) == Some(Json::Bool(p.push))
        &&& obj_lookup(m, "pull"@) == Some(Json::Bool(p.pull))
        },
        _ => false,
    }
}

impl RepositoryPermissions {
    /// Decodes the permissions record from a parsed JSON value.
    pub fn from_json(v: &JsonValue) -> (r: Option<RepositoryPermissions>)
        ensures
            r is Some <==> permissions_ok(v@),
            match r {
                Some(p) => permissions_matches(p, v@),
                None => true,
            },
    {
        let m = match v {
            JsonValue::Obj(m) => m,
            _ => { return None; },
        };
        let admin = match get_bool(m, "admin") {
            Some(x) => x,
            None => { return None; },
        };
        let push = match get_bool(m, "push") {
            Some(x) => x,
            None => { return None; },
        };
        let pull = match get_bool(m, "pull") {
            Some(x) => x,
            None => { return None; },
        };
        Some(RepositoryPermissions { admin, push, pull })
    }
}

/// Whether a JSON value has the repository metadata schema's shape, with
/// nested parent and source records admitted down to depth `d`.
pub open spec fn repo_info_ok(j: Json, d: nat) -> bool
    decreases d,
{
    match j {
        Json::Obj(m) => {
        &&& u64_field_ok(m, "id"@)
        &&& match obj_lookup(m, "owner"@) {
            Some(jo) => user_info_ok(jo),
            None => false,
        }
        &&& str_field_ok(m, "name"@)
        &&& str_field_ok(m, "full_name"@)
        &&& opt_str_field_ok(m, "description"@)
        &&& bool_field_ok(m, "private"@)
        &&& bool_field_ok(m, "fork"@)
        &&& str_field_ok(m, "url"@)
        &&& str_field_ok(m, "html_url"@)
        &&& str_field_ok(m, "archive_url"@)
        &&& str_field_ok(m, "assignees_url"@)
        &&& str_field_ok(m, "blobs_url"@)
        &&& str_field_ok(m, "branches_url"@)
        &&& str_field_ok(m, "clone_url"@)
        &&& str_field_ok(m, "collaborators_url"@)
        &&& str_field_ok(m, "comments_url"@)
        &&& str_field_ok(m, "commits_url"@)
        &&& str_field_ok(m, "compare_url"@)
        &&& str_field_ok(m, "contents_url"@)
        &&& str_field_ok(m, "contributors_url"@)
        &&& str_field_ok(m, "deployments_url"@)
        &&& str_field_ok(m, "downloads_url"@)
        &&& str_field_ok(m, "events_url"@)
        &&& str_field_ok(m, "forks_url"@)
        &&& str_field_ok(m, "git_commits_url"@)
        &&& str_field_ok(m, "git_refs_url"@)
        &&& str_field_ok(m, "git_tags_url"@)
        &&& str_field_ok(m, "git_url"@)
        &&& str_field_ok(m, "hooks_url"@)
        &&& str_field_ok(m, "issue_comment_url"@)
        &&& str_field_ok(m, "issue_events_url"@)
        &&& str_field_ok(m, "issues_url"@)
        &&& str_field_ok(m, "keys_url"@)
        &&& str_field_ok(m, "labels_url"@)
        &&& str_field_ok(m, "languages_url"@)
        &&& str_field_ok(m, "merges_url"@)
        &&& str_field_ok(m, "milestones_url"@)
        &&& opt_str_field_ok(m, "mirror_url"@)
        &&& str_field_ok(m, "notifications_url"@)
        &&& str_field_ok(m, "pulls_url"@)
        &&& str_field_ok(m, "releases_url"@)
        &&& str_field_ok(m, "ssh_url"@)
        &&& str_field_ok(m, "stargazers_url"@)
        &&& str_field_ok(m, "statuses_url"@)
        &&& str_field_ok(m, "subscribers_url"@)
        &&& str_field_ok(m, "subscription_url"@)
        &&& str_field_ok(m, "svn_url"@)
        &&& str_field_ok(m, "tags_url"@)
        &&& str_field_ok(m, "teams_url"@)
        &&& str_field_ok(m, "trees_url"@)
        &&& opt_str_field_ok(m, "homepage"@)
        &&& opt_str_field_ok(m, "language"@)
        &&& u64_field_ok(m, "forks_count"@)
        &&& u64_field_ok(m, "stargazers_count"@)
        &&& u64_field_ok(m, "watchers_count"@)
        &&& u64_field_ok(m, "size"@)
        &&& str_field_ok(m, "default_branch"@)
        &&& u64_field_ok(m, "open_issues_count"@)
        &&& bool_field_ok(m, "has_issues"@)
        &&& bool_field_ok(m, "has_wiki"@)
        &&& bool_field_ok(m, "has_pages"@)
        &&& bool_field_ok(m, "has_downloads"@)
        &&& str_field_ok(m, "pushed_at"@)
        &&& str_field_ok(m, "created_at"@)
        &&& str_field_ok(m, "updated_at"@)
        &&& match obj_lookup(m, "permissions"@) {
            Some(jo) => permissions_ok(jo),
            None => false,
        }
        &&& opt_u64_field_ok(m, "subscribers_count"@)
        &&& match obj_lookup(m, "organization"@) {
            None => true,
            Some(Json::Null) => true,
            Some(jo) => user_info_ok(jo),
        }
        &&& match obj_lookup(m, "parent"@) {
            None => true,
            Some(Json::Null) => true,
            Some(jp) => d > 0 && repo_info_ok(jp, (d - 1) as nat),
        }
        &&& match obj_lookup(m, "source"@) {
            None => true,
            Some(Json::Null) => true,
            Some(jp) => d > 0 && repo_info_ok(jp, (d - 1) as nat),
        }
        },
        _ => false,
    }
}

/// Whether `r` is the faithful decoding of the JSON value `j`.
pub open spec fn repo_info_matches(r: RepositoryInfo, j: Json) -> bool
    decreases r,
{
    match j {
        Json::Obj(m) => {
        &&& obj_lookup(m, "id"@) == Some(Json::Num(r.id as int))
        &&& match obj_lookup(m, "owner"@) {
            Some(jo) => user_info_matches(r.owner, jo),
            None => false,
        }
        &&& obj_lookup(m, "name"@) == Some(Json::Str(r.name@))
        &&& obj_lookup(m, "full_name"@) == Some(Json::Str(r.full_name@))
        &&& match obj_lookup(m, "description"@) {
            None => r.description is None,
            Some(Json::Null) => r.description is None,
            Some(Json::Str(t)) => r.description matches Some(x) && x@ == t,
            _ => false,
        }
        &&& obj_lookup(m, "private"@) == Some(Json::Bool(r.private))
        &&& obj_lookup(m, "fork"@) == Some(Json::Bool(r.fork))
        &&& obj_lookup(m, "url"@) == Some(Json::Str(r.url@))
        &&& obj_lookup(m, "html_url"@) == Some(Json::Str(r.html_url@))
        &&& obj_lookup(m, "archive_url"@) == Some(Json::Str(r.archive_url@))
        &&& obj_lookup(m, "assignees_url"@) == Some(Json::Str(r.assignees_url@))
        &&& obj_lookup(m, "blobs_url"@) == Some(Json::Str(r.blobs_url@))
        &&& obj_lookup(m, "branches_url"@) == Some(Json::Str(r.branches_url@))
        &&& obj_lookup(m, "clone_url"@) == Some(Json::Str(r.clone_url@))
        &&& obj_lookup(m, "collaborators_url"@) == Some(Json::Str(r.collaborators_url@))
        &&& obj_lookup(m, "comments_url"@) == Some(Json::Str(r.comments_url@))
        &&& obj_lookup(m, "commits_url"@) == Some(Json::Str(r.commits_url@))
        &&& obj_lookup(m, "compare_url"@) == Some(Json::Str(r.compare_url@))
        &&& obj_lookup(m, "contents_url"@) == Some(Json::Str(r.contents_url@))
        &&& obj_lookup(m, "contributors_url"@) == Some(Json::Str(r.contributors_url@))
        &&& obj_lookup(m, "deployments_url"@) == Some(Json::Str(r.deployments_url@))
        &&& obj_lookup(m, "downloads_url"@) == Some(Json::Str(r.downloads_url@))
        &&& obj_lookup(m, "events_url"@) == Some(Json::Str(r.events_url@))
        &&& obj_lookup(m, "forks_url"@) == Some(Json::Str(r.forks_url@))
        &&& obj_lookup(m, "git_commits_url"@) == Some(Json::Str(r.git_commits_url@))
        &&& obj_lookup(m, "git_refs_url"@) == Some(Json::Str(r.git_refs_url@))
        &&& obj_lookup(m, "git_tags_url"@) == Some(Json::Str(r.git_tags_url@))
        &&& obj_lookup(m, "git_url"@) == Some(Json::Str(r.git_url@))
        &&& obj_lookup(m, "hooks_url"@) == Some(Json::Str(r.hooks_url@))
        &&& obj_lookup(m, "issue_comment_url"@) == Some(Json::Str(r.issue_comment_url@))
        &&& obj_lookup(m, "issue_events_url"@) == Some(Json::Str(r.issue_events_url@))
        &&& obj_lookup(m, "issues_url"@) == Some(Json::Str(r.issues_url@))
        &&& obj_lookup(m, "keys_url"@) == Some(Json::Str(r.keys_url@))
        &&& obj_lookup(m, "labels_url"@) == Some(Json::Str(r.labels_url@))
        &&& obj_lookup(m, "languages_url"@) == Some(Json::Str(r.languages_url@))
        &&& obj_lookup(m, "merges_url"@) == Some(Json::Str(r.merges_url@))
        &&& obj_lookup(m, "milestones_url"@) == Some(Json::Str(r.milestones_url@))
        &&& match obj_lookup(m, "mirror_url"@) {
            None => r.mirror_url is None,
            Some(Json::Null) => r.mirror_url is None,
            Some(Json::Str(t)) => r.mirror_url matches Some(x) && x@ == t,
            _ => false,
        }
        &&& obj_lookup(m, "notifications_url"@) == Some(Json::Str(r.notifications_url@))
        &&& obj_lookup(m, "pulls_url"@) == Some(Json::Str(r.pulls_url@))
        &&& obj_lookup(m, "releases_url"@) == Some(Json::Str(r.releases_url@))
        &&& obj_lookup(m, "ssh_url"@) == Some(Json::Str(r.ssh_url@))
        &&& obj_lookup(m, "stargazers_url"@) == Some(Json::Str(r.stargazers_url@))
        &&& obj_lookup(m, "statuses_url"@) == Some(Json::Str(r.statuses_url@))
        &&& obj_lookup(m, "subscribers_url"@) == Some(Json::Str(r.subscribers_url@))
        &&& obj_lookup(m, "subscription_url"@) == Some(Json::Str(r.subscription_url@))
        &&& obj_lookup(m, "svn_url"@) == Some(Json::Str(r.svn_url@))
        &&& obj_lookup(m, "tags_url"@) == Some(Json::Str(r.tags_url@))
        &&& obj_lookup(m, "teams_url"@) == Some(Json::Str(r.teams_url@))
        &&& obj_lookup(m, "trees_url"@) == Some(Json::Str(r.trees_url@))
        &&& match obj_lookup(m, "homepage"@) {
            None => r.homepage is None,
            Some(Json::Null) => r.homepage is None,
            Some(Json::Str(t)) => r.homepage matches Some(x) && x@ == t,
            _ => false,
        }
        &&& match obj_lookup(m, "language"@) {
            None => r.language is None,
            Some(Json::Null) => r.language is None,
            Some(Json::Str(t)) => r.language matches Some(x) && x@ == t,
            _ => false,
        }
        &&& obj_lookup(m, "forks_count"@) == Some(Json::Num(r.forks_count as int))
        &&& obj_lookup(m, "stargazers_count"@) == Some(Json::Num(r.stargazers_count as int))
        &&& obj_lookup(m, "watchers_count"@) == Some(Json::Num(r.watchers_count as int))
        &&& obj_lookup(m, "size"@) == Some(Json::Num(r.size as int))
        &&& obj_lookup(m, "default_branch"@) == Some(Json::Str(r.default_branch@))
        &&& obj_lookup(m, "open_issues_count"@) == Some(Json::Num(r.open_issues_count as int))
        &&& obj_lookup(m, "has_issues"@) == Some(Json::Bool(r.has_issues))
        &&& obj_lookup(m, "has_wiki"@) == Some(Json::Bool(r.has_wiki))
        &&& obj_lookup(m, "has_pages"@) == Some(Json::Bool(r.has_pages))
        &&& obj_lookup(m, "has_downloads"@) == Some(Json::Bool(r.has_downloads))
        &&& obj_lookup(m, "pushed_at"@) == Some(Json::Str(r.pushed_at@))
        &&& obj_lookup(m, "created_at"@) == Some(Json::Str(r.created_at@))
        &&& obj_lookup(m, "updated_at"@) == Some(Json::Str(r.updated_at@))
        &&& match obj_lookup(m, "permissions"@) {
            Some(jo) => permissions_matches(r.permissions, jo),
            None => false,
        }
        &&& match obj_lookup(m, "subscribers_count"@) {
            None => r.subscribers_count is None,
            Some(Json::Null) => r.subscribers_count is None,
            Some(Json::Num(t)) => r.subscribers_count matches Some(x) && x as int == t,
            _ => false,
        }
        &&& match obj_lookup(m, "organization"@) {
            None => r.organization is None,
            Some(Json::Null) => r.organization is None,
            Some(jo) => r.organization matches Some(x) && user_info_matches(x, jo),
        }
        &&& match (obj_lookup(m, "parent"@), r.parent) {
            (None, Option::<Box<RepositoryInfo>>::None) => true,
            (Some(Json::Null), Option::<Box<RepositoryInfo>>::None) => true,
            (Some(jp), Some(bp)) => repo_info_matches(*bp, jp),
            _ => false,
        }
        &&& match (obj_lookup(m, "source"@), r.source) {
            (None, Option::<Box<RepositoryInfo>>::None) => true,
            (Some(Json::Null), Option::<Box<RepositoryInfo>>::None) => true,
            (Some(jp), Some(bp)) => repo_info_matches(*bp, jp),
            _ => false,
        }
        },
        _ => false,
    }
}

impl RepositoryInfo {
    /// Decodes repository metadata from a parsed JSON value. Succeeds
    /// exactly when the value has the metadata schema's shape (nested
    /// parent and source records no deeper than `depth`), and then every
    /// field equals the member of the same wire name.
    #[verifier::rlimit(100)]
    #[verifier::spinoff_prover]
    pub fn from_json(v: &JsonValue, depth: u64) -> (r: Option<RepositoryInfo>)
        ensures
            r is Some <==> repo_info_ok(v@, depth as nat),
            match r {
                Some(ri) => repo_info_matches(ri, v@),
                None => true,
            },
        decreases depth,
    {
        let m = match v {
            JsonValue::Obj(m) => m,
            _ => { return None; },
        };
        let id = match get_u64(m, "id") {
            Some(x) => x,
            None => { return None; },
        };
        let owner = match obj_get(m, "owner") {
            Some(x) => match UserInfo::from_json(x) {
                Some(u) => u,
                None => { return None; },
            },
            None => { return None; },
        };
        let name = match get_str(m, "name") {
            Some(x) => x,
            None => { return None; },
        };
        let full_name = match get_str(m, "full_name") {
            Some(x) => x,
            None => { return None; },
        };
        let description = match get_opt_str(m, "description") {
            Some(x) => x,
            None => { return None; },
        };
        let private = match get_bool(m, "private") {
            Some(x) => x,
            None => { return None; },
        };
        let fork = match get_bool(m, "fork") {
            Some(x) => x,
            None => { return None; },
        };
        let url = match get_str(m, "url") {
            Some(x) => x,
            None => { return None; },
        };
        let html_url = match get_str(m, "html_url") {
            Some(x) => x,
            None => { return None; },
        };
        let archive_url = match get_str(m, "archive_url") {
            Some(x) => x,
            None => { return None; },
        };
        let assignees_url = match get_str(m, "assignees_url") {
            Some(x) => x,
            None => { return None; },
        };
        let blobs_url = match get_str(m, "blobs_url") {
            Some(x) => x,
            None => { return None; },
        };
        let branches_url = match get_str(m, "branches_url") {
            Some(x) => x,
            None => { return None; },
        };
        let clone_url = match get_str(m, "clone_url") {
            Some(x) => x,
            None => { return None; },
        };
        let collaborators_url = match get_str(m, "collaborators_url") {
            Some(x) => x,
            None => { return None; },
        };
        let comments_url = match get_str(m, "comments_url") {
            Some(x) => x,
            None => { return None; },
        };
        let commits_url = match get_str(m, "commits_url") {
            Some(x) => x,
            None => { return None; },
        };
        let compare_url = match get_str(m, "compare_url") {
            Some(x) => x,
            None => { return None; },
        };
        let contents_url = match get_str(m, "contents_url") {
            Some(x) => x,
            None => { return None; },
        };
        let contributors_url = match get_str(m, "contributors_url") {
            Some(x) => x,
            None => { return None; },
        };
        let deployments_url = match get_str(m, "deployments_url") {
            Some(x) => x,
            None => { return None; },
        };
        let downloads_url = match get_str(m, "downloads_url") {
            Some(x) => x,
            None => { return None; },
        };
        let events_url = match get_str(m, "events_url") {
            Some(x) => x,
            None => { return None; },
        };
        let forks_url = match get_str(m, "forks_url") {
            Some(x) => x,
            None => { return None; },
        };
        let git_commits_url = match get_str(m, "git_commits_url") {
            Some(x) => x,
            None => { return None; },
        };
        let git_refs_url = match get_str(m, "git_refs_url") {
            Some(x) => x,
            None => { return None; },
        };
        let git_tags_url = match get_str(m, "git_tags_url") {
            Some(x) => x,
            None => { return None; },
        };
        let git_url = match get_str(m, "git_url") {
            Some(x) => x,
            None => { return None; },
        };
        let hooks_url = match get_str(m, "hooks_url") {
            Some(x) => x,
            None => { return None; },
        };
        let issue_comment_url = match get_str(m, "issue_comment_url") {
            Some(x) => x,
            None => { return None; },
        };
        let issue_events_url = match get_str(m, "issue_events_url") {
            Some(x) => x,
            None => { return None; },
        };
        let issues_url = match get_str(m, "issues_url") {
            Some(x) => x,
            None => { return None; },
        };
        let keys_url = match get_str(m, "keys_url") {
            Some(x) => x,
            None => { return None; },
        };
        let labels_url = match get_str(m, "labels_url") {
            Some(x) => x,
            None => { return None; },
        };
        let languages_url = match get_str(m, "languages_url") {
            Some(x) => x,
            None => { return None; },
        };
        let merges_url = match get_str(m, "merges_url") {
            Some(x) => x,
            None => { return None; },
        };
        let milestones_url = match get_str(m, "milestones_url") {
            Some(x) => x,
            None => { return None; },
        };
        let mirror_url = match get_opt_str(m, "mirror_url") {
            Some(x) => x,
            None => { return None; },
        };
        let notifications_url = match get_str(m, "notifications_url") {
            Some(x) => x,
            None => { return None; },
        };
        let pulls_url = match get_str(m, "pulls_url") {
            Some(x) => x,
            None => { return None; },
        };
        let releases_url = match get_str(m, "releases_url") {
            Some(x) => x,
            None => { return None; },
        };
        let ssh_url = match get_str(m, "ssh_url") {
            Some(x) => x,
            None => { return None; },
        };
        let stargazers_url = match get_str(m, "stargazers_url") {
            Some(x) => x,
            None => { return None; },
        };
        let statuses_url = match get_str(m, "statuses_url") {
            Some(x) => x,
            None => { return None; },
        };
        let subscribers_url = match get_str(m, "subscribers_url") {
            Some(x) => x,
            None => { return None; },
        };
        let subscription_url = match get_str(m, "subscription_url") {
            Some(x) => x,
            None => { return None; },
        };
        let svn_url = match get_str(m, "svn_url") {
            Some(x) => x,
            None => { return None; },
        };
        let tags_url = match get_str(m, "tags_url") {
            Some(x) => x,
            None => { return None; },
        };
        let teams_url = match get_str(m, "teams_url") {
            Some(x) => x,
            None => { return None; },
        };
        let trees_url = match get_str(m, "trees_url") {
            Some(x) => x,
            None => { return None; },
        };
        let homepage = match get_opt_str(m, "homepage") {
            Some(x) => x,
            None => { return None; },
        };
        let language = match get_opt_str(m, "language") {
            Some(x) => x,
            None => { return None; },
        };
        let forks_count = match get_u64(m, "forks_count") {
            Some(x) => x,
            None => { return None; },
        };
        let stargazers_count = match get_u64(m, "stargazers_count") {
            Some(x) => x,
            None => { return None; },
        };
        let watchers_count = match get_u64(m, "watchers_count") {
            Some(x) => x,
            None => { return None; },
        };
        let size = match get_u64(m, "size") {
            Some(x) => x,
            None => { return None; },
        };
        let default_branch = match get_str(m, "default_branch") {
            Some(x) => x,
            None => { return None; },
        };
        let open_issues_count = match get_u64(m, "open_issues_count") {
            Some(x) => x,
            None => { return None; },
        };
        let has_issues = match get_bool(m, "has_issues") {
            Some(x) => x,
            None => { return None; },
        };
        let has_wiki = match get_bool(m, "has_wiki") {
            Some(x) => x,
            None => { return None; },
        };
        let has_pages = match get_bool(m, "has_pages") {
            Some(x) => x,
            None => { return None; },
        };
        let has_downloads = match get_bool(m, "has_downloads") {
            Some(x) => x,
            None => { return None; },
        };
        let pushed_at = match get_str(m, "pushed_at") {
            Some(x) => x,
            None => { return None; },
        };
        let created_at = match get_str(m, "created_at") {
            Some(x) => x,
            None => { return None; },
        };
        let updated_at = match get_str(m, "updated_at") {
            Some(x) => x,
            None => { return None; },
        };
        let permissions = match obj_get(m, "permissions") {
            Some(x) => match RepositoryPermissions::from_json(x) {
                Some(p) => p,
                None => { return None; },
            },
            None => { return None; },
        };
        let subscribers_count = match get_opt_u64(m, "subscribers_count") {
            Some(x) => x,
            None => { return None; },
        };
        let organization = match obj_get(m, "organization") {
            None => None,
            Some(x) => match x {
                JsonValue::Null => None,
                _ => match UserInfo::from_json(x) {
                    Some(u) => Some(u),
                    None => { return None; },
                },
            },
        };
        let parent = match obj_get(m, "parent") {
            None => None,
            Some(x) => match x {
                JsonValue::Null => None,
                _ => {
                    if depth == 0 {
                        return None;
                    }
                    match RepositoryInfo::from_json(x, depth - 1) {
                        Some(p) => Some(Box::new(p)),
                        None => { return None; },
                    }
                },
            },
        };
        let source = match obj_get(m, "source") {
            None => None,
            Some(x) => match x {
                JsonValue::Null => None,
                _ => {
                    if depth == 0 {
                        return None;
                    }
                    match RepositoryInfo::from_json(x, depth - 1) {
                        Some(p) => Some(Box::new(p)),
                        None => { return None; },
                    }
                },
            },
        };
        Some(RepositoryInfo { id, owner, name, full_name, description, private, fork, url, html_url, archive_url, assignees_url, blobs_url, branches_url, clone_url, collaborators_url, comments_url, commits_url, compare_url, contents_url, contributors_url, deployments_url, downloads_url, events_url, forks_url, git_commits_url, git_refs_url, git_tags_url, git_url, hooks_url, issue_comment_url, issue_events_url, issues_url, keys_url, labels_url, languages_url, merges_url, milestones_url, mirror_url, notifications_url, pulls_url, releases_url, ssh_url, stargazers_url, statuses_url, subscribers_url, subscription_url, svn_url, tags_url, teams_url, trees_url, homepage, language, forks_count, stargazers_count, watchers_count, size, default_branch, open_issues_count, has_issues, has_wiki, has_pages, has_downloads, pushed_at, created_at, updated_at, permissions, subscribers_count, organization, parent, source })
    }
}


/// The message used when a success payload cannot be decoded as
/// repository metadata: it names the failure and embeds the raw body.
pub open spec fn metadata_failure_message(body: Seq<char>) -> Seq<char> {
    "could not parse the repository metadata in github's response\n\n"@ + body
}

fn serialization_failure(body: &str) -> (r: GitHubError)
    ensures
        match r {
            GitHubError::Serialization(m) => m@ == metadata_failure_message(body@),
            _ => false,
        },
{
    let mut m = String::new();
    m.append("could not parse the repository metadata in github's response\n\n");
    m.append(body);
    proof {
        assert(m@ =~= metadata_failure_message(body@));
    }
    GitHubError::Serialization(m)
}

/// Interprets the raw response of a create or info request: non-success
/// statuses are normalized into errors exactly as `GitHub::get_result`
/// does, and a success body is decoded as repository metadata, a failure
/// of which is reported distinctly as a serialization error.
pub fn parse_repository_response(github: &GitHub, status: u16, body: &str) -> (r: Result<
    RepositoryInfo,
    GitHubError,
>)
    ensures
        !success_class(status) ==> match (r, error_body_of_text(body@)) {
            (Err(GitHubError::Api { message, errors }), Some(eb)) => message@ == eb.0
                && parts_view(errors@) == eb.1,
            (Err(GitHubError::Api { message, errors }), None) => message@ == parse_failure_message(
                body@,
            ) && errors@.len() == 0,
            _ => false,
        },
        success_class(status) ==> match spec_parse_text(body@) {
            Some(j) => if repo_info_ok(j, 64) {
                r matches Ok(ri) && repo_info_matches(ri, j)
            } else {
                r matches Err(GitHubError::Serialization(msg)) && msg@ == metadata_failure_message(
                    body@,
                )
            },
            None => r matches Err(GitHubError::Serialization(msg)) && msg@
                == metadata_failure_message(body@),
        },
{
    match github.get_result(status, body) {
        Err(e) => Err(e),
        Ok(payload) => match parse_json(payload.as_str()) {
            Some(v) => match RepositoryInfo::from_json(&v, 64) {
                Some(ri) => Ok(ri),
                None => Err(serialization_failure(body)),
            },
            None => Err(serialization_failure(body)),
        },
    }
}

/// Interprets the raw response of a delete request: success is decided
/// purely by the status class, and the body is discarded after error
/// checking.
pub fn parse_delete_response(github: &GitHub, status: u16, body: &str) -> (r: Result<
    (),
    GitHubError,
>)
    ensures
        success_class(status) ==> r is Ok,
        !success_class(status) ==> match (r, error_body_of_text(body@)) {
            (Err(GitHubError::Api { message, errors }), Some(eb)) => message@ == eb.0
                && parts_view(errors@) == eb.1,
            (Err(GitHubError::Api { message, errors }), None) => message@ == parse_failure_message(
                body@,
            ) && errors@.len() == 0,
            _ => false,
        },
{
    match github.get_result(status, body) {
        Ok(_) => Ok(()),
        Err(e) => Err(e),
    }
}

} // verus!
