//! A small JSON data model with a verified parser.
//!
//! The grammar accepted by the parser is defined by the `spec_parse_*`
//! functions below, and the executable parser is proved to return exactly
//! what those functions describe. Strings support the common escapes
//! (`\"`, `\\`, `\/`, `\n`, `\r`, `\t`, `\b`, `\f`); numbers are decimal
//! integers that fit in an `i64`.
use crate::text::push_char;
use crate::text::str_eq;
use vstd::prelude::*;

verus! {

/// The mathematical model of a JSON value.
pub enum Json {
    Null,
    Bool(bool),
    Num(int),
    Str(Seq<char>),
    Arr(Seq<Json>),
    Obj(Seq<(Seq<char>, Json)>),
}

/// An executable JSON value; its view is a [`Json`].
pub enum JsonValue {
    Null,
    Bool(bool),
    Num(i64),
    Str(String),
    Arr(Vec<JsonValue>),
    Obj(Vec<(String, JsonValue)>),
}

impl JsonValue {
    pub open spec fn view_arr_at(s: Seq<JsonValue>, i: int) -> Seq<Json>
        decreases s, s.len() - i, 0int,
    {
        if i < 0 || i >= s.len() {
            Seq::empty()
        } else {
            seq![s[i]@] + Self::view_arr_at(s, i + 1)
        }
    }

    pub open spec fn view_obj_at(s: Seq<(String, JsonValue)>, i: int) -> Seq<(Seq<char>, Json)>
        decreases s, s.len() - i, 0int,
    {
        if i < 0 || i >= s.len() {
            Seq::empty()
        } else {
            seq![(s[i].0@, s[i].1@)] + Self::view_obj_at(s, i + 1)
        }
    }
}

impl View for JsonValue {
    type V = Json;

    open spec fn view(&self) -> Json
        decreases self, 1int, 0int,
    {
        match self {
            JsonValue::Null => Json::Null,
            JsonValue::Bool(b) => Json::Bool(*b),
            JsonValue::Num(n) => Json::Num(*n as int),
            JsonValue::Str(s) => Json::Str(s@),
            JsonValue::Arr(a) => Json::Arr(JsonValue::view_arr_at(a@, 0)),
            JsonValue::Obj(m) => Json::Obj(JsonValue::view_obj_at(m@, 0)),
        }
    }
}

/// The views of the elements of a vector of JSON values.
pub open spec fn views_of(s: Seq<JsonValue>) -> Seq<Json> {
    JsonValue::view_arr_at(s, 0)
}

/// The views of the members of a vector of JSON object members.
pub open spec fn obj_views_of(s: Seq<(String, JsonValue)>) -> Seq<(Seq<char>, Json)> {
    JsonValue::view_obj_at(s, 0)
}

proof fn lemma_view_arr_at_push(s: Seq<JsonValue>, v: JsonValue)
    ensures
        JsonValue::view_arr_at(s.push(v), 0) == JsonValue::view_arr_at(s, 0).push(v@),
{
    lemma_view_arr_at_props(s, 0);
    lemma_view_arr_at_props(s.push(v), 0);
    assert forall|k: int| 0 <= k < s.len() + 1 implies JsonValue::view_arr_at(s.push(v), 0)[k]
        == JsonValue::view_arr_at(s, 0).push(v@)[k] by {
        if k < s.len() {
            assert(s.push(v)[k] == s[k]);
        } else {
            assert(s.push(v)[k] == v);
        }
    }
    assert(JsonValue::view_arr_at(s.push(v), 0) =~= JsonValue::view_arr_at(s, 0).push(v@));
}

proof fn lemma_view_obj_at_push(s: Seq<(String, JsonValue)>, p: (String, JsonValue))
    ensures
        JsonValue::view_obj_at(s.push(p), 0) == JsonValue::view_obj_at(s, 0).push((p.0@, p.1@)),
{
    lemma_view_obj_at_props(s, 0);
    lemma_view_obj_at_props(s.push(p), 0);
    assert forall|k: int| 0 <= k < s.len() + 1 implies JsonValue::view_obj_at(s.push(p), 0)[k]
        == JsonValue::view_obj_at(s, 0).push((p.0@, p.1@))[k] by {
        if k < s.len() {
            assert(s.push(p)[k] == s[k]);
        } else {
            assert(s.push(p)[k] == p);
        }
    }
    assert(JsonValue::view_obj_at(s.push(p), 0) =~= JsonValue::view_obj_at(s, 0).push(
        (p.0@, p.1@),
    ));
}

proof fn lemma_view_obj_at_props(s: Seq<(String, JsonValue)>, i: int)
    requires
        0 <= i <= s.len(),
    ensures
        JsonValue::view_obj_at(s, i).len() == s.len() - i,
        forall|k: int| 0 <= k < s.len() - i ==> JsonValue::view_obj_at(s, i)[k] == (
            s[i + k].0@,
            s[i + k].1@,
        ),
    decreases s.len() - i,
{
    if i < s.len() {
        lemma_view_obj_at_props(s, i + 1);
        assert(JsonValue::view_obj_at(s, i) == seq![(s[i].0@, s[i].1@)] + JsonValue::view_obj_at(
            s,
            i + 1,
        ));
        assert forall|k: int| 0 <= k < s.len() - i implies JsonValue::view_obj_at(s, i)[k] == (
            s[i + k].0@,
            s[i + k].1@,
        ) by {
            if k > 0 {
                assert(JsonValue::view_obj_at(s, i)[k] == JsonValue::view_obj_at(s, i + 1)[k - 1]);
            }
        }
    } else {
        assert(JsonValue::view_obj_at(s, i) == Seq::<(Seq<char>, Json)>::empty());
    }
}

proof fn lemma_view_arr_at_props(s: Seq<JsonValue>, i: int)
    requires
        0 <= i <= s.len(),
    ensures
        JsonValue::view_arr_at(s, i).len() == s.len() - i,
        forall|k: int| 0 <= k < s.len() - i ==> JsonValue::view_arr_at(s, i)[k] == s[i + k]@,
    decreases s.len() - i,
{
    if i < s.len() {
        lemma_view_arr_at_props(s, i + 1);
        assert(JsonValue::view_arr_at(s, i) == seq![s[i]@] + JsonValue::view_arr_at(s, i + 1));
        assert forall|k: int| 0 <= k < s.len() - i implies JsonValue::view_arr_at(s, i)[k] == s[i
            + k]@ by {
            if k > 0 {
                assert(JsonValue::view_arr_at(s, i)[k] == JsonValue::view_arr_at(s, i + 1)[k - 1]);
            }
        }
    } else {
        assert(JsonValue::view_arr_at(s, i) == Seq::<Json>::empty());
    }
}

/// The element views of a vector of values, pointwise.
pub proof fn lemma_views_of_len_index(s: Seq<JsonValue>)
    ensures
        views_of(s).len() == s.len(),
        forall|k: int| 0 <= k < s.len() ==> views_of(s)[k] == s[k]@,
{
    lemma_view_arr_at_props(s, 0);
}

/// JSON whitespace.
pub open spec fn spec_is_ws(c: char) -> bool {
    c == ' ' || c == '\n' || c == '\r' || c == '\t'
}

/// The first position at or after `i` holding no whitespace.
pub open spec fn spec_ws_end(s: Seq<char>, i: int) -> int
    decreases s.len() - i,
{
    if 0 <= i < s.len() && spec_is_ws(s[i]) {
        spec_ws_end(s, i + 1)
    } else {
        i
    }
}

pub open spec fn spec_is_digit(c: char) -> bool {
    48 <= (c as u32) && (c as u32) <= 57
}

pub open spec fn i64_max() -> int {
    0x7fff_ffff_ffff_ffff as int
}

/// What one string escape character stands for.
pub open spec fn spec_escape_code(e: char) -> Option<char> {
    if e == '"' {
        Some('"')
    } else if e == '\\' {
        Some('\\')
    } else if e == '/' {
        Some('/')
    } else if e == 'n' {
        Some('\n')
    } else if e == 'r' {
        Some('\r')
    } else if e == 't' {
        Some('\t')
    } else if e == 'b' {
        Some('\u{0008}')
    } else if e == 'f' {
        Some('\u{000C}')
    } else {
        Option::<char>::None
    }
}

/// Parses the body of a string literal from position `i` (just inside the
/// opening quote) up to and over the closing quote, appending to `acc`.
pub open spec fn spec_parse_string_body(s: Seq<char>, i: int, acc: Seq<char>) -> Option<
    (Seq<char>, int),
>
    decreases s.len() - i,
{
    if i < 0 || i >= s.len() {
        None
    } else if s[i] == '"' {
        Some((acc, i + 1))
    } else if s[i] == '\\' {
        if i + 1 >= s.len() {
            None
        } else {
            match spec_escape_code(s[i + 1]) {
                Some(c) => spec_parse_string_body(s, i + 2, acc.push(c)),
                None => None,
            }
        }
    } else if (s[i] as u32) < 0x20 {
        None
    } else {
        spec_parse_string_body(s, i + 1, acc.push(s[i]))
    }
}

/// Parses a run of decimal digits starting at `i`, left-folding them onto
/// `acc`; fails when the value would not fit in an `i64`.
pub open spec fn spec_parse_digits(s: Seq<char>, i: int, acc: int) -> Option<(int, int)>
    decreases s.len() - i,
{
    if i < 0 || i >= s.len() || !spec_is_digit(s[i]) {
        Some((acc, i))
    } else {
        let d = (s[i] as u32) as int - 48;
        if acc > (i64_max() - d) / 10 {
            None
        } else {
            spec_parse_digits(s, i + 1, acc * 10 + d)
        }
    }
}

/// Parses an integer literal (an optional minus sign and decimal digits).
pub open spec fn spec_parse_number(s: Seq<char>, i: int) -> Option<(Json, int)> {
    if i < 0 || i >= s.len() {
        None
    } else if s[i] == '-' {
        if i + 1 < s.len() && spec_is_digit(s[i + 1]) {
            match spec_parse_digits(s, i + 1, 0) {
                Some((v, k)) => Some((Json::Num(-v), k)),
                None => None,
            }
        } else {
            None
        }
    } else if spec_is_digit(s[i]) {
        match spec_parse_digits(s, i, 0) {
            Some((v, k)) => Some((Json::Num(v), k)),
            None => None,
        }
    } else {
        None
    }
}

/// Parses one JSON value starting exactly at position `i`.
pub open spec fn spec_parse_value(s: Seq<char>, i: int) -> Option<(Json, int)>
    decreases s.len() - i, 0int,
{
    if i < 0 || i >= s.len() {
        None
    } else if s[i] == '"' {
        match spec_parse_string_body(s, i + 1, Seq::empty()) {
            Some((t, k)) => Some((Json::Str(t), k)),
            None => None,
        }
    } else if s[i] == 't' {
        if i + 4 <= s.len() && s[i + 1] == 'r' && s[i + 2] == 'u' && s[i + 3] == 'e' {
            Some((Json::Bool(true), i + 4))
        } else {
            None
        }
    } else if s[i] == 'f' {
        if i + 5 <= s.len() && s[i + 1] == 'a' && s[i + 2] == 'l' && s[i + 3] == 's' && s[i + 4]
            == 'e' {
            Some((Json::Bool(false), i + 5))
        } else {
            None
        }
    } else if s[i] == 'n' {
        if i + 4 <= s.len() && s[i + 1] == 'u' && s[i + 2] == 'l' && s[i + 3] == 'l' {
            Some((Json::Null, i + 4))
        } else {
            None
        }
    } else if s[i] == '[' {
        let j = spec_ws_end(s, i + 1);
        if j < i + 1 || j >= s.len() {
            None
        } else if s[j] == ']' {
            Some((Json::Arr(Seq::empty()), j + 1))
        } else {
            spec_parse_arr_items(s, j, Seq::empty())
        }
    } else if s[i] == '{' {
        let j = spec_ws_end(s, i + 1);
        if j < i + 1 || j >= s.len() {
            None
        } else if s[j] == '}' {
            Some((Json::Obj(Seq::empty()), j + 1))
        } else {
            spec_parse_obj_items(s, j, Seq::empty())
        }
    } else {
        spec_parse_number(s, i)
    }
}

/// Parses the elements of a non-empty array, the first one starting at `i`.
pub open spec fn spec_parse_arr_items(s: Seq<char>, i: int, acc: Seq<Json>) -> Option<
    (Json, int),
>
    decreases s.len() - i, 1int,
{
    if i < 0 || i >= s.len() {
        None
    } else {
        match spec_parse_value(s, i) {
            None => None,
            Some((v, k)) => if k <= i || k > s.len() {
                None
            } else {
                let j = spec_ws_end(s, k);
                if j < k || j >= s.len() {
                    None
                } else if s[j] == ',' {
                    let j2 = spec_ws_end(s, j + 1);
                    if j2 < j + 1 || j2 > s.len() {
                        None
                    } else {
                        spec_parse_arr_items(s, j2, acc.push(v))
                    }
                } else if s[j] == ']' {
                    Some((Json::Arr(acc.push(v)), j + 1))
                } else {
                    None
                }
            },
        }
    }
}

/// Parses the members of a non-empty object, the first key starting at `i`.
pub open spec fn spec_parse_obj_items(
    s: Seq<char>,
    i: int,
    acc: Seq<(Seq<char>, Json)>,
) -> Option<(Json, int)>
    decreases s.len() - i, 1int,
{
    if i < 0 || i >= s.len() || s[i] != '"' {
        None
    } else {
        match spec_parse_string_body(s, i + 1, Seq::empty()) {
            None => None,
            Some((key, k)) => if k <= i + 1 || k > s.len() {
                None
            } else {
                let j = spec_ws_end(s, k);
                if j < k || j >= s.len() || s[j] != ':' {
                    None
                } else {
                    let j2 = spec_ws_end(s, j + 1);
                    if j2 < j + 1 || j2 > s.len() {
                        None
                    } else {
                        match spec_parse_value(s, j2) {
                            None => None,
                            Some((v, k2)) => if k2 <= j2 || k2 > s.len() {
                                None
                            } else {
                                let j3 = spec_ws_end(s, k2);
                                if j3 < k2 || j3 >= s.len() {
                                    None
                                } else if s[j3] == ',' {
                                    let j4 = spec_ws_end(s, j3 + 1);
                                    if j4 < j3 + 1 || j4 > s.len() {
                                        None
                                    } else {
                                        spec_parse_obj_items(s, j4, acc.push((key, v)))
                                    }
                                } else if s[j3] == '}' {
                                    Some((Json::Obj(acc.push((key, v))), j3 + 1))
                                } else {
                                    None
                                }
                            },
                        }
                    }
                }
            },
        }
    }
}

/// Parses a complete JSON text: one value, possibly surrounded by whitespace.
pub open spec fn spec_parse_text(s: Seq<char>) -> Option<Json> {
    match spec_parse_value(s, spec_ws_end(s, 0)) {
        Some((v, k)) => if spec_ws_end(s, k) == s.len() {
            Some(v)
        } else {
            None
        },
        None => None,
    }
}

/// The value under the first member named `key`, if any.
pub open spec fn obj_lookup(m: Seq<(Seq<char>, Json)>, key: Seq<char>) -> Option<Json>
    decreases m.len(),
{
    if m.len() == 0 {
        None
    } else if m[0].0 == key {
        Some(m[0].1)
    } else {
        obj_lookup(m.drop_first(), key)
    }
}

pub open spec fn value_res_matches(r: Option<(JsonValue, usize)>, m: Option<(Json, int)>) -> bool {
    match (r, m) {
        (Some((v, k)), Some((j, p))) => v@ == j && k as int == p,
        (None, None) => true,
        _ => false,
    }
}

pub open spec fn str_res_matches(
    r: Option<(String, usize)>,
    m: Option<(Seq<char>, int)>,
) -> bool {
    match (r, m) {
        (Some((v, k)), Some((t, p))) => v@ == t && k as int == p,
        (None, None) => true,
        _ => false,
    }
}

fn is_ws_x(c: char) -> (r: bool)
    ensures
        r == spec_is_ws(c),
{
    c == ' ' || c == '\n' || c == '\r' || c == '\t'
}

fn ws_end(s: &str, i: usize) -> (r: usize)
    requires
        i <= s@.len(),
    ensures
        r as int == spec_ws_end(s@, i as int),
        i <= r <= s@.len(),
{
    let n = s.unicode_len();
    let mut j = i;
    while j < n && is_ws_x(s.get_char(j))
        invariant
            i <= j <= n,
            n == s@.len(),
            spec_ws_end(s@, i as int) == spec_ws_end(s@, j as int),
        decreases n - j,
    {
        j += 1;
    }
    proof {
        assert(spec_ws_end(s@, j as int) == j as int);
    }
    j
}

fn parse_string_body(s: &str, i: usize, acc: String) -> (r: Option<(String, usize)>)
    requires
        i <= s@.len(),
    ensures
        str_res_matches(r, spec_parse_string_body(s@, i as int, acc@)),
    decreases s@.len() - i,
{
    let n = s.unicode_len();
    if i >= n {
        return None;
    }
    let c = s.get_char(i);
    if c == '"' {
        Some((acc, i + 1))
    } else if c == '\\' {
        if i + 1 >= n {
            return None;
        }
        let e = s.get_char(i + 1);
        let dec: char = if e == '"' {
            '"'
        } else if e == '\\' {
            '\\'
        } else if e == '/' {
            '/'
        } else if e == 'n' {
            '\n'
        } else if e == 'r' {
            '\r'
        } else if e == 't' {
            '\t'
        } else if e == 'b' {
            '\u{0008}'
        } else if e == 'f' {
            '\u{000C}'
        } else {
            return None;
        };
        let mut acc2 = acc;
        push_char(&mut acc2, dec);
        parse_string_body(s, i + 2, acc2)
    } else if (c as u32) < 0x20 {
        None
    } else {
        let mut acc2 = acc;
        push_char(&mut acc2, c);
        parse_string_body(s, i + 1, acc2)
    }
}

fn parse_digits(s: &str, i: usize, acc: i64) -> (r: Option<(i64, usize)>)
    requires
        i <= s@.len(),
        0 <= acc,
    ensures
        match (r, spec_parse_digits(s@, i as int, acc as int)) {
            (Some((v, k)), Some((w, p))) => v as int == w && k as int == p && v >= 0,
            (None, None) => true,
            _ => false,
        },
    decreases s@.len() - i,
{
    let n = s.unicode_len();
    if i >= n {
        return Some((acc, i));
    }
    let c = s.get_char(i);
    let u = c as u32;
    if !(48 <= u && u <= 57) {
        return Some((acc, i));
    }
    let d = (u - 48) as i64;
    if acc > (9_223_372_036_854_775_807i64 - d) / 10 {
        return None;
    }
    assert(acc * 10 + d <= i64_max()) by {
        let q = (i64_max() - d) / 10;
        assert(acc <= q);
        assert(acc * 10 <= q * 10);
        assert(q * 10 <= i64_max() - d) by {
            vstd::arithmetic::div_mod::lemma_fundamental_div_mod(i64_max() - d, 10);
        }
    }
    parse_digits(s, i + 1, acc * 10 + d)
}

fn parse_number(s: &str, i: usize) -> (r: Option<(JsonValue, usize)>)
    requires
        i <= s@.len(),
    ensures
        value_res_matches(r, spec_parse_number(s@, i as int)),
{
    let n = s.unicode_len();
    if i >= n {
        return None;
    }
    let c = s.get_char(i);
    let u = c as u32;
    if c == '-' {
        if i + 1 < n {
            let c2 = s.get_char(i + 1);
            let u2 = c2 as u32;
            if 48 <= u2 && u2 <= 57 {
                return match parse_digits(s, i + 1, 0) {
                    Some((v, k)) => Some((JsonValue::Num(-v), k)),
                    None => None,
                };
            }
        }
        None
    } else if 48 <= u && u <= 57 {
        match parse_digits(s, i, 0) {
            Some((v, k)) => Some((JsonValue::Num(v), k)),
            None => None,
        }
    } else {
        None
    }
}

fn parse_value(s: &str, i: usize) -> (r: Option<(JsonValue, usize)>)
    requires
        i <= s@.len(),
    ensures
        value_res_matches(r, spec_parse_value(s@, i as int)),
    decreases s@.len() - i, 0int,
{
    let n = s.unicode_len();
    if i >= n {
        return None;
    }
    let c = s.get_char(i);
    if c == '"' {
        match parse_string_body(s, i + 1, String::new()) {
            Some((t, k)) => Some((JsonValue::Str(t), k)),
            None => None,
        }
    } else if c == 't' {
        if n - i >= 4 && s.get_char(i + 1) == 'r' && s.get_char(i + 2) == 'u' && s.get_char(i + 3)
            == 'e' {
            Some((JsonValue::Bool(true), i + 4))
        } else {
            None
        }
    } else if c == 'f' {
        if n - i >= 5 && s.get_char(i + 1) == 'a' && s.get_char(i + 2) == 'l' && s.get_char(i + 3)
            == 's' && s.get_char(i + 4) == 'e' {
            Some((JsonValue::Bool(false), i + 5))
        } else {
            None
        }
    } else if c == 'n' {
        if n - i >= 4 && s.get_char(i + 1) == 'u' && s.get_char(i + 2) == 'l' && s.get_char(i + 3)
            == 'l' {
            Some((JsonValue::Null, i + 4))
        } else {
            None
        }
    } else if c == '[' {
        let j = ws_end(s, i + 1);
        if j < i + 1 || j >= n {
            None
        } else if s.get_char(j) == ']' {
            let empty: Vec<JsonValue> = Vec::new();
            assert(views_of(empty@) =~= Seq::<Json>::empty());
            Some((JsonValue::Arr(empty), j + 1))
        } else {
            parse_arr_items(s, j, Vec::new())
        }
    } else if c == '{' {
        let j = ws_end(s, i + 1);
        if j < i + 1 || j >= n {
            None
        } else if s.get_char(j) == '}' {
            let empty: Vec<(String, JsonValue)> = Vec::new();
            assert(obj_views_of(empty@) =~= Seq::<(Seq<char>, Json)>::empty());
            Some((JsonValue::Obj(empty), j + 1))
        } else {
            parse_obj_items(s, j, Vec::new())
        }
    } else {
        parse_number(s, i)
    }
}

fn parse_arr_items(s: &str, i: usize, acc: Vec<JsonValue>) -> (r: Option<(JsonValue, usize)>)
    requires
        i <= s@.len(),
    ensures
        value_res_matches(r, spec_parse_arr_items(s@, i as int, views_of(acc@))),
    decreases s@.len() - i, 1int,
{
    let n = s.unicode_len();
    if i >= n {
        return None;
    }
    match parse_value(s, i) {
        None => None,
        Some((v, k)) => {
            if k <= i || k > n {
                return None;
            }
            let j = ws_end(s, k);
            if j < k || j >= n {
                return None;
            }
            let cj = s.get_char(j);
            if cj == ',' {
                let j2 = ws_end(s, j + 1);
                if j2 < j + 1 || j2 > n {
                    return None;
                }
                proof {
                    lemma_view_arr_at_push(acc@, v);
                }
                let mut acc2 = acc;
                acc2.push(v);
                parse_arr_items(s, j2, acc2)
            } else if cj == ']' {
                proof {
                    lemma_view_arr_at_push(acc@, v);
                }
                let mut acc2 = acc;
                acc2.push(v);
                Some((JsonValue::Arr(acc2), j + 1))
            } else {
                None
            }
        },
    }
}

fn parse_obj_items(s: &str, i: usize, acc: Vec<(String, JsonValue)>) -> (r: Option<
    (JsonValue, usize),
>)
    requires
        i <= s@.len(),
    ensures
        value_res_matches(r, spec_parse_obj_items(s@, i as int, obj_views_of(acc@))),
    decreases s@.len() - i, 1int,
{
    let n = s.unicode_len();
    if i >= n {
        return None;
    }
    if s.get_char(i) != '"' {
        return None;
    }
    match parse_string_body(s, i + 1, String::new()) {
        None => None,
        Some((key, k)) => {
            if k <= i + 1 || k > n {
                return None;
            }
            let j = ws_end(s, k);
            if j < k || j >= n {
                return None;
            }
            if s.get_char(j) != ':' {
                return None;
            }
            let j2 = ws_end(s, j + 1);
            if j2 < j + 1 || j2 > n {
                return None;
            }
            match parse_value(s, j2) {
                None => None,
                Some((v, k2)) => {
                    if k2 <= j2 || k2 > n {
                        return None;
                    }
                    let j3 = ws_end(s, k2);
                    if j3 < k2 || j3 >= n {
                        return None;
                    }
                    let cj = s.get_char(j3);
                    if cj == ',' {
                        let j4 = ws_end(s, j3 + 1);
                        if j4 < j3 + 1 || j4 > n {
                            return None;
                        }
                        proof {
                            lemma_view_obj_at_push(acc@, (key, v));
                        }
                        let mut acc2 = acc;
                        acc2.push((key, v));
                        parse_obj_items(s, j4, acc2)
                    } else if cj == '}' {
                        proof {
                            lemma_view_obj_at_push(acc@, (key, v));
                        }
                        let mut acc2 = acc;
                        acc2.push((key, v));
                        Some((JsonValue::Obj(acc2), j3 + 1))
                    } else {
                        None
                    }
                },
            }
        },
    }
}

/// Parses a complete JSON text into a value, or returns `None` exactly when
/// the text does not belong to the grammar given by [`spec_parse_text`].
pub fn parse_json(s: &str) -> (r: Option<JsonValue>)
    ensures
        match r {
            Some(v) => spec_parse_text(s@) == Some(v@),
            None => spec_parse_text(s@) is None,
        },
{
    let n = s.unicode_len();
    let i = ws_end(s, 0);
    match parse_value(s, i) {
        Some((v, k)) => {
            if k <= n && ws_end(s, k) == n {
                Some(v)
            } else {
                None
            }
        },
        None => None,
    }
}

/// A character that stands for itself inside a JSON string literal.
pub open spec fn plain_string_char(c: char) -> bool {
    c != '"' && c != '\\' && (c as u32) >= 0x20
}

/// Parsing a string literal whose body consists of plain characters
/// followed by the closing quote yields exactly those characters.
pub proof fn lemma_parse_plain_string(s: Seq<char>, t: Seq<char>, i: int, acc: Seq<char>)
    requires
        0 <= i,
        i + t.len() + 1 <= s.len(),
        forall|k: int| 0 <= k < t.len() ==> s[i + k] == t[k],
        forall|k: int| 0 <= k < t.len() ==> plain_string_char(#[trigger] t[k]),
        s[i + t.len()] == '"',
    ensures
        spec_parse_string_body(s, i, acc) == Some((acc + t, i + t.len() + 1)),
    decreases t.len(),
{
    if t.len() == 0 {
        assert(s[i] == '"');
        assert(acc + t =~= acc);
    } else {
        assert(s[i] == t[0]);
        assert(plain_string_char(t[0]));
        lemma_parse_plain_string(s, t.drop_first(), i + 1, acc.push(t[0]));
        assert(acc.push(t[0]) + t.drop_first() =~= acc + t);
        assert(spec_parse_string_body(s, i, acc) == spec_parse_string_body(
            s,
            i + 1,
            acc.push(s[i]),
        ));
    }
}

/// Whether `key` holds a string.
pub open spec fn str_field_ok(m: Seq<(Seq<char>, Json)>, key: Seq<char>) -> bool {
    obj_lookup(m, key) matches Some(Json::Str(_))
}

/// Whether `key` holds a nonnegative integer.
pub open spec fn u64_field_ok(m: Seq<(Seq<char>, Json)>, key: Seq<char>) -> bool {
    match obj_lookup(m, key) {
        Some(Json::Num(t)) => t >= 0,
        _ => false,
    }
}

/// Whether `key` holds a boolean.
pub open spec fn bool_field_ok(m: Seq<(Seq<char>, Json)>, key: Seq<char>) -> bool {
    obj_lookup(m, key) matches Some(Json::Bool(_))
}

/// Whether `key` is absent, null, or a string.
pub open spec fn opt_str_field_ok(m: Seq<(Seq<char>, Json)>, key: Seq<char>) -> bool {
    match obj_lookup(m, key) {
        None => true,
        Some(Json::Null) => true,
        Some(Json::Str(_)) => true,
        _ => false,
    }
}

/// Whether `key` is absent, null, or a nonnegative integer.
pub open spec fn opt_u64_field_ok(m: Seq<(Seq<char>, Json)>, key: Seq<char>) -> bool {
    match obj_lookup(m, key) {
        None => true,
        Some(Json::Null) => true,
        Some(Json::Num(t)) => t >= 0,
        _ => false,
    }
}

/// The string under `key`, when there is one.
pub fn get_str(m: &Vec<(String, JsonValue)>, key: &str) -> (r: Option<String>)
    ensures
        match obj_lookup(obj_views_of(m@), key@) {
            Some(Json::Str(t)) => r matches Some(s) && s@ == t,
            _ => r is None,
        },
{
    match obj_get(m, key) {
        Some(x) => match x {
            JsonValue::Str(t) => Some(t.clone()),
            _ => None,
        },
        None => None,
    }
}

/// The nonnegative integer under `key`, when there is one.
pub fn get_u64(m: &Vec<(String, JsonValue)>, key: &str) -> (r: Option<u64>)
    ensures
        match obj_lookup(obj_views_of(m@), key@) {
            Some(Json::Num(t)) => if t >= 0 {
                r matches Some(x) && x as int == t
            } else {
                r is None
            },
            _ => r is None,
        },
{
    match obj_get(m, key) {
        Some(x) => match x {
            JsonValue::Num(n) => if *n >= 0 {
                Some(*n as u64)
            } else {
                None
            },
            _ => None,
        },
        None => None,
    }
}

/// The boolean under `key`, when there is one.
pub fn get_bool(m: &Vec<(String, JsonValue)>, key: &str) -> (r: Option<bool>)
    ensures
        match obj_lookup(obj_views_of(m@), key@) {
            Some(Json::Bool(b)) => r == Some(b),
            _ => r is None,
        },
{
    match obj_get(m, key) {
        Some(x) => match x {
            JsonValue::Bool(b) => Some(*b),
            _ => None,
        },
        None => None,
    }
}

/// The optional string under `key`: absent or null count as unset.
pub fn get_opt_str(m: &Vec<(String, JsonValue)>, key: &str) -> (r: Option<Option<String>>)
    ensures
        match obj_lookup(obj_views_of(m@), key@) {
            None => r == Some(Option::<String>::None),
            Some(Json::Null) => r == Some(Option::<String>::None),
            Some(Json::Str(t)) => r matches Some(o) && o matches Some(s) && s@ == t,
            _ => r is None,
        },
{
    match obj_get(m, key) {
        None => Some(None),
        Some(x) => match x {
            JsonValue::Null => Some(None),
            JsonValue::Str(t) => Some(Some(t.clone())),
            _ => None,
        },
    }
}

/// The optional nonnegative integer under `key`: absent or null count as
/// unset.
pub fn get_opt_u64(m: &Vec<(String, JsonValue)>, key: &str) -> (r: Option<Option<u64>>)
    ensures
        match obj_lookup(obj_views_of(m@), key@) {
            None => r == Some(Option::<u64>::None),
            Some(Json::Null) => r == Some(Option::<u64>::None),
            Some(Json::Num(t)) => if t >= 0 {
                r matches Some(o) && o matches Some(x) && x as int == t
            } else {
                r is None
            },
            _ => r is None,
        },
{
    match obj_get(m, key) {
        None => Some(None),
        Some(x) => match x {
            JsonValue::Null => Some(None),
            JsonValue::Num(n) => if *n >= 0 {
                Some(Some(*n as u64))
            } else {
                None
            },
            _ => None,
        },
    }
}

/// Looks up the first member of `m` named `key`.
pub fn obj_get<'a>(m: &'a Vec<(String, JsonValue)>, key: &str) -> (r: Option<&'a JsonValue>)
    ensures
        match r {
            Some(v) => obj_lookup(obj_views_of(m@), key@) == Some(v@),
            None => obj_lookup(obj_views_of(m@), key@) is None,
        },
{
    let n = m.len();
    let mut i: usize = 0;
    while i < n
        invariant
            i <= n,
            n == m@.len(),
            obj_lookup(obj_views_of(m@), key@) == obj_lookup(
                JsonValue::view_obj_at(m@, i as int),
                key@,
            ),
        decreases n - i,
    {
        proof {
            assert(JsonValue::view_obj_at(m@, i as int)[0] == (m@[i as int].0@, m@[i as int].1@));
            assert(JsonValue::view_obj_at(m@, i as int).drop_first() =~= JsonValue::view_obj_at(
                m@,
                i as int + 1,
            ));
        }
        if str_eq(m[i].0.as_str(), key) {
            return Some(&m[i].1);
        }
        i += 1;
    }
    None
}

} // verus!
