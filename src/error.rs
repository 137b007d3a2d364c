//! Remote failure kinds, the local/remote error wrapper, and the decoding of
//! the node's error bodies.

use vstd::prelude::*;
use vstd::string::*;
use crate::text::chars_of;

verus! {

/// The failures that the node reports.
#[derive(Clone, Copy, Debug, PartialEq, Eq)]
pub enum NodeClientError {
    InternalError,
    BadRequest,
    NotFound,
    EntityExists,
    NoSuchSession,
    BadAuth,
    InsufficientStorage,
    NotEmpty,
    RangeUnsatisfiable,
}

/// What went wrong on this side of an exchange with the node.
#[derive(Clone, Debug, PartialEq, Eq)]
pub enum LocalError {
    /// The transport failed; its message is kept for diagnostics.
    Transport(String),
    /// A header that a successful response must carry was absent.
    MissingHeader,
    /// A header value was not visible ASCII text.
    HeaderNotText,
    /// A header value that must be a decimal number was not one.
    InvalidNumber,
    /// The disposition header named no file.
    MissingFilename,
    /// An upload session code is not a UUID.
    InvalidSessionId,
    /// A successful response body did not decode; the reason is kept.
    MalformedBody(String),
}

/// The error of every operation: the node reported a failure, or the exchange
/// failed before a meaningful answer came back.
#[derive(Clone, Debug, PartialEq, Eq)]
pub enum ConnectorError {
    Remote(NodeClientError),
    Local(LocalError),
}

pub type ConnectorResponse<T> = Result<T, ConnectorError>;

/// The error body of a failed request.
#[derive(Clone, Copy, Debug, PartialEq, Eq)]
pub struct ErrorResponse {
    pub code: NodeClientError,
}

/// The wire name of each failure kind.
pub open spec fn kind_name(k: NodeClientError) -> Seq<char> {
    match k {
        NodeClientError::InternalError => "InternalError"@,
        NodeClientError::BadRequest => "BadRequest"@,
        NodeClientError::NotFound => "NotFound"@,
        NodeClientError::EntityExists => "EntityExists"@,
        NodeClientError::NoSuchSession => "NoSuchSession"@,
        NodeClientError::BadAuth => "BadAuth"@,
        NodeClientError::InsufficientStorage => "InsufficientStorage"@,
        NodeClientError::NotEmpty => "NotEmpty"@,
        NodeClientError::RangeUnsatisfiable => "RangeUnsatisfiable"@,
    }
}

/// The failure kind with a given wire name, if any.
pub open spec fn kind_named(n: Seq<char>) -> Option<NodeClientError> {
    if n == "InternalError"@ {
        Some(NodeClientError::InternalError)
    } else if n == "BadRequest"@ {
        Some(NodeClientError::BadRequest)
    } else if n == "NotFound"@ {
        Some(NodeClientError::NotFound)
    } else if n == "EntityExists"@ {
        Some(NodeClientError::EntityExists)
    } else if n == "NoSuchSession"@ {
        Some(NodeClientError::NoSuchSession)
    } else if n == "BadAuth"@ {
        Some(NodeClientError::BadAuth)
    } else if n == "InsufficientStorage"@ {
        Some(NodeClientError::InsufficientStorage)
    } else if n == "NotEmpty"@ {
        Some(NodeClientError::NotEmpty)
    } else if n == "RangeUnsatisfiable"@ {
        Some(NodeClientError::RangeUnsatisfiable)
    } else {
        None
    }
}

pub open spec fn is_ws(c: char) -> bool {
    c == ' ' || c == '\t' || c == '\n' || c == '\r'
}

/// The first position at or after `i` that is not JSON whitespace.
pub open spec fn skip_ws(s: Seq<char>, i: int) -> int
    decreases s.len() - i,
{
    if 0 <= i < s.len() && is_ws(s[i]) {
        skip_ws(s, i + 1)
    } else {
        i
    }
}

/// The end of an unescaped string body that starts at `i`: the first double
/// quote or backslash at or after it.
pub open spec fn name_end(s: Seq<char>, i: int) -> int
    decreases s.len() - i,
{
    if 0 <= i < s.len() && s[i] != '"' && s[i] != '\\' {
        name_end(s, i + 1)
    } else {
        i
    }
}

pub open spec fn char_at(s: Seq<char>, i: int, c: char) -> bool {
    0 <= i < s.len() && s[i] == c
}

pub open spec fn code_key() -> Seq<char> {
    seq!['"', 'c', 'o', 'd', 'e', '"']
}

pub open spec fn key_at(s: Seq<char>, i: int) -> bool {
    0 <= i && i + 6 <= s.len() && s.subrange(i, i + 6) == code_key()
}

/// The code of an error body `{"code":"<name>"}`, with JSON whitespace
/// allowed between the tokens; `None` for any other text.
pub open spec fn body_code(s: Seq<char>) -> Option<Seq<char>> {
    let a = skip_ws(s, 0);
    let b = skip_ws(s, a + 1);
    let c = skip_ws(s, b + 6);
    let d = skip_ws(s, c + 1);
    let e = name_end(s, d + 1);
    let f = skip_ws(s, e + 1);
    let g = skip_ws(s, f + 1);
    if char_at(s, a, '{') && key_at(s, b) && char_at(s, c, ':') && char_at(s, d, '"')
        && char_at(s, e, '"') && char_at(s, f, '}') && g == s.len() {
        Some(s.subrange(d + 1, e))
    } else {
        None
    }
}

/// The failure kind that an error body names, if it names one.
pub open spec fn body_kind(s: Seq<char>) -> Option<NodeClientError> {
    match body_code(s) {
        Some(n) => kind_named(n),
        None => None,
    }
}

/// The failure that a body of a failed request stands for: an undecodable
/// body stands for an internal error of the node.
pub open spec fn error_of_body(s: Seq<char>) -> NodeClientError {
    match body_kind(s) {
        Some(k) => k,
        None => NodeClientError::InternalError,
    }
}

/// The compact error body that names `k`.
pub open spec fn error_body(k: NodeClientError) -> Seq<char> {
    "{\"code\":\""@ + kind_name(k) + "\"}"@
}

fn skip_ws_from(s: &Vec<char>, i: usize) -> (r: usize)
    requires
        i <= s@.len(),
    ensures
        r as int == skip_ws(s@, i as int),
        i <= r <= s@.len(),
{
    let n = s.len();
    let mut j = i;
    while j < n && (s[j] == ' ' || s[j] == '\t' || s[j] == '\n' || s[j] == '\r')
        invariant
            n == s@.len(),
            i <= j <= n,
            skip_ws(s@, i as int) == skip_ws(s@, j as int),
        decreases n - j,
    {
        j = j + 1;
    }
    j
}

fn name_end_from(s: &Vec<char>, i: usize) -> (r: usize)
    requires
        i <= s@.len(),
    ensures
        r as int == name_end(s@, i as int),
        i <= r <= s@.len(),
{
    let n = s.len();
    let mut j = i;
    while j < n && s[j] != '"' && s[j] != '\\'
        invariant
            n == s@.len(),
            i <= j <= n,
            name_end(s@, i as int) == name_end(s@, j as int),
        decreases n - j,
    {
        j = j + 1;
    }
    j
}

fn is_char_at(s: &Vec<char>, i: usize, c: char) -> (r: bool)
    ensures
        r == char_at(s@, i as int, c),
{
    i < s.len() && s[i] == c
}

fn is_key_at(s: &Vec<char>, i: usize) -> (r: bool)
    requires
        i <= s@.len(),
    ensures
        r == key_at(s@, i as int),
{
    if s.len() - i < 6 {
        return false;
    }
    let r = s[i] == '"' && s[i + 1] == 'c' && s[i + 2] == 'o' && s[i + 3] == 'd' && s[i + 4] == 'e'
        && s[i + 5] == '"';
    assert(r ==> s@.subrange(i as int, i + 6) =~= code_key());
    assert(s@.subrange(i as int, i + 6) == code_key() ==> r) by {
        if s@.subrange(i as int, i + 6) == code_key() {
            assert forall|k: int| 0 <= k < 6 implies s@[i + k] == code_key()[k] by {
                assert(s@.subrange(i as int, i + 6)[k] == s@[i + k]);
            }
        }
    }
    r
}

fn range_is(s: &Vec<char>, from: usize, to: usize, lit: &str) -> (r: bool)
    requires
        from <= to <= s@.len(),
    ensures
        r == (s@.subrange(from as int, to as int) == lit@),
{
    let l = chars_of(lit);
    if to - from != l.len() {
        return false;
    }
    let mut k: usize = 0;
    while k < l.len()
        invariant
            l@ == lit@,
            from + l@.len() == to <= s@.len(),
            k <= l@.len(),
            s@.subrange(from as int, from + k) == l@.subrange(0, k as int),
        decreases l@.len() - k,
    {
        if s[from + k] != l[k] {
            assert(s@.subrange(from as int, to as int)[k as int] != l@[k as int]);
            return false;
        }
        k = k + 1;
        assert(s@.subrange(from as int, from + k) =~= l@.subrange(0, k as int));
    }
    assert(l@.subrange(0, k as int) =~= l@);
    true
}

fn kind_in(s: &Vec<char>, from: usize, to: usize) -> (r: Option<NodeClientError>)
    requires
        from <= to <= s@.len(),
    ensures
        r == kind_named(s@.subrange(from as int, to as int)),
{
    if range_is(s, from, to, "InternalError") {
        Some(NodeClientError::InternalError)
    } else if range_is(s, from, to, "BadRequest") {
        Some(NodeClientError::BadRequest)
    } else if range_is(s, from, to, "NotFound") {
        Some(NodeClientError::NotFound)
    } else if range_is(s, from, to, "EntityExists") {
        Some(NodeClientError::EntityExists)
    } else if range_is(s, from, to, "NoSuchSession") {
        Some(NodeClientError::NoSuchSession)
    } else if range_is(s, from, to, "BadAuth") {
        Some(NodeClientError::BadAuth)
    } else if range_is(s, from, to, "InsufficientStorage") {
        Some(NodeClientError::InsufficientStorage)
    } else if range_is(s, from, to, "NotEmpty") {
        Some(NodeClientError::NotEmpty)
    } else if range_is(s, from, to, "RangeUnsatisfiable") {
        Some(NodeClientError::RangeUnsatisfiable)
    } else {
        None
    }
}

impl NodeClientError {
    /// The wire name of this failure kind.
    pub fn code(&self) -> (r: &'static str)
        ensures
            r@ == kind_name(*self),
    {
        match self {
            NodeClientError::InternalError => "InternalError",
            NodeClientError::BadRequest => "BadRequest",
            NodeClientError::NotFound => "NotFound",
            NodeClientError::EntityExists => "EntityExists",
            NodeClientError::NoSuchSession => "NoSuchSession",
            NodeClientError::BadAuth => "BadAuth",
            NodeClientError::InsufficientStorage => "InsufficientStorage",
            NodeClientError::NotEmpty => "NotEmpty",
            NodeClientError::RangeUnsatisfiable => "RangeUnsatisfiable",
        }
    }

    /// The failure that the body of a failed request reports; a body that
    /// does not decode reports an internal error of the node.
    pub fn from(body: &str) -> (r: NodeClientError)
        ensures
            r == error_of_body(body@),
    {
        match ErrorResponse::decode(body) {
            Some(resp) => resp.code,
            None => NodeClientError::InternalError,
        }
    }
}

impl ErrorResponse {
    /// Decodes an error body `{"code":"<name>"}`, JSON whitespace allowed
    /// between its tokens.
    pub fn decode(body: &str) -> (r: Option<ErrorResponse>)
        ensures
            r is None <==> body_kind(body@) is None,
            r matches Some(e) ==> body_kind(body@) == Some(e.code),
    {
        let s = chars_of(body);
        let n = s.len();
        let a = skip_ws_from(&s, 0);
        if !is_char_at(&s, a, '{') {
            return None;
        }
        let b = skip_ws_from(&s, a + 1);
        if !is_key_at(&s, b) {
            return None;
        }
        let c = skip_ws_from(&s, b + 6);
        if !is_char_at(&s, c, ':') {
            return None;
        }
        let d = skip_ws_from(&s, c + 1);
        if !is_char_at(&s, d, '"') {
            return None;
        }
        let e = name_end_from(&s, d + 1);
        if !is_char_at(&s, e, '"') {
            return None;
        }
        let f = skip_ws_from(&s, e + 1);
        if !is_char_at(&s, f, '}') {
            return None;
        }
        let g = skip_ws_from(&s, f + 1);
        if g != n {
            return None;
        }
        match kind_in(&s, d + 1, e) {
            Some(code) => Some(ErrorResponse { code }),
            None => None,
        }
    }

    /// Encodes this error body in its compact form.
    pub fn encode(&self) -> (r: String)
        ensures
            r@ == error_body(self.code),
    {
        let mut b = String::new();
        b.append("{\"code\":\"");
        b.append(self.code.code());
        b.append("\"}");
        b
    }
}

pub open spec fn plain_name(n: Seq<char>) -> bool {
    forall|i: int| 0 <= i < n.len() ==> #[trigger] n[i] != '"' && n[i] != '\\'
}

proof fn lemma_name_end(s: Seq<char>, i: int, j: int)
    requires
        0 <= i <= j,
        char_at(s, j, '"'),
        forall|k: int| i <= k < j ==> #[trigger] s[k] != '"' && s[k] != '\\',
    ensures
        name_end(s, i) == j,
    decreases j - i,
{
    if i < j {
        lemma_name_end(s, i + 1, j);
    }
}

proof fn lemma_kind_name(k: NodeClientError)
    ensures
        plain_name(kind_name(k)),
        kind_named(kind_name(k)) == Some(k),
{
    reveal_strlit("InternalError");
    reveal_strlit("BadRequest");
    reveal_strlit("NotFound");
    reveal_strlit("EntityExists");
    reveal_strlit("NoSuchSession");
    reveal_strlit("BadAuth");
    reveal_strlit("InsufficientStorage");
    reveal_strlit("NotEmpty");
    reveal_strlit("RangeUnsatisfiable");
    match k {
        NodeClientError::InternalError => {},
        NodeClientError::BadRequest => {
            assert("InternalError"@.len() != "BadRequest"@.len());
        },
        NodeClientError::NotFound => {
            assert("InternalError"@.len() != "NotFound"@.len());
            assert("BadRequest"@.len() != "NotFound"@.len());
        },
        NodeClientError::EntityExists => {
            assert("InternalError"@.len() != "EntityExists"@.len());
            assert("BadRequest"@.len() != "EntityExists"@.len());
            assert("NotFound"@.len() != "EntityExists"@.len());
        },
        NodeClientError::NoSuchSession => {
            assert("InternalError"@[0] != "NoSuchSession"@[0]);
            assert("BadRequest"@.len() != "NoSuchSession"@.len());
            assert("NotFound"@.len() != "NoSuchSession"@.len());
            assert("EntityExists"@.len() != "NoSuchSession"@.len());
        },
        NodeClientError::BadAuth => {
            assert("InternalError"@.len() != "BadAuth"@.len());
            assert("BadRequest"@.len() != "BadAuth"@.len());
            assert("NotFound"@.len() != "BadAuth"@.len());
            assert("EntityExists"@.len() != "BadAuth"@.len());
            assert("NoSuchSession"@.len() != "BadAuth"@.len());
        },
        NodeClientError::InsufficientStorage => {
            assert("InternalError"@.len() != "InsufficientStorage"@.len());
            assert("BadRequest"@.len() != "InsufficientStorage"@.len());
            assert("NotFound"@.len() != "InsufficientStorage"@.len());
            assert("EntityExists"@.len() != "InsufficientStorage"@.len());
            assert("NoSuchSession"@.len() != "InsufficientStorage"@.len());
            assert("BadAuth"@.len() != "InsufficientStorage"@.len());
        },
        NodeClientError::NotEmpty => {
            assert("InternalError"@.len() != "NotEmpty"@.len());
            assert("BadRequest"@.len() != "NotEmpty"@.len());
            assert("NotFound"@[3] != "NotEmpty"@[3]);
            assert("EntityExists"@.len() != "NotEmpty"@.len());
            assert("NoSuchSession"@.len() != "NotEmpty"@.len());
            assert("BadAuth"@.len() != "NotEmpty"@.len());
            assert("InsufficientStorage"@.len() != "NotEmpty"@.len());
        },
        NodeClientError::RangeUnsatisfiable => {
            assert("InternalError"@.len() != "RangeUnsatisfiable"@.len());
            assert("BadRequest"@.len() != "RangeUnsatisfiable"@.len());
            assert("NotFound"@.len() != "RangeUnsatisfiable"@.len());
            assert("EntityExists"@.len() != "RangeUnsatisfiable"@.len());
            assert("NoSuchSession"@.len() != "RangeUnsatisfiable"@.len());
            assert("BadAuth"@.len() != "RangeUnsatisfiable"@.len());
            assert("InsufficientStorage"@.len() != "RangeUnsatisfiable"@.len());
            assert("NotEmpty"@.len() != "RangeUnsatisfiable"@.len());
        },
    }
}

/// Decoding the error body that names a failure kind gives that kind back.
pub proof fn lemma_error_body_round_trip(k: NodeClientError)
    ensures
        body_kind(error_body(k)) == Some(k),
        error_of_body(error_body(k)) == k,
{
    reveal_strlit("{\"code\":\"");
    reveal_strlit("\"}");
    lemma_kind_name(k);
    let name = kind_name(k);
    let s = error_body(k);
    let e: int = 9 + name.len() as int;
    assert(s.len() == e + 2);
    assert(skip_ws(s, 0) == 0);
    assert(skip_ws(s, 1) == 1);
    assert(s.subrange(1, 7) =~= code_key());
    assert(skip_ws(s, 7) == 7);
    assert(skip_ws(s, 8) == 8);
    assert forall|i: int| 9 <= i < e implies #[trigger] s[i] != '"' && s[i] != '\\' by {
        assert(s[i] == name[i - 9]);
    }
    assert(s[e] == '"');
    lemma_name_end(s, 9, e);
    assert(s[e + 1] == '}');
    assert(skip_ws(s, e + 1) == e + 1);
    assert(skip_ws(s, e + 2) == e + 2);
    assert(s.subrange(9, e) =~= name);
}

} // verus!
