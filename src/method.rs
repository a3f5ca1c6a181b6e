use vstd::prelude::*;
use vstd::string::StringSliceAdditionalSpecFns;
use vstd::utf8::encode_utf8;

verus! {

/// nginx's code of a request with an unknown method.
pub const NGX_HTTP_UNKNOWN: usize = 0x0001;
/// nginx's code of the GET method.
pub const NGX_HTTP_GET: usize = 0x0002;
/// nginx's code of the HEAD method.
pub const NGX_HTTP_HEAD: usize = 0x0004;
/// nginx's code of the POST method.
pub const NGX_HTTP_POST: usize = 0x0008;
/// nginx's code of the PUT method.
pub const NGX_HTTP_PUT: usize = 0x0010;
/// nginx's code of the DELETE method.
pub const NGX_HTTP_DELETE: usize = 0x0020;
/// nginx's code of the MKCOL method.
pub const NGX_HTTP_MKCOL: usize = 0x0040;
/// nginx's code of the COPY method.
pub const NGX_HTTP_COPY: usize = 0x0080;
/// nginx's code of the MOVE method.
pub const NGX_HTTP_MOVE: usize = 0x0100;
/// nginx's code of the OPTIONS method.
pub const NGX_HTTP_OPTIONS: usize = 0x0200;
/// nginx's code of the PROPFIND method.
pub const NGX_HTTP_PROPFIND: usize = 0x0400;
/// nginx's code of the PROPPATCH method.
pub const NGX_HTTP_PROPPATCH: usize = 0x0800;
/// nginx's code of the LOCK method.
pub const NGX_HTTP_LOCK: usize = 0x1000;
/// nginx's code of the UNLOCK method.
pub const NGX_HTTP_UNLOCK: usize = 0x2000;
/// nginx's code of the PATCH method.
pub const NGX_HTTP_PATCH: usize = 0x4000;
/// nginx's code of the TRACE method.
pub const NGX_HTTP_TRACE: usize = 0x8000;
/// nginx's code of the CONNECT method.
pub const NGX_HTTP_CONNECT: usize = 0x10000;

/// The method verb of a request.
#[derive(PartialEq, Eq, Structural, Clone, Copy, Debug)]
pub enum Method {
    Unknown,
    Get,
    Head,
    Post,
    Put,
    Delete,
    Mkcol,
    Copy,
    Move,
    Options,
    Propfind,
    Proppatch,
    Lock,
    Unlock,
    Patch,
    Trace,
    Connect,
}

/// The error of a conversion to a method.
#[derive(Clone, Copy, Debug)]
pub struct InvalidMethod {
    _priv: (),
}

impl InvalidMethod {
    /// The error value.
    pub fn new() -> (r: InvalidMethod) {
        InvalidMethod { _priv: () }
    }
}

/// The name of a method, in upper case.
pub open spec fn method_name(m: Method) -> Seq<char> {
    match m {
        Method::Unknown => "UNKNOWN"@,
        Method::Get => "GET"@,
        Method::Head => "HEAD"@,
        Method::Post => "POST"@,
        Method::Put => "PUT"@,
        Method::Delete => "DELETE"@,
        Method::Mkcol => "MKCOL"@,
        Method::Copy => "COPY"@,
        Method::Move => "MOVE"@,
        Method::Options => "OPTIONS"@,
        Method::Propfind => "PROPFIND"@,
        Method::Proppatch => "PROPPATCH"@,
        Method::Lock => "LOCK"@,
        Method::Unlock => "UNLOCK"@,
        Method::Patch => "PATCH"@,
        Method::Trace => "TRACE"@,
        Method::Connect => "CONNECT"@,
    }
}

/// The method that nginx's method code `t` stands for.
pub open spec fn method_of_code(t: usize) -> Method {
    if t == NGX_HTTP_GET {
        Method::Get
    } else if t == NGX_HTTP_HEAD {
        Method::Head
    } else if t == NGX_HTTP_POST {
        Method::Post
    } else if t == NGX_HTTP_PUT {
        Method::Put
    } else if t == NGX_HTTP_DELETE {
        Method::Delete
    } else if t == NGX_HTTP_MKCOL {
        Method::Mkcol
    } else if t == NGX_HTTP_COPY {
        Method::Copy
    } else if t == NGX_HTTP_MOVE {
        Method::Move
    } else if t == NGX_HTTP_OPTIONS {
        Method::Options
    } else if t == NGX_HTTP_PROPFIND {
        Method::Propfind
    } else if t == NGX_HTTP_PROPPATCH {
        Method::Proppatch
    } else if t == NGX_HTTP_LOCK {
        Method::Lock
    } else if t == NGX_HTTP_UNLOCK {
        Method::Unlock
    } else if t == NGX_HTTP_PATCH {
        Method::Patch
    } else if t == NGX_HTTP_TRACE {
        Method::Trace
    } else if t == NGX_HTTP_CONNECT {
        Method::Connect
    } else {
        Method::Unknown
    }
}

/// The method whose upper-case name has the bytes `b`; the name `UNKNOWN`
/// names none.
pub open spec fn method_of_name(b: Seq<u8>) -> Option<Method> {
    if b == encode_utf8("GET"@) {
        Some(Method::Get)
    } else if b == encode_utf8("HEAD"@) {
        Some(Method::Head)
    } else if b == encode_utf8("POST"@) {
        Some(Method::Post)
    } else if b == encode_utf8("PUT"@) {
        Some(Method::Put)
    } else if b == encode_utf8("DELETE"@) {
        Some(Method::Delete)
    } else if b == encode_utf8("MKCOL"@) {
        Some(Method::Mkcol)
    } else if b == encode_utf8("COPY"@) {
        Some(Method::Copy)
    } else if b == encode_utf8("MOVE"@) {
        Some(Method::Move)
    } else if b == encode_utf8("OPTIONS"@) {
        Some(Method::Options)
    } else if b == encode_utf8("PROPFIND"@) {
        Some(Method::Propfind)
    } else if b == encode_utf8("PROPPATCH"@) {
        Some(Method::Proppatch)
    } else if b == encode_utf8("LOCK"@) {
        Some(Method::Lock)
    } else if b == encode_utf8("UNLOCK"@) {
        Some(Method::Unlock)
    } else if b == encode_utf8("PATCH"@) {
        Some(Method::Patch)
    } else if b == encode_utf8("TRACE"@) {
        Some(Method::Trace)
    } else if b == encode_utf8("CONNECT"@) {
        Some(Method::Connect)
    } else {
        None
    }
}

proof fn lemma_encode_injective(a: Seq<char>, b: Seq<char>)
    requires
        encode_utf8(a) == encode_utf8(b),
    ensures
        a == b,
{
    vstd::utf8::encode_utf8_decode_utf8(a);
    vstd::utf8::encode_utf8_decode_utf8(b);
}

/// Parsing the name of a known method gives the method back.
pub proof fn lemma_name_parses_back(m: Method)
    requires
        m != Method::Unknown,
    ensures
        method_of_name(encode_utf8(method_name(m))) == Some(m),
{
    reveal_strlit("GET");
    reveal_strlit("HEAD");
    reveal_strlit("POST");
    reveal_strlit("PUT");
    reveal_strlit("DELETE");
    reveal_strlit("MKCOL");
    reveal_strlit("COPY");
    reveal_strlit("MOVE");
    reveal_strlit("OPTIONS");
    reveal_strlit("PROPFIND");
    reveal_strlit("PROPPATCH");
    reveal_strlit("LOCK");
    reveal_strlit("UNLOCK");
    reveal_strlit("PATCH");
    reveal_strlit("TRACE");
    reveal_strlit("CONNECT");
    assert forall|a: Seq<char>, b: Seq<char>|
        #[trigger] encode_utf8(a) == #[trigger] encode_utf8(b) implies a == b by {
        lemma_encode_injective(a, b);
    }
}

/// Do `a` and `b` hold the same bytes?
fn bytes_eq(a: &[u8], b: &[u8]) -> (r: bool)
    ensures
        r == (a@ == b@),
{
    if a.len() != b.len() {
        return false;
    }
    let mut i: usize = 0;
    while i < a.len()
        invariant
            a@.len() == b@.len(),
            i <= a@.len(),
            forall|j: int| 0 <= j < i ==> a@[j] == b@[j],
        decreases a@.len() - i,
    {
        if a[i] != b[i] {
            return false;
        }
        i += 1;
    }
    proof {
        assert(a@ =~= b@);
    }
    true
}

impl Method {
    /// The name of the method, in upper case.
    pub fn as_str(&self) -> (r: &'static str)
        ensures
            r@ == method_name(*self),
    {
        match self {
            Method::Unknown => "UNKNOWN",
            Method::Get => "GET",
            Method::Head => "HEAD",
            Method::Post => "POST",
            Method::Put => "PUT",
            Method::Delete => "DELETE",
            Method::Mkcol => "MKCOL",
            Method::Copy => "COPY",
            Method::Move => "MOVE",
            Method::Options => "OPTIONS",
            Method::Propfind => "PROPFIND",
            Method::Proppatch => "PROPPATCH",
            Method::Lock => "LOCK",
            Method::Unlock => "UNLOCK",
            Method::Patch => "PATCH",
            Method::Trace => "TRACE",
            Method::Connect => "CONNECT",
        }
    }

    /// The method whose upper-case name is `t`.
    pub fn from_bytes(t: &[u8]) -> (r: Result<Method, InvalidMethod>)
        ensures
            r.is_ok() == method_of_name(t@).is_some(),
            r matches Ok(m) ==> method_of_name(t@) == Some(m),
    {
        if bytes_eq(t, "GET".as_bytes()) {
            Ok(Method::Get)
        } else if bytes_eq(t, "HEAD".as_bytes()) {
            Ok(Method::Head)
        } else if bytes_eq(t, "POST".as_bytes()) {
            Ok(Method::Post)
        } else if bytes_eq(t, "PUT".as_bytes()) {
            Ok(Method::Put)
        } else if bytes_eq(t, "DELETE".as_bytes()) {
            Ok(Method::Delete)
        } else if bytes_eq(t, "MKCOL".as_bytes()) {
            Ok(Method::Mkcol)
        } else if bytes_eq(t, "COPY".as_bytes()) {
            Ok(Method::Copy)
        } else if bytes_eq(t, "MOVE".as_bytes()) {
            Ok(Method::Move)
        } else if bytes_eq(t, "OPTIONS".as_bytes()) {
            Ok(Method::Options)
        } else if bytes_eq(t, "PROPFIND".as_bytes()) {
            Ok(Method::Propfind)
        } else if bytes_eq(t, "PROPPATCH".as_bytes()) {
            Ok(Method::Proppatch)
        } else if bytes_eq(t, "LOCK".as_bytes()) {
            Ok(Method::Lock)
        } else if bytes_eq(t, "UNLOCK".as_bytes()) {
            Ok(Method::Unlock)
        } else if bytes_eq(t, "PATCH".as_bytes()) {
            Ok(Method::Patch)
        } else if bytes_eq(t, "TRACE".as_bytes()) {
            Ok(Method::Trace)
        } else if bytes_eq(t, "CONNECT".as_bytes()) {
            Ok(Method::Connect)
        } else {
            Err(InvalidMethod::new())
        }
    }

    /// The method of nginx's method code `t`; a code of no known method
    /// gives `Unknown`.
    pub fn from_ngx(t: usize) -> (r: Method)
        ensures
            r == method_of_code(t),
    {
        if t == NGX_HTTP_GET {
            Method::Get
        } else if t == NGX_HTTP_HEAD {
            Method::Head
        } else if t == NGX_HTTP_POST {
            Method::Post
        } else if t == NGX_HTTP_PUT {
            Method::Put
        } else if t == NGX_HTTP_DELETE {
            Method::Delete
        } else if t == NGX_HTTP_MKCOL {
            Method::Mkcol
        } else if t == NGX_HTTP_COPY {
            Method::Copy
        } else if t == NGX_HTTP_MOVE {
            Method::Move
        } else if t == NGX_HTTP_OPTIONS {
            Method::Options
        } else if t == NGX_HTTP_PROPFIND {
            Method::Propfind
        } else if t == NGX_HTTP_PROPPATCH {
            Method::Proppatch
        } else if t == NGX_HTTP_LOCK {
            Method::Lock
        } else if t == NGX_HTTP_UNLOCK {
            Method::Unlock
        } else if t == NGX_HTTP_PATCH {
            Method::Patch
        } else if t == NGX_HTTP_TRACE {
            Method::Trace
        } else if t == NGX_HTTP_CONNECT {
            Method::Connect
        } else {
            Method::Unknown
        }
    }
}

} // verus!
