use vstd::prelude::*;
use vstd::string::StringSliceAdditionalSpecFns;
use vstd::utf8::{decode_utf8, encode_utf8, valid_utf8};
use core::cmp::Ordering;

verus! {

#[verifier::external_type_specification]
#[verifier::external_body]
pub struct ExUtf8Error(core::str::Utf8Error);

/// What `String::from_utf8_lossy` makes of the bytes `b`: their text, with
/// each invalid sequence replaced by U+FFFD.
pub uninterp spec fn lossy_of(b: Seq<u8>) -> Seq<char>;

/// What `str::to_lowercase` makes of the text `s`.
pub uninterp spec fn lower_of(s: Seq<char>) -> Seq<char>;

/// What `<[u8]>::utf8_chunks` makes of the bytes `b`: runs of valid text,
/// each followed by the invalid bytes that end it.
pub uninterp spec fn utf8_chunks_of(b: Seq<u8>) -> Seq<(Seq<char>, Seq<u8>)>;

/// Relies on `<[u8]>::utf8_chunks`: the chunks of the bytes, each as its
/// valid text and the invalid bytes after it.
#[verifier::external_body]
fn split_utf8_chunks(b: &[u8]) -> (r: Vec<(String, Vec<u8>)>)
    ensures
        r@.map_values(|c: (String, Vec<u8>)| (c.0@, c.1@)) == utf8_chunks_of(b@),
{
    b.utf8_chunks().map(|c| (c.valid().to_owned(), c.invalid().to_vec())).collect()
}

/// Relies on `core::str::from_utf8`: it succeeds exactly on valid UTF-8, and
/// the text it returns has the bytes it was given.
#[verifier::external_body]
fn str_from_utf8(b: &[u8]) -> (r: Result<&str, core::str::Utf8Error>)
    ensures
        r.is_ok() == valid_utf8(b@),
        r matches Ok(s) ==> s.spec_bytes() == b@,
{
    core::str::from_utf8(b)
}

/// Relies on `String::from_utf8_lossy`: valid UTF-8 comes out as the text it
/// encodes.
#[verifier::external_body]
fn utf8_lossy(b: &[u8]) -> (r: String)
    ensures
        r@ == lossy_of(b@),
        valid_utf8(b@) ==> r@ == decode_utf8(b@),
{
    String::from_utf8_lossy(b).into_owned()
}

/// Relies on `str::to_lowercase`: the lowercase form of a text depends on the
/// text alone; an empty text stays empty.
#[verifier::external_body]
fn lowercase(s: &str) -> (r: String)
    ensures
        r@ == lower_of(s@),
        s@.len() == 0 ==> r@.len() == 0,
{
    s.to_lowercase()
}

/// Byte strings in lexicographic order: the first differing byte decides, and
/// a proper prefix comes first.
pub open spec fn lex_order(a: Seq<u8>, b: Seq<u8>) -> Ordering
    decreases a.len(),
{
    if a.len() == 0 {
        if b.len() == 0 {
            Ordering::Equal
        } else {
            Ordering::Less
        }
    } else if b.len() == 0 {
        Ordering::Greater
    } else if a[0] < b[0] {
        Ordering::Less
    } else if a[0] > b[0] {
        Ordering::Greater
    } else {
        lex_order(a.drop_first(), b.drop_first())
    }
}

/// Compares two byte strings in lexicographic order.
pub fn cmp_bytes(a: &[u8], b: &[u8]) -> (r: Ordering)
    ensures
        r == lex_order(a@, b@),
{
    let mut i: usize = 0;
    proof {
        assert(a@.skip(0) =~= a@);
        assert(b@.skip(0) =~= b@);
    }
    while i < a.len() && i < b.len()
        invariant
            i <= a@.len(),
            i <= b@.len(),
            lex_order(a@, b@) == lex_order(a@.skip(i as int), b@.skip(i as int)),
        decreases a@.len() - i,
    {
        let x = a[i];
        let y = b[i];
        proof {
            assert(a@.skip(i as int)[0] == x);
            assert(b@.skip(i as int)[0] == y);
        }
        if x < y {
            return Ordering::Less;
        } else if x > y {
            return Ordering::Greater;
        }
        proof {
            assert(a@.skip(i as int).drop_first() =~= a@.skip(i + 1));
            assert(b@.skip(i as int).drop_first() =~= b@.skip(i + 1));
        }
        i += 1;
    }
    if i < b.len() {
        Ordering::Less
    } else if i < a.len() {
        Ordering::Greater
    } else {
        Ordering::Equal
    }
}

/// The order of two texts by their lowercase forms, compared byte by byte in
/// UTF-8.
pub open spec fn caseless_order(a: Seq<char>, b: Seq<char>) -> Ordering {
    lex_order(encode_utf8(lower_of(a)), encode_utf8(lower_of(b)))
}

/// The lower-case hexadecimal digit of `d`.
pub open spec fn hex_digit(d: u8) -> Seq<char> {
    if d == 0 { "0"@ } else if d == 1 { "1"@ } else if d == 2 { "2"@ } else if d == 3 { "3"@ }
    else if d == 4 { "4"@ } else if d == 5 { "5"@ } else if d == 6 { "6"@ } else if d == 7 { "7"@ }
    else if d == 8 { "8"@ } else if d == 9 { "9"@ } else if d == 10 { "a"@ } else if d == 11 { "b"@ }
    else if d == 12 { "c"@ } else if d == 13 { "d"@ } else if d == 14 { "e"@ } else { "f"@ }
}

/// A byte in lower-case hexadecimal, without leading zeros.
pub open spec fn hex_of(b: u8) -> Seq<char> {
    if b < 16 {
        hex_digit(b)
    } else {
        hex_digit(b / 16) + hex_digit(b % 16)
    }
}

/// Invalid bytes, each written as `\x` and its hexadecimal.
pub open spec fn escaped_bytes(b: Seq<u8>) -> Seq<char>
    decreases b.len(),
{
    if b.len() == 0 {
        Seq::empty()
    } else {
        escaped_bytes(b.drop_last()) + "\\x"@ + hex_of(b.last())
    }
}

/// UTF-8 chunks as text: the valid text of each, then its invalid bytes
/// escaped.
pub open spec fn escaped_chunks(c: Seq<(Seq<char>, Seq<u8>)>) -> Seq<char>
    decreases c.len(),
{
    if c.len() == 0 {
        Seq::empty()
    } else {
        escaped_chunks(c.drop_last()) + c.last().0 + escaped_bytes(c.last().1)
    }
}

fn hex_digit_str(d: u8) -> (r: &'static str)
    requires
        d < 16,
    ensures
        r@ == hex_digit(d),
{
    if d == 0 { "0" } else if d == 1 { "1" } else if d == 2 { "2" } else if d == 3 { "3" }
    else if d == 4 { "4" } else if d == 5 { "5" } else if d == 6 { "6" } else if d == 7 { "7" }
    else if d == 8 { "8" } else if d == 9 { "9" } else if d == 10 { "a" } else if d == 11 { "b" }
    else if d == 12 { "c" } else if d == 13 { "d" } else if d == 14 { "e" } else { "f" }
}

/// Writes UTF-8 chunks as text: valid text as it is, and each invalid byte
/// as `\x` followed by its lower-case hexadecimal.
pub fn escape_chunks(chunks: &Vec<(String, Vec<u8>)>) -> (r: String)
    ensures
        r@ == escaped_chunks(chunks@.map_values(|c: (String, Vec<u8>)| (c.0@, c.1@))),
{
    let ghost views = chunks@.map_values(|c: (String, Vec<u8>)| (c.0@, c.1@));
    let mut out = String::new();
    let mut i: usize = 0;
    while i < chunks.len()
        invariant
            i <= chunks@.len(),
            views == chunks@.map_values(|c: (String, Vec<u8>)| (c.0@, c.1@)),
            out@ == escaped_chunks(views.take(i as int)),
        decreases chunks@.len() - i,
    {
        let valid = &chunks[i].0;
        let invalid = &chunks[i].1;
        let ghost before = out@;
        out.append(valid.as_str());
        let mut j: usize = 0;
        while j < invalid.len()
            invariant
                j <= invalid@.len(),
                out@ == before + valid@ + escaped_bytes(invalid@.take(j as int)),
            decreases invalid@.len() - j,
        {
            let b = invalid[j];
            out.append("\\x");
            if b >= 16 {
                out.append(hex_digit_str(b / 16));
            }
            out.append(hex_digit_str(b % 16));
            proof {
                assert(invalid@.take(j + 1).drop_last() =~= invalid@.take(j as int));
            }
            j += 1;
        }
        proof {
            assert(invalid@.take(j as int) =~= invalid@);
            assert(views.take(i + 1).drop_last() =~= views.take(i as int));
        }
        i += 1;
    }
    proof {
        assert(views.take(i as int) =~= views);
    }
    out
}

/// A borrowed nginx string: a run of bytes that need not be valid UTF-8.
pub struct NgxStr(Vec<u8>);

impl View for NgxStr {
    type V = Seq<u8>;

    closed spec fn view(&self) -> Seq<u8> {
        self.0@
    }
}

impl NgxStr {
    /// An nginx string holding `bytes`.
    pub fn new(bytes: Vec<u8>) -> (r: NgxStr)
        ensures
            r@ == bytes@,
    {
        NgxStr(bytes)
    }

    /// The bytes of the string.
    pub fn as_bytes(&self) -> (r: &[u8])
        ensures
            r@ == self@,
    {
        self.0.as_slice()
    }

    /// The string as text, if its bytes are valid UTF-8.
    pub fn to_str(&self) -> (r: Result<&str, core::str::Utf8Error>)
        ensures
            r.is_ok() == valid_utf8(self@),
            r matches Ok(s) ==> s.spec_bytes() == self@,
    {
        str_from_utf8(self.0.as_slice())
    }

    /// The string as text, with each invalid UTF-8 sequence replaced by
    /// U+FFFD.
    pub fn to_string_lossy(&self) -> (r: String)
        ensures
            r@ == lossy_of(self@),
            valid_utf8(self@) ==> r@ == decode_utf8(self@),
    {
        utf8_lossy(self.0.as_slice())
    }

    /// Is the string empty?
    pub fn is_empty(&self) -> (r: bool)
        ensures
            r == (self@.len() == 0),
    {
        self.0.len() == 0
    }

    /// Compares the string with `other`, ignoring case: both are brought to
    /// lower case and compared byte by byte.
    pub fn cmp_ignore_case_utf8(&self, other: &str) -> (r: Ordering)
        ensures
            r == caseless_order(lossy_of(self@), other@),
    {
        let text = utf8_lossy(self.0.as_slice());
        let a = lowercase(text.as_str());
        let b = lowercase(other);
        cmp_bytes(a.as_str().as_bytes(), b.as_str().as_bytes())
    }
}

/// An nginx string as the host's API passes it: a length and its bytes.
#[allow(non_camel_case_types)]
pub struct ngx_str_t {
    data: Vec<u8>,
}

impl View for ngx_str_t {
    type V = Seq<u8>;

    closed spec fn view(&self) -> Seq<u8> {
        self.data@
    }
}

impl ngx_str_t {
    /// The empty string.
    pub fn empty() -> (r: ngx_str_t)
        ensures
            r@ == Seq::<u8>::empty(),
    {
        ngx_str_t { data: Vec::new() }
    }

    /// A string holding `bytes`.
    pub fn from_bytes(bytes: &[u8]) -> (r: ngx_str_t)
        ensures
            r@ == bytes@,
    {
        let mut data: Vec<u8> = Vec::new();
        let mut i: usize = 0;
        while i < bytes.len()
            invariant
                i <= bytes@.len(),
                data@ == bytes@.take(i as int),
            decreases bytes@.len() - i,
        {
            data.push(bytes[i]);
            i += 1;
            proof {
                assert(bytes@.take(i as int) =~= bytes@.take(i - 1).push(bytes@[i - 1]));
            }
        }
        proof {
            assert(bytes@.take(i as int) =~= bytes@);
        }
        ngx_str_t { data }
    }

    /// The length in bytes.
    pub fn len(&self) -> (r: usize)
        ensures
            r == self@.len(),
    {
        self.data.len()
    }

    /// The bytes of the string.
    pub fn as_bytes(&self) -> (r: &[u8])
        ensures
            r@ == self@,
    {
        self.data.as_slice()
    }

    /// Is the string empty?
    pub fn is_empty(&self) -> (r: bool)
        ensures
            r == (self@.len() == 0),
    {
        self.data.len() == 0
    }

    /// The string as text, with each byte that is not part of valid UTF-8
    /// written as `\x` and its lower-case hexadecimal.
    pub fn to_string(&self) -> (r: String)
        ensures
            r@ == escaped_chunks(utf8_chunks_of(self@)),
    {
        let chunks = split_utf8_chunks(self.data.as_slice());
        escape_chunks(&chunks)
    }

    /// The string as text; its bytes must be valid UTF-8.
    pub fn to_str(&self) -> (r: &str)
        requires
            valid_utf8(self@),
        ensures
            r.spec_bytes() == self@,
    {
        match str_from_utf8(self.data.as_slice()) {
            Ok(s) => s,
            Err(_) => "",
        }
    }
}

} // verus!
