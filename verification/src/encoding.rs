//! Form-urlencoding of query parameters.
//!
//! The byte-level `application/x-www-form-urlencoded` serialization is
//! performed by the `form_urlencoded` crate; its effect on each byte is
//! simple enough to state exactly, so the trusted wrapper carries a
//! full specification and everything built on top of it is verified.

use vstd::prelude::*;
use vstd::string::StringExecFns;
use vstd::utf8::encode_utf8;

verus! {

/// The bytes that the form-urlencoded serializer emits unchanged:
/// ASCII alphanumerics and `*`, `-`, `.`, `_`.
pub open spec fn form_safe_byte(b: u8) -> bool {
    (0x30 <= b && b <= 0x39)  // '0'..='9'
    || (0x41 <= b && b <= 0x5a)  // 'A'..='Z'
    || (0x61 <= b && b <= 0x7a)  // 'a'..='z'
    || b == 0x2a  // '*'
    || b == 0x2d  // '-'
    || b == 0x2e  // '.'
    || b == 0x5f  // '_'
}

/// The upper-case hexadecimal digit for a value below 16.
pub open spec fn hex_upper_digit(d: int) -> char
    recommends
        0 <= d < 16,
{
    if d == 0 {
        '0'
    } else if d == 1 {
        '1'
    } else if d == 2 {
        '2'
    } else if d == 3 {
        '3'
    } else if d == 4 {
        '4'
    } else if d == 5 {
        '5'
    } else if d == 6 {
        '6'
    } else if d == 7 {
        '7'
    } else if d == 8 {
        '8'
    } else if d == 9 {
        '9'
    } else if d == 10 {
        'A'
    } else if d == 11 {
        'B'
    } else if d == 12 {
        'C'
    } else if d == 13 {
        'D'
    } else if d == 14 {
        'E'
    } else {
        'F'
    }
}

/// The form-urlencoded serialization of one byte: kept as itself when
/// safe, `+` for a space, and `%XX` in upper-case hex otherwise.
pub open spec fn form_encode_byte(b: u8) -> Seq<char> {
    if form_safe_byte(b) {
        seq![b as char]
    } else if b == 0x20 {
        seq!['+']
    } else {
        seq!['%', hex_upper_digit(b as int / 16), hex_upper_digit(b as int % 16)]
    }
}

/// The form-urlencoded serialization of a byte string.
pub open spec fn form_encoded_bytes(s: Seq<u8>) -> Seq<char>
    decreases s.len(),
{
    if s.len() == 0 {
        Seq::empty()
    } else {
        form_encode_byte(s[0]) + form_encoded_bytes(s.drop_first())
    }
}

/// Relies on `form_urlencoded::byte_serialize`, the
/// application/x-www-form-urlencoded byte serializer: each input byte
/// is emitted unchanged when alphanumeric or `*-._`, as `+` when it is
/// a space, and percent-encoded in upper-case hex otherwise.
#[verifier::external_body]
pub(crate) fn form_encode(bytes: &[u8]) -> (r: String)
    ensures
        r@ == form_encoded_bytes(bytes@),
{
    form_urlencoded::byte_serialize(bytes).collect()
}

/// `s` with every `?` byte removed.
pub open spec fn strip_question_marks(s: Seq<u8>) -> Seq<u8>
    decreases s.len(),
{
    if s.len() == 0 {
        Seq::empty()
    } else if s[0] == 0x3f {
        strip_question_marks(s.drop_first())
    } else {
        seq![s[0]] + strip_question_marks(s.drop_first())
    }
}

/// Copies the UTF-8 bytes of `s`, dropping every literal `?`.
/// Since `?` is an ASCII byte, it never occurs inside the multi-byte
/// encoding of another character, so this removes exactly the `?`
/// characters of the text.
pub fn bytes_without_question_marks(s: &str) -> (r: Vec<u8>)
    ensures
        r@ == strip_question_marks(encode_utf8(s@)),
{
    let bytes = s.as_bytes();
    let n = bytes.len();
    let mut out: Vec<u8> = Vec::new();
    let mut i: usize = 0;
    proof {
        assert(bytes@.skip(0) =~= bytes@);
        assert(out@ + strip_question_marks(bytes@) =~= strip_question_marks(bytes@));
    }
    while i < n
        invariant
            n == bytes@.len(),
            i <= n,
            strip_question_marks(bytes@) == out@ + strip_question_marks(bytes@.skip(i as int)),
        decreases n - i,
    {
        let b = bytes[i];
        proof {
            assert(bytes@.skip(i as int).drop_first() =~= bytes@.skip(i + 1));
            assert(bytes@.skip(i as int)[0] == b);
            if b != 0x3f {
                assert(out@ + strip_question_marks(bytes@.skip(i as int))
                    =~= (out@ + seq![b]) + strip_question_marks(bytes@.skip(i + 1)));
            }
        }
        if b != 0x3f {
            out.push(b);
        }
        i = i + 1;
    }
    proof {
        assert(bytes@.skip(n as int) =~= Seq::<u8>::empty());
        assert(out@ =~= strip_question_marks(bytes@));
    }
    out
}

/// One encoded `key=value` pair, over the UTF-8 bytes of the two texts.
pub open spec fn encoded_pair(k: Seq<char>, v: Seq<char>) -> Seq<char> {
    form_encoded_bytes(encode_utf8(k)) + "="@ + form_encoded_bytes(encode_utf8(v))
}

/// An incrementally built query string of `key=value` pairs joined by
/// `&`, each key and value form-urlencoded.
pub struct QueryParams {
    out: String,
}

impl View for QueryParams {
    type V = Seq<char>;

    closed spec fn view(&self) -> Seq<char> {
        self.out@
    }
}

impl QueryParams {
    /// Starts an empty query string.
    pub fn new() -> (r: Self)
        ensures
            r@ == Seq::<char>::empty(),
    {
        QueryParams { out: String::new() }
    }

    /// Appends one `key=value` pair, preceded by `&` when the string is
    /// not empty, with both parts form-urlencoded.
    pub fn append_pair(&mut self, key: &str, value: &str)
        ensures
            final(self)@ == old(self)@ + (if old(self)@.len() == 0 {
                Seq::<char>::empty()
            } else {
                "&"@
            }) + encoded_pair(key@, value@),
            final(self)@.len() > 0,
    {
        let ghost prior = self.out@;
        if !self.out.as_str().is_empty() {
            self.out.append("&");
        }
        let ek = form_encode(key.as_bytes());
        self.out.append(ek.as_str());
        self.out.append("=");
        let ev = form_encode(value.as_bytes());
        self.out.append(ev.as_str());
        proof {
            reveal_strlit("=");
            assert(self.out@ =~= prior + (if prior.len() == 0 {
                Seq::<char>::empty()
            } else {
                "&"@
            }) + encoded_pair(key@, value@));
        }
    }

    /// Hands out the finished query string.
    pub fn finish(self) -> (r: String)
        ensures
            r@ == self@,
    {
        self.out
    }
}

} // verus!
