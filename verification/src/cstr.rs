//! NUL-terminated byte buffers, the string form that native calls take.

use vstd::prelude::*;
use vstd::slice::slice_subrange;
use vstd::utf8::{encode_scalar, encode_utf8};

verus! {

/// Whether a zero byte occurs anywhere in `bytes`.
pub open spec fn has_nul(bytes: Seq<u8>) -> bool {
    exists|i: int| 0 <= i < bytes.len() && bytes[i] == 0u8
}

/// Whether `at` is the place of the first zero byte of `bytes`.
pub open spec fn is_first_nul(bytes: Seq<u8>, at: int) -> bool {
    &&& 0 <= at < bytes.len()
    &&& bytes[at] == 0u8
    &&& forall|j: int| 0 <= j < at ==> bytes[j] != 0u8
}

/// Looks for the first zero byte of `bytes`.
pub fn find_nul(bytes: &[u8]) -> (pos: Option<usize>)
    ensures
        match pos {
            Some(at) => is_first_nul(bytes@, at as int),
            None => !has_nul(bytes@),
        },
{
    let mut i: usize = 0;
    while i < bytes.len()
        invariant
            i <= bytes@.len(),
            forall|j: int| 0 <= j < i ==> bytes@[j] != 0u8,
        decreases bytes@.len() - i,
    {
        if bytes[i] == 0 {
            return Some(i);
        }
        i += 1;
    }
    None
}

/// Whether the character NUL occurs anywhere in `chars`.
pub open spec fn has_nul_char(chars: Seq<char>) -> bool {
    exists|i: int| 0 <= i < chars.len() && chars[i] == '\0'
}

/// A zero byte lies in a concatenation exactly when it lies in one of the
/// two parts.
pub proof fn lemma_has_nul_concat(a: Seq<u8>, b: Seq<u8>)
    ensures
        has_nul(a + b) <==> has_nul(a) || has_nul(b),
{
    let ab = a + b;
    if has_nul(a) {
        let i = choose|i: int| 0 <= i < a.len() && a[i] == 0u8;
        assert(ab[i] == 0u8);
    }
    if has_nul(b) {
        let i = choose|i: int| 0 <= i < b.len() && b[i] == 0u8;
        assert(ab[a.len() + i] == 0u8);
    }
    if has_nul(ab) {
        let i = choose|i: int| 0 <= i < ab.len() && ab[i] == 0u8;
        if i < a.len() {
            assert(a[i] == 0u8);
        } else {
            assert(b[i - a.len()] == 0u8);
        }
    }
}

proof fn lemma_encoded_bytes(s: u32)
    by (bit_vector)
    ensures
        s <= 0x7F ==> (((s & 0x7F) as u8 == 0u8) <==> s == 0),
        (0xC0 | ((s >> 6) & 0x1F) as u8) != 0u8,
        (0xE0 | ((s >> 12) & 0x0F) as u8) != 0u8,
        (0xF0 | ((s >> 18) & 0x7) as u8) != 0u8,
        (0x80 | (s & 0x3F) as u8) != 0u8,
        (0x80 | ((s >> 6) & 0x3F) as u8) != 0u8,
        (0x80 | ((s >> 12) & 0x3F) as u8) != 0u8,
{
}

/// The encoding of one character holds a zero byte exactly when the
/// character is NUL.
pub proof fn lemma_encoded_char_nul(c: char)
    ensures
        has_nul(encode_scalar(c as u32)) <==> c == '\0',
{
    let s = c as u32;
    let bytes = encode_scalar(s);
    lemma_encoded_bytes(s);
    if c == '\0' {
        assert(bytes[0] == 0u8);
    } else {
        assert(s != 0) by {
            vstd::utf8::char_u32_cast(c, s);
            vstd::utf8::char_u32_cast('\0', 0u32);
        }
        assert forall|i: int| 0 <= i < bytes.len() implies bytes[i] != 0u8 by {}
    }
}

/// A string's UTF-8 encoding holds a zero byte exactly when the string
/// holds the character NUL: no other character is encoded with one.
pub proof fn lemma_nul_byte_iff_nul_char(chars: Seq<char>)
    ensures
        has_nul(encode_utf8(chars)) <==> has_nul_char(chars),
    decreases chars.len(),
{
    if chars.len() > 0 {
        let rest = chars.drop_first();
        lemma_encoded_char_nul(chars[0]);
        lemma_nul_byte_iff_nul_char(rest);
        lemma_has_nul_concat(encode_scalar(chars[0] as u32), encode_utf8(rest));
        if has_nul_char(chars) {
            let i = choose|i: int| 0 <= i < chars.len() && chars[i] == '\0';
            if i > 0 {
                assert(rest[i - 1] == '\0');
            }
        }
        if has_nul_char(rest) {
            let j = choose|j: int| 0 <= j < rest.len() && rest[j] == '\0';
            assert(chars[j + 1] == '\0');
        }
    }
}

/// The reason a byte string has no NUL-terminated form: it holds a zero byte
/// itself, first at `position`.
#[derive(Debug, Clone, Copy, PartialEq, Eq, Structural)]
pub struct NulError {
    pub position: usize,
}

impl NulError {
    /// The place of the first zero byte in the rejected input.
    pub fn nul_position(&self) -> (at: usize)
        ensures
            at == self.position,
    {
        self.position
    }
}

/// An owned byte string followed by exactly one zero byte, which is its last.
#[derive(Debug)]
pub struct NulTerminated {
    buf: Vec<u8>,
}

impl View for NulTerminated {
    type V = Seq<u8>;

    /// The content, without the terminator.
    closed spec fn view(&self) -> Seq<u8> {
        self.buf@.drop_last()
    }
}

impl NulTerminated {
    #[verifier::type_invariant]
    spec fn well_formed(self) -> bool {
        &&& self.buf@.len() >= 1
        &&& self.buf@.last() == 0u8
        &&& !has_nul(self.buf@.drop_last())
    }

    /// The content followed by the terminator: what a native call reads.
    pub open spec fn with_nul(&self) -> Seq<u8> {
        self@.push(0u8)
    }

    /// Copies `bytes` and appends the terminator. A zero byte inside `bytes`
    /// cannot be represented and is reported with its place; nothing is cut
    /// off at it.
    pub fn new(bytes: &[u8]) -> (res: Result<NulTerminated, NulError>)
        ensures
            match res {
                Ok(c) => !has_nul(bytes@) && c@ == bytes@,
                Err(e) => is_first_nul(bytes@, e.position as int),
            },
    {
        match find_nul(bytes) {
            Some(at) => Err(NulError { position: at }),
            None => {
                let mut buf: Vec<u8> = Vec::new();
                buf.extend_from_slice(bytes);
                buf.push(0);
                assert(buf@.drop_last() =~= bytes@);
                Ok(NulTerminated { buf })
            },
        }
    }

    /// The UTF-8 encoding of `s` with the terminator appended, or the place
    /// of the first zero byte in that encoding.
    pub fn from_str(s: &str) -> (res: Result<NulTerminated, NulError>)
        ensures
            match res {
                Ok(c) => !has_nul(encode_utf8(s@)) && c@ == encode_utf8(s@),
                Err(e) => is_first_nul(encode_utf8(s@), e.position as int),
            },
    {
        NulTerminated::new(s.as_bytes())
    }

    /// The content without the terminator. It holds no zero byte.
    pub fn as_bytes(&self) -> (bytes: &[u8])
        ensures
            bytes@ == self@,
            !has_nul(bytes@),
    {
        proof {
            use_type_invariant(self);
        }
        let all = self.buf.as_slice();
        let content = slice_subrange(all, 0, all.len() - 1);
        assert(content@ =~= self.buf@.drop_last());
        content
    }

    /// The content with the terminator, which is its only zero byte.
    pub fn as_bytes_with_nul(&self) -> (bytes: &[u8])
        ensures
            bytes@ == self.with_nul(),
            is_first_nul(bytes@, self@.len() as int),
    {
        proof {
            use_type_invariant(self);
            assert(self.buf@ =~= self.buf@.drop_last().push(0u8));
        }
        self.buf.as_slice()
    }

    /// The number of content bytes, the terminator not counted.
    pub fn len(&self) -> (n: usize)
        ensures
            n == self@.len(),
    {
        proof {
            use_type_invariant(self);
        }
        self.buf.len() - 1
    }

    /// Whether the content is empty, so that the buffer is the terminator alone.
    pub fn is_empty(&self) -> (b: bool)
        ensures
            b == (self@.len() == 0),
    {
        proof {
            use_type_invariant(self);
        }
        self.buf.len() == 1
    }
}

} // verus!
