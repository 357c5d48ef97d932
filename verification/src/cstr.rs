//! Byte buffers for C strings, and text read back from C strings.

use vstd::prelude::*;
use vstd::string::*;
use vstd::utf8::*;

use crate::strings::{decimal, decode_utf8_lossy, push_decimal, utf8_lossy};

verus! {

/// `k` is the index of the first NUL character of `s`.
pub open spec fn is_first_nul(s: Seq<char>, k: int) -> bool {
    &&& 0 <= k < s.len()
    &&& s[k] == '\0'
    &&& forall|j: int| 0 <= j < k ==> s[j] != '\0'
}

/// The index of the first NUL character of `s` (meaningful when `s` holds one).
pub open spec fn first_nul_index(s: Seq<char>) -> int {
    choose|k: int| is_first_nul(s, k)
}

/// What `CString::new` answers, in words, for a string whose first NUL
/// byte stands at `pos`.
pub open spec fn nul_error_text(pos: nat) -> Seq<char> {
    "nul byte found in provided data at position: "@ + decimal(pos)
}

/// The C string buffer handed to the engine for `s`: its UTF-8 bytes, or,
/// when `s` holds a NUL character, the error text that starts with `prefix`
/// and gives the byte position of the first NUL.
pub open spec fn c_input(s: Seq<char>, prefix: Seq<char>) -> Result<Seq<u8>, Seq<char>> {
    if s.contains('\0') {
        Err(prefix + nul_error_text(encode_utf8(s.take(first_nul_index(s))).len()))
    } else {
        Ok(encode_utf8(s))
    }
}

/// A text without NUL characters is handed over as its UTF-8 bytes; a text
/// whose UTF-8 bytes first hold a zero at `p` is refused with the error that
/// names position `p`.
pub proof fn lemma_c_input_cases(s: Seq<char>, prefix: Seq<char>, p: int)
    ensures
        !s.contains('\0') ==> c_input(s, prefix) == Ok::<Seq<u8>, Seq<char>>(encode_utf8(s)),
        (0 <= p < encode_utf8(s).len() && encode_utf8(s)[p] == 0u8 && forall|j: int|
            0 <= j < p ==> encode_utf8(s)[j] != 0u8) ==> c_input(s, prefix) == Err::<
            Seq<u8>,
            Seq<char>,
        >(prefix + nul_error_text(p as nat)),
{
    let e = encode_utf8(s);
    if 0 <= p < e.len() && e[p] == 0u8 && forall|j: int| 0 <= j < p ==> e[j] != 0u8 {
        lemma_encode_nul_free(s);
        assert(e.contains(0u8));
        let k0 = choose|k: int| 0 <= k < s.len() && s[k] == '\0';
        lemma_first_nul_exists(s, k0);
        let k = first_nul_index(s);
        lemma_first_nul_byte(s, k);
        let q = encode_utf8(s.take(k)).len() as int;
        if q < p {
            assert(e[q] == 0u8);
        }
        if p < q {
            assert(e[p] == 0u8);
        }
    }
}

/// A string that holds a NUL character has a first one.
pub proof fn lemma_first_nul_exists(s: Seq<char>, k: int)
    requires
        0 <= k < s.len(),
        s[k] == '\0',
    ensures
        is_first_nul(s, first_nul_index(s)),
    decreases k,
{
    if exists|j: int| 0 <= j < k && s[j] == '\0' {
        let j = choose|j: int| 0 <= j < k && s[j] == '\0';
        lemma_first_nul_exists(s, j);
    } else {
        assert(is_first_nul(s, k));
    }
}

proof fn lemma_width_1_nonzero(v: u32)
    by (bit_vector)
    requires
        1 <= v <= 0x7F,
    ensures
        leading_byte_width_1(v) != 0u8,
{
}

proof fn lemma_multibyte_nonzero(v: u32)
    by (bit_vector)
    ensures
        leading_byte_width_2(v) != 0u8,
        leading_byte_width_3(v) != 0u8,
        leading_byte_width_4(v) != 0u8,
        last_continuation_byte(v) != 0u8,
        second_last_continuation_byte(v) != 0u8,
        third_last_continuation_byte(v) != 0u8,
{
}

proof fn lemma_zero_scalar(v: u32)
    by (bit_vector)
    requires
        v == 0,
    ensures
        leading_byte_width_1(v) == 0u8,
{
}

/// The UTF-8 encoding of one character holds a zero byte exactly when the
/// character is NUL, whose encoding is the single byte zero.
proof fn lemma_encode_char_nul(c: char)
    ensures
        encode_scalar(c as u32).contains(0u8) <==> c == '\0',
        c == '\0' ==> encode_scalar(c as u32) == seq![0u8],
{
    let v = c as u32;
    lemma_multibyte_nonzero(v);
    let e = encode_scalar(v);
    if c == '\0' {
        lemma_zero_scalar(v);
        assert(e[0] == 0u8);
    } else {
        assert(v != 0);
        if has_width_1_encoding(v) {
            lemma_width_1_nonzero(v);
        }
        assert forall|i: int| 0 <= i < e.len() implies e[i] != 0u8 by {}
    }
}

/// Encoding distributes over concatenation.
proof fn lemma_encode_concat(a: Seq<char>, b: Seq<char>)
    ensures
        encode_utf8(a + b) == encode_utf8(a) + encode_utf8(b),
    decreases a.len(),
{
    if a.len() == 0 {
        assert(a + b == b);
    } else {
        assert((a + b).drop_first() == a.drop_first() + b);
        lemma_encode_concat(a.drop_first(), b);
        assert(encode_utf8(a + b) == encode_scalar(a[0] as u32) + encode_utf8(a.drop_first() + b));
    }
}

/// The encoding of a string holds a zero byte exactly when the string holds
/// a NUL character.
pub proof fn lemma_encode_nul_free(s: Seq<char>)
    ensures
        encode_utf8(s).contains(0u8) <==> s.contains('\0'),
    decreases s.len(),
{
    if s.len() > 0 {
        let rest = s.drop_first();
        lemma_encode_nul_free(rest);
        lemma_encode_char_nul(s[0]);
        let e0 = encode_scalar(s[0] as u32);
        let er = encode_utf8(rest);
        assert(encode_utf8(s) == e0 + er);
        if s.contains('\0') {
            let k = choose|k: int| 0 <= k < s.len() && s[k] == '\0';
            if k == 0 {
                assert((e0 + er)[0] == 0u8);
            } else {
                assert(rest[k - 1] == '\0');
                let i = choose|i: int| 0 <= i < er.len() && er[i] == 0u8;
                assert((e0 + er)[e0.len() + i] == 0u8);
            }
        }
        if encode_utf8(s).contains(0u8) {
            let i = choose|i: int| 0 <= i < (e0 + er).len() && (e0 + er)[i] == 0u8;
            if i < e0.len() {
                assert(e0[i] == 0u8);
                assert(s[0] == '\0');
            } else {
                assert(er[i - e0.len()] == 0u8);
                let k = choose|k: int| 0 <= k < rest.len() && rest[k] == '\0';
                assert(s[k + 1] == '\0');
            }
        }
    }
}

/// Where the first NUL character of `s` stands at `k`, the first zero byte
/// of its encoding stands right after the encoding of the `k` characters
/// before it.
pub proof fn lemma_first_nul_byte(s: Seq<char>, k: int)
    requires
        is_first_nul(s, k),
    ensures
        ({
            let e = encode_utf8(s);
            let p = encode_utf8(s.take(k)).len() as int;
            &&& p < e.len()
            &&& e[p] == 0u8
            &&& forall|j: int| 0 <= j < p ==> e[j] != 0u8
        }),
{
    let pre = s.take(k);
    let post = s.skip(k);
    assert(s == pre + post);
    lemma_encode_concat(pre, post);
    lemma_encode_nul_free(pre);
    assert(!pre.contains('\0'));
    lemma_encode_char_nul(post[0]);
    assert(encode_utf8(post) == encode_scalar(post[0] as u32) + encode_utf8(post.drop_first()));
    let ep = encode_utf8(pre);
    assert forall|j: int| 0 <= j < ep.len() implies ep[j] != 0u8 by {
        if ep[j] == 0u8 {
            assert(ep.contains(0u8));
        }
    }
}

/// The bytes of `s` as a C string body: its UTF-8 encoding, refused with
/// the byte position of the first NUL when it holds one.
pub fn c_string_bytes(s: &str) -> (res: Result<Vec<u8>, usize>)
    ensures
        match res {
            Ok(v) => v@ == encode_utf8(s@) && !encode_utf8(s@).contains(0u8),
            Err(p) => 0 <= p < encode_utf8(s@).len() && encode_utf8(s@)[p as int] == 0u8
                && forall|j: int| 0 <= j < p ==> encode_utf8(s@)[j] != 0u8,
        },
{
    let bytes = s.as_bytes();
    let n = bytes.len();
    let mut out: Vec<u8> = Vec::new();
    let mut i: usize = 0;
    while i < n
        invariant
            n == bytes@.len(),
            bytes@ == encode_utf8(s@),
            i <= n,
            out@ == bytes@.take(i as int),
            forall|j: int| 0 <= j < i ==> bytes@[j] != 0u8,
        decreases n - i,
    {
        let b = bytes[i];
        if b == 0 {
            return Err(i);
        }
        out.push(b);
        i = i + 1;
        assert(out@ == bytes@.take(i as int));
    }
    assert(bytes@.take(n as int) == bytes@);
    Ok(out)
}

/// The buffer made for a text is valid UTF-8 and decodes to that text, so
/// a C string the engine hands back unchanged reads as the text it was made
/// from (see `read_field`).
pub proof fn lemma_input_decodes_back(s: Seq<char>)
    ensures
        valid_utf8(encode_utf8(s)),
        decode_utf8(encode_utf8(s)) == s,
        encode_utf8(s).len() == 0 <==> s.len() == 0,
{
    encode_utf8_valid_utf8(s);
    encode_utf8_decode_utf8(s);
    if encode_utf8(s).len() == 0 {
        assert(decode_utf8(encode_utf8(s)) =~= Seq::<char>::empty());
    }
    if s.len() > 0 {
        assert(encode_utf8(s) == encode_scalar(s[0] as u32) + encode_utf8(s.drop_first()));
    }
}

/// The buffer to hand to the engine for `s`, or the error for an input that
/// holds a NUL character; `prefix` starts the error text.
pub fn c_string_input(s: &str, prefix: &str) -> (res: Result<Vec<u8>, String>)
    ensures
        match res {
            Ok(v) => c_input(s@, prefix@) == Ok::<Seq<u8>, Seq<char>>(v@),
            Err(e) => c_input(s@, prefix@) == Err::<Seq<u8>, Seq<char>>(e@),
        },
{
    match c_string_bytes(s) {
        Ok(v) => {
            proof {
                lemma_encode_nul_free(s@);
            }
            Ok(v)
        },
        Err(p) => {
            let ghost e = encode_utf8(s@);
            proof {
                assert(e.contains(0u8));
                lemma_encode_nul_free(s@);
                let k0 = choose|k: int| 0 <= k < s@.len() && s@[k] == '\0';
                lemma_first_nul_exists(s@, k0);
                let k = first_nul_index(s@);
                lemma_first_nul_byte(s@, k);
                let q = encode_utf8(s@.take(k)).len() as int;
                if q < p {
                    assert(e[q] == 0u8);
                }
                if p < q {
                    assert(e[p as int] == 0u8);
                }
                assert(p == q);
            }
            let mut msg = String::from_str(prefix);
            msg.append("nul byte found in provided data at position: ");
            push_decimal(&mut msg, p);
            assert(msg@ =~= prefix@ + nul_error_text(p as nat));
            Err(msg)
        },
    }
}

/// The bytes of a C string field read back from the engine, `None` for NULL.
pub open spec fn bytes_view(raw: Option<Vec<u8>>) -> Option<Seq<u8>> {
    match raw {
        Some(v) => Some(v@),
        None => None,
    }
}

/// The text of a C string field read back from the engine: a NULL field
/// (`None`) and an empty C string both read as `None`; any other field
/// reads as its lossily decoded text.
pub open spec fn field_text(raw: Option<Seq<u8>>) -> Option<Seq<char>> {
    match raw {
        None => None,
        Some(bytes) => if bytes.len() == 0 {
            None
        } else {
            Some(utf8_lossy(bytes))
        },
    }
}

/// A NULL field and an empty C string read as absent; any other field reads
/// as the lossy decoding of its bytes, and its text is never empty.
pub proof fn lemma_field_text_cases(raw: Option<Seq<u8>>)
    ensures
        raw is None ==> field_text(raw) is None,
        raw matches Some(b) ==> (b.len() == 0 ==> field_text(raw) is None),
        raw matches Some(b) ==> (b.len() > 0 ==> field_text(raw) == Some(utf8_lossy(b))),
{
}

/// Reads a C string field: `None` for NULL, the lossily decoded text
/// otherwise, and `None` again where that text is empty.
pub fn read_field(raw: Option<Vec<u8>>) -> (res: Option<String>)
    ensures
        res.deep_view() == field_text(bytes_view(raw)),
        res matches Some(t) ==> t@.len() > 0,
        raw matches Some(b) ==> (valid_utf8(b@) ==> res.deep_view() == (if b@.len() == 0 {
            None
        } else {
            Some(decode_utf8(b@))
        })),
{
    match raw {
        None => None,
        Some(bytes) => {
            let s = decode_utf8_lossy(bytes.as_slice());
            if s.as_str().is_empty() {
                None
            } else {
                Some(s)
            }
        },
    }
}

} // verus!
