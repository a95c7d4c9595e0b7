//! Conversions between NUL-terminated byte buffers and validated text.
//!
//! A borrowed C string is modelled by the bytes that start where its pointer
//! points: `Some(buf)`, where `buf` holds a terminator, or `None` for the
//! absent pointer. The text of such a buffer is what stands before its first
//! terminator.

use vstd::prelude::*;
use vstd::slice::slice_subrange;
use vstd::slice::slice_to_vec;
use vstd::string::StringSliceAdditionalSpecFns;
use vstd::utf8::decode_utf8;
use vstd::utf8::encode_utf8;
use vstd::utf8::encode_utf8_decode_utf8;
use vstd::utf8::encode_utf8_valid_utf8;
use vstd::utf8::char_u32_cast;
use vstd::utf8::encode_scalar;
use vstd::utf8::has_width_1_encoding;
use vstd::utf8::valid_utf8;
use crate::error::FfiError;
use crate::error::FfiErrorView;

verus! {

/// The byte that ends a C string.
pub const TERMINATOR: u8 = 0;

/// True when the buffer holds a terminator somewhere.
pub open spec fn is_terminated(buf: Seq<u8>) -> bool {
    exists|i: int| 0 <= i < buf.len() && buf[i] == TERMINATOR
}

/// True when `n` is the place of the first terminator of the buffer.
pub open spec fn is_text_end(buf: Seq<u8>, n: int) -> bool {
    &&& 0 <= n < buf.len()
    &&& buf[n] == TERMINATOR
    &&& forall|j: int| 0 <= j < n ==> buf[j] != TERMINATOR
}

/// The number of bytes before the first terminator of a terminated buffer.
pub open spec fn text_len(buf: Seq<u8>) -> int {
    choose|n: int| is_text_end(buf, n)
}

/// The bytes before the first terminator of a terminated buffer.
pub open spec fn c_text(buf: Seq<u8>) -> Seq<u8> {
    buf.subrange(0, text_len(buf))
}

/// The bytes behind an optional buffer.
pub open spec fn bytes_of(ptr: Option<&[u8]>) -> Option<Seq<u8>> {
    match ptr {
        Some(buf) => Some(buf@),
        None => None,
    }
}

/// What viewing a C string gives: the decoded text before the terminator, or
/// the reason why there is none.
pub open spec fn text_of(ptr: Option<Seq<u8>>) -> Result<Seq<char>, FfiErrorView> {
    match ptr {
        None => Err(FfiErrorView::NullPointer),
        Some(buf) => if valid_utf8(c_text(buf)) {
            Ok(decode_utf8(c_text(buf)))
        } else {
            Err(FfiErrorView::InvalidUtf8)
        },
    }
}

/// What viewing an optional C string gives: no text for the absent pointer,
/// else what [`text_of`] gives.
pub open spec fn optional_text_of(ptr: Option<Seq<u8>>) -> Result<Option<Seq<char>>, FfiErrorView> {
    match ptr {
        None => Ok(None),
        Some(_) => match text_of(ptr) {
            Ok(text) => Ok(Some(text)),
            Err(e) => Err(e),
        },
    }
}

/// The text of a C string, or `default` where viewing it fails.
pub open spec fn text_or(ptr: Option<Seq<u8>>, default: Seq<char>) -> Seq<char> {
    match text_of(ptr) {
        Ok(text) => text,
        Err(_) => default,
    }
}

/// What marshaling a text gives: its UTF-8 bytes followed by one terminator,
/// or an error where the bytes hold a terminator themselves.
pub open spec fn c_string_of(text: Seq<char>) -> Result<Seq<u8>, FfiErrorView> {
    if encode_utf8(text).contains(TERMINATOR) {
        Err(FfiErrorView::StringContainsNull)
    } else {
        Ok(encode_utf8(text).push(TERMINATOR))
    }
}

/// A terminated buffer has exactly one first terminator.
pub proof fn lemma_text_end_unique(buf: Seq<u8>, n: int)
    requires
        is_text_end(buf, n),
    ensures
        text_len(buf) == n,
        c_text(buf) == buf.subrange(0, n),
{
    let m = text_len(buf);
    assert(is_text_end(buf, m));
    if m < n {
        assert(buf[m] != TERMINATOR);
    }
    if n < m {
        assert(buf[n] != TERMINATOR);
    }
}

/// The encoding of one scalar holds a zero byte exactly when the scalar is
/// zero: every byte of a longer encoding has its high bit set.
proof fn lemma_scalar_terminator(scalar: u32)
    ensures
        encode_scalar(scalar).contains(TERMINATOR) <==> scalar == 0,
{
    let bytes = encode_scalar(scalar);
    assert((0xC0u8 | ((scalar >> 6) & 0x1F) as u8) != 0) by (bit_vector);
    assert((0xE0u8 | ((scalar >> 12) & 0x0F) as u8) != 0) by (bit_vector);
    assert((0xF0u8 | ((scalar >> 18) & 0x7) as u8) != 0) by (bit_vector);
    assert((0x80u8 | (scalar & 0x3F) as u8) != 0) by (bit_vector);
    assert((0x80u8 | ((scalar >> 6) & 0x3F) as u8) != 0) by (bit_vector);
    assert((0x80u8 | ((scalar >> 12) & 0x3F) as u8) != 0) by (bit_vector);
    if has_width_1_encoding(scalar) {
        assert(((scalar & 0x7F) as u8 == 0) <==> scalar == 0) by (bit_vector)
            requires
                scalar <= 0x7F,
        ;
        if scalar == 0 {
            assert(bytes[0] == TERMINATOR);
        }
    }
    if bytes.contains(TERMINATOR) {
        let i = choose|i: int| 0 <= i < bytes.len() && bytes[i] == TERMINATOR;
        assert(bytes[i] == TERMINATOR);
    }
}

/// A text's UTF-8 bytes hold a terminator exactly when the text holds the
/// NUL character.
pub proof fn lemma_terminator_is_nul_char(text: Seq<char>)
    ensures
        encode_utf8(text).contains(TERMINATOR) <==> text.contains('\0'),
    decreases text.len(),
{
    if text.len() == 0 {
        assert(encode_utf8(text) =~= Seq::<u8>::empty());
    } else {
        let head = encode_scalar(text[0] as u32);
        let rest = text.drop_first();
        let tail = encode_utf8(rest);
        lemma_scalar_terminator(text[0] as u32);
        lemma_terminator_is_nul_char(rest);
        assert(encode_utf8(text) == head + tail);
        assert((text[0] as u32 == 0) <==> text[0] == '\0') by {
            if text[0] as u32 == 0 {
                char_u32_cast(text[0], 0u32);
                char_u32_cast('\0', 0u32);
            }
        }
        if text.contains('\0') {
            let i = choose|i: int| 0 <= i < text.len() && text[i] == '\0';
            if i == 0 {
                let k = choose|k: int| 0 <= k < head.len() && head[k] == TERMINATOR;
                assert((head + tail)[k] == TERMINATOR);
            } else {
                assert(rest[i - 1] == '\0');
                let k = choose|k: int| 0 <= k < tail.len() && tail[k] == TERMINATOR;
                assert((head + tail)[head.len() + k] == TERMINATOR);
            }
        }
        if (head + tail).contains(TERMINATOR) {
            let k = choose|k: int| 0 <= k < (head + tail).len() && (head + tail)[k] == TERMINATOR;
            if k < head.len() {
                assert(head[k] == TERMINATOR);
                assert(text[0] == '\0');
            } else {
                assert(tail[k - head.len()] == TERMINATOR);
                let i = choose|i: int| 0 <= i < rest.len() && rest[i] == '\0';
                assert(text[i + 1] == '\0');
            }
        }
    }
}

/// Round trip: a text whose bytes hold no terminator is marshaled into a
/// terminated buffer, the text of that buffer is the bytes of the original,
/// and viewing the buffer gives the original text back.
pub proof fn lemma_marshal_then_view(text: Seq<char>)
    requires
        !encode_utf8(text).contains(TERMINATOR),
    ensures
        c_string_of(text) == Ok::<Seq<u8>, FfiErrorView>(encode_utf8(text).push(TERMINATOR)),
        is_terminated(encode_utf8(text).push(TERMINATOR)),
        c_text(encode_utf8(text).push(TERMINATOR)) == encode_utf8(text),
        text_of(Some(encode_utf8(text).push(TERMINATOR))) == Ok::<Seq<char>, FfiErrorView>(text),
{
    let bytes = encode_utf8(text);
    let buf = bytes.push(TERMINATOR);
    let n = bytes.len() as int;
    assert(buf[n] == TERMINATOR);
    assert forall|j: int| 0 <= j < n implies buf[j] != TERMINATOR by {
        assert(buf[j] == bytes[j]);
        if bytes[j] == TERMINATOR {
            assert(bytes.contains(TERMINATOR));
        }
    }
    assert(is_text_end(buf, n));
    lemma_text_end_unique(buf, n);
    assert(buf.subrange(0, n) =~= bytes);
    encode_utf8_valid_utf8(text);
    encode_utf8_decode_utf8(text);
}

/// A text whose bytes hold a terminator anywhere is not marshaled: the
/// result is `StringContainsNull`, and no buffer comes back.
pub proof fn lemma_embedded_terminator(text: Seq<char>, i: int)
    requires
        0 <= i < encode_utf8(text).len(),
        encode_utf8(text)[i] == TERMINATOR,
    ensures
        c_string_of(text) == Err::<Seq<u8>, FfiErrorView>(FfiErrorView::StringContainsNull),
{
    assert(encode_utf8(text).contains(TERMINATOR));
}

/// The absent pointer: a plain view fails with `NullPointer`, an optional
/// view gives no text and no error, and a view with a default gives the
/// default.
pub proof fn lemma_absent_pointer(default: Seq<char>)
    ensures
        text_of(None) == Err::<Seq<char>, FfiErrorView>(FfiErrorView::NullPointer),
        optional_text_of(None) == Ok::<Option<Seq<char>>, FfiErrorView>(None),
        text_or(None, default) == default,
{
}

/// A buffer whose text is not valid UTF-8: a plain view and an optional view
/// fail with `InvalidUtf8`, and a view with a default gives the default.
pub proof fn lemma_malformed_text(buf: Seq<u8>, default: Seq<char>)
    requires
        !valid_utf8(c_text(buf)),
    ensures
        text_of(Some(buf)) == Err::<Seq<char>, FfiErrorView>(FfiErrorView::InvalidUtf8),
        optional_text_of(Some(buf)) == Err::<Option<Seq<char>>, FfiErrorView>(
            FfiErrorView::InvalidUtf8,
        ),
        text_or(Some(buf), default) == default,
{
}

/// The error of `core::str::from_utf8`, carried through and never read.
#[verifier::external_type_specification]
#[verifier::external_body]
pub struct ExUtf8Error(core::str::Utf8Error);

/// Taken on trust of `core::str::from_utf8`: it succeeds exactly on the byte
/// slices that are valid UTF-8, and the string slice it then returns has the
/// bytes of its argument. Which error it gives otherwise is left open.
pub assume_specification[ core::str::from_utf8 ](v: &[u8]) -> (r: Result<
    &str,
    core::str::Utf8Error,
>)
    ensures
        r is Ok <==> valid_utf8(v@),
        r matches Ok(s) ==> s.spec_bytes() == v@,
;

/// Finds the first terminator of a terminated buffer.
fn find_terminator(buf: &[u8]) -> (n: usize)
    requires
        is_terminated(buf@),
    ensures
        is_text_end(buf@, n as int),
{
    let ghost k = choose|k: int| 0 <= k < buf@.len() && buf@[k] == TERMINATOR;
    let mut i: usize = 0;
    while buf[i] != TERMINATOR
        invariant
            0 <= i <= k < buf@.len(),
            buf@[k] == TERMINATOR,
            forall|j: int| 0 <= j < i ==> buf@[j] != TERMINATOR,
        decreases k - i,
    {
        i += 1;
    }
    i
}

/// Views a C string as text, without copying it.
///
/// The absent pointer gives `NullPointer`. Otherwise the bytes before the
/// first terminator are validated: they come back as text where they are valid
/// UTF-8, and give `InvalidUtf8` where they are not.
///
/// A buffer that is present must hold a terminator: that is the caller's
/// obligation.
pub fn cstr_to_str<'a>(ptr: Option<&'a [u8]>) -> (r: Result<&'a str, FfiError>)
    requires
        ptr matches Some(buf) ==> is_terminated(buf@),
    ensures
        match r {
            Ok(s) => text_of(bytes_of(ptr)) == Ok::<Seq<char>, FfiErrorView>(s@),
            Err(e) => text_of(bytes_of(ptr)) == Err::<Seq<char>, FfiErrorView>(e@),
        },
{
    match ptr {
        None => Err(FfiError::NullPointer),
        Some(buf) => {
            let n = find_terminator(buf);
            proof {
                lemma_text_end_unique(buf@, n as int);
            }
            let text = slice_subrange(buf, 0, n);
            match core::str::from_utf8(text) {
                Ok(s) => {
                    proof {
                        encode_utf8_decode_utf8(s@);
                    }
                    Ok(s)
                },
                Err(_) => Err(FfiError::InvalidUtf8),
            }
        },
    }
}

/// Views a C string as text and copies it into an owned string.
///
/// It fails as [`cstr_to_str`] does, and asks of the buffer what it asks.
pub fn cstr_to_string(ptr: Option<&[u8]>) -> (r: Result<String, FfiError>)
    requires
        ptr matches Some(buf) ==> is_terminated(buf@),
    ensures
        match r {
            Ok(s) => text_of(bytes_of(ptr)) == Ok::<Seq<char>, FfiErrorView>(s@),
            Err(e) => text_of(bytes_of(ptr)) == Err::<Seq<char>, FfiErrorView>(e@),
        },
{
    match cstr_to_str(ptr) {
        Ok(s) => Ok(s.to_owned()),
        Err(e) => Err(e),
    }
}

/// Marshals a text into a newly allocated C string: its bytes followed by one
/// terminator. A text that holds a NUL byte, which is to say the NUL
/// character, gives `StringContainsNull`, and nothing is allocated for it.
///
/// The buffer that comes back holds its terminator, and viewing it gives the
/// text back.
///
/// The buffer belongs to the caller, who hands it to
/// [`vimo_ffi_free_string`] once done with it.
pub fn str_to_cstring(s: &str) -> (r: Result<Vec<u8>, FfiError>)
    ensures
        match r {
            Ok(buf) => c_string_of(s@) == Ok::<Seq<u8>, FfiErrorView>(buf@),
            Err(e) => c_string_of(s@) == Err::<Seq<u8>, FfiErrorView>(e@),
        },
        r matches Ok(buf) ==> is_terminated(buf@) && text_of(Some(buf@)) == Ok::<
            Seq<char>,
            FfiErrorView,
        >(s@),
        r is Err <==> s@.contains('\0'),
{
    proof {
        lemma_terminator_is_nul_char(s@);
        if !encode_utf8(s@).contains(TERMINATOR) {
            lemma_marshal_then_view(s@);
        }
    }
    let bytes = s.as_bytes();
    let mut i: usize = 0;
    while i < bytes.len()
        invariant
            i <= bytes@.len(),
            bytes@ == encode_utf8(s@),
            forall|j: int| 0 <= j < i ==> bytes@[j] != TERMINATOR,
        decreases bytes.len() - i,
    {
        if bytes[i] == TERMINATOR {
            proof {
                lemma_terminator_is_nul_char(s@);
            }
            return Err(FfiError::StringContainsNull);
        }
        i += 1;
    }
    let mut buf = slice_to_vec(bytes);
    buf.push(TERMINATOR);
    Ok(buf)
}

/// Releases a C string that [`str_to_cstring`] allocated. The absent pointer
/// is accepted and nothing happens for it.
///
/// The buffer is taken by value, so it cannot be read or released again.
pub fn vimo_ffi_free_string(ptr: Option<Vec<u8>>) {
    match ptr {
        Some(buf) => {
            let _ = buf;
        },
        None => {},
    }
}

/// Views an optional C string as text: the absent pointer is no error here
/// and gives `None`. A buffer that is present is viewed as by [`cstr_to_str`],
/// and must hold a terminator.
pub fn cstr_to_option_str<'a>(ptr: Option<&'a [u8]>) -> (r: Result<Option<&'a str>, FfiError>)
    requires
        ptr matches Some(buf) ==> is_terminated(buf@),
    ensures
        match r {
            Ok(Some(s)) => optional_text_of(bytes_of(ptr)) == Ok::<Option<Seq<char>>, FfiErrorView>(
                Some(s@),
            ),
            Ok(None) => optional_text_of(bytes_of(ptr)) == Ok::<Option<Seq<char>>, FfiErrorView>(
                None,
            ),
            Err(e) => optional_text_of(bytes_of(ptr)) == Err::<Option<Seq<char>>, FfiErrorView>(e@),
        },
{
    match ptr {
        None => Ok(None),
        Some(_) => match cstr_to_str(ptr) {
            Ok(s) => Ok(Some(s)),
            Err(e) => Err(e),
        },
    }
}

/// Views a C string as text, or gives `default` where the pointer is absent
/// or the bytes are not valid UTF-8. It never fails. A buffer that is present
/// must hold a terminator.
pub fn cstr_to_str_or<'a>(ptr: Option<&'a [u8]>, default: &'a str) -> (r: &'a str)
    requires
        ptr matches Some(buf) ==> is_terminated(buf@),
    ensures
        r@ == text_or(bytes_of(ptr), default@),
{
    match cstr_to_str(ptr) {
        Ok(s) => s,
        Err(_) => default,
    }
}

} // verus!
