//! Text transfer across the nul-terminated C boundary.
//!
//! Host text crosses the boundary as its UTF-8 bytes followed by one
//! nul terminator; text holding a nul byte of its own cannot cross and
//! is rejected rather than silently truncated. Buffers coming back are
//! read up to their first nul and decoded with lossy substitution for
//! invalid UTF-8, the permissive policy: terminal input in a foreign
//! locale yields replacement characters instead of a failure.

use vstd::prelude::*;

verus! {

use vstd::string::{StrSliceExecFns, StringSliceAdditionalSpecFns};
use vstd::utf8::{encode_utf8, decode_utf8, valid_utf8};

/// True when no byte of `bytes` is the nul terminator.
pub open spec fn nul_free(bytes: Seq<u8>) -> bool {
    forall|i: int| 0 <= i < bytes.len() ==> bytes[i] != 0
}

/// The wire form of a payload: the payload bytes followed by one nul.
pub open spec fn framed(bytes: Seq<u8>) -> Seq<u8> {
    bytes.push(0)
}

/// The payload of a wire buffer: every byte before the first nul.
pub open spec fn unframed(bytes: Seq<u8>) -> Seq<u8>
    decreases bytes.len(),
{
    if bytes.len() == 0 || bytes[0] == 0 {
        Seq::empty()
    } else {
        seq![bytes[0]] + unframed(bytes.drop_first())
    }
}

/// What `String::from_utf8_lossy` yields: a function of the bytes
/// alone, pinned down here only on valid UTF-8.
pub uninterp spec fn lossy_utf8(bytes: Seq<u8>) -> Seq<char>;

/// Relies on `String::from_utf8_lossy`: invalid UTF-8 sequences are
/// replaced with U+FFFD, and valid UTF-8 is decoded unchanged.
#[verifier::external_body]
pub(crate) fn utf8_lossy(bytes: &Vec<u8>) -> (r: String)
    ensures
        r@ == lossy_utf8(bytes@),
        valid_utf8(bytes@) ==> r@ == decode_utf8(bytes@),
{
    String::from_utf8_lossy(bytes.as_slice()).into_owned()
}

/// Encode `text` for a foreign call: a fresh buffer holding its UTF-8
/// bytes and one nul terminator, or `None` when the text itself holds a
/// nul byte and cannot be represented on the wire.
pub fn frame(text: &str) -> (r: Option<Vec<u8>>)
    ensures
        r is Some <==> nul_free(text.spec_bytes()),
        r matches Some(v) ==> v@ == framed(text.spec_bytes()),
{
    let bytes: Vec<u8> = text.as_bytes_vec();
    let mut out: Vec<u8> = Vec::new();
    let n: usize = bytes.len();
    let mut i: usize = 0;
    while i < n
        invariant
            i <= n,
            n == bytes.len(),
            bytes@ == text.spec_bytes(),
            out@ == bytes@.take(i as int),
            forall|j: int| 0 <= j < i ==> bytes@[j] != 0,
        decreases n - i,
    {
        let b = bytes[i];
        if b == 0 {
            return None;
        }
        out.push(b);
        proof {
            assert(out@ =~= bytes@.take(i + 1));
        }
        i += 1;
    }
    proof {
        assert(out@ =~= text.spec_bytes());
    }
    out.push(0);
    Some(out)
}

/// Recover the payload of a wire buffer: every byte before the first
/// nul (the whole buffer if no nul occurs).
pub fn unframe(buf: &Vec<u8>) -> (r: Vec<u8>)
    ensures
        r@ == unframed(buf@),
{
    let mut out: Vec<u8> = Vec::new();
    let mut i: usize = 0;
    proof {
        assert(buf@.skip(0) =~= buf@);
        assert(out@ + unframed(buf@) =~= unframed(buf@));
    }
    loop
        invariant
            i <= buf.len(),
            unframed(buf@) == out@ + unframed(buf@.skip(i as int)),
        ensures
            out@ == unframed(buf@),
        decreases buf.len() - i,
    {
        if i == buf.len() {
            proof {
                assert(buf@.skip(i as int) =~= Seq::<u8>::empty());
                assert(out@ + Seq::<u8>::empty() =~= out@);
            }
            break;
        }
        let b = buf[i];
        if b == 0 {
            proof {
                assert(buf@.skip(i as int)[0] == 0);
                assert(out@ + unframed(buf@.skip(i as int)) =~= out@);
            }
            break;
        }
        out.push(b);
        proof {
            let s = buf@.skip(i as int);
            assert(s[0] == buf@[i as int]);
            assert(s.drop_first() =~= buf@.skip(i as int + 1));
            assert(unframed(s) == seq![s[0]] + unframed(s.drop_first()));
            assert(out@ + unframed(buf@.skip(i as int + 1)) =~= unframed(buf@));
        }
        i += 1;
    }
    out
}

/// Decode a wire buffer into host text: the bytes before the first
/// nul, read as UTF-8 with lossy substitution.
pub fn decode_line(buf: &Vec<u8>) -> (r: String)
    ensures
        r@ == lossy_utf8(unframed(buf@)),
        valid_utf8(unframed(buf@)) ==> r@ == decode_utf8(unframed(buf@)),
{
    let payload = unframe(buf);
    utf8_lossy(&payload)
}

/// Ownership conversion for a nullable boundary buffer: the null
/// sentinel (`None`) means end of input and stays `None`; any real
/// buffer is decoded into an owned host string.
pub fn c_str_to_string(buf: Option<Vec<u8>>) -> (r: Option<String>)
    ensures
        r is Some <==> buf is Some,
        buf matches Some(b) ==> (r matches Some(s) && s@ == lossy_utf8(unframed(b@))),
        buf matches Some(b) ==> (valid_utf8(unframed(b@)) ==> (r matches Some(s) && s@
            == decode_utf8(unframed(b@)))),
{
    match buf {
        None => None,
        Some(b) => Some(decode_line(&b)),
    }
}

/// Unframing undoes framing: a nul-free payload is recovered exactly.
pub proof fn lemma_unframe_frame(bytes: Seq<u8>)
    requires
        nul_free(bytes),
    ensures
        unframed(framed(bytes)) == bytes,
    decreases bytes.len(),
{
    if bytes.len() == 0 {
        assert(framed(bytes)[0] == 0);
        assert(unframed(framed(bytes)) =~= bytes);
    } else {
        assert(framed(bytes)[0] == bytes[0]);
        assert(framed(bytes).drop_first() =~= framed(bytes.drop_first()));
        lemma_unframe_frame(bytes.drop_first());
        assert(unframed(framed(bytes)) =~= bytes);
    }
}

/// Round trip across the boundary: nul-free text framed for a foreign
/// call and handed back is recovered byte-identically, decodes to the
/// original text, and re-encodes to the identical byte sequence.
pub proof fn lemma_round_trip(text: Seq<char>)
    requires
        nul_free(encode_utf8(text)),
    ensures
        unframed(framed(encode_utf8(text))) == encode_utf8(text),
        valid_utf8(unframed(framed(encode_utf8(text)))),
        decode_utf8(unframed(framed(encode_utf8(text)))) == text,
        encode_utf8(decode_utf8(unframed(framed(encode_utf8(text))))) == encode_utf8(text),
{
    lemma_unframe_frame(encode_utf8(text));
    broadcast use vstd::utf8::encode_utf8_valid_utf8;
    broadcast use vstd::utf8::encode_utf8_decode_utf8;
}

} // verus!
