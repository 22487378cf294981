//! The WebSocket handshake key: base64 over three-byte groups, applied
//! to four clock-derived bytes.
use vstd::prelude::*;

verus! {

/// The padding byte `'='`.
pub const PAD: u8 = 61;

/// The base64 alphabet: `A..Z`, `a..z`, `0..9`, `+`, `/`.
pub open spec fn b64_char(i: int) -> u8
    recommends
        0 <= i < 64,
{
    if i < 26 {
        (65 + i) as u8
    } else if i < 52 {
        (97 + (i - 26)) as u8
    } else if i < 62 {
        (48 + (i - 52)) as u8
    } else if i == 62 {
        43
    } else {
        47
    }
}

/// A group of up to three bytes packed into the top of a 24-bit word.
pub open spec fn group_word(chunk: Seq<u8>) -> u32
    recommends
        1 <= chunk.len() <= 3,
{
    let b0 = (chunk[0] as u32) << 16;
    let b1 = if chunk.len() >= 2 {
        (chunk[1] as u32) << 8
    } else {
        0
    };
    let b2 = if chunk.len() >= 3 {
        chunk[2] as u32
    } else {
        0
    };
    b0 | b1 | b2
}

/// The four output bytes of one group; missing input bytes pad with
/// `'='`.
pub open spec fn encode_group(chunk: Seq<u8>) -> Seq<u8>
    recommends
        1 <= chunk.len() <= 3,
{
    let w = group_word(chunk);
    if chunk.len() == 3 {
        seq![
            b64_char(((w >> 18) & 63) as int),
            b64_char(((w >> 12) & 63) as int),
            b64_char(((w >> 6) & 63) as int),
            b64_char((w & 63) as int),
        ]
    } else if chunk.len() == 2 {
        seq![
            b64_char(((w >> 18) & 63) as int),
            b64_char(((w >> 12) & 63) as int),
            b64_char(((w >> 6) & 63) as int),
            PAD,
        ]
    } else {
        seq![b64_char(((w >> 18) & 63) as int), b64_char(((w >> 12) & 63) as int), PAD, PAD]
    }
}

/// Base64 of a whole byte sequence, three input bytes at a time.
pub open spec fn spec_base64(s: Seq<u8>) -> Seq<u8>
    decreases s.len(),
{
    if s.len() == 0 {
        Seq::empty()
    } else if s.len() >= 3 {
        encode_group(s.take(3)) + spec_base64(s.skip(3))
    } else {
        encode_group(s)
    }
}

/// Base64 of a byte sequence, as the characters of the output string.
pub open spec fn spec_base64_chars(s: Seq<u8>) -> Seq<char> {
    spec_base64(s).map_values(|b: u8| b as char)
}

/// The four little-endian bytes of a 32-bit word.
pub open spec fn le4(n: u32) -> Seq<u8> {
    seq![(n & 0xFF) as u8, ((n >> 8) & 0xFF) as u8, ((n >> 16) & 0xFF) as u8, ((n >> 24) & 0xFF) as u8]
}

proof fn lemma_sextet_bounds(w: u32)
    ensures
        (w >> 18) & 63 < 64,
        (w >> 12) & 63 < 64,
        (w >> 6) & 63 < 64,
        w & 63 < 64,
{
    assert((w >> 18) & 63 < 64 && (w >> 12) & 63 < 64 && (w >> 6) & 63 < 64 && w & 63 < 64)
        by (bit_vector);
}

proof fn lemma_b64_char_ascii(i: int)
    requires
        0 <= i < 64,
    ensures
        b64_char(i) < 128,
{
}

proof fn lemma_encode_group_ascii(chunk: Seq<u8>)
    requires
        1 <= chunk.len() <= 3,
    ensures
        encode_group(chunk).len() == 4,
        forall|i: int| 0 <= i < 4 ==> encode_group(chunk)[i] < 128,
{
    let w = group_word(chunk);
    lemma_sextet_bounds(w);
    lemma_b64_char_ascii(((w >> 18) & 63) as int);
    lemma_b64_char_ascii(((w >> 12) & 63) as int);
    lemma_b64_char_ascii(((w >> 6) & 63) as int);
    lemma_b64_char_ascii((w & 63) as int);
}

/// Every base64 output byte is ASCII.
pub proof fn lemma_base64_ascii(s: Seq<u8>)
    ensures
        forall|i: int| 0 <= i < spec_base64(s).len() ==> spec_base64(s)[i] < 128,
    decreases s.len(),
{
    if s.len() == 0 {
    } else if s.len() >= 3 {
        lemma_encode_group_ascii(s.take(3));
        lemma_base64_ascii(s.skip(3));
        assert forall|i: int| 0 <= i < spec_base64(s).len() implies spec_base64(s)[i] < 128 by {
            if i >= 4 {
                assert(spec_base64(s)[i] == spec_base64(s.skip(3))[i - 4]);
            }
        }
    } else {
        lemma_encode_group_ascii(s);
    }
}

/// Base64 output length: four bytes for every started group of three.
pub proof fn lemma_base64_len(s: Seq<u8>)
    ensures
        spec_base64(s).len() == 4 * ((s.len() + 2) / 3),
    decreases s.len(),
{
    if s.len() == 0 {
    } else if s.len() >= 3 {
        lemma_encode_group_ascii(s.take(3));
        lemma_base64_len(s.skip(3));
    } else {
        lemma_encode_group_ascii(s);
    }
}

/// One base64 digit.
fn b64_char_exec(i: u32) -> (r: u8)
    requires
        i < 64,
    ensures
        r == b64_char(i as int),
{
    if i < 26 {
        65 + (i as u8)
    } else if i < 52 {
        97 + (i as u8 - 26)
    } else if i < 62 {
        48 + (i as u8 - 52)
    } else if i == 62 {
        43
    } else {
        47
    }
}

/// One six-bit slice of a group word.
fn sextet(w: u32, shift: u32) -> (r: u32)
    requires
        shift < 32,
    ensures
        r == (w >> shift) & 63,
        r < 64,
{
    let r = (w >> shift) & 63;
    proof {
        assert((w >> shift) & 63 < 64) by (bit_vector);
    }
    r
}

/// Base64 of a byte slice, as bytes.
fn base64_bytes(data: &[u8]) -> (r: Vec<u8>)
    ensures
        r@ == spec_base64(data@),
{
    let n = data.len();
    let mut out: Vec<u8> = Vec::new();
    let mut i: usize = 0;
    proof {
        assert(data@.skip(0) =~= data@);
    }
    while n - i >= 3
        invariant
            n == data@.len(),
            0 <= i <= n,
            spec_base64(data@) == out@ + spec_base64(data@.skip(i as int)),
        decreases n - i,
    {
        let ghost rest = data@.skip(i as int);
        let w: u32 = ((data[i] as u32) << 16) | ((data[i + 1] as u32) << 8) | (data[i + 2] as u32);
        proof {
            assert(rest.take(3) =~= seq![data@[i as int], data@[i as int + 1], data@[i as int + 2]]);
            assert(rest.skip(3) =~= data@.skip(i as int + 3));
            assert(w == group_word(rest.take(3)));
        }
        out.push(b64_char_exec(sextet(w, 18)));
        out.push(b64_char_exec(sextet(w, 12)));
        out.push(b64_char_exec(sextet(w, 6)));
        out.push(b64_char_exec(sextet(w, 0)));
        proof {
            assert(w >> 0 == w) by (bit_vector);
            assert(out@.skip(out@.len() - 4) =~= encode_group(rest.take(3)));
            assert(out@ =~= out@.take(out@.len() - 4) + out@.skip(out@.len() - 4));
            assert(spec_base64(data@) == out@ + spec_base64(data@.skip(i as int + 3)));
        }
        i += 3;
    }
    if i < n {
        let ghost rest = data@.skip(i as int);
        let b1: u32 = if n - i >= 2 {
            (data[i + 1] as u32) << 8
        } else {
            0
        };
        let b2: u32 = 0;
        let w: u32 = ((data[i] as u32) << 16) | b1 | b2;
        proof {
            assert(w == group_word(rest));
        }
        out.push(b64_char_exec(sextet(w, 18)));
        out.push(b64_char_exec(sextet(w, 12)));
        if n - i >= 2 {
            out.push(b64_char_exec(sextet(w, 6)));
        } else {
            out.push(PAD);
        }
        out.push(PAD);
        proof {
            assert(out@.skip(out@.len() - 4) =~= encode_group(rest));
            assert(out@ =~= out@.take(out@.len() - 4) + out@.skip(out@.len() - 4));
        }
    } else {
        proof {
            assert(data@.skip(i as int) =~= Seq::<u8>::empty());
            assert(out@ =~= out@ + spec_base64(data@.skip(i as int)));
        }
    }
    out
}

/// Relies on `String::from_utf8`: a sequence of ASCII bytes decodes to
/// exactly one character per byte, so the conversion cannot fail.
#[verifier::external_body]
fn ascii_to_string(v: Vec<u8>) -> (r: String)
    requires
        forall|i: int| 0 <= i < v@.len() ==> v@[i] < 128,
    ensures
        r@ == v@.map_values(|b: u8| b as char),
{
    match String::from_utf8(v) {
        Ok(s) => s,
        Err(_) => String::new(),
    }
}

/// Relies on `std::time::SystemTime::now` and
/// `Duration::subsec_nanos`: the subsecond-nanosecond component of the
/// current time, which depends on the clock but is always below one
/// billion.
#[verifier::external_body]
fn now_subsec_nanos() -> (r: u32)
    ensures
        r < 1000000000,
{
    match std::time::SystemTime::now().duration_since(std::time::UNIX_EPOCH) {
        Ok(d) => d.subsec_nanos(),
        Err(_) => 0,
    }
}

/// Base64 encoding of a byte slice.
pub fn base64_encode(data: &[u8]) -> (r: String)
    ensures
        r@ == spec_base64_chars(data@),
{
    let bytes = base64_bytes(data);
    proof {
        lemma_base64_ascii(data@);
    }
    ascii_to_string(bytes)
}

/// A fresh handshake key: base64 over four clock-derived bytes, eight
/// characters ending in two padding characters.
pub fn generate_ws_key() -> (r: String)
    ensures
        exists|n: u32| r@ == spec_base64_chars(le4(n)),
        r@.len() == 8,
{
    let nanos = now_subsec_nanos();
    let mut b: Vec<u8> = Vec::new();
    b.push((nanos & 0xFF) as u8);
    b.push(((nanos >> 8) & 0xFF) as u8);
    b.push(((nanos >> 16) & 0xFF) as u8);
    b.push(((nanos >> 24) & 0xFF) as u8);
    proof {
        assert(b@ =~= le4(nanos));
    }
    let r = base64_encode(b.as_slice());
    proof {
        lemma_base64_len(le4(nanos));
        assert(r@ == spec_base64_chars(le4(nanos)));
    }
    r
}

} // verus!
