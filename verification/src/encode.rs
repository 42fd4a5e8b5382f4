//! Icon encoding: base64 of the raw bytes behind a fixed MIME prefix,
//! forming a data-URI string.  An empty buffer encodes to the empty
//! string, which callers read as "no icon available".

use vstd::prelude::*;

verus! {

/// The base64 alphabet, as a byte of ASCII: `A`-`Z`, `a`-`z`, `0`-`9`, `+`, `/`.
pub open spec fn b64_byte(v: u8) -> u8
    recommends
        v < 64,
{
    if v < 26 {
        (65 + v) as u8
    } else if v < 52 {
        (71 + v) as u8
    } else if v < 62 {
        (v - 4) as u8
    } else if v == 62 {
        43
    } else {
        47
    }
}

/// The four output bytes for one full three-byte input group.
pub open spec fn b64_group(b0: u8, b1: u8, b2: u8) -> Seq<u8> {
    seq![
        b64_byte(b0 >> 2),
        b64_byte(((b0 & 3) << 4 | (b1 >> 4)) as u8),
        b64_byte(((b1 & 15) << 2 | (b2 >> 6)) as u8),
        b64_byte((b2 & 63) as u8),
    ]
}

/// Standard base64 with `=` padding, over byte sequences.
pub open spec fn base64_of(s: Seq<u8>) -> Seq<u8>
    decreases s.len(),
{
    if s.len() == 0 {
        Seq::<u8>::empty()
    } else if s.len() == 1 {
        seq![b64_byte(s[0] >> 2), b64_byte(((s[0] & 3) << 4) as u8), 61, 61]
    } else if s.len() == 2 {
        seq![
            b64_byte(s[0] >> 2),
            b64_byte(((s[0] & 3) << 4 | (s[1] >> 4)) as u8),
            b64_byte(((s[1] & 15) << 2) as u8),
            61,
        ]
    } else {
        b64_group(s[0], s[1], s[2]) + base64_of(s.skip(3))
    }
}

/// Base64 distributes over concatenation when the first part is made of
/// whole three-byte groups.
proof fn lemma_base64_concat(a: Seq<u8>, b: Seq<u8>)
    requires
        a.len() % 3 == 0,
    ensures
        base64_of(a + b) == base64_of(a) + base64_of(b),
    decreases a.len(),
{
    if a.len() == 0 {
        assert(a + b =~= b);
        assert(base64_of(a) + base64_of(b) =~= base64_of(b));
    } else {
        assert(a.len() >= 3);
        let ab = a + b;
        assert(ab[0] == a[0] && ab[1] == a[1] && ab[2] == a[2]);
        assert(ab.skip(3) =~= a.skip(3) + b);
        assert(a.skip(3).len() % 3 == 0);
        lemma_base64_concat(a.skip(3), b);
        assert(base64_of(a) == b64_group(a[0], a[1], a[2]) + base64_of(a.skip(3)));
        assert(base64_of(ab) == b64_group(a[0], a[1], a[2]) + (base64_of(a.skip(3)) + base64_of(
            b,
        )));
        assert(b64_group(a[0], a[1], a[2]) + (base64_of(a.skip(3)) + base64_of(b)) =~= (b64_group(
            a[0],
            a[1],
            a[2],
        ) + base64_of(a.skip(3))) + base64_of(b));
    }
}

/// Base64 output is always whole four-byte groups: one per started
/// three-byte group of input.
pub proof fn lemma_base64_len(s: Seq<u8>)
    ensures
        base64_of(s).len() == 4 * ((s.len() + 2) / 3),
    decreases s.len(),
{
    if s.len() >= 3 {
        lemma_base64_len(s.skip(3));
    }
}

/// Executable form of the alphabet lookup.
fn b64_byte_ex(v: u8) -> (r: u8)
    requires
        v < 64,
    ensures
        r == b64_byte(v),
        r < 128,
{
    if v < 26 {
        65 + v
    } else if v < 52 {
        71 + v
    } else if v < 62 {
        v - 4
    } else if v == 62 {
        43
    } else {
        47
    }
}

/// Every byte base64 produces is ASCII.
proof fn lemma_base64_ascii(s: Seq<u8>)
    ensures
        forall|i: int| 0 <= i < base64_of(s).len() ==> base64_of(s)[i] < 128,
    decreases s.len(),
{
    if s.len() == 0 {
    } else if s.len() <= 2 {
    } else {
        lemma_base64_ascii(s.skip(3));
        assert forall|i: int| 0 <= i < base64_of(s).len() implies base64_of(s)[i] < 128 by {
            if i >= 4 {
                assert(base64_of(s)[i] == base64_of(s.skip(3))[i - 4]);
            }
        }
    }
}

/// Encodes bytes as base64 ASCII bytes.
pub fn base64_encode(data: &Vec<u8>) -> (r: Vec<u8>)
    ensures
        r@ == base64_of(data@),
        forall|i: int| 0 <= i < r@.len() ==> r@[i] < 128,
{
    let mut out: Vec<u8> = Vec::new();
    let mut i: usize = 0;
    while data.len() - i >= 3
        invariant
            i <= data.len(),
            i % 3 == 0,
            out@ == base64_of(data@.take(i as int)),
        decreases data.len() - i,
    {
        let b0 = data[i];
        let b1 = data[i + 1];
        let b2 = data[i + 2];
        assert(b0 >> 2 < 64 && (b0 & 3) << 4 | (b1 >> 4) < 64 && (b1 & 15) << 2 | (b2 >> 6) < 64
            && b2 & 63 < 64) by (bit_vector);
        out.push(b64_byte_ex(b0 >> 2));
        out.push(b64_byte_ex((b0 & 3) << 4 | (b1 >> 4)));
        out.push(b64_byte_ex((b1 & 15) << 2 | (b2 >> 6)));
        out.push(b64_byte_ex(b2 & 63));
        proof {
            let pre = data@.take(i as int);
            let grown = data@.take(i + 3);
            assert(grown =~= pre + seq![b0, b1, b2]);
            lemma_base64_concat(pre, seq![b0, b1, b2]);
            let s3 = seq![b0, b1, b2];
            assert(s3.skip(3) =~= Seq::<u8>::empty());
            assert(base64_of(Seq::<u8>::empty()) == Seq::<u8>::empty());
            assert(base64_of(s3) == b64_group(s3[0], s3[1], s3[2]) + base64_of(s3.skip(3)));
            assert(s3[0] == b0 && s3[1] == b1 && s3[2] == b2);
            assert(base64_of(s3) =~= b64_group(b0, b1, b2));
            assert(out@ =~= base64_of(pre) + b64_group(b0, b1, b2));
        }
        i = i + 3;
    }
    let n = data.len();
    proof {
        lemma_base64_concat(data@.take(i as int), data@.skip(i as int));
        assert(data@.take(i as int) + data@.skip(i as int) =~= data@);
    }
    if n - i == 1 {
        let b0 = data[i];
        assert(b0 >> 2 < 64 && (b0 & 3) << 4 < 64) by (bit_vector);
        out.push(b64_byte_ex(b0 >> 2));
        out.push(b64_byte_ex((b0 & 3) << 4));
        out.push(61);
        out.push(61);
        proof {
            assert(data@.skip(i as int) =~= seq![b0]);
            assert(out@ =~= base64_of(data@.take(i as int)) + base64_of(seq![b0]));
        }
    } else if n - i == 2 {
        let b0 = data[i];
        let b1 = data[i + 1];
        assert(b0 >> 2 < 64 && (b0 & 3) << 4 | (b1 >> 4) < 64 && (b1 & 15) << 2 < 64)
            by (bit_vector);
        out.push(b64_byte_ex(b0 >> 2));
        out.push(b64_byte_ex((b0 & 3) << 4 | (b1 >> 4)));
        out.push(b64_byte_ex((b1 & 15) << 2));
        out.push(61);
        proof {
            assert(data@.skip(i as int) =~= seq![b0, b1]);
            assert(out@ =~= base64_of(data@.take(i as int)) + base64_of(seq![b0, b1]));
        }
    } else {
        proof {
            assert(data@.skip(i as int) =~= Seq::<u8>::empty());
            assert(out@ =~= base64_of(data@.take(i as int)) + base64_of(data@.skip(i as int)));
        }
    }
    proof {
        lemma_base64_ascii(data@);
    }
    out
}

/// ASCII bytes read as characters, one per byte.
pub open spec fn ascii_chars(s: Seq<u8>) -> Seq<char> {
    s.map_values(|b: u8| b as char)
}

/// Relies on `String::from_utf8`: bytes below 128 are valid UTF-8 and
/// decode to exactly one character per byte, with the same code point.
#[verifier::external_body]
pub(crate) fn string_from_ascii(v: Vec<u8>) -> (r: String)
    requires
        forall|i: int| 0 <= i < v@.len() ==> v@[i] < 128,
    ensures
        r@ == ascii_chars(v@),
{
    match String::from_utf8(v) {
        Ok(s) => s,
        Err(_) => String::new(),
    }
}

/// The fixed MIME prefix of every non-empty encoder result.
pub open spec fn png_prefix() -> Seq<char> {
    "data:image/png;base64,"@
}

/// Prepends the data-URI prefix to an already base64-encoded payload.
pub fn png_data_uri(b64: &str) -> (r: String)
    ensures
        r@ == png_prefix() + b64@,
{
    let mut s = String::from_str("data:image/png;base64,");
    s.append(b64);
    s
}

/// Serializes icon bytes for transport: the empty buffer becomes the empty
/// string, anything else becomes the MIME prefix followed by the base64 of
/// the bytes.
pub fn encode(data: &Vec<u8>) -> (r: String)
    ensures
        data@.len() == 0 ==> r@ == Seq::<char>::empty(),
        data@.len() > 0 ==> r@ == png_prefix() + ascii_chars(base64_of(data@)),
{
    if data.len() == 0 {
        String::new()
    } else {
        let b64 = base64_encode(data);
        let b64s = string_from_ascii(b64);
        png_data_uri(b64s.as_str())
    }
}

/// A non-empty buffer always encodes to a string that starts with the
/// fixed MIME prefix and is strictly longer than it.
pub proof fn lemma_encode_prefix(data: Seq<u8>)
    requires
        data.len() > 0,
    ensures
        (png_prefix() + ascii_chars(base64_of(data))).take(png_prefix().len() as int)
            == png_prefix(),
        (png_prefix() + ascii_chars(base64_of(data))).len() > png_prefix().len(),
{
    let full = png_prefix() + ascii_chars(base64_of(data));
    assert(full.take(png_prefix().len() as int) =~= png_prefix());
    assert(base64_of(data).len() >= 4);
}

} // verus!
