//! Lossy UTF-8 decoding: every well-formed scalar encoding is decoded, and
//! every maximal ill-formed subpart is replaced by U+FFFD, as the Unicode
//! standard recommends.

use vstd::prelude::*;
use vstd::utf8::*;

verus! {

/// U+FFFD REPLACEMENT CHARACTER.
pub open spec fn replacement_char() -> char {
    '\u{FFFD}'
}

/// `p` is a proper prefix of the UTF-8 encoding of some scalar: some bytes
/// can follow it to complete a well-formed encoding that is longer than `p`.
pub open spec fn is_proper_scalar_prefix(p: Seq<u8>) -> bool {
    exists|rest: Seq<u8>|
        #[trigger] valid_first_scalar(p + rest) && p.len() < length_of_first_scalar(p + rest)
}

/// The length of the maximal subpart at the start of `bytes`: the longest
/// prefix (of at least one byte) that is a proper prefix of a well-formed
/// scalar encoding. It is what one U+FFFD replaces when `bytes` does not start
/// with a well-formed encoding.
pub open spec fn maximal_subpart_len(bytes: Seq<u8>) -> int {
    if bytes.len() >= 3 && is_proper_scalar_prefix(bytes.take(3)) {
        3
    } else if bytes.len() >= 2 && is_proper_scalar_prefix(bytes.take(2)) {
        2
    } else {
        1
    }
}

/// How many bytes the first decoding step consumes from a nonempty `bytes`.
pub open spec fn lossy_head_len(bytes: Seq<u8>) -> int {
    if valid_first_scalar(bytes) {
        length_of_first_scalar(bytes)
    } else {
        maximal_subpart_len(bytes)
    }
}

/// The character that the first decoding step produces from a nonempty `bytes`.
pub open spec fn lossy_head_char(bytes: Seq<u8>) -> char {
    if valid_first_scalar(bytes) {
        decode_first_scalar(bytes) as char
    } else {
        replacement_char()
    }
}

/// The text that `bytes` decode to, with U+FFFD in place of each maximal
/// ill-formed subpart.
pub open spec fn lossy_utf8(bytes: Seq<u8>) -> Seq<char>
    decreases bytes.len(),
{
    if bytes.len() == 0 {
        seq![]
    } else {
        seq![lossy_head_char(bytes)] + lossy_utf8(bytes.skip(lossy_head_len(bytes)))
    }
}


/// The length of the encoding that a lead byte announces, or 0 for a byte
/// that cannot start a well-formed encoding (the ranges of Unicode's table of
/// well-formed byte sequences).
spec fn lead_width(b0: u8) -> int {
    if b0 <= 0x7f {
        1
    } else if 0xc2 <= b0 <= 0xdf {
        2
    } else if 0xe0 <= b0 <= 0xef {
        3
    } else if 0xf0 <= b0 <= 0xf4 {
        4
    } else {
        0
    }
}

/// The bytes that may follow the lead byte `b0` of a multi-byte encoding.
spec fn second_byte_fits(b0: u8, b1: u8) -> bool {
    if b0 == 0xe0 {
        0xa0 <= b1 <= 0xbf
    } else if b0 == 0xed {
        0x80 <= b1 <= 0x9f
    } else if b0 == 0xf0 {
        0x90 <= b1 <= 0xbf
    } else if b0 == 0xf4 {
        0x80 <= b1 <= 0x8f
    } else {
        0x80 <= b1 <= 0xbf
    }
}

/// `bytes` start with a well-formed encoding, by the byte-range table.
spec fn well_formed_head(bytes: Seq<u8>) -> bool {
    let w: int = lead_width(bytes[0]);
    &&& bytes.len() >= 1
    &&& w >= 1
    &&& bytes.len() >= w
    &&& w >= 2 ==> second_byte_fits(bytes[0], bytes[1])
    &&& w >= 3 ==> is_continuation_byte(bytes[2])
    &&& w >= 4 ==> is_continuation_byte(bytes[3])
}

proof fn bv_width_1(b0: u8)
    by (bit_vector)
    requires
        b0 <= 0x7f,
    ensures
        codepoint_width_1(b0) == b0 as u32,
{
}

proof fn bv_width_2(b0: u8, b1: u8)
    by (bit_vector)
    requires
        0xc0 <= b0 <= 0xdf,
        0x80 <= b1 <= 0xbf,
    ensures
        codepoint_width_2(b0, b1) >= 0x80 <==> b0 >= 0xc2,
        codepoint_width_2(b0, b1) <= 0x7ff,
{
}

proof fn bv_width_3(b0: u8, b1: u8, b2: u8)
    by (bit_vector)
    requires
        0xe0 <= b0 <= 0xef,
        0x80 <= b1 <= 0xbf,
        0x80 <= b2 <= 0xbf,
    ensures
        codepoint_width_3(b0, b1, b2) >= 0x800 <==> !(b0 == 0xe0 && b1 < 0xa0),
        (0xd800 <= codepoint_width_3(b0, b1, b2) <= 0xdfff) <==> (b0 == 0xed && b1 >= 0xa0),
        codepoint_width_3(b0, b1, b2) <= 0xffff,
{
}

proof fn bv_width_4(b0: u8, b1: u8, b2: u8, b3: u8)
    by (bit_vector)
    requires
        0xf0 <= b0 <= 0xf7,
        0x80 <= b1 <= 0xbf,
        0x80 <= b2 <= 0xbf,
        0x80 <= b3 <= 0xbf,
    ensures
        (0x10000 <= codepoint_width_4(b0, b1, b2, b3) <= 0x10ffff) <==> (b0 <= 0xf4 && (b0
            == 0xf0 ==> b1 >= 0x90) && (b0 == 0xf4 ==> b1 <= 0x8f)),
{
}

/// The byte-range table agrees with vstd's bitwise definition of a
/// well-formed first scalar, and gives its length.
proof fn lemma_valid_first_scalar_table(bytes: Seq<u8>)
    requires
        bytes.len() >= 1,
    ensures
        valid_first_scalar(bytes) <==> well_formed_head(bytes),
        valid_first_scalar(bytes) ==> length_of_first_scalar(bytes) == lead_width(bytes[0]),
        valid_first_scalar(bytes) ==> is_scalar(decode_first_scalar(bytes)),
{
    let b0: u8 = bytes[0];
    if b0 <= 0x7f {
        bv_width_1(b0);
    } else if 0xc0 <= b0 <= 0xdf {
        if bytes.len() >= 2 && is_continuation_byte(bytes[1]) {
            bv_width_2(b0, bytes[1]);
        }
    } else if 0xe0 <= b0 <= 0xef {
        if bytes.len() >= 3 && is_continuation_byte(bytes[1]) && is_continuation_byte(bytes[2]) {
            bv_width_3(b0, bytes[1], bytes[2]);
        }
    } else if 0xf0 <= b0 <= 0xf7 {
        if bytes.len() >= 4 && is_continuation_byte(bytes[1]) && is_continuation_byte(bytes[2])
            && is_continuation_byte(bytes[3]) {
            bv_width_4(b0, bytes[1], bytes[2], bytes[3]);
        }
    }
}

/// `p` is a proper prefix of a well-formed encoding, by the byte-range table.
spec fn proper_prefix_table(p: Seq<u8>) -> bool {
    &&& lead_width(p[0]) > p.len()
    &&& p.len() >= 2 ==> second_byte_fits(p[0], p[1])
    &&& p.len() >= 3 ==> is_continuation_byte(p[2])
}

/// A byte that may follow the lead byte `b0` (when `b0` starts a multi-byte encoding).
spec fn fitting_second_byte(b0: u8) -> u8 {
    if b0 == 0xe0 {
        0xa0
    } else if b0 == 0xf0 {
        0x90
    } else {
        0x80
    }
}

proof fn lemma_proper_prefix_table(p: Seq<u8>)
    requires
        1 <= p.len() <= 3,
    ensures
        is_proper_scalar_prefix(p) <==> proper_prefix_table(p),
{
    if is_proper_scalar_prefix(p) {
        let rest = choose|rest: Seq<u8>|
            #[trigger] valid_first_scalar(p + rest) && p.len() < length_of_first_scalar(p + rest);
        let q = p + rest;
        lemma_valid_first_scalar_table(q);
        assert(q[0] == p[0]);
        if p.len() >= 2 {
            assert(q[1] == p[1]);
        }
        if p.len() >= 3 {
            assert(q[2] == p[2]);
        }
    }
    if proper_prefix_table(p) {
        let w: int = lead_width(p[0]);
        let n: int = p.len() as int;
        let rest = Seq::new(
            (w - n) as nat,
            |j: int|
                if n + j == 1 {
                    fitting_second_byte(p[0])
                } else {
                    0x80u8
                },
        );
        let q = p + rest;
        assert(q.len() == w);
        assert(q[0] == p[0]);
        assert(second_byte_fits(q[0], q[1]));
        if w >= 3 {
            assert(is_continuation_byte(q[2]));
        }
        if w >= 4 {
            assert(is_continuation_byte(q[3]));
        }
        assert(well_formed_head(q));
        lemma_valid_first_scalar_table(q);
        assert(valid_first_scalar(p + rest) && p.len() < length_of_first_scalar(p + rest));
    }
}

/// `char::from_u32`: by its documentation, the `char` whose value is `v`, or
/// `None` when `v` is not a Unicode scalar value (a surrogate, or above
/// U+10FFFF).
#[verifier::external_body]
fn char_from_u32(v: u32) -> (c: Option<char>)
    ensures
        is_scalar(v) ==> c == Some(v as char),
        !is_scalar(v) ==> c is None,
{
    char::from_u32(v)
}

/// `String::push`: appends the character `c` to the end of `s`.
#[verifier::external_body]
fn string_push(s: &mut String, c: char)
    ensures
        final(s)@ == old(s)@.push(c),
{
    s.push(c)
}

fn exec_lead_width(b0: u8) -> (w: usize)
    ensures
        w == lead_width(b0),
{
    if b0 <= 0x7f {
        1
    } else if 0xc2 <= b0 && b0 <= 0xdf {
        2
    } else if 0xe0 <= b0 && b0 <= 0xef {
        3
    } else if 0xf0 <= b0 && b0 <= 0xf4 {
        4
    } else {
        0
    }
}

fn exec_second_byte_fits(b0: u8, b1: u8) -> (r: bool)
    ensures
        r == second_byte_fits(b0, b1),
{
    if b0 == 0xe0 {
        0xa0 <= b1 && b1 <= 0xbf
    } else if b0 == 0xed {
        0x80 <= b1 && b1 <= 0x9f
    } else if b0 == 0xf0 {
        0x90 <= b1 && b1 <= 0xbf
    } else if b0 == 0xf4 {
        0x80 <= b1 && b1 <= 0x8f
    } else {
        0x80 <= b1 && b1 <= 0xbf
    }
}

fn exec_is_continuation(b: u8) -> (r: bool)
    ensures
        r == is_continuation_byte(b),
{
    0x80 <= b && b <= 0xbf
}

/// The character that a well-formed scalar encoding stands for.
fn scalar_char(cp: u32) -> (c: char)
    requires
        is_scalar(cp),
    ensures
        c == cp as char,
{
    match char_from_u32(cp) {
        Some(c) => c,
        None => '\u{FFFD}',
    }
}

/// One decoding step at `bytes[i..]`: the character produced and the number
/// of bytes consumed.
fn decode_head(bytes: &[u8], i: usize) -> (res: (char, usize))
    requires
        i < bytes.len(),
    ensures
        res.0 == lossy_head_char(bytes@.skip(i as int)),
        res.1 == lossy_head_len(bytes@.skip(i as int)),
{
    let ghost rest = bytes@.skip(i as int);
    let n: usize = bytes.len() - i;
    proof {
        lemma_valid_first_scalar_table(rest);
        if n >= 2 {
            lemma_proper_prefix_table(rest.take(2));
        }
        if n >= 3 {
            lemma_proper_prefix_table(rest.take(3));
        }
    }
    let b0: u8 = bytes[i];
    assert(rest[0] == b0);
    let w: usize = exec_lead_width(b0);
    if w == 1 {
        let cp: u32 = (b0 & 0x7f) as u32;
        assert(cp == codepoint_width_1(b0));
        return (scalar_char(cp), 1);
    }
    if w == 0 || n < 2 {
        return ('\u{FFFD}', 1);
    }
    let b1: u8 = bytes[i + 1];
    assert(rest[1] == b1);
    assert(rest.take(2)[1] == b1);
    if !exec_second_byte_fits(b0, b1) {
        return ('\u{FFFD}', 1);
    }
    if w == 2 {
        let cp: u32 = (((b0 & 0x1f) as u32) << 6u32) | ((b1 & 0x3f) as u32);
        assert(cp == codepoint_width_2(b0, b1));
        return (scalar_char(cp), 2);
    }
    if n < 3 {
        return ('\u{FFFD}', 2);
    }
    let b2: u8 = bytes[i + 2];
    assert(rest[2] == b2);
    assert(rest.take(3)[2] == b2);
    if !exec_is_continuation(b2) {
        return ('\u{FFFD}', 2);
    }
    if w == 3 {
        let cp: u32 = (((b0 & 0x0f) as u32) << 12u32) | (((b1 & 0x3f) as u32) << 6u32) | ((b2
            & 0x3f) as u32);
        assert(cp == codepoint_width_3(b0, b1, b2));
        return (scalar_char(cp), 3);
    }
    if n < 4 {
        return ('\u{FFFD}', 3);
    }
    let b3: u8 = bytes[i + 3];
    assert(rest[3] == b3);
    if !exec_is_continuation(b3) {
        return ('\u{FFFD}', 3);
    }
    let cp: u32 = (((b0 & 0x07) as u32) << 18u32) | (((b1 & 0x3f) as u32) << 12u32) | (((b2 & 0x3f)
        as u32) << 6u32) | ((b3 & 0x3f) as u32);
    assert(cp == codepoint_width_4(b0, b1, b2, b3));
    (scalar_char(cp), 4)
}

/// Appends `bytes` to `out` as text, replacing each maximal ill-formed UTF-8
/// subpart with U+FFFD.
pub fn write_bytes(out: &mut String, bytes: &[u8])
    ensures
        final(out)@ == old(out)@ + lossy_utf8(bytes@),
{
    let mut i: usize = 0;
    assert(bytes@.skip(0) =~= bytes@);
    while i < bytes.len()
        invariant
            0 <= i <= bytes.len(),
            out@ + lossy_utf8(bytes@.skip(i as int)) == old(out)@ + lossy_utf8(bytes@),
        decreases bytes.len() - i,
    {
        let ghost rest = bytes@.skip(i as int);
        let (c, k) = decode_head(bytes, i);
        proof {
            lemma_valid_first_scalar_table(rest);
            assert(rest.skip(k as int) =~= bytes@.skip(i + k));
            assert(lossy_utf8(rest) == seq![c] + lossy_utf8(bytes@.skip(i + k)));
        }
        string_push(out, c);
        proof {
            assert(out@ + lossy_utf8(bytes@.skip(i + k)) =~= old(out)@ + lossy_utf8(bytes@));
        }
        i = i + k;
    }
    assert(lossy_utf8(bytes@.skip(i as int)) =~= Seq::<char>::empty());
    assert(out@ =~= old(out)@ + lossy_utf8(bytes@));
}

/// The text of `bytes`, with U+FFFD in place of each maximal ill-formed
/// UTF-8 subpart.
pub fn to_string_lossy(bytes: &[u8]) -> (s: String)
    ensures
        s@ == lossy_utf8(bytes@),
{
    let mut s = String::new();
    write_bytes(&mut s, bytes);
    assert(s@ =~= lossy_utf8(bytes@));
    s
}

/// On well-formed UTF-8, lossy decoding is plain decoding: nothing is replaced.
pub proof fn lemma_lossy_utf8_of_valid(bytes: Seq<u8>)
    requires
        valid_utf8(bytes),
    ensures
        lossy_utf8(bytes) == decode_utf8(bytes),
    decreases bytes.len(),
{
    if bytes.len() > 0 {
        let rest = pop_first_scalar(bytes);
        assert(bytes.skip(length_of_first_scalar(bytes)) =~= rest);
        lemma_lossy_utf8_of_valid(rest);
        assert(lossy_utf8(bytes) =~= decode_utf8(bytes));
    }
}

/// Decoding the UTF-8 encoding of any text gives that text back.
pub proof fn lemma_lossy_utf8_of_encoding(text: Seq<char>)
    ensures
        lossy_utf8(encode_utf8(text)) == text,
{
    encode_utf8_valid_utf8(text);
    encode_utf8_decode_utf8(text);
    lemma_lossy_utf8_of_valid(encode_utf8(text));
}

/// A well-formed prefix decodes on its own: what follows it cannot change
/// how it is decoded.
pub proof fn lemma_lossy_utf8_concat(a: Seq<u8>, b: Seq<u8>)
    requires
        valid_utf8(a),
    ensures
        lossy_utf8(a + b) == lossy_utf8(a) + lossy_utf8(b),
    decreases a.len(),
{
    if a.len() == 0 {
        assert(a + b =~= b);
        assert(lossy_utf8(a) =~= Seq::<char>::empty());
        assert(lossy_utf8(a + b) =~= lossy_utf8(a) + lossy_utf8(b));
    } else {
        let ab = a + b;
        lemma_valid_first_scalar_table(a);
        lemma_valid_first_scalar_table(ab);
        let w: int = lead_width(a[0]);
        assert(ab[0] == a[0]);
        if w >= 2 {
            assert(ab[1] == a[1]);
        }
        if w >= 3 {
            assert(ab[2] == a[2]);
        }
        if w >= 4 {
            assert(ab[3] == a[3]);
        }
        assert(valid_first_scalar(ab));
        let k: int = length_of_first_scalar(a);
        assert(decode_first_scalar(ab) == decode_first_scalar(a));
        let rest = pop_first_scalar(a);
        assert(a.skip(k) =~= rest);
        assert(ab.skip(k) =~= rest + b);
        lemma_lossy_utf8_concat(rest, b);
        assert(lossy_utf8(ab) =~= lossy_utf8(a) + lossy_utf8(b));
    }
}

/// Each decoding step consumes at least one byte, so the text is never
/// longer than the bytes.
pub proof fn lemma_lossy_utf8_len(bytes: Seq<u8>)
    ensures
        lossy_utf8(bytes).len() <= bytes.len(),
    decreases bytes.len(),
{
    if bytes.len() > 0 {
        lemma_lossy_utf8_len(bytes.skip(lossy_head_len(bytes)));
    }
}

/// Bytes that start with a well-formed scalar encoding decode it first, and
/// the rest of the bytes after that encoding decode on their own.
pub proof fn lemma_lossy_utf8_valid_head(bytes: Seq<u8>)
    requires
        valid_first_scalar(bytes),
    ensures
        lossy_utf8(bytes) == seq![decode_first_scalar(bytes) as char] + lossy_utf8(
            pop_first_scalar(bytes),
        ),
{
    assert(bytes.skip(length_of_first_scalar(bytes)) =~= pop_first_scalar(bytes));
}

/// Bytes that do not start with a well-formed scalar encoding give one U+FFFD
/// for their maximal ill-formed subpart, of one to three bytes, and the bytes
/// after that subpart decode on their own.
pub proof fn lemma_lossy_utf8_invalid_head(bytes: Seq<u8>)
    requires
        bytes.len() > 0,
        !valid_first_scalar(bytes),
    ensures
        1 <= maximal_subpart_len(bytes) <= 3,
        maximal_subpart_len(bytes) <= bytes.len(),
        lossy_utf8(bytes) == seq![replacement_char()] + lossy_utf8(
            bytes.skip(maximal_subpart_len(bytes)),
        ),
{
}

/// A byte that can never start a well-formed encoding (a continuation byte,
/// an overlong lead, or a byte above 0xF4) is replaced by one U+FFFD, and
/// whatever follows it decodes as if it stood alone.
pub proof fn lemma_lossy_utf8_stray_byte(b: u8, rest: Seq<u8>)
    requires
        (0x80 <= b <= 0xc1) || b >= 0xf5,
    ensures
        lossy_utf8(seq![b] + rest) == seq![replacement_char()] + lossy_utf8(rest),
{
    let bytes = seq![b] + rest;
    assert(bytes[0] == b);
    lemma_valid_first_scalar_table(bytes);
    if bytes.len() >= 2 {
        lemma_proper_prefix_table(bytes.take(2));
    }
    if bytes.len() >= 3 {
        lemma_proper_prefix_table(bytes.take(3));
    }
    assert(maximal_subpart_len(bytes) == 1);
    assert(bytes.skip(1) =~= rest);
}

} // verus!
