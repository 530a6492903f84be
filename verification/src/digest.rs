use vstd::prelude::*;

verus! {

/// `width` big-endian bytes of `value` (the low bytes when it does not fit).
pub open spec fn be_bytes(value: nat, width: nat) -> Seq<u8>
    decreases width,
{
    if width == 0 {
        Seq::empty()
    } else {
        be_bytes(value / 256, (width - 1) as nat).push((value % 256) as u8)
    }
}

/// `u64::to_be_bytes`.
pub open spec fn frame_u64(value: u64) -> Seq<u8> {
    be_bytes(value as nat, 8)
}

/// `u16::to_be_bytes`.
pub open spec fn frame_u16(value: u16) -> Seq<u8> {
    be_bytes(value as nat, 2)
}

/// `u32::to_be_bytes`.
pub open spec fn frame_u32(value: u32) -> Seq<u8> {
    be_bytes(value as nat, 4)
}

/// `i32::to_be_bytes`: the two's-complement bits of `value`.
pub open spec fn frame_i32(value: i32) -> Seq<u8> {
    be_bytes((if value < 0 { value + 0x1_0000_0000int } else { value as int }) as nat, 4)
}

/// `i16::to_be_bytes`: the two's-complement bits of `value`.
pub open spec fn frame_i16(value: i16) -> Seq<u8> {
    be_bytes((if value < 0 { value + 0x1_0000int } else { value as int }) as nat, 2)
}

/// `i64::to_be_bytes`: the two's-complement bits of `value`.
pub open spec fn frame_i64(value: i64) -> Seq<u8> {
    be_bytes(
        (if value < 0 { value + 0x1_0000_0000_0000_0000int } else { value as int }) as nat,
        8,
    )
}

/// One byte that is 1 for `true` and 0 for `false`.
pub open spec fn frame_bool(value: bool) -> Seq<u8> {
    seq![if value { 1u8 } else { 0u8 }]
}

/// A length written as a big-endian `u64`.
pub open spec fn frame_len(len: nat) -> Seq<u8> {
    be_bytes(len, 8)
}

/// Length-prefixed raw bytes.
pub open spec fn frame_bytes(bytes: Seq<u8>) -> Seq<u8> {
    frame_len(bytes.len()) + bytes
}

/// Length-prefixed UTF-8 encoding of a text.
pub open spec fn frame_str(text: Seq<char>) -> Seq<u8> {
    frame_bytes(vstd::utf8::encode_utf8(text))
}

/// A present text is tagged 1 and framed; an absent one is the single byte 0.
pub open spec fn frame_optional_str(text: Option<Seq<char>>) -> Seq<u8> {
    match text {
        Some(t) => seq![1u8] + frame_str(t),
        None => seq![0u8],
    }
}

/// A Unicode scalar written as its big-endian `u32` code point.
pub open spec fn frame_char(c: char) -> Seq<u8> {
    frame_u32(c as u32)
}

fn push_be(out: &mut Vec<u8>, value: u64, width: u8)
    ensures
        final(out)@ == old(out)@ + be_bytes(value as nat, width as nat),
    decreases width,
{
    if width > 0 {
        push_be(out, value / 256, width - 1);
        out.push((value % 256) as u8);
        proof {
            assert((value / 256) as nat == (value as nat) / 256);
        }
    }
}

/// Appends `value.to_be_bytes()`.
pub fn put_u64(out: &mut Vec<u8>, value: u64)
    ensures
        final(out)@ == old(out)@ + frame_u64(value),
{
    push_be(out, value, 8);
}

/// Appends `value.to_be_bytes()`.
pub fn put_u16(out: &mut Vec<u8>, value: u16)
    ensures
        final(out)@ == old(out)@ + frame_u16(value),
{
    push_be(out, value as u64, 2);
}

/// Appends `value.to_be_bytes()`.
pub fn put_u32(out: &mut Vec<u8>, value: u32)
    ensures
        final(out)@ == old(out)@ + frame_u32(value),
{
    push_be(out, value as u64, 4);
}

/// Appends `value.to_be_bytes()`.
pub fn put_i32(out: &mut Vec<u8>, value: i32)
    ensures
        final(out)@ == old(out)@ + frame_i32(value),
{
    let bits: u64 = if value < 0 {
        (value as i64 + 0x1_0000_0000i64) as u64
    } else {
        value as u64
    };
    push_be(out, bits, 4);
}

/// Appends `value.to_be_bytes()`.
pub fn put_i16(out: &mut Vec<u8>, value: i16)
    ensures
        final(out)@ == old(out)@ + frame_i16(value),
{
    let bits: u64 = if value < 0 {
        (value as i64 + 0x1_0000i64) as u64
    } else {
        value as u64
    };
    push_be(out, bits, 2);
}

/// Appends `value.to_be_bytes()`.
pub fn put_i64(out: &mut Vec<u8>, value: i64)
    ensures
        final(out)@ == old(out)@ + frame_i64(value),
{
    let bits: u64 = if value < 0 {
        ((value + 0x7fff_ffff_ffff_ffffi64) + 1) as u64 + 0x8000_0000_0000_0000u64
    } else {
        value as u64
    };
    push_be(out, bits, 8);
}

/// Appends one byte: 1 for `true`, 0 for `false`.
pub fn put_bool(out: &mut Vec<u8>, value: bool)
    ensures
        final(out)@ == old(out)@ + frame_bool(value),
{
    out.push(if value { 1u8 } else { 0u8 });
}

/// Appends one raw tag byte.
pub fn put_tag(out: &mut Vec<u8>, tag: u8)
    ensures
        final(out)@ == old(out)@.push(tag),
{
    out.push(tag);
}

/// Appends a length as a big-endian `u64`.
pub fn put_len(out: &mut Vec<u8>, len: usize)
    ensures
        final(out)@ == old(out)@ + frame_len(len as nat),
{
    push_be(out, len as u64, 8);
}

/// Appends raw bytes without framing.
pub fn put_raw(out: &mut Vec<u8>, bytes: &[u8])
    ensures
        final(out)@ == old(out)@ + bytes@,
{
    let ghost start = out@;
    let mut i: usize = 0;
    while i < bytes.len()
        invariant
            i <= bytes@.len(),
            out@ == start + bytes@.subrange(0, i as int),
        decreases bytes@.len() - i,
    {
        out.push(bytes[i]);
        i = i + 1;
        proof {
            assert(bytes@.subrange(0, i as int) == bytes@.subrange(0, (i - 1) as int).push(bytes@[i - 1]));
        }
    }
    proof {
        assert(bytes@.subrange(0, bytes@.len() as int) == bytes@);
    }
}

/// Appends length-prefixed raw bytes.
pub fn put_bytes(out: &mut Vec<u8>, bytes: &[u8])
    ensures
        final(out)@ == old(out)@ + frame_bytes(bytes@),
{
    put_len(out, bytes.len());
    put_raw(out, bytes);
    proof {
        assert(old(out)@ + frame_len(bytes@.len()) + bytes@ == old(out)@ + frame_bytes(bytes@));
    }
}

/// Appends a length-prefixed UTF-8 text.
pub fn put_str(out: &mut Vec<u8>, text: &str)
    ensures
        final(out)@ == old(out)@ + frame_str(text@),
{
    put_bytes(out, text.as_bytes());
}

/// Appends a tagged optional text.
pub fn put_optional_str(out: &mut Vec<u8>, text: Option<&str>)
    ensures
        final(out)@ == old(out)@ + frame_optional_str(
            match text {
                Some(t) => Some(t@),
                None => None,
            },
        ),
{
    match text {
        Some(t) => {
            out.push(1u8);
            put_str(out, t);
            proof {
                assert(old(out)@.push(1u8) + frame_str(t@) == old(out)@ + (seq![1u8] + frame_str(t@)));
            }
        },
        None => {
            out.push(0u8);
            proof {
                assert(old(out)@.push(0u8) == old(out)@ + seq![0u8]);
            }
        },
    }
}

/// Appends a Unicode scalar as its big-endian `u32` code point.
pub fn put_char(out: &mut Vec<u8>, c: char)
    ensures
        final(out)@ == old(out)@ + frame_char(c),
{
    put_u32(out, c as u32);
}

} // verus!

verus! {

/// The SHA-256 digest of `data`, as computed by the `sha2` crate.
pub uninterp spec fn sha256_of(data: Seq<u8>) -> Seq<u8>;

/// Calls `sha2::Sha256::digest` (the `digest::Digest` trait method, which feeds `data` to a fresh
/// hasher and finalizes it). The contract names the 32-byte result after `data` alone; the
/// algorithm itself is not restated.
#[verifier::external_body]
fn sha256(data: &[u8]) -> (out: Vec<u8>)
    ensures
        out@ == sha256_of(data@),
        out@.len() == 32,
{
    <sha2::Sha256 as sha2::Digest>::digest(data).to_vec()
}

/// Calls `String::push`, which appends one character.
#[verifier::external_body]
pub fn push_char(s: &mut String, c: char)
    ensures
        final(s)@ == old(s)@.push(c),
{
    s.push(c)
}

/// The lower-case hexadecimal digit for a nibble.
pub open spec fn hex_digit(nibble: int) -> char {
    if nibble < 10 {
        (nibble + 48) as char
    } else {
        (nibble + 87) as char
    }
}

/// Lower-case hexadecimal rendering, two digits per byte (`{:x}` of a digest).
pub open spec fn hex_lower(bytes: Seq<u8>) -> Seq<char>
    decreases bytes.len(),
{
    if bytes.len() == 0 {
        Seq::empty()
    } else {
        hex_lower(bytes.drop_last()).push(hex_digit(bytes.last() as int / 16)).push(
            hex_digit(bytes.last() as int % 16),
        )
    }
}

/// Hexadecimal rendering doubles the length.
pub proof fn lemma_hex_lower_len(bytes: Seq<u8>)
    ensures
        hex_lower(bytes).len() == 2 * bytes.len(),
    decreases bytes.len(),
{
    if bytes.len() > 0 {
        lemma_hex_lower_len(bytes.drop_last());
    }
}

/// Every character of a hexadecimal rendering is a lower-case hexadecimal digit.
pub proof fn lemma_hex_lower_digits(bytes: Seq<u8>)
    ensures
        forall|i: int| 0 <= i < hex_lower(bytes).len() ==> is_hex_digit(#[trigger] hex_lower(bytes)[i]),
    decreases bytes.len(),
{
    lemma_hex_lower_len(bytes);
    if bytes.len() > 0 {
        let rest = bytes.drop_last();
        lemma_hex_lower_digits(rest);
        lemma_hex_lower_len(rest);
        let hi = bytes.last() as int / 16;
        let lo = bytes.last() as int % 16;
        assert(is_hex_digit(hex_digit(hi)));
        assert(is_hex_digit(hex_digit(lo)));
        assert forall|i: int| 0 <= i < hex_lower(bytes).len() implies is_hex_digit(#[trigger] hex_lower(bytes)[i]) by {
            if i < hex_lower(rest).len() {
                assert(hex_lower(bytes)[i] == hex_lower(rest)[i]);
            }
        }
    }
}

/// `c` is one of the sixteen lower-case hexadecimal digits.
pub open spec fn is_hex_digit(c: char) -> bool {
    exists|n: int| 0 <= n < 16 && c == #[trigger] hex_digit(n)
}

/// The shape of every issued digest: `sha256:` followed by 64 lower-case hexadecimal digits.
pub open spec fn issued_digest_form(t: Seq<char>) -> bool {
    &&& t.len() == 71
    &&& t.subrange(0, 7) == digest_prefix()
    &&& forall|i: int| 7 <= i < 71 ==> is_hex_digit(#[trigger] t[i])
}

/// The `sha256:` prefix of every issued digest string.
pub open spec fn digest_prefix() -> Seq<char> {
    seq!['s', 'h', 'a', '2', '5', '6', ':']
}

/// The digest string issued for one framed preimage.
pub open spec fn digest_text(preimage: Seq<u8>) -> Seq<char> {
    digest_prefix() + hex_lower(sha256_of(preimage))
}

fn hex_char(nibble: u8) -> (c: char)
    requires
        nibble < 16,
    ensures
        c == hex_digit(nibble as int),
{
    if nibble < 10 {
        (nibble + 48) as char
    } else {
        (nibble + 87) as char
    }
}

/// Hashes one framed preimage and renders it as `sha256:` plus lower-case hex.
pub fn finish_digest(preimage: &Vec<u8>) -> (text: String)
    ensures
        text@ == digest_text(preimage@),
        issued_digest_form(text@),
{
    let hash = sha256(preimage.as_slice());
    proof {
        lemma_hex_lower_len(hash@);
        lemma_hex_lower_digits(hash@);
    }
    let mut text = String::new();
    let prefix = "sha256:";
    proof {
        reveal_strlit("sha256:");
    }
    text.append(prefix);
    assert(text@ == digest_prefix());
    let mut i: usize = 0;
    while i < hash.len()
        invariant
            i <= hash@.len(),
            text@ == digest_prefix() + hex_lower(hash@.subrange(0, i as int)),
        decreases hash@.len() - i,
    {
        let byte = hash[i];
        push_char(&mut text, hex_char(byte / 16));
        push_char(&mut text, hex_char(byte % 16));
        proof {
            let next = hash@.subrange(0, i + 1);
            assert(next.drop_last() == hash@.subrange(0, i as int));
            assert(next.last() == byte);
        }
        i = i + 1;
    }
    proof {
        assert(hash@.subrange(0, hash@.len() as int) == hash@);
        let h = hex_lower(hash@);
        assert(text@.subrange(0, 7) =~= digest_prefix());
        assert forall|i: int| 7 <= i < 71 implies is_hex_digit(#[trigger] text@[i]) by {
            assert(text@[i] == h[i - 7]);
        }
    }
    text
}

} // verus!
