use vstd::prelude::*;

verus! {

/// Unicode `White_Space` (the property that `str::trim` removes).
pub open spec fn is_white_space(c: char) -> bool {
    let v = c as u32;
    ||| 0x09 <= v <= 0x0D
    ||| v == 0x20
    ||| v == 0x85
    ||| v == 0xA0
    ||| v == 0x1680
    ||| 0x2000 <= v <= 0x200A
    ||| v == 0x2028
    ||| v == 0x2029
    ||| v == 0x202F
    ||| v == 0x205F
    ||| v == 0x3000
}

/// A text is blank when trimming Unicode white space leaves nothing.
pub open spec fn is_blank(s: Seq<char>) -> bool {
    forall|i: int| 0 <= i < s.len() ==> is_white_space(#[trigger] s[i])
}

fn char_is_white_space(c: char) -> (b: bool)
    ensures
        b == is_white_space(c),
{
    let v = c as u32;
    (0x09 <= v && v <= 0x0D) || v == 0x20 || v == 0x85 || v == 0xA0 || v == 0x1680
        || (0x2000 <= v && v <= 0x200A) || v == 0x2028 || v == 0x2029 || v == 0x202F
        || v == 0x205F || v == 0x3000
}

/// Reports whether `value` holds only Unicode white space.
pub fn is_blank_text(value: &str) -> (b: bool)
    ensures
        b == is_blank(value@),
{
    let mut all_space = true;
    for c in it: value.chars()
        invariant
            it.seq() == value@,
            all_space == (forall|j: int| 0 <= j < it.index() ==> is_white_space(#[trigger] value@[j])),
    {
        if !char_is_white_space(c) {
            all_space = false;
        }
    }
    all_space
}

} // verus!

verus! {

/// Whether a text contains the NUL character.
pub open spec fn has_nul(s: Seq<char>) -> bool {
    exists|i: int| 0 <= i < s.len() && s[i] == '\0'
}

/// Reports whether `value` contains the NUL character.
pub fn contains_nul(value: &str) -> (b: bool)
    ensures
        b == has_nul(value@),
{
    let mut found = false;
    for c in it: value.chars()
        invariant
            it.seq() == value@,
            found == (exists|j: int| 0 <= j < it.index() && #[trigger] value@[j] == '\0'),
    {
        if c == '\0' {
            found = true;
        }
    }
    found
}

/// The ASCII digit for `d < 10`.
pub open spec fn decimal_digit(d: nat) -> char {
    (d + 48) as char
}

/// Decimal rendering of a natural number, as `Display` prints it.
pub open spec fn decimal(n: nat) -> Seq<char>
    decreases n,
{
    if n < 10 {
        seq![decimal_digit(n)]
    } else {
        decimal(n / 10).push(decimal_digit(n % 10))
    }
}

/// Decimal rendering of a signed integer, as `Display` prints it.
pub open spec fn signed_decimal(v: int) -> Seq<char> {
    if v < 0 {
        seq!['-'] + decimal((-v) as nat)
    } else {
        decimal(v as nat)
    }
}

/// Appends the decimal rendering of `n`.
pub fn push_decimal(out: &mut String, n: u64)
    ensures
        final(out)@ == old(out)@ + decimal(n as nat),
    decreases n,
{
    if n >= 10 {
        push_decimal(out, n / 10);
    }
    let d = (n % 10) as u8;
    crate::digest::push_char(out, (d + 48) as char);
    proof {
        if n >= 10 {
            assert(decimal(n as nat) == decimal((n / 10) as nat).push(decimal_digit((n % 10) as nat)));
        }
    }
}

/// Appends the decimal rendering of a signed `i32`.
pub fn push_signed_decimal(out: &mut String, v: i32)
    ensures
        final(out)@ == old(out)@ + signed_decimal(v as int),
{
    if v < 0 {
        crate::digest::push_char(out, '-');
        let magnitude: u64 = (-(v as i64)) as u64;
        push_decimal(out, magnitude);
        proof {
            assert(old(out)@.push('-') + decimal(magnitude as nat) == old(out)@ + (seq!['-'] + decimal(magnitude as nat)));
        }
    } else {
        push_decimal(out, v as u64);
    }
}

/// Appends a text.
pub fn push_text(out: &mut String, text: &str)
    ensures
        final(out)@ == old(out)@ + text@,
{
    out.append(text);
}

/// The JSON-pointer escape of one character (`~` becomes `~0`, `/` becomes `~1`).
pub open spec fn escape_char(c: char) -> Seq<char> {
    if c == '~' {
        seq!['~', '0']
    } else if c == '/' {
        seq!['~', '1']
    } else {
        seq![c]
    }
}

/// JSON-pointer token escaping: `value.replace('~', "~0").replace('/', "~1")`.
pub open spec fn json_pointer_escape(s: Seq<char>) -> Seq<char>
    decreases s.len(),
{
    if s.len() == 0 {
        Seq::empty()
    } else {
        json_pointer_escape(s.drop_last()) + escape_char(s.last())
    }
}

/// Escapes one JSON-pointer token.
pub fn escape_json_pointer_token(value: &str) -> (escaped: String)
    ensures
        escaped@ == json_pointer_escape(value@),
{
    let mut out = String::new();
    for c in it: value.chars()
        invariant
            it.seq() == value@,
            out@ == json_pointer_escape(value@.subrange(0, it.index() as int)),
    {
        proof {
            let next = value@.subrange(0, it.index() + 1);
            assert(next.drop_last() == value@.subrange(0, it.index() as int));
            assert(next.last() == c);
        }
        if c == '~' {
            crate::digest::push_char(&mut out, '~');
            crate::digest::push_char(&mut out, '0');
        } else if c == '/' {
            crate::digest::push_char(&mut out, '~');
            crate::digest::push_char(&mut out, '1');
        } else {
            crate::digest::push_char(&mut out, c);
        }
    }
    proof {
        assert(value@.subrange(0, value@.len() as int) == value@);
    }
    out
}

} // verus!
