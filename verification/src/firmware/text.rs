//! Bounded text buffers that hold the sensor readings, and the decimal
//! notation written into them.

use vstd::prelude::*;
use vstd::utf8::*;

verus! {

/// Capacity, in bytes, of one reading buffer.
pub const TEXT_CAPACITY: usize = 64;

#[verifier::external_type_specification]
#[verifier::external_body]
pub struct ExBoundedString<const N: usize>(heapless::String<N>);

/// The characters that a reading buffer holds.
pub uninterp spec fn text_of(s: heapless::String<64>) -> Seq<char>;

/// Number of bytes that `chars` occupies once encoded as UTF-8.
pub open spec fn utf8_len(chars: Seq<char>) -> nat {
    encode_utf8(chars).len()
}

/// `heapless::String::new`: the new buffer is empty.
#[verifier::external_body]
pub(crate) fn text_new() -> (s: heapless::String<64>)
    ensures
        text_of(s) == Seq::<char>::empty(),
{
    heapless::String::new()
}

/// `heapless::String::clear`: the buffer is empty afterwards.
#[verifier::external_body]
pub(crate) fn text_clear(s: &mut heapless::String<64>)
    ensures
        text_of(*final(s)) == Seq::<char>::empty(),
{
    s.clear()
}

/// `heapless::String::push_str`: when the encoded bytes of `t` fit in what is
/// left of the 64 bytes, `t` is appended and the call succeeds; otherwise the
/// buffer is left as it was and the call fails.
#[verifier::external_body]
pub(crate) fn text_push_str(s: &mut heapless::String<64>, t: &str) -> (r: Result<(), ()>)
    ensures
        r is Ok <==> utf8_len(text_of(*old(s))) + utf8_len(t@) <= 64,
        r is Ok ==> text_of(*final(s)) == text_of(*old(s)) + t@,
        r is Err ==> text_of(*final(s)) == text_of(*old(s)),
{
    s.push_str(t)
}

/// `heapless::String::as_str`: the slice shows the buffer's characters.
#[verifier::external_body]
pub(crate) fn text_as_str(s: &heapless::String<64>) -> (r: &str)
    ensures
        r@ == text_of(*s),
{
    s.as_str()
}

/// `Clone` of `heapless::String`: the copy holds the same characters.
#[verifier::external_body]
pub(crate) fn text_clone(s: &heapless::String<64>) -> (r: heapless::String<64>)
    ensures
        text_of(r) == text_of(*s),
{
    s.clone()
}

/// The character of one decimal digit.
pub open spec fn digit_char(d: nat) -> char {
    if d == 0 {
        '0'
    } else if d == 1 {
        '1'
    } else if d == 2 {
        '2'
    } else if d == 3 {
        '3'
    } else if d == 4 {
        '4'
    } else if d == 5 {
        '5'
    } else if d == 6 {
        '6'
    } else if d == 7 {
        '7'
    } else if d == 8 {
        '8'
    } else {
        '9'
    }
}

/// Decimal notation of `n`, most significant digit first, without padding.
pub open spec fn decimal(n: nat) -> Seq<char>
    decreases n,
{
    if n < 10 {
        seq![digit_char(n)]
    } else {
        decimal(n / 10).push(digit_char(n % 10))
    }
}

/// Ten to the power `k`.
pub open spec fn pow10(k: nat) -> nat
    decreases k,
{
    if k == 0 {
        1
    } else {
        10 * pow10((k - 1) as nat)
    }
}

/// A number below `10^k` is written with at most `k` digits.
pub proof fn lemma_decimal_len(n: nat, k: nat)
    requires
        k >= 1,
        n < pow10(k),
    ensures
        1 <= decimal(n).len() <= k,
    decreases n,
{
    reveal_with_fuel(pow10, 2);
    if n >= 10 {
        if k == 1 {
            assert(pow10(1) == 10);
        } else {
            assert(pow10(k) == 10 * pow10((k - 1) as nat));
            lemma_decimal_len(n / 10, (k - 1) as nat);
        }
    }
}

/// A 64-bit number is written with at most twenty digits.
pub proof fn lemma_decimal_len_u64(n: u64)
    ensures
        1 <= decimal(n as nat).len() <= 20,
{
    assert(pow10(20) == 100_000_000_000_000_000_000nat) by {
        reveal_with_fuel(pow10, 21);
    }
    lemma_decimal_len(n as nat, 20);
}

/// The encoding of a concatenation is the concatenation of the encodings.
pub proof fn lemma_encode_utf8_concat(a: Seq<char>, b: Seq<char>)
    ensures
        encode_utf8(a + b) == encode_utf8(a) + encode_utf8(b),
    decreases a.len(),
{
    if a.len() == 0 {
        assert(a + b =~= b);
        assert(encode_utf8(a) =~= Seq::<u8>::empty());
        assert(encode_utf8(a) + encode_utf8(b) =~= encode_utf8(b));
    } else {
        assert((a + b).drop_first() =~= a.drop_first() + b);
        assert((a + b)[0] == a[0]);
        lemma_encode_utf8_concat(a.drop_first(), b);
        assert(encode_utf8(a + b) =~= encode_utf8(a) + encode_utf8(b));
    }
}

/// Byte lengths add up under concatenation.
pub proof fn lemma_utf8_len_concat(a: Seq<char>, b: Seq<char>)
    ensures
        utf8_len(a + b) == utf8_len(a) + utf8_len(b),
{
    lemma_encode_utf8_concat(a, b);
}

/// An ASCII text takes one byte per character.
pub proof fn lemma_utf8_len_ascii(a: Seq<char>)
    requires
        is_ascii_chars(a),
    ensures
        utf8_len(a) == a.len(),
{
    is_ascii_chars_encode_utf8(a);
}

/// The one-character slice of a decimal digit.
fn digit_str(d: u64) -> (r: &'static str)
    requires
        d < 10,
    ensures
        r@ == seq![digit_char(d as nat)],
{
    proof {
        reveal_strlit("0");
        reveal_strlit("1");
        reveal_strlit("2");
        reveal_strlit("3");
        reveal_strlit("4");
        reveal_strlit("5");
        reveal_strlit("6");
        reveal_strlit("7");
        reveal_strlit("8");
        reveal_strlit("9");
    }
    let r: &'static str = if d == 0 {
        "0"
    } else if d == 1 {
        "1"
    } else if d == 2 {
        "2"
    } else if d == 3 {
        "3"
    } else if d == 4 {
        "4"
    } else if d == 5 {
        "5"
    } else if d == 6 {
        "6"
    } else if d == 7 {
        "7"
    } else if d == 8 {
        "8"
    } else {
        "9"
    };
    assert(r@ =~= seq![digit_char(d as nat)]);
    r
}

/// Appends an ASCII slice to an ASCII buffer that has room for it.
pub(crate) fn push_ascii(s: &mut heapless::String<64>, t: &str)
    requires
        is_ascii_chars(text_of(*old(s))),
        is_ascii_chars(t@),
        text_of(*old(s)).len() + t@.len() <= 64,
    ensures
        text_of(*final(s)) == text_of(*old(s)) + t@,
        is_ascii_chars(text_of(*final(s))),
{
    proof {
        lemma_utf8_len_ascii(text_of(*s));
        lemma_utf8_len_ascii(t@);
        is_ascii_chars_concat(text_of(*s) + t@, text_of(*s), t@);
    }
    let r = text_push_str(s, t);
    assert(r is Ok);
}

/// Appends the decimal notation of `n` to an ASCII buffer that has room for it.
pub(crate) fn push_decimal(s: &mut heapless::String<64>, n: u64)
    requires
        is_ascii_chars(text_of(*old(s))),
        text_of(*old(s)).len() + decimal(n as nat).len() <= 64,
    ensures
        text_of(*final(s)) == text_of(*old(s)) + decimal(n as nat),
        is_ascii_chars(text_of(*final(s))),
    decreases n,
{
    if n >= 10 {
        push_decimal(s, n / 10);
    }
    let d: u64 = n % 10;
    let t = digit_str(d);
    push_ascii(s, t);
    assert(text_of(*s) =~= text_of(*old(s)) + decimal(n as nat));
}

} // verus!
