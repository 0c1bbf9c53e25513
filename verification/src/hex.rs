//! Lower-case hexadecimal rendering of bytes with a `0x` prefix, the text that
//! the call data of a saved revert is stored as.
use vstd::prelude::*;

verus! {

/// The lower-case hex digit for a value below 16.
pub open spec fn hex_digit(v: int) -> char {
    if v < 10 {
        (v + 48) as char
    } else {
        (v + 87) as char
    }
}

/// Two lower-case hex digits per byte, most significant nibble first.
pub open spec fn hex_lower(bytes: Seq<u8>) -> Seq<char>
    decreases bytes.len(),
{
    if bytes.len() == 0 {
        Seq::empty()
    } else {
        hex_lower(bytes.drop_last()) + seq![
            hex_digit(bytes.last() as int / 16),
            hex_digit(bytes.last() as int % 16),
        ]
    }
}

/// `0x` followed by the lower-case hex digits of `bytes`.
pub open spec fn hex_prefixed(bytes: Seq<u8>) -> Seq<char> {
    seq!['0', 'x'] + hex_lower(bytes)
}

/// Appends one character to a `String` (`String::push`).
#[verifier::external_body]
fn push_char(s: &mut String, c: char)
    ensures
        final(s)@ == old(s)@.push(c),
{
    s.push(c)
}

fn nibble_char(v: u8) -> (c: char)
    requires
        v < 16,
    ensures
        c == hex_digit(v as int),
{
    if v < 10 {
        (v + 48) as char
    } else {
        (v + 87) as char
    }
}

/// Renders `bytes` as `0x` and two lower-case hex digits per byte.
pub fn to_hex_prefixed(bytes: &[u8]) -> (out: String)
    ensures
        out@ == hex_prefixed(bytes@),
{
    let mut out = String::new();
    push_char(&mut out, '0');
    push_char(&mut out, 'x');
    let mut i: usize = 0;
    while i < bytes.len()
        invariant
            i <= bytes.len(),
            out@ == seq!['0', 'x'] + hex_lower(bytes@.take(i as int)),
        decreases bytes.len() - i,
    {
        let b = bytes[i];
        let hi = nibble_char(b / 16);
        let lo = nibble_char(b % 16);
        push_char(&mut out, hi);
        push_char(&mut out, lo);
        assert(bytes@.take(i + 1).drop_last() =~= bytes@.take(i as int));
        assert(out@ =~= seq!['0', 'x'] + hex_lower(bytes@.take(i + 1)));
        i = i + 1;
    }
    assert(bytes@.take(i as int) =~= bytes@);
    out
}

proof fn lemma_hex_lower_len(bytes: Seq<u8>)
    ensures
        hex_lower(bytes).len() == 2 * bytes.len(),
    decreases bytes.len(),
{
    if bytes.len() > 0 {
        lemma_hex_lower_len(bytes.drop_last());
    }
}

/// Every byte takes exactly two hex digits after the `0x` prefix.
pub proof fn hex_prefixed_length(bytes: Seq<u8>)
    ensures
        hex_prefixed(bytes).len() == 2 + 2 * bytes.len(),
        hex_prefixed(bytes).take(2) == seq!['0', 'x'],
{
    lemma_hex_lower_len(bytes);
    assert(hex_prefixed(bytes).take(2) =~= seq!['0', 'x']);
}

proof fn lemma_hex_digit_injective(a: int, b: int)
    requires
        0 <= a < 16,
        0 <= b < 16,
        hex_digit(a) == hex_digit(b),
    ensures
        a == b,
{
}

proof fn lemma_hex_lower_injective(x: Seq<u8>, y: Seq<u8>)
    requires
        hex_lower(x) == hex_lower(y),
    ensures
        x == y,
    decreases x.len(),
{
    lemma_hex_lower_len(x);
    lemma_hex_lower_len(y);
    if x.len() > 0 {
        let hx = hex_lower(x);
        let hy = hex_lower(y);
        lemma_hex_lower_len(x.drop_last());
        lemma_hex_lower_len(y.drop_last());
        let n = hx.len();
        assert(hx[n - 2] == hex_digit(x.last() as int / 16));
        assert(hy[n - 2] == hex_digit(y.last() as int / 16));
        assert(hx[n - 1] == hex_digit(x.last() as int % 16));
        assert(hy[n - 1] == hex_digit(y.last() as int % 16));
        lemma_hex_digit_injective(x.last() as int / 16, y.last() as int / 16);
        lemma_hex_digit_injective(x.last() as int % 16, y.last() as int % 16);
        assert(hex_lower(x.drop_last()) =~= hx.take(n - 2));
        assert(hex_lower(y.drop_last()) =~= hy.take(n - 2));
        lemma_hex_lower_injective(x.drop_last(), y.drop_last());
        assert(x =~= x.drop_last().push(x.last()));
        assert(y =~= y.drop_last().push(y.last()));
    }
}

/// Different byte strings are rendered as different texts.
pub proof fn hex_prefixed_injective(x: Seq<u8>, y: Seq<u8>)
    requires
        hex_prefixed(x) == hex_prefixed(y),
    ensures
        x == y,
{
    assert(hex_lower(x) =~= hex_prefixed(x).skip(2));
    assert(hex_lower(y) =~= hex_prefixed(y).skip(2));
    lemma_hex_lower_injective(x, y);
}

} // verus!
