//! The standard base64 alphabet and padded encoding, as a mathematical model.

use vstd::prelude::*;

verus! {

/// The character that fills the last group up to four.
pub open spec fn pad() -> char {
    '='
}

/// The character that stands for a six-bit value.
pub open spec fn symbol(v: int) -> char {
    if 0 <= v < 26 {
        ('A' as int + v) as char
    } else if 26 <= v < 52 {
        ('a' as int + (v - 26)) as char
    } else if 52 <= v < 62 {
        ('0' as int + (v - 52)) as char
    } else if v == 62 {
        '+'
    } else {
        '/'
    }
}

/// The padded standard base64 text of a byte sequence: every three bytes give
/// four symbols, and a last group of one or two bytes gives two or three
/// symbols followed by padding.
pub open spec fn base64_text(bytes: Seq<u8>) -> Seq<char>
    decreases bytes.len(),
{
    if bytes.len() == 0 {
        seq![]
    } else if bytes.len() == 1 {
        let a = bytes[0] as int;
        seq![symbol(a / 4), symbol((a % 4) * 16), pad(), pad()]
    } else if bytes.len() == 2 {
        let a = bytes[0] as int;
        let b = bytes[1] as int;
        seq![symbol(a / 4), symbol((a % 4) * 16 + b / 16), symbol((b % 16) * 4), pad()]
    } else {
        let a = bytes[0] as int;
        let b = bytes[1] as int;
        let c = bytes[2] as int;
        seq![
            symbol(a / 4),
            symbol((a % 4) * 16 + b / 16),
            symbol((b % 16) * 4 + c / 64),
            symbol(c % 64),
        ] + base64_text(bytes.skip(3))
    }
}

/// The bytes whose text is `text`, where there are any.
pub open spec fn base64_bytes(text: Seq<char>) -> Option<Seq<u8>> {
    if exists|bytes: Seq<u8>| base64_text(bytes) == text {
        Some(choose|bytes: Seq<u8>| base64_text(bytes) == text)
    } else {
        None
    }
}

/// Distinct six-bit values have distinct symbols, and no symbol is the padding.
pub proof fn lemma_symbol_injective(v: int, w: int)
    requires
        0 <= v < 64,
        0 <= w < 64,
    ensures
        symbol(v) != pad(),
        symbol(v) == symbol(w) ==> v == w,
{
}

/// The four symbols of a full group determine its three bytes.
proof fn lemma_group_injective(a: int, b: int, c: int, d: int, e: int, f: int)
    requires
        0 <= a < 256,
        0 <= b < 256,
        0 <= c < 256,
        0 <= d < 256,
        0 <= e < 256,
        0 <= f < 256,
        symbol(a / 4) == symbol(d / 4),
        symbol((a % 4) * 16 + b / 16) == symbol((d % 4) * 16 + e / 16),
        symbol((b % 16) * 4 + c / 64) == symbol((e % 16) * 4 + f / 64),
        symbol(c % 64) == symbol(f % 64),
    ensures
        a == d,
        b == e,
        c == f,
{
    lemma_symbol_injective(a / 4, d / 4);
    lemma_symbol_injective((a % 4) * 16 + b / 16, (d % 4) * 16 + e / 16);
    lemma_symbol_injective((b % 16) * 4 + c / 64, (e % 16) * 4 + f / 64);
    lemma_symbol_injective(c % 64, f % 64);
}

/// The text has four characters for every group of up to three bytes.
pub proof fn lemma_base64_len(bytes: Seq<u8>)
    ensures
        base64_text(bytes).len() == 4 * ((bytes.len() + 2) / 3),
    decreases bytes.len(),
{
    if bytes.len() >= 3 {
        lemma_base64_len(bytes.skip(3));
    }
}

/// Two byte sequences with the same text are the same sequence.
pub proof fn lemma_base64_injective(x: Seq<u8>, y: Seq<u8>)
    requires
        base64_text(x) == base64_text(y),
    ensures
        x == y,
    decreases x.len(),
{
    lemma_base64_len(x);
    lemma_base64_len(y);
    let tx = base64_text(x);
    let ty = base64_text(y);
    if x.len() == 0 {
        assert(x =~= y);
    } else {
        let a = x[0] as int;
        let d = y[0] as int;
        lemma_symbol_injective(a / 4, d / 4);
        assert(tx[0] == ty[0]);
        assert(tx[1] == ty[1]);
        assert(tx[2] == ty[2]);
        assert(tx[3] == ty[3]);
        if x.len() == 1 {
            if y.len() == 1 {
                lemma_symbol_injective((a % 4) * 16, (d % 4) * 16);
                assert(x =~= y);
            } else if y.len() == 2 {
                lemma_symbol_injective((y[1] as int % 16) * 4, 0);
            } else {
                lemma_symbol_injective((y[1] as int % 16) * 4 + y[2] as int / 64, 0);
            }
        } else if x.len() == 2 {
            let b = x[1] as int;
            if y.len() == 1 {
                lemma_symbol_injective((b % 16) * 4, 0);
            } else if y.len() == 2 {
                let e = y[1] as int;
                lemma_symbol_injective((a % 4) * 16 + b / 16, (d % 4) * 16 + e / 16);
                lemma_symbol_injective((b % 16) * 4, (e % 16) * 4);
                assert(x =~= y);
            } else {
                lemma_symbol_injective(y[2] as int % 64, 0);
            }
        } else {
            let b = x[1] as int;
            let c = x[2] as int;
            if y.len() == 1 {
                lemma_symbol_injective((b % 16) * 4 + c / 64, 0);
            } else if y.len() == 2 {
                lemma_symbol_injective(c % 64, 0);
            } else {
                lemma_group_injective(a, b, c, d, y[1] as int, y[2] as int);
                assert(tx.skip(4) =~= base64_text(x.skip(3)));
                assert(ty.skip(4) =~= base64_text(y.skip(3)));
                lemma_base64_injective(x.skip(3), y.skip(3));
                assert forall|i: int| 3 <= i < x.len() implies x[i] == y[i] by {
                    assert(x[i] == x.skip(3)[i - 3]);
                    assert(y[i] == y.skip(3)[i - 3]);
                }
                assert(x =~= y);
            }
        }
    }
}

/// Reading a text back gives the bytes it was made from.
pub proof fn lemma_base64_bytes_of_text(bytes: Seq<u8>)
    ensures
        base64_bytes(base64_text(bytes)) == Some(bytes),
{
    let text = base64_text(bytes);
    let found = choose|other: Seq<u8>| base64_text(other) == text;
    lemma_base64_injective(found, bytes);
}

} // verus!
