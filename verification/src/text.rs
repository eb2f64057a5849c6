//! Comparing and trimming text.

use vstd::prelude::*;
use vstd::string::StrSliceExecFns;
use vstd::string::StringSliceAdditionalSpecFns;
use vstd::utf8::encode_utf8_decode_utf8;

verus! {

/// Whether a character has the Unicode property White_Space: the tab, the
/// line ends and the other controls up to the carriage return, the space,
/// the next line control, the no-break space, the ogham space mark, the
/// spaces of fixed width, the line and paragraph separators, the narrow
/// no-break space, the medium mathematical space and the ideographic space.
pub open spec fn is_white_space(c: char) -> bool {
    let n = c as u32;
    ||| 0x0009 <= n <= 0x000D
    ||| n == 0x0020
    ||| n == 0x0085
    ||| n == 0x00A0
    ||| n == 0x1680
    ||| 0x2000 <= n <= 0x200A
    ||| n == 0x2028
    ||| n == 0x2029
    ||| n == 0x202F
    ||| n == 0x205F
    ||| n == 0x3000
}

/// `char::is_whitespace`. The contract claims that it answers whether the
/// character has the Unicode property White_Space, which is what its
/// documentation says.
#[verifier::external_body]
fn char_is_white_space(c: char) -> (r: bool)
    ensures
        r == is_white_space(c),
{
    c.is_whitespace()
}

/// Whether two texts hold the same characters.
pub fn same_text(a: &str, b: &str) -> (r: bool)
    ensures
        r == (a@ == b@),
{
    let x = a.as_bytes();
    let y = b.as_bytes();
    if x.len() != y.len() {
        return false;
    }
    let mut i: usize = 0;
    while i < x.len()
        invariant
            i <= x.len(),
            x.len() == y.len(),
            x@ == a.spec_bytes(),
            y@ == b.spec_bytes(),
            forall|k: int| 0 <= k < i ==> x@[k] == y@[k],
        decreases x.len() - i,
    {
        if x[i] != y[i] {
            return false;
        }
        i += 1;
    }
    proof {
        assert(x@ =~= y@);
        encode_utf8_decode_utf8(a@);
        encode_utf8_decode_utf8(b@);
    }
    true
}

/// How many characters at the start of a text are white space.
pub open spec fn leading_blank(text: Seq<char>) -> nat
    decreases text.len(),
{
    if text.len() > 0 && is_white_space(text[0]) {
        1 + leading_blank(text.drop_first())
    } else {
        0
    }
}

/// How many characters at the end of a text are white space.
pub open spec fn trailing_blank(text: Seq<char>) -> nat
    decreases text.len(),
{
    if text.len() > 0 && is_white_space(text.last()) {
        1 + trailing_blank(text.drop_last())
    } else {
        0
    }
}

/// A text without the white space at its start and at its end.
pub open spec fn trimmed(text: Seq<char>) -> Seq<char> {
    let rest = text.skip(leading_blank(text) as int);
    rest.take(rest.len() - trailing_blank(rest))
}

/// A run of white space at the start that ends at `n` is the whole of it.
proof fn lemma_leading_blank(text: Seq<char>, n: int)
    requires
        0 <= n <= text.len(),
        forall|k: int| 0 <= k < n ==> is_white_space(#[trigger] text[k]),
        n < text.len() ==> !is_white_space(text[n]),
    ensures
        leading_blank(text) == n,
    decreases n,
{
    if n > 0 {
        let rest = text.drop_first();
        assert forall|k: int| 0 <= k < n - 1 implies is_white_space(#[trigger] rest[k]) by {
            assert(rest[k] == text[k + 1]);
        }
        if n - 1 < rest.len() {
            assert(rest[n - 1] == text[n]);
        }
        lemma_leading_blank(rest, n - 1);
    }
}

/// A run of white space at the end that starts at `n` is the whole of it.
proof fn lemma_trailing_blank(text: Seq<char>, n: int)
    requires
        0 <= n <= text.len(),
        forall|k: int| n <= k < text.len() ==> is_white_space(#[trigger] text[k]),
        n > 0 ==> !is_white_space(text[n - 1]),
    ensures
        trailing_blank(text) == text.len() - n,
    decreases text.len() - n,
{
    if n < text.len() {
        let rest = text.drop_last();
        assert forall|k: int| n <= k < rest.len() implies is_white_space(#[trigger] rest[k]) by {
            assert(rest[k] == text[k]);
        }
        if n > 0 {
            assert(rest[n - 1] == text[n - 1]);
        }
        lemma_trailing_blank(rest, n);
    }
}

/// The line without the white space around it.
pub fn trim_line(line: &str) -> (r: String)
    ensures
        r@ == trimmed(line@),
{
    let len = line.unicode_len();
    let mut start: usize = 0;
    while start < len
        invariant
            start <= len,
            len == line@.len(),
            forall|k: int| 0 <= k < start ==> is_white_space(#[trigger] line@[k]),
        ensures
            start <= len,
            forall|k: int| 0 <= k < start ==> is_white_space(#[trigger] line@[k]),
            start < len ==> !is_white_space(line@[start as int]),
        decreases len - start,
    {
        if !char_is_white_space(line.get_char(start)) {
            break;
        }
        start += 1;
    }
    let mut end: usize = len;
    while end > start
        invariant
            start <= end <= len,
            len == line@.len(),
            forall|k: int| end <= k < len ==> is_white_space(#[trigger] line@[k]),
        ensures
            start <= end <= len,
            forall|k: int| end <= k < len ==> is_white_space(#[trigger] line@[k]),
            end > start ==> !is_white_space(line@[end - 1]),
        decreases end - start,
    {
        if !char_is_white_space(line.get_char(end - 1)) {
            break;
        }
        end -= 1;
    }
    proof {
        let rest = line@.skip(start as int);
        lemma_leading_blank(line@, start as int);
        assert forall|k: int| end - start <= k < rest.len() implies is_white_space(
            #[trigger] rest[k],
        ) by {
            assert(rest[k] == line@[k + start]);
        }
        if end > start {
            assert(rest[end - start - 1] == line@[end - 1]);
        }
        lemma_trailing_blank(rest, end - start);
        assert(rest.take(end - start) =~= line@.subrange(start as int, end as int));
    }
    line.substring_char(start, end).to_owned()
}

} // verus!
