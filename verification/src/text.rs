use vstd::prelude::*;

use vstd::string::{StrSliceExecFns, StringSliceAdditionalSpecFns};
use vstd::utf8::{decode_utf8, encode_utf8, is_char_boundary};

verus! {

/// Whether `char::is_numeric` holds of `c`: Unicode's numeric categories.
pub uninterp spec fn char_is_numeric(c: char) -> bool;

/// Whether `char::is_whitespace` holds of `c`: Unicode's `White_Space` property.
pub uninterp spec fn char_is_whitespace(c: char) -> bool;

/// Calls std's `char::is_numeric`, which answers from Unicode's tables; the answer
/// depends on `c` alone and is named `char_is_numeric(c)`.
#[verifier::external_body]
pub(crate) fn is_numeric_char(c: char) -> (numeric: bool)
    ensures
        numeric == char_is_numeric(c),
{
    c.is_numeric()
}

/// Calls std's `char::is_whitespace`, which answers from Unicode's tables; the answer
/// depends on `c` alone and is named `char_is_whitespace(c)`.
#[verifier::external_body]
pub(crate) fn is_whitespace_char(c: char) -> (white: bool)
    ensures
        white == char_is_whitespace(c),
{
    c.is_whitespace()
}

/// Calls std's `String::push`, which appends `c` to the end of `s`.
#[verifier::external_body]
pub(crate) fn push_char(s: &mut String, c: char)
    ensures
        final(s)@ == old(s)@.push(c),
{
    s.push(c)
}

/// The character of the decimal digit `d`.
pub open spec fn digit_char(d: nat) -> char {
    ((48 + d) as u8) as char
}

/// The decimal numeral of `n`, without leading zeros.
pub open spec fn decimal(n: nat) -> Seq<char>
    decreases n,
{
    if n < 10 {
        seq![digit_char(n)]
    } else {
        decimal(n / 10).push(digit_char(n % 10))
    }
}

/// `c` is one of the digits `0` to `9`.
pub open spec fn is_digit(c: char) -> bool {
    '0' <= c && c <= '9'
}

/// The number that the base-10 digits `s` denote, most significant first.
pub open spec fn digits_value(s: Seq<char>) -> int
    decreases s.len(),
{
    if s.len() == 0 {
        0
    } else {
        digits_value(s.drop_last()) * 10 + ((s.last() as int) - ('0' as int))
    }
}

/// `n` spaces.
pub open spec fn spaces(n: nat) -> Seq<char> {
    Seq::new(n, |i: int| ' ')
}

/// `a - b`, or 0 where `b` is larger.
pub open spec fn saturating_diff(a: int, b: int) -> int {
    if a >= b {
        a - b
    } else {
        0
    }
}

/// Appends the decimal numeral of `n` to `s`.
pub fn push_decimal(s: &mut String, n: usize)
    ensures
        final(s)@ == old(s)@ + decimal(n as nat),
    decreases n,
{
    if n >= 10 {
        push_decimal(s, n / 10);
    }
    let d = (n % 10) as u8;
    push_char(s, (48u8 + d) as char);
    proof {
        if n >= 10 {
            assert(decimal(n as nat) == decimal((n / 10) as nat).push(digit_char((n % 10) as nat)));
        }
        assert(final(s)@ =~= old(s)@ + decimal(n as nat));
    }
}

/// Appends `n` spaces to `s`.
pub fn push_spaces(s: &mut String, n: usize)
    ensures
        final(s)@ == old(s)@ + spaces(n as nat),
{
    let mut i: usize = 0;
    while i < n
        invariant
            i <= n,
            s@ == old(s)@ + spaces(i as nat),
        decreases n - i,
    {
        push_char(s, ' ');
        assert(s@ =~= old(s)@ + spaces((i + 1) as nat));
        i = i + 1;
    }
}

/// Whether the palette strips `c` from the front of a category title.
pub open spec fn numbering_char(c: char) -> bool {
    char_is_numeric(c) || c == '.' || char_is_whitespace(c)
}

/// `s` without its leading numbering: digits, dots and white space.
pub open spec fn trim_numbering(s: Seq<char>) -> Seq<char>
    decreases s.len(),
{
    if s.len() > 0 && numbering_char(s[0]) {
        trim_numbering(s.drop_first())
    } else {
        s
    }
}

proof fn lemma_trim_numbering_at(s: Seq<char>, k: int)
    requires
        0 <= k <= s.len(),
        forall|j: int| 0 <= j < k ==> numbering_char(#[trigger] s[j]),
        k == s.len() || !numbering_char(s[k]),
    ensures
        trim_numbering(s) == s.subrange(k, s.len() as int),
    decreases k,
{
    if k == 0 {
        assert(s.subrange(0, s.len() as int) =~= s);
    } else {
        let rest = s.drop_first();
        assert forall|j: int| 0 <= j < k - 1 implies numbering_char(#[trigger] rest[j]) by {
            assert(rest[j] == s[j + 1]);
        }
        lemma_trim_numbering_at(rest, k - 1);
        assert(rest.subrange(k - 1, rest.len() as int) =~= s.subrange(k, s.len() as int));
    }
}

/// `title` without its leading digits, dots and white space, as
/// `str::trim_start_matches` removes them.
pub fn trimmed_numbering(title: &str) -> (rest: &str)
    ensures
        rest@ == trim_numbering(title@),
{
    let n = title.unicode_len();
    let mut k: usize = 0;
    while k < n
        invariant
            n == title@.len(),
            k <= n,
            forall|j: int| 0 <= j < k ==> numbering_char(#[trigger] title@[j]),
        ensures
            k <= n,
            forall|j: int| 0 <= j < k ==> numbering_char(#[trigger] title@[j]),
            k == n || !numbering_char(title@[k as int]),
        decreases n - k,
    {
        let c = title.get_char(k);
        if !(is_numeric_char(c) || c == '.' || is_whitespace_char(c)) {
            break;
        }
        k = k + 1;
    }
    proof {
        lemma_trim_numbering_at(title@, k as int);
    }
    title.substring_char(k, n)
}

/// The line of a list item of `title` in a row `width` cells wide: a space and the
/// title, padded with spaces to `width` bytes, or, where it is longer, its first
/// `width - 3` bytes followed by three dots.
pub open spec fn item_line(title: Seq<char>, width: int) -> Seq<char> {
    let item = seq![' '] + title;
    let bytes = encode_utf8(item);
    if bytes.len() > width {
        decode_utf8(bytes.subrange(0, saturating_diff(width, 3))) + seq!['.', '.', '.']
    } else {
        item + spaces((width - bytes.len()) as nat)
    }
}

/// Holds when the line of `title` can be made: its UTF-8 length is a `usize`, and
/// where it is cut, the cut falls between two characters.
pub open spec fn item_line_cuttable(title: Seq<char>, width: int) -> bool {
    let bytes = encode_utf8(seq![' '] + title);
    &&& bytes.len() <= usize::MAX
    &&& bytes.len() > width ==> is_char_boundary(bytes, saturating_diff(width, 3))
}

/// The line of a list item of `title` in a row `width` cells wide.
pub fn item_line_text(title: &String, width: usize) -> (line: String)
    requires
        item_line_cuttable(title@, width as int),
    ensures
        line@ == item_line(title@, width as int),
{
    let mut item = String::from_str(" ");
    item.append(title.as_str());
    proof {
        reveal_strlit(" ");
        assert(item@ =~= seq![' '] + title@);
    }
    let ghost bytes = encode_utf8(seq![' '] + title@);
    let len = item.as_str().len();
    assert(len == bytes.len());
    if len > width {
        let cut = width.saturating_sub(3);
        let (head, _) = item.as_str().split_at(cut);
        let mut line = head.to_owned();
        line.append("...");
        proof {
            reveal_strlit("...");
            vstd::utf8::encode_utf8_decode_utf8(head@);
            assert(head.spec_bytes() == encode_utf8(head@));
            assert(head.spec_bytes() == bytes.subrange(0, cut as int));
            assert(decode_utf8(bytes.subrange(0, cut as int)) == head@);
            assert(line@ == head@ + seq!['.', '.', '.']);
        }
        line
    } else {
        push_spaces(&mut item, width - len);
        item
    }
}

/// The characters of `char::to_uppercase(c)`: Unicode's uppercase mapping of `c`,
/// one or more characters.
pub uninterp spec fn uppercase_of(c: char) -> Seq<char>;

/// `c` is an ASCII lowercase letter.
pub open spec fn is_ascii_lower(c: char) -> bool {
    'a' <= c && c <= 'z'
}

/// `c` is an ASCII uppercase letter.
pub open spec fn is_ascii_upper(c: char) -> bool {
    'A' <= c && c <= 'Z'
}

/// The ASCII capital of an ASCII lowercase letter; any other character itself.
pub open spec fn ascii_capital(c: char) -> char {
    if is_ascii_lower(c) {
        ((c as int) - 32) as char
    } else {
        c
    }
}

/// Calls std's `char::to_uppercase` and writes the characters it yields into a
/// string (through its `Display`). The mapping depends on `c` alone and is named
/// `uppercase_of(c)`. std documents that an ASCII letter maps to its ASCII capital
/// (`'a'` to `"A"`) and that a character without an uppercase mapping, such as an
/// ASCII capital, maps to itself.
#[verifier::external_body]
pub(crate) fn uppercase_string(c: char) -> (upper: String)
    ensures
        upper@ == uppercase_of(c),
        is_ascii_lower(c) || is_ascii_upper(c) ==> upper@ == seq![ascii_capital(c)],
{
    format!("{}", c.to_uppercase())
}

} // verus!
