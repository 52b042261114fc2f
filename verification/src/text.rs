//! Character and string helpers shared by the rest of the crate.

use vstd::prelude::*;

verus! {

/// What `char::is_uppercase` answers for a character outside the ASCII range.
pub uninterp spec fn unicode_is_uppercase(c: char) -> bool;

/// The first character of the lowercase mapping that `char::to_lowercase`
/// yields for a character outside the ASCII range.
pub uninterp spec fn unicode_lowercase_head(c: char) -> char;

/// Whether `c` is an uppercase letter: `A` to `Z` within ASCII, the Unicode
/// `Uppercase` property beyond it.
pub open spec fn is_uppercase(c: char) -> bool {
    if (c as u32) < 128 {
        'A' <= c && c <= 'Z'
    } else {
        unicode_is_uppercase(c)
    }
}

/// The first character of the lowercase form of `c`: `A` to `Z` map to `a`
/// to `z`, every other ASCII character maps to itself.
pub open spec fn lowercase_head(c: char) -> char {
    if 'A' <= c && c <= 'Z' {
        ((c as u32) + 32) as char
    } else if (c as u32) < 128 {
        c
    } else {
        unicode_lowercase_head(c)
    }
}

/// `char::is_uppercase`. Within ASCII exactly the letters `A` to `Z` have the
/// `Uppercase` property; beyond ASCII the answer is only given a name.
#[verifier::external_body]
fn char_is_uppercase(c: char) -> (r: bool)
    ensures
        r == is_uppercase(c),
        (c as u32) >= 128 ==> r == unicode_is_uppercase(c),
{
    c.is_uppercase()
}

/// `char::to_lowercase`, of which the first character is taken. The mapping
/// always yields at least one character; within ASCII it turns `A` to `Z`
/// into `a` to `z` and leaves everything else alone.
#[verifier::external_body]
fn char_lowercase_head(c: char) -> (r: char)
    ensures
        r == lowercase_head(c),
        (c as u32) >= 128 ==> r == unicode_lowercase_head(c),
{
    c.to_lowercase().next().unwrap()
}

/// What `str::to_lowercase` returns for a text that holds a character outside
/// the ASCII range.
pub uninterp spec fn unicode_lowercase(s: Seq<char>) -> Seq<char>;

/// Whether every character of `s` lies in the ASCII range.
pub open spec fn is_ascii_text(s: Seq<char>) -> bool {
    forall|i: int| 0 <= i < s.len() ==> (#[trigger] s[i] as u32) < 128
}

/// The lowercase form of a text. An ASCII text is lowered character by
/// character.
pub open spec fn lowercase(s: Seq<char>) -> Seq<char> {
    if is_ascii_text(s) {
        Seq::new(s.len(), |i: int| lowercase_head(s[i]))
    } else {
        unicode_lowercase(s)
    }
}

/// Whether `c` may occur in a snake-case name: a lowercase ASCII letter or an
/// underscore.
pub open spec fn is_snake_char(c: char) -> bool {
    ('a' <= c && c <= 'z') || c == '_'
}

/// Whether `s` is a non-empty text of lowercase ASCII letters and underscores.
pub open spec fn is_snake_name(s: Seq<char>) -> bool {
    &&& s.len() > 0
    &&& forall|i: int| 0 <= i < s.len() ==> is_snake_char(#[trigger] s[i])
}

/// `str::to_lowercase`. An ASCII text comes back with `A` to `Z` turned into
/// `a` to `z` and nothing else changed; for any other text the result is only
/// given a name.
#[verifier::external_body]
pub(crate) fn str_to_lowercase(s: &str) -> (r: String)
    ensures
        r@ == lowercase(s@),
        !is_ascii_text(s@) ==> r@ == unicode_lowercase(s@),
{
    s.to_lowercase()
}

/// `String::push`: appends one character.
pub assume_specification[ std::string::String::push ](s: &mut std::string::String, c: char)
    ensures
        final(s)@ == old(s)@.push(c),
;

/// What one character of a camel-case name contributes to its snake-case
/// form: the first character is lowered; a later uppercase character is
/// lowered and preceded by an underscore; any other character is kept.
pub open spec fn snake_piece(c: char, first: bool) -> Seq<char> {
    if first {
        seq![lowercase_head(c)]
    } else if is_uppercase(c) {
        seq!['_', lowercase_head(c)]
    } else {
        seq![c]
    }
}

/// The snake-case form of the first `n` characters of `s`.
pub open spec fn snake_prefix(s: Seq<char>, n: nat) -> Seq<char>
    decreases n,
{
    if n == 0 {
        Seq::empty()
    } else {
        snake_prefix(s, (n - 1) as nat) + snake_piece(s[n - 1], n == 1)
    }
}

/// The snake-case form of a camel-case name.
pub open spec fn snake_case(s: Seq<char>) -> Seq<char> {
    snake_prefix(s, s.len())
}

/// Converts a camel-case name to snake case, as `BusFactor` to `bus_factor`.
pub fn camel_to_snake_case(camel_case: &str) -> (snake: String)
    ensures
        snake@ == snake_case(camel_case@),
{
    let mut snake = String::new();
    let mut first = true;
    for c in it: camel_case.chars()
        invariant
            it.seq() == camel_case@,
            first == (it.index() == 0),
            snake@ == snake_prefix(camel_case@, it.index() as nat),
    {
        if first {
            snake.push(char_lowercase_head(c));
            first = false;
        } else if char_is_uppercase(c) {
            snake.push('_');
            snake.push(char_lowercase_head(c));
        } else {
            snake.push(c);
        }
    }
    snake
}

/// The characters of an optional text.
pub open spec fn optional_text(text: Option<&str>) -> Option<Seq<char>> {
    match text {
        Some(text) => Some(text@),
        None => None,
    }
}

/// The character that stands for the decimal digit `d`.
pub open spec fn digit_char(d: nat) -> char
    recommends
        d < 10,
{
    (('0' as u32) + d) as char
}

/// The decimal numeral of `n`, without a sign or leading zeros.
pub open spec fn decimal(n: nat) -> Seq<char>
    decreases n,
{
    if n < 10 {
        seq![digit_char(n)]
    } else {
        decimal(n / 10).push(digit_char(n % 10))
    }
}

/// The character that stands for the decimal digit `d`.
fn digit(d: u64) -> (c: char)
    requires
        d < 10,
    ensures
        c == digit_char(d as nat),
{
    if d == 0 {
        '0'
    } else if d == 1 {
        '1'
    } else if d == 2 {
        '2'
    } else if d == 3 {
        '3'
    } else if d == 4 {
        '4'
    } else if d == 5 {
        '5'
    } else if d == 6 {
        '6'
    } else if d == 7 {
        '7'
    } else if d == 8 {
        '8'
    } else {
        '9'
    }
}

/// Appends the decimal numeral of `n` to `out`.
pub fn push_decimal(out: &mut String, n: u64)
    ensures
        final(out)@ == old(out)@ + decimal(n as nat),
    decreases n,
{
    if n >= 10 {
        push_decimal(out, n / 10);
    }
    out.push(digit(n % 10));
}

/// A numeral is never empty.
pub proof fn lemma_decimal_nonempty(n: nat)
    ensures
        decimal(n).len() >= 1,
    decreases n,
{
    if n >= 10 {
        lemma_decimal_nonempty(n / 10);
    }
}

/// Two numbers with the same numeral are the same number.
pub proof fn lemma_decimal_injective(a: nat, b: nat)
    requires
        decimal(a) == decimal(b),
    ensures
        a == b,
    decreases a,
{
    lemma_decimal_nonempty(a / 10);
    lemma_decimal_nonempty(b / 10);
    if a < 10 && b < 10 {
        assert(decimal(a)[0] == digit_char(a));
        assert(decimal(b)[0] == digit_char(b));
        lemma_digit_char_injective(a, b);
    } else if a >= 10 && b >= 10 {
        let da = decimal(a / 10);
        let db = decimal(b / 10);
        assert(decimal(a) == da.push(digit_char(a % 10)));
        assert(decimal(b) == db.push(digit_char(b % 10)));
        assert(da.push(digit_char(a % 10)).last() == digit_char(a % 10));
        assert(db.push(digit_char(b % 10)).last() == digit_char(b % 10));
        assert(da =~= da.push(digit_char(a % 10)).drop_last());
        assert(db =~= db.push(digit_char(b % 10)).drop_last());
        lemma_decimal_injective(a / 10, b / 10);
        lemma_digit_char_injective(a % 10, b % 10);
    } else {
        assert(decimal(a).len() == decimal(b).len());
    }
}

/// Two digits with the same character are the same digit.
proof fn lemma_digit_char_injective(a: nat, b: nat)
    requires
        a < 10,
        b < 10,
        digit_char(a) == digit_char(b),
    ensures
        a == b,
{
    assert(digit_char(a) as u32 == 48 + a);
    assert(digit_char(b) as u32 == 48 + b);
}

} // verus!
