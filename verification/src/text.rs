//! Text predicates and transformations shared by the request validators.
use vstd::prelude::*;

verus! {

/// The Unicode `White_Space` property, the notion of whitespace that
/// `str::trim` and `char::is_whitespace` use.
pub open spec fn is_white_space(c: char) -> bool {
    ||| ('\u{9}' <= c && c <= '\u{d}')
    ||| c == ' '
    ||| c == '\u{85}'
    ||| c == '\u{a0}'
    ||| c == '\u{1680}'
    ||| ('\u{2000}' <= c && c <= '\u{200a}')
    ||| c == '\u{2028}'
    ||| c == '\u{2029}'
    ||| c == '\u{202f}'
    ||| c == '\u{205f}'
    ||| c == '\u{3000}'
}

/// A text is blank when trimming its whitespace leaves nothing.
pub open spec fn blank(s: Seq<char>) -> bool {
    forall|i: int| 0 <= i < s.len() ==> is_white_space(#[trigger] s[i])
}

/// Whether `c` has the Unicode `White_Space` property.
pub fn white_space(c: char) -> (b: bool)
    ensures
        b == is_white_space(c),
{
    ('\u{9}' <= c && c <= '\u{d}') || c == ' ' || c == '\u{85}' || c == '\u{a0}' || c
        == '\u{1680}' || ('\u{2000}' <= c && c <= '\u{200a}') || c == '\u{2028}' || c
        == '\u{2029}' || c == '\u{202f}' || c == '\u{205f}' || c == '\u{3000}'
}

/// Whether `s.trim()` is empty, that is, whether every character of `s` is
/// whitespace.
pub fn is_blank(s: &str) -> (b: bool)
    ensures
        b == blank(s@),
{
    let n: usize = s.unicode_len();
    let mut i: usize = 0;
    while i < n
        invariant
            n == s@.len(),
            i <= n,
            forall|j: int| 0 <= j < i ==> is_white_space(#[trigger] s@[j]),
        decreases n - i,
    {
        let c = s.get_char(i);
        if !white_space(c) {
            return false;
        }
        i = i + 1;
    }
    true
}

/// The ASCII upper-case form of `c`; every other character is unchanged.
pub open spec fn upper_ascii(c: char) -> char {
    if 'a' <= c && c <= 'z' {
        ((c as int) - 32) as char
    } else {
        c
    }
}

/// `s` with every ASCII lower-case letter made upper-case.
pub open spec fn upper_ascii_text(s: Seq<char>) -> Seq<char> {
    s.map_values(|c: char| upper_ascii(c))
}

/// The ASCII upper-case form of `c`.
pub fn to_upper_ascii(c: char) -> (u: char)
    ensures
        u == upper_ascii(c),
{
    match c {
        'a' => 'A',
        'b' => 'B',
        'c' => 'C',
        'd' => 'D',
        'e' => 'E',
        'f' => 'F',
        'g' => 'G',
        'h' => 'H',
        'i' => 'I',
        'j' => 'J',
        'k' => 'K',
        'l' => 'L',
        'm' => 'M',
        'n' => 'N',
        'o' => 'O',
        'p' => 'P',
        'q' => 'Q',
        'r' => 'R',
        's' => 'S',
        't' => 'T',
        'u' => 'U',
        'v' => 'V',
        'w' => 'W',
        'x' => 'X',
        'y' => 'Y',
        'z' => 'Z',
        _ => {
            assert(!('a' <= c && c <= 'z'));
            c
        },
    }
}

/// Appends one character to `s` (`String::push`).
#[verifier::external_body]
pub(crate) fn push_char(s: &mut String, c: char)
    ensures
        final(s)@ == old(s)@.push(c),
{
    s.push(c);
}

/// `prefix` followed by the first `count` characters of `source`, upper-cased.
pub fn prefixed_upper(prefix: &str, source: &str, count: usize) -> (r: String)
    requires
        count <= source@.len(),
    ensures
        r@ == prefix@ + upper_ascii_text(source@.take(count as int)),
{
    let mut r = String::from_str(prefix);
    let mut i: usize = 0;
    while i < count
        invariant
            i <= count,
            count <= source@.len(),
            r@ == prefix@ + upper_ascii_text(source@.take(i as int)),
        decreases count - i,
    {
        let c = source.get_char(i);
        push_char(&mut r, to_upper_ascii(c));
        assert(source@.take(i + 1) =~= source@.take(i as int).push(c));
        assert(upper_ascii_text(source@.take(i + 1)) =~= upper_ascii_text(
            source@.take(i as int),
        ).push(upper_ascii(c)));
        i = i + 1;
    }
    r
}

/// Whether some element of `items` equals `s`.
pub fn contains_text(items: &Vec<String>, s: &String) -> (b: bool)
    ensures
        b == exists|i: int| 0 <= i < items@.len() && #[trigger] items@[i]@ == s@,
{
    let mut i: usize = 0;
    while i < items.len()
        invariant
            i <= items@.len(),
            forall|j: int| 0 <= j < i ==> #[trigger] items@[j]@ != s@,
        decreases items@.len() - i,
    {
        if items[i] == *s {
            return true;
        }
        i = i + 1;
    }
    false
}

/// `a`, then `b`, then `c`, as one text.
pub fn concat3(a: &str, b: &str, c: &str) -> (r: String)
    ensures
        r@ == a@ + b@ + c@,
{
    let mut r = String::from_str(a);
    r.append(b);
    r.append(c);
    r
}

/// Whether `s` reads exactly `lit`.
pub fn text_is(s: &String, lit: &str) -> (b: bool)
    ensures
        b == (s@ == lit@),
{
    *s == String::from_str(lit)
}

} // verus!
