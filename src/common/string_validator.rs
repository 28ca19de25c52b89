use unicode_segmentation::UnicodeSegmentation;
use vstd::prelude::*;

verus! {

/// Number of extended grapheme clusters in a text.
pub uninterp spec fn grapheme_count_of(s: Seq<char>) -> nat;

/// Relies on `unicode_segmentation::UnicodeSegmentation::graphemes(s, true)`,
/// counted: the count depends on the characters alone; an empty text has no
/// cluster and a non-empty text has at least one (the iterator yields `None`
/// only once its cursor reaches the end); each cluster holds at least one
/// character.
#[verifier::external_body]
fn grapheme_count(s: &str) -> (r: usize)
    ensures
        r == grapheme_count_of(s@),
        r == 0 <==> s@.len() == 0,
        r <= s@.len(),
{
    s.graphemes(true).count()
}

/// The characters that count as special.
pub open spec fn is_special_char(c: char) -> bool {
    c == '!' || c == '@' || c == '#' || c == '$' || c == '%' || c == '^' || c == '&' || c == '*'
        || c == '(' || c == ')' || c == '-' || c == '_' || c == '=' || c == '+' || c == '['
        || c == ']' || c == '{' || c == '}' || c == '\\' || c == '|' || c == ';' || c == ':'
        || c == '\'' || c == '"' || c == ',' || c == '.' || c == '<' || c == '>' || c == '/'
        || c == '?'
}

/// The character classes that a string validator can look for.
#[derive(Clone, Copy, Debug, PartialEq, Eq, Structural)]
pub enum CharClass {
    Special,
    AsciiUppercase,
    AsciiLowercase,
    AsciiDigit,
    AsciiAlphanumeric,
}

pub open spec fn in_class(k: CharClass, c: char) -> bool {
    match k {
        CharClass::Special => is_special_char(c),
        CharClass::AsciiUppercase => 'A' <= c && c <= 'Z',
        CharClass::AsciiLowercase => 'a' <= c && c <= 'z',
        CharClass::AsciiDigit => '0' <= c && c <= '9',
        CharClass::AsciiAlphanumeric => ('A' <= c && c <= 'Z') || ('a' <= c && c <= 'z') || (
        '0' <= c && c <= '9'),
    }
}

/// Number of characters of `s` in class `k`.
pub open spec fn count_in_class(s: Seq<char>, k: CharClass) -> nat
    decreases s.len(),
{
    if s.len() == 0 {
        0
    } else {
        count_in_class(s.drop_last(), k) + if in_class(k, s.last()) {
            1nat
        } else {
            0nat
        }
    }
}

/// Whether some character of `s` is in class `k`.
pub open spec fn has_in_class(s: Seq<char>, k: CharClass) -> bool {
    exists|i: int| 0 <= i < s.len() && in_class(k, #[trigger] s[i])
}

fn class_contains(k: CharClass, c: char) -> (r: bool)
    ensures
        r == in_class(k, c),
{
    match k {
        CharClass::Special => c == '!' || c == '@' || c == '#' || c == '$' || c == '%' || c == '^'
            || c == '&' || c == '*' || c == '(' || c == ')' || c == '-' || c == '_' || c == '='
            || c == '+' || c == '[' || c == ']' || c == '{' || c == '}' || c == '\\' || c == '|'
            || c == ';' || c == ':' || c == '\'' || c == '"' || c == ',' || c == '.' || c == '<'
            || c == '>' || c == '/' || c == '?',
        CharClass::AsciiUppercase => 'A' <= c && c <= 'Z',
        CharClass::AsciiLowercase => 'a' <= c && c <= 'z',
        CharClass::AsciiDigit => '0' <= c && c <= '9',
        CharClass::AsciiAlphanumeric => ('A' <= c && c <= 'Z') || ('a' <= c && c <= 'z') || (
        '0' <= c && c <= '9'),
    }
}

fn count_class(s: &str, k: CharClass) -> (r: usize)
    ensures
        r == count_in_class(s@, k),
        s@.len() <= usize::MAX,
{
    let n = s.unicode_len();
    let mut count: usize = 0;
    for c in it: s.chars()
        invariant
            n == s@.len(),
            it.seq() == s@,
            count == count_in_class(s@.take(it.index() as int), k),
            count <= it.index(),
    {
        assert(s@.take(it.index() + 1).drop_last() == s@.take(it.index() as int));
        if class_contains(k, c) {
            count = count + 1;
        }
    }
    assert(s@.take(s@.len() as int) == s@);
    count
}

fn any_in_class(s: &str, k: CharClass) -> (r: bool)
    ensures
        r == has_in_class(s@, k),
{
    for c in it: s.chars()
        invariant
            it.seq() == s@,
            forall|j: int| 0 <= j < it.index() ==> !in_class(k, #[trigger] s@[j]),
    {
        if class_contains(k, c) {
            return true;
        }
    }
    false
}

/// A text together with its grapheme count, computed once on construction.
pub struct StringValidator<'a>(&'a str, usize);

impl<'a> View for StringValidator<'a> {
    type V = Seq<char>;

    closed spec fn view(&self) -> Seq<char> {
        self.0@
    }
}

impl<'a> StringValidator<'a> {
    #[verifier::type_invariant]
    spec fn inv(&self) -> bool {
        &&& self.1 == grapheme_count_of(self.0@)
        &&& (self.1 == 0) == (self.0@.len() == 0)
    }

    fn new(s: &'a str) -> (r: Self)
        ensures
            r@ == s@,
    {
        StringValidator(s, grapheme_count(s))
    }

    /// Number of grapheme clusters (not bytes, not code points).
    pub fn count_graphemes(&self) -> (r: usize)
        ensures
            r == grapheme_count_of(self@),
    {
        proof {
            use_type_invariant(self);
        }
        self.1
    }

    /// True when the text has no grapheme cluster at all.
    pub fn is_empty(&self) -> (r: bool)
        ensures
            r == (grapheme_count_of(self@) == 0),
            r == (self@.len() == 0),
    {
        proof {
            use_type_invariant(self);
        }
        self.1 == 0
    }

    pub fn has_special_chars(&self) -> (r: bool)
        ensures
            r == has_in_class(self@, CharClass::Special),
    {
        any_in_class(self.0, CharClass::Special)
    }

    pub fn count_special_chars(&self) -> (r: usize)
        ensures
            r == count_in_class(self@, CharClass::Special),
    {
        count_class(self.0, CharClass::Special)
    }

    pub fn has_ascii_uppercase(&self) -> (r: bool)
        ensures
            r == has_in_class(self@, CharClass::AsciiUppercase),
    {
        any_in_class(self.0, CharClass::AsciiUppercase)
    }

    pub fn count_ascii_uppercase(&self) -> (r: usize)
        ensures
            r == count_in_class(self@, CharClass::AsciiUppercase),
    {
        count_class(self.0, CharClass::AsciiUppercase)
    }

    pub fn has_ascii_lowercase(&self) -> (r: bool)
        ensures
            r == has_in_class(self@, CharClass::AsciiLowercase),
    {
        any_in_class(self.0, CharClass::AsciiLowercase)
    }

    pub fn count_ascii_lowercase(&self) -> (r: usize)
        ensures
            r == count_in_class(self@, CharClass::AsciiLowercase),
    {
        count_class(self.0, CharClass::AsciiLowercase)
    }

    pub fn has_ascii_uppercase_and_lowercase(&self) -> (r: bool)
        ensures
            r == (has_in_class(self@, CharClass::AsciiUppercase) && has_in_class(
                self@,
                CharClass::AsciiLowercase,
            )),
    {
        self.has_ascii_uppercase() && self.has_ascii_lowercase()
    }

    /// Total of ASCII upper- and lowercase letters.
    pub fn count_ascii_uppercase_and_lowercase(&self) -> (r: usize)
        ensures
            r == count_in_class(self@, CharClass::AsciiUppercase) + count_in_class(
                self@,
                CharClass::AsciiLowercase,
            ),
    {
        let upper = count_class(self.0, CharClass::AsciiUppercase);
        let lower = count_class(self.0, CharClass::AsciiLowercase);
        proof {
            lemma_upper_lower_disjoint(self@);
        }
        upper + lower
    }

    pub fn has_ascii_digit(&self) -> (r: bool)
        ensures
            r == has_in_class(self@, CharClass::AsciiDigit),
    {
        any_in_class(self.0, CharClass::AsciiDigit)
    }

    pub fn count_ascii_digit(&self) -> (r: usize)
        ensures
            r == count_in_class(self@, CharClass::AsciiDigit),
    {
        count_class(self.0, CharClass::AsciiDigit)
    }

    pub fn has_ascii_alphanumeric(&self) -> (r: bool)
        ensures
            r == has_in_class(self@, CharClass::AsciiAlphanumeric),
    {
        any_in_class(self.0, CharClass::AsciiAlphanumeric)
    }

    pub fn count_ascii_alphanumeric(&self) -> (r: usize)
        ensures
            r == count_in_class(self@, CharClass::AsciiAlphanumeric),
    {
        count_class(self.0, CharClass::AsciiAlphanumeric)
    }
}

/// Upper- and lowercase letters together never outnumber the characters.
proof fn lemma_upper_lower_disjoint(s: Seq<char>)
    ensures
        count_in_class(s, CharClass::AsciiUppercase) + count_in_class(s, CharClass::AsciiLowercase)
            <= s.len(),
    decreases s.len(),
{
    if s.len() > 0 {
        lemma_upper_lower_disjoint(s.drop_last());
    }
}

trait StrSealed {

}

/// Turns a string into a `StringValidator`.
#[allow(private_bounds)]
pub trait StrValidationExtension: StrSealed {
    spec fn text(&self) -> Seq<char>;

    fn as_string_validator(&self) -> (r: StringValidator<'_>)
        ensures
            r@ == self.text(),
    ;
}

impl StrSealed for &str {

}

impl StrValidationExtension for &str {
    open spec fn text(&self) -> Seq<char> {
        (*self)@
    }

    fn as_string_validator(&self) -> (r: StringValidator<'_>) {
        StringValidator::new(self)
    }
}

impl StrSealed for String {

}

impl StrValidationExtension for String {
    open spec fn text(&self) -> Seq<char> {
        self@
    }

    fn as_string_validator(&self) -> (r: StringValidator<'_>) {
        StringValidator::new(self.as_str())
    }
}

} // verus!
