//! Lexical layer of the template grammar: character classes and scanners
//! over the characters of one input line.
//!
//! Every executable scanner is proved equal to a spec-level scanning
//! function; the line parsers state their contracts in terms of these spec
//! functions.

use vstd::prelude::*;

verus! {

/// Identifier characters: ASCII letters, digits, `_` and `-`.
pub open spec fn spec_is_ident_char(c: char) -> bool {
    (0x41 <= (c as u32) && (c as u32) <= 0x5A)  // uppercase letters
    || (0x30 <= (c as u32) && (c as u32) <= 0x39)  // digits
    || (0x61 <= (c as u32) && (c as u32) <= 0x7A)  // lowercase letters
    || c == '_' || c == '-'
}

/// Characters allowed inside a quoted pattern string: printable ASCII except
/// whitespace and both quote characters.
pub open spec fn spec_is_regex_char(c: char) -> bool {
    c != '"' && c != '\'' && 0x20 < (c as u32) && (c as u32) < 0x7F
}

/// ASCII digits, the characters of a permission string.
pub open spec fn spec_is_digit_char(c: char) -> bool {
    0x30 <= (c as u32) && (c as u32) <= 0x39
}

/// Horizontal whitespace: space and tab.
pub open spec fn spec_is_space(c: char) -> bool {
    c == ' ' || c == '\t'
}

/// Whitespace including line ends: space, tab, carriage return, newline.
pub open spec fn spec_is_multispace(c: char) -> bool {
    c == ' ' || c == '\t' || c == '\r' || c == '\n'
}

#[verifier::when_used_as_spec(spec_is_ident_char)]
pub fn is_ident_char(c: char) -> (r: bool)
    ensures
        r == spec_is_ident_char(c),
{
    let u = c as u32;
    (0x41 <= u && u <= 0x5A) || (0x30 <= u && u <= 0x39) || (0x61 <= u && u <= 0x7A) || c == '_'
        || c == '-'
}

#[verifier::when_used_as_spec(spec_is_regex_char)]
pub fn is_regex_char(c: char) -> (r: bool)
    ensures
        r == spec_is_regex_char(c),
{
    let u = c as u32;
    c != '"' && c != '\'' && 0x20 < u && u < 0x7F
}

#[verifier::when_used_as_spec(spec_is_digit_char)]
pub fn is_digit_char(c: char) -> (r: bool)
    ensures
        r == spec_is_digit_char(c),
{
    let u = c as u32;
    0x30 <= u && u <= 0x39
}

#[verifier::when_used_as_spec(spec_is_space)]
pub fn is_space(c: char) -> (r: bool)
    ensures
        r == spec_is_space(c),
{
    c == ' ' || c == '\t'
}

#[verifier::when_used_as_spec(spec_is_multispace)]
pub fn is_multispace(c: char) -> (r: bool)
    ensures
        r == spec_is_multispace(c),
{
    c == ' ' || c == '\t' || c == '\r' || c == '\n'
}

/// Position of the first character at or after `i` that is not horizontal
/// whitespace (or the end of the line).
pub open spec fn skip_spaces_from(s: Seq<char>, i: int) -> int
    decreases s.len() - i,
{
    if 0 <= i && i < s.len() && spec_is_space(s[i]) {
        skip_spaces_from(s, i + 1)
    } else {
        i
    }
}

/// Position of the first character at or after `i` that is not whitespace of
/// any kind (or the end of the line).
pub open spec fn skip_multispace_from(s: Seq<char>, i: int) -> int
    decreases s.len() - i,
{
    if 0 <= i && i < s.len() && spec_is_multispace(s[i]) {
        skip_multispace_from(s, i + 1)
    } else {
        i
    }
}

/// End of the run of identifier characters that starts at `i`.
pub open spec fn scan_ident_from(s: Seq<char>, i: int) -> int
    decreases s.len() - i,
{
    if 0 <= i && i < s.len() && spec_is_ident_char(s[i]) {
        scan_ident_from(s, i + 1)
    } else {
        i
    }
}

/// End of the run of quoted-pattern characters that starts at `i`.
pub open spec fn scan_regex_from(s: Seq<char>, i: int) -> int
    decreases s.len() - i,
{
    if 0 <= i && i < s.len() && spec_is_regex_char(s[i]) {
        scan_regex_from(s, i + 1)
    } else {
        i
    }
}

/// End of the run of digit characters that starts at `i`.
pub open spec fn scan_digits_from(s: Seq<char>, i: int) -> int
    decreases s.len() - i,
{
    if 0 <= i && i < s.len() && spec_is_digit_char(s[i]) {
        scan_digits_from(s, i + 1)
    } else {
        i
    }
}

pub broadcast proof fn lemma_skip_spaces_from_bounds(s: Seq<char>, i: int)
    requires
        0 <= i <= s.len(),
    ensures
        i <= #[trigger] skip_spaces_from(s, i) <= s.len(),
    decreases s.len() - i,
{
    if i < s.len() && spec_is_space(s[i]) {
        lemma_skip_spaces_from_bounds(s, i + 1);
    }
}

pub broadcast proof fn lemma_skip_multispace_from_bounds(s: Seq<char>, i: int)
    requires
        0 <= i <= s.len(),
    ensures
        i <= #[trigger] skip_multispace_from(s, i) <= s.len(),
    decreases s.len() - i,
{
    if i < s.len() && spec_is_multispace(s[i]) {
        lemma_skip_multispace_from_bounds(s, i + 1);
    }
}

pub broadcast proof fn lemma_scan_ident_from_bounds(s: Seq<char>, i: int)
    requires
        0 <= i <= s.len(),
    ensures
        i <= #[trigger] scan_ident_from(s, i) <= s.len(),
    decreases s.len() - i,
{
    if i < s.len() && spec_is_ident_char(s[i]) {
        lemma_scan_ident_from_bounds(s, i + 1);
    }
}

pub broadcast proof fn lemma_scan_regex_from_bounds(s: Seq<char>, i: int)
    requires
        0 <= i <= s.len(),
    ensures
        i <= #[trigger] scan_regex_from(s, i) <= s.len(),
    decreases s.len() - i,
{
    if i < s.len() && spec_is_regex_char(s[i]) {
        lemma_scan_regex_from_bounds(s, i + 1);
    }
}

pub broadcast proof fn lemma_scan_digits_from_bounds(s: Seq<char>, i: int)
    requires
        0 <= i <= s.len(),
    ensures
        i <= #[trigger] scan_digits_from(s, i) <= s.len(),
    decreases s.len() - i,
{
    if i < s.len() && spec_is_digit_char(s[i]) {
        lemma_scan_digits_from_bounds(s, i + 1);
    }
}

/// Executable form of [`skip_spaces_from`].
pub fn skip_spaces(s: &str, start: usize) -> (r: usize)
    requires
        start <= s@.len(),
    ensures
        r == skip_spaces_from(s@, start as int),
        start <= r <= s@.len(),
{
    let len = s.unicode_len();
    let mut i = start;
    while i < len && is_space(s.get_char(i))
        invariant
            start <= i <= len,
            len == s@.len(),
            skip_spaces_from(s@, start as int) == skip_spaces_from(s@, i as int),
        decreases len - i,
    {
        i = i + 1;
    }
    i
}

/// Executable form of [`skip_multispace_from`].
pub fn skip_multispace(s: &str, start: usize) -> (r: usize)
    requires
        start <= s@.len(),
    ensures
        r == skip_multispace_from(s@, start as int),
        start <= r <= s@.len(),
{
    let len = s.unicode_len();
    let mut i = start;
    while i < len && is_multispace(s.get_char(i))
        invariant
            start <= i <= len,
            len == s@.len(),
            skip_multispace_from(s@, start as int) == skip_multispace_from(s@, i as int),
        decreases len - i,
    {
        i = i + 1;
    }
    i
}

/// Executable form of [`scan_ident_from`].
pub fn scan_ident(s: &str, start: usize) -> (r: usize)
    requires
        start <= s@.len(),
    ensures
        r == scan_ident_from(s@, start as int),
        start <= r <= s@.len(),
{
    let len = s.unicode_len();
    let mut i = start;
    while i < len && is_ident_char(s.get_char(i))
        invariant
            start <= i <= len,
            len == s@.len(),
            scan_ident_from(s@, start as int) == scan_ident_from(s@, i as int),
        decreases len - i,
    {
        i = i + 1;
    }
    i
}

/// Executable form of [`scan_regex_from`].
pub fn scan_regex(s: &str, start: usize) -> (r: usize)
    requires
        start <= s@.len(),
    ensures
        r == scan_regex_from(s@, start as int),
        start <= r <= s@.len(),
{
    let len = s.unicode_len();
    let mut i = start;
    while i < len && is_regex_char(s.get_char(i))
        invariant
            start <= i <= len,
            len == s@.len(),
            scan_regex_from(s@, start as int) == scan_regex_from(s@, i as int),
        decreases len - i,
    {
        i = i + 1;
    }
    i
}

/// Executable form of [`scan_digits_from`].
pub fn scan_digits(s: &str, start: usize) -> (r: usize)
    requires
        start <= s@.len(),
    ensures
        r == scan_digits_from(s@, start as int),
        start <= r <= s@.len(),
{
    let len = s.unicode_len();
    let mut i = start;
    while i < len && is_digit_char(s.get_char(i))
        invariant
            start <= i <= len,
            len == s@.len(),
            scan_digits_from(s@, start as int) == scan_digits_from(s@, i as int),
        decreases len - i,
    {
        i = i + 1;
    }
    i
}

/// End of the identifier that starts at position `i` of an edge chain: as
/// the plain identifier scan, except that a `-` that begins an arrow `->`
/// ends the identifier, since `-` is itself an identifier character.
pub open spec fn scan_edge_ident_from(s: Seq<char>, i: int) -> int
    decreases s.len() - i,
{
    if 0 <= i && i < s.len() && spec_is_ident_char(s[i]) && !(s[i] == '-' && i + 1 < s.len()
        && s[i + 1] == '>') {
        scan_edge_ident_from(s, i + 1)
    } else {
        i
    }
}

pub broadcast proof fn lemma_scan_edge_ident_from_bounds(s: Seq<char>, i: int)
    requires
        0 <= i <= s.len(),
    ensures
        i <= #[trigger] scan_edge_ident_from(s, i) <= s.len(),
    decreases s.len() - i,
{
    if i < s.len() && spec_is_ident_char(s[i]) && !(s[i] == '-' && i + 1 < s.len() && s[i + 1]
        == '>') {
        lemma_scan_edge_ident_from_bounds(s, i + 1);
    }
}

/// Executable form of [`scan_edge_ident_from`].
pub fn scan_edge_ident(s: &str, start: usize) -> (r: usize)
    requires
        start <= s@.len(),
    ensures
        r == scan_edge_ident_from(s@, start as int),
        start <= r <= s@.len(),
{
    let len = s.unicode_len();
    let mut i = start;
    while i < len && is_ident_char(s.get_char(i)) && !(s.get_char(i) == '-' && i + 1 < len
        && s.get_char(i + 1) == '>')
        invariant
            start <= i <= len,
            len == s@.len(),
            scan_edge_ident_from(s@, start as int) == scan_edge_ident_from(s@, i as int),
        decreases len - i,
    {
        i = i + 1;
    }
    i
}

/// View of a sequence of strings as a sequence of character sequences.
pub open spec fn strs_view(s: Seq<String>) -> Seq<Seq<char>> {
    s.map_values(|x: String| x@)
}

/// The scanning bounds, available wherever the scanners appear.
pub broadcast group group_scan_bounds {
    lemma_scan_edge_ident_from_bounds,
    lemma_skip_spaces_from_bounds,
    lemma_skip_multispace_from_bounds,
    lemma_scan_ident_from_bounds,
    lemma_scan_regex_from_bounds,
    lemma_scan_digits_from_bounds,
}

/// Character-by-character string equality, usable on scanned fragments.
pub fn str_eq(a: &str, b: &str) -> (r: bool)
    ensures
        r == (a@ == b@),
{
    let alen = a.unicode_len();
    let blen = b.unicode_len();
    if alen != blen {
        assert(a@ != b@) by {
            assert(a@.len() != b@.len());
        }
        return false;
    }
    let mut i: usize = 0;
    while i < alen
        invariant
            0 <= i <= alen,
            alen == a@.len(),
            alen == b@.len(),
            forall|k: int| 0 <= k < i ==> a@[k] == b@[k],
        decreases alen - i,
    {
        if a.get_char(i) != b.get_char(i) {
            assert(a@ != b@);
            return false;
        }
        i = i + 1;
    }
    proof {
        assert(a@ =~= b@);
    }
    true
}

/// Takes the run of identifier characters at the head of the input; the
/// result is the pair of the remaining input and the matched run. At least
/// one identifier character must be present.
pub fn variable(input: &str) -> (r: Option<(String, String)>)
    ensures
        r is Some <==> scan_ident_from(input@, 0) > 0,
        r matches Some((rest, m)) ==> ({
            let j = scan_ident_from(input@, 0);
            &&& m@ == input@.subrange(0, j)
            &&& rest@ == input@.subrange(j, input@.len() as int)
        }),
{
    let len = input.unicode_len();
    let j = scan_ident(input, 0);
    if j == 0 {
        None
    } else {
        let m = input.substring_char(0, j);
        let rest = input.substring_char(j, len);
        Some((rest.to_owned(), m.to_owned()))
    }
}

/// Takes the run of quoted-pattern characters at the head of the input; the
/// result is the pair of the remaining input and the matched run. At least
/// one pattern character must be present.
pub fn regex_str(input: &str) -> (r: Option<(String, String)>)
    ensures
        r is Some <==> scan_regex_from(input@, 0) > 0,
        r matches Some((rest, m)) ==> ({
            let j = scan_regex_from(input@, 0);
            &&& m@ == input@.subrange(0, j)
            &&& rest@ == input@.subrange(j, input@.len() as int)
        }),
{
    let len = input.unicode_len();
    let j = scan_regex(input, 0);
    if j == 0 {
        None
    } else {
        let m = input.substring_char(0, j);
        let rest = input.substring_char(j, len);
        Some((rest.to_owned(), m.to_owned()))
    }
}

/// What a quoted pattern at position `i` spans: `Some((content, end))` when a
/// double quote stands at `i`, at least one pattern character follows, and a
/// closing double quote follows the run; `end` is the position after the
/// closing quote.
pub open spec fn spec_quoted_at(s: Seq<char>, i: int) -> Option<(Seq<char>, int)> {
    if 0 <= i && i < s.len() && s[i] == '"' {
        let j = scan_regex_from(s, i + 1);
        if j > i + 1 && j < s.len() && s[j] == '"' {
            Some((s.subrange(i + 1, j), j + 1))
        } else {
            None
        }
    } else {
        None
    }
}

/// Executable form of [`spec_quoted_at`]: reads one quoted pattern string at
/// position `i`, returning its content and the position after it.
pub fn quoted_at(input: &str, i: usize) -> (r: Option<(String, usize)>)
    requires
        i <= input@.len(),
    ensures
        r is Some <==> spec_quoted_at(input@, i as int) is Some,
        r matches Some((content, end)) ==> ({
            &&& spec_quoted_at(input@, i as int) matches Some((c, e))
            &&& content@ == c
            &&& end == e
            &&& i < end <= input@.len()
        }),
{
    let len = input.unicode_len();
    if i < len && input.get_char(i) == '"' {
        let j = scan_regex(input, i + 1);
        if j > i + 1 && j < len && input.get_char(j) == '"' {
            let content = input.substring_char(i + 1, j);
            Some((content.to_owned(), j + 1))
        } else {
            None
        }
    } else {
        None
    }
}

/// Takes a double-quoted pattern string at the head of the input; the result
/// is the pair of the remaining input and the content between the quotes.
pub fn quoted_regex_str(input: &str) -> (r: Option<(String, String)>)
    ensures
        r is Some <==> spec_quoted_at(input@, 0) is Some,
        r matches Some((rest, m)) ==> ({
            &&& spec_quoted_at(input@, 0) matches Some((c, e))
            &&& m@ == c
            &&& rest@ == input@.subrange(e, input@.len() as int)
        }),
{
    let len = input.unicode_len();
    match quoted_at(input, 0) {
        Some((content, end)) => {
            let rest = input.substring_char(end, len);
            Some((rest.to_owned(), content))
        },
        None => None,
    }
}

} // verus!
