//! Identifier case conversion: snake_case, PascalCase and camelCase.
//!
//! A name is split into words at separators (`_`, `-`, space) and where an upper-case
//! letter follows a lower-case letter or a digit. Case changes touch ASCII letters only.

use vstd::prelude::*;
use vstd::string::StrSliceExecFns;

verus! {

pub open spec fn is_upper(c: char) -> bool {
    'A' <= c && c <= 'Z'
}

pub open spec fn is_lower(c: char) -> bool {
    'a' <= c && c <= 'z'
}

pub open spec fn is_digit(c: char) -> bool {
    '0' <= c && c <= '9'
}

/// A character that separates words and is dropped from every converted name.
pub open spec fn is_separator(c: char) -> bool {
    c == '_' || c == '-' || c == ' '
}

pub open spec fn to_upper(c: char) -> char {
    if is_lower(c) {
        ((c as u32) - 32) as char
    } else {
        c
    }
}

pub open spec fn to_lower(c: char) -> char {
    if is_upper(c) {
        ((c as u32) + 32) as char
    } else {
        c
    }
}

/// Whether the character at `i` begins a word.
pub open spec fn starts_word(s: Seq<char>, i: int) -> bool {
    &&& !is_separator(s[i])
    &&& (i == 0 || is_separator(s[i - 1]) || ((is_lower(s[i - 1]) || is_digit(s[i - 1]))
        && is_upper(s[i])))
}

/// PascalCase: every word capitalised, the rest of it lower case, no separators.
pub open spec fn pascal_case(s: Seq<char>) -> Seq<char>
    decreases s.len(),
{
    if s.len() == 0 {
        Seq::empty()
    } else {
        let i = s.len() - 1;
        let p = pascal_case(s.drop_last());
        if is_separator(s[i]) {
            p
        } else if starts_word(s, i) {
            p.push(to_upper(s[i]))
        } else {
            p.push(to_lower(s[i]))
        }
    }
}

/// camelCase: as PascalCase, but the first word is all lower case.
pub open spec fn camel_case(s: Seq<char>) -> Seq<char>
    decreases s.len(),
{
    if s.len() == 0 {
        Seq::empty()
    } else {
        let i = s.len() - 1;
        let p = camel_case(s.drop_last());
        if is_separator(s[i]) {
            p
        } else if starts_word(s, i) && p.len() > 0 {
            p.push(to_upper(s[i]))
        } else {
            p.push(to_lower(s[i]))
        }
    }
}

/// snake_case: all lower case, words joined by `_`.
pub open spec fn snake_case(s: Seq<char>) -> Seq<char>
    decreases s.len(),
{
    if s.len() == 0 {
        Seq::empty()
    } else {
        let i = s.len() - 1;
        let p = snake_case(s.drop_last());
        if is_separator(s[i]) {
            p
        } else if starts_word(s, i) && p.len() > 0 {
            p.push('_').push(to_lower(s[i]))
        } else {
            p.push(to_lower(s[i]))
        }
    }
}

/// The name with its first character made lower case.
pub open spec fn decapitalize(s: Seq<char>) -> Seq<char> {
    if s.len() == 0 {
        s
    } else {
        s.update(0, to_lower(s[0]))
    }
}

proof fn lemma_lower_of_upper(c: char)
    ensures
        to_lower(to_upper(c)) == to_lower(c),
        !is_upper(to_lower(c)),
        !is_separator(c) ==> !is_separator(to_upper(c)) && !is_separator(to_lower(c)),
{
}

proof fn lemma_empty_pascal_ends_in_separator(s: Seq<char>)
    requires
        s.len() > 0,
        pascal_case(s).len() == 0,
    ensures
        is_separator(s.last()),
{
}

/// Converting to camelCase is converting to PascalCase and then lower-casing the
/// first character; both drop the same characters.
pub proof fn lemma_camel_is_decapitalized_pascal(s: Seq<char>)
    ensures
        camel_case(s) == decapitalize(pascal_case(s)),
        camel_case(s).len() == pascal_case(s).len(),
    decreases s.len(),
{
    if s.len() > 0 {
        let t = s.drop_last();
        let i = s.len() - 1;
        lemma_camel_is_decapitalized_pascal(t);
        lemma_lower_of_upper(s[i]);
        let p = pascal_case(t);
        let c = camel_case(t);
        if !is_separator(s[i]) {
            if p.len() == 0 {
                if i > 0 {
                    lemma_empty_pascal_ends_in_separator(t);
                    assert(s[i - 1] == t.last());
                }
                assert(starts_word(s, i));
                assert(decapitalize(p.push(to_upper(s[i]))) =~= c.push(to_lower(s[i])));
            } else {
                assert(decapitalize(p.push(to_upper(s[i]))) =~= decapitalize(p).push(
                    to_upper(s[i]),
                ));
                assert(decapitalize(p.push(to_lower(s[i]))) =~= decapitalize(p).push(
                    to_lower(s[i]),
                ));
            }
        }
    }
}

/// PascalCase and camelCase names hold no separator; snake_case names hold no
/// upper-case letter.
pub proof fn lemma_case_outputs(s: Seq<char>)
    ensures
        forall|j: int| 0 <= j < pascal_case(s).len() ==> !is_separator(#[trigger] pascal_case(s)[j]),
        forall|j: int| 0 <= j < camel_case(s).len() ==> !is_separator(#[trigger] camel_case(s)[j]),
        forall|j: int| 0 <= j < snake_case(s).len() ==> !is_upper(#[trigger] snake_case(s)[j]),
    decreases s.len(),
{
    if s.len() > 0 {
        let t = s.drop_last();
        lemma_case_outputs(t);
        lemma_lower_of_upper(s.last());
        let c = s.last();
        assert(!is_upper('_'));
        assert forall|j: int| 0 <= j < pascal_case(s).len() implies !is_separator(
            #[trigger] pascal_case(s)[j],
        ) by {
            if j < pascal_case(t).len() {
                assert(pascal_case(s)[j] == pascal_case(t)[j]);
            }
        }
        assert forall|j: int| 0 <= j < camel_case(s).len() implies !is_separator(
            #[trigger] camel_case(s)[j],
        ) by {
            if j < camel_case(t).len() {
                assert(camel_case(s)[j] == camel_case(t)[j]);
            }
        }
        assert forall|j: int| 0 <= j < snake_case(s).len() implies !is_upper(
            #[trigger] snake_case(s)[j],
        ) by {
            if j < snake_case(t).len() {
                assert(snake_case(s)[j] == snake_case(t)[j]);
            }
        }
    }
}

/// A PascalCase name never starts with a lower-case letter, a camelCase name never
/// with an upper-case one.
pub proof fn lemma_case_first_char(s: Seq<char>)
    ensures
        pascal_case(s).len() > 0 ==> !is_lower(pascal_case(s)[0]),
        camel_case(s).len() > 0 ==> !is_upper(camel_case(s)[0]),
    decreases s.len(),
{
    if s.len() > 0 {
        let t = s.drop_last();
        let i = s.len() - 1;
        lemma_case_first_char(t);
        lemma_camel_is_decapitalized_pascal(t);
        lemma_lower_of_upper(s[i]);
        if pascal_case(t).len() == 0 && !is_separator(s[i]) {
            if i > 0 {
                lemma_empty_pascal_ends_in_separator(t);
                assert(s[i - 1] == t.last());
            }
            assert(starts_word(s, i));
            assert(pascal_case(s)[0] == to_upper(s[i]));
        } else if pascal_case(t).len() > 0 {
            assert(pascal_case(s)[0] == pascal_case(t)[0]);
            assert(camel_case(s)[0] == camel_case(t)[0]);
        }
    }
}

/// In a snake_case name every `_` stands between two other characters: none leads,
/// none ends the name, and no two are adjacent.
pub proof fn lemma_snake_underscores(s: Seq<char>)
    ensures
        snake_case(s).len() > 0 ==> snake_case(s)[0] != '_' && snake_case(s).last() != '_',
        forall|j: int|
            0 <= j < snake_case(s).len() - 1 && #[trigger] snake_case(s)[j] == '_' ==> snake_case(s)[j
                + 1] != '_',
    decreases s.len(),
{
    if s.len() > 0 {
        let t = s.drop_last();
        let c = s.last();
        lemma_snake_underscores(t);
        lemma_lower_of_upper(c);
        let p = snake_case(t);
        let q = snake_case(s);
        if !is_separator(c) {
            assert(to_lower(c) != '_');
            if p.len() > 0 {
                assert(q[0] == p[0]);
            }
            assert forall|j: int| 0 <= j < q.len() - 1 && #[trigger] q[j] == '_' implies q[j + 1] != '_' by {
                if j + 1 < p.len() {
                    assert(q[j] == p[j]);
                    assert(q[j + 1] == p[j + 1]);
                } else if j + 1 == p.len() {
                    assert(q[j] == p.last());
                }
            }
        }
    }
}

/// The characters of `s` that are not separators, in order.
pub open spec fn strip_separators(s: Seq<char>) -> Seq<char>
    decreases s.len(),
{
    if s.len() == 0 {
        Seq::empty()
    } else if is_separator(s.last()) {
        strip_separators(s.drop_last())
    } else {
        strip_separators(s.drop_last()).push(s.last())
    }
}

/// `s` with every ASCII upper-case letter made lower case.
pub open spec fn lower_all(s: Seq<char>) -> Seq<char> {
    s.map_values(|c: char| to_lower(c))
}

proof fn lemma_lower_all_push(s: Seq<char>, c: char)
    ensures
        lower_all(s.push(c)) == lower_all(s).push(to_lower(c)),
{
    assert(lower_all(s.push(c)) =~= lower_all(s).push(to_lower(c)));
}

/// The case conversions keep a name's characters and change only their case: PascalCase
/// and camelCase drop the separators; snake_case drops them too and puts `_` between
/// words, so that without its underscores it is the name's characters in lower case.
pub proof fn lemma_case_keeps_characters(s: Seq<char>)
    ensures
        lower_all(pascal_case(s)) == lower_all(strip_separators(s)),
        lower_all(camel_case(s)) == lower_all(strip_separators(s)),
        strip_separators(snake_case(s)) == lower_all(strip_separators(s)),
    decreases s.len(),
{
    if s.len() > 0 {
        let t = s.drop_last();
        let c = s.last();
        lemma_case_keeps_characters(t);
        lemma_lower_of_upper(c);
        assert(to_lower(to_lower(c)) == to_lower(c));
        if !is_separator(c) {
            lemma_lower_all_push(strip_separators(t), c);
            lemma_lower_all_push(pascal_case(t), to_upper(c));
            lemma_lower_all_push(pascal_case(t), to_lower(c));
            lemma_lower_all_push(camel_case(t), to_upper(c));
            lemma_lower_all_push(camel_case(t), to_lower(c));
            let p = snake_case(t);
            assert(p.push('_').push(to_lower(c)).drop_last() == p.push('_'));
            assert(p.push('_').drop_last() == p);
            assert(p.push(to_lower(c)).drop_last() == p);
            assert(strip_separators(p.push('_')) == strip_separators(p));
            assert(strip_separators(p.push('_').push(to_lower(c))) == strip_separators(p).push(
                to_lower(c),
            ));
            assert(strip_separators(p.push(to_lower(c))) == strip_separators(p).push(to_lower(c)));
            assert(strip_separators(s) == strip_separators(t).push(c));
        }
    }
}

fn char_to_upper(c: char) -> (r: char)
    ensures
        r == to_upper(c),
{
    if 'a' <= c && c <= 'z' {
        let b = c as u8;
        (b - 32) as char
    } else {
        c
    }
}

fn char_to_lower(c: char) -> (r: char)
    ensures
        r == to_lower(c),
{
    if 'A' <= c && c <= 'Z' {
        let b = c as u8;
        (b + 32) as char
    } else {
        c
    }
}

fn char_is_separator(c: char) -> (r: bool)
    ensures
        r == is_separator(c),
{
    c == '_' || c == '-' || c == ' '
}

/// Calls `String::push`: the string gains the character at its end.
#[verifier::external_body]
pub(crate) fn push_char(s: &mut String, c: char)
    ensures
        final(s)@ == old(s)@.push(c),
{
    s.push(c)
}

/// Whether the character at `i` of `name` begins a word.
fn word_starts_at(name: &str, i: usize) -> (r: bool)
    requires
        i < name@.len(),
    ensures
        r == starts_word(name@, i as int),
{
    let c = name.get_char(i);
    if char_is_separator(c) {
        return false;
    }
    if i == 0 {
        return true;
    }
    let p = name.get_char(i - 1);
    char_is_separator(p) || ((('a' <= p && p <= 'z') || ('0' <= p && p <= '9')) && 'A' <= c
        && c <= 'Z')
}

/// Which of the three conversions to apply.
#[derive(Clone, Copy, PartialEq, Eq, Structural)]
enum Case {
    Pascal,
    Camel,
    Snake,
}

spec fn spec_convert(case: Case, s: Seq<char>) -> Seq<char> {
    match case {
        Case::Pascal => pascal_case(s),
        Case::Camel => camel_case(s),
        Case::Snake => snake_case(s),
    }
}

fn convert(name: &str, case: Case) -> (r: String)
    ensures
        r@ == spec_convert(case, name@),
{
    let n = name.unicode_len();
    let mut out = String::new();
    let mut i: usize = 0;
    while i < n
        invariant
            n == name@.len(),
            i <= n,
            out@ == spec_convert(case, name@.take(i as int)),
        decreases n - i,
    {
        let c = name.get_char(i);
        let start = word_starts_at(name, i);
        let ghost prefix = name@.take(i as int);
        let ghost next = name@.take(i + 1);
        assert(next.drop_last() =~= prefix);
        assert(next[i as int] == c);
        assert(starts_word(next, i as int) == starts_word(name@, i as int));
        if char_is_separator(c) {
        } else if start && (case == Case::Pascal || out.as_str().unicode_len() > 0) {
            match case {
                Case::Snake => {
                    push_char(&mut out, '_');
                    push_char(&mut out, char_to_lower(c));
                },
                _ => push_char(&mut out, char_to_upper(c)),
            }
        } else {
            push_char(&mut out, char_to_lower(c));
        }
        i = i + 1;
    }
    assert(name@.take(n as int) =~= name@);
    out
}

/// The name in PascalCase.
pub fn to_pascal_case(name: &str) -> (r: String)
    ensures
        r@ == pascal_case(name@),
{
    convert(name, Case::Pascal)
}

/// The name in camelCase.
pub fn to_camel_case(name: &str) -> (r: String)
    ensures
        r@ == camel_case(name@),
{
    convert(name, Case::Camel)
}

/// The name in snake_case.
pub fn to_snake_case(name: &str) -> (r: String)
    ensures
        r@ == snake_case(name@),
{
    convert(name, Case::Snake)
}

} // verus!
