//! Identifier casing rules for synthesized variant tags and builder names.
//!
//! Field and method names arrive in snake or camel case. A variant tag is
//! the Pascal-cased field name followed by the Pascal-cased method name; a
//! builder function is named by the snake-cased method name. The rules are:
//! Pascal casing drops underscores and upper-cases the character that starts
//! the word and each character that follows an underscore; snake casing
//! lower-cases every character and puts an underscore before an upper-case
//! character that does not start the word and does not follow an underscore.

use vstd::prelude::*;

verus! {

/// The upper-case form of an ASCII letter; any other character is unchanged.
pub open spec fn upper(c: char) -> char {
    let u = c as u32;
    if 97 <= u && u <= 122 {
        (((u - 32) as u8) as char)
    } else {
        c
    }
}

/// The lower-case form of an ASCII letter; any other character is unchanged.
pub open spec fn lower(c: char) -> char {
    let u = c as u32;
    if 65 <= u && u <= 90 {
        (((u + 32) as u8) as char)
    } else {
        c
    }
}

/// Whether a character is an ASCII upper-case letter.
pub open spec fn is_upper(c: char) -> bool {
    65 <= (c as u32) && (c as u32) <= 90
}

/// Pascal casing of `s` from position `i` on; `cap` says whether the next
/// ordinary character starts a word.
pub open spec fn spec_pascal_from(s: Seq<char>, i: int, cap: bool) -> Seq<char>
    decreases s.len() - i,
{
    if i < 0 || i >= s.len() {
        Seq::empty()
    } else if s[i] == '_' {
        spec_pascal_from(s, i + 1, true)
    } else if cap {
        seq![upper(s[i])] + spec_pascal_from(s, i + 1, false)
    } else {
        seq![s[i]] + spec_pascal_from(s, i + 1, false)
    }
}

/// The Pascal-cased form of an identifier.
pub open spec fn spec_pascal(s: Seq<char>) -> Seq<char> {
    spec_pascal_from(s, 0, true)
}

/// Snake casing of `s` from position `i` on.
pub open spec fn spec_snake_from(s: Seq<char>, i: int) -> Seq<char>
    decreases s.len() - i,
{
    if i < 0 || i >= s.len() {
        Seq::empty()
    } else if is_upper(s[i]) && i > 0 && s[i - 1] != '_' {
        seq!['_', lower(s[i])] + spec_snake_from(s, i + 1)
    } else {
        seq![lower(s[i])] + spec_snake_from(s, i + 1)
    }
}

/// The snake-cased form of an identifier.
pub open spec fn spec_snake(s: Seq<char>) -> Seq<char> {
    spec_snake_from(s, 0)
}

/// The tag of the variant synthesized for one filter or mutation method on
/// one field: Pascal-cased field name followed by Pascal-cased method name.
pub open spec fn spec_tag(field: Seq<char>, method: Seq<char>) -> Seq<char> {
    spec_pascal(field) + spec_pascal(method)
}

/// Relies on std's String::push: appends one character at the end of the
/// string.
#[verifier::external_body]
fn push_char(s: &mut String, c: char)
    ensures
        final(s)@ == old(s)@.push(c),
{
    s.push(c);
}

/// The upper-case form of an ASCII letter, executably.
fn upper_char(c: char) -> (r: char)
    ensures
        r == upper(c),
{
    let u = c as u32;
    if 97 <= u && u <= 122 {
        ((u - 32) as u8) as char
    } else {
        c
    }
}

/// The lower-case form of an ASCII letter, executably.
fn lower_char(c: char) -> (r: char)
    ensures
        r == lower(c),
{
    let u = c as u32;
    if 65 <= u && u <= 90 {
        ((u + 32) as u8) as char
    } else {
        c
    }
}

/// The Pascal-cased form of an identifier.
pub fn pascal_case(s: &str) -> (r: String)
    ensures
        r@ == spec_pascal(s@),
{
    let n = s.unicode_len();
    let mut out = String::new();
    let mut cap = true;
    let mut i: usize = 0;
    while i < n
        invariant
            n == s@.len(),
            0 <= i <= n,
            out@ + spec_pascal_from(s@, i as int, cap) == spec_pascal(s@),
        decreases n - i,
    {
        let c = s.get_char(i);
        proof {
            if c == '_' {
                assert(out@ + spec_pascal_from(s@, i + 1, true) =~= out@
                    + spec_pascal_from(s@, i as int, cap));
            } else if cap {
                assert((out@.push(upper(c))) + spec_pascal_from(s@, i + 1, false) =~= out@
                    + spec_pascal_from(s@, i as int, cap));
            } else {
                assert((out@.push(c)) + spec_pascal_from(s@, i + 1, false) =~= out@
                    + spec_pascal_from(s@, i as int, cap));
            }
        }
        if c == '_' {
            cap = true;
        } else if cap {
            push_char(&mut out, upper_char(c));
            cap = false;
        } else {
            push_char(&mut out, c);
            cap = false;
        }
        i = i + 1;
    }
    proof {
        assert(out@ + spec_pascal_from(s@, n as int, cap) =~= out@);
    }
    out
}

/// The snake-cased form of an identifier.
pub fn snake_case(s: &str) -> (r: String)
    ensures
        r@ == spec_snake(s@),
{
    let n = s.unicode_len();
    let mut out = String::new();
    let mut i: usize = 0;
    let mut last: char = '_';
    while i < n
        invariant
            n == s@.len(),
            0 <= i <= n,
            i > 0 ==> last == s@[i - 1],
            out@ + spec_snake_from(s@, i as int) == spec_snake(s@),
        decreases n - i,
    {
        let c = s.get_char(i);
        let boundary = i > 0 && last != '_';
        if is_upper_char(c) && boundary {
            proof {
                assert((out@.push('_').push(lower(c))) + spec_snake_from(s@, i + 1) =~= out@
                    + spec_snake_from(s@, i as int));
            }
            push_char(&mut out, '_');
            push_char(&mut out, lower_char(c));
        } else {
            proof {
                assert((out@.push(lower(c))) + spec_snake_from(s@, i + 1) =~= out@
                    + spec_snake_from(s@, i as int));
            }
            push_char(&mut out, lower_char(c));
        }
        last = c;
        i = i + 1;
    }
    proof {
        assert(out@ + spec_snake_from(s@, n as int) =~= out@);
    }
    out
}

/// Whether a character is an ASCII upper-case letter, executably.
fn is_upper_char(c: char) -> (r: bool)
    ensures
        r == is_upper(c),
{
    let u = c as u32;
    65 <= u && u <= 90
}

/// The synthesized variant tag for one method on one field.
pub fn variant_tag(field: &str, method: &str) -> (r: String)
    ensures
        r@ == spec_tag(field@, method@),
{
    let mut t = pascal_case(field);
    let m = pascal_case(method);
    t.append(m.as_str());
    t
}

/// Whether two strings hold the same characters.
pub fn str_matches(a: &str, b: &str) -> (r: bool)
    ensures
        r == (a@ == b@),
{
    let sa = a.to_owned();
    let sb = b.to_owned();
    sa == sb
}

} // verus!
