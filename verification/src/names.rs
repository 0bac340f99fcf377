//! Name resolution: the effective name of a scaffold and its
//! identifier-safe, first-letter-capitalized form.

use vstd::prelude::*;
use vstd::string::StrSliceExecFns;
use vstd::string::StringExecFns;

verus! {

/// Relies on String::push from std: appends the given character to the
/// end of the string.
pub assume_specification[ String::push ](s: &mut String, ch: char)
    ensures
        final(s)@ == old(s)@.push(ch),
;

/// The effective name: the user-supplied one when present and non-empty,
/// otherwise the variant's default.
pub open spec fn resolved(user: Option<Seq<char>>, default: Seq<char>) -> Seq<char> {
    match user {
        Option::Some(s) => if s.len() > 0 {
            s
        } else {
            default
        },
        Option::None => default,
    }
}

/// The view of an optional user-supplied name.
pub open spec fn opt_name_view(user: Option<String>) -> Option<Seq<char>> {
    match user {
        Option::Some(s) => Option::Some(s@),
        Option::None => Option::None,
    }
}

/// Returns the user-supplied name when present and non-empty, otherwise the
/// given default.
pub fn get_name(project_name: Option<String>, default: &str) -> (r: String)
    ensures
        r@ == resolved(opt_name_view(project_name), default@),
{
    match project_name {
        Option::Some(p) => {
            if p.as_str().unicode_len() > 0 {
                p
            } else {
                String::from_str(default)
            }
        },
        Option::None => String::from_str(default),
    }
}

/// The name resolver keeps a present, non-empty name and falls back to the
/// default only for an absent (or empty) one.
pub proof fn lemma_resolved(default: Seq<char>)
    ensures
        resolved(Option::None, default) == default,
        forall|s: Seq<char>| s.len() > 0 ==> resolved(Option::Some(s), default) == s,
{
}

/// A lower-case ASCII letter mapped to its upper-case form; any other
/// character unchanged.
pub open spec fn upper_char(c: char) -> char {
    if 97 <= c as u32 && c as u32 <= 122 {
        (((c as u32) - 32) as u8) as char
    } else {
        c
    }
}

/// The identifier form of a name: only the first character is upper-cased,
/// the rest is kept as it is.
pub open spec fn title_of(s: Seq<char>) -> Seq<char> {
    if s.len() == 0 {
        s
    } else {
        seq![upper_char(s[0])] + s.subrange(1, s.len() as int)
    }
}

fn upper_char_exec(c: char) -> (r: char)
    ensures
        r == upper_char(c),
{
    let code: u32 = c as u32;
    if 97 <= code && code <= 122 {
        ((code - 32) as u8) as char
    } else {
        c
    }
}

/// Upper-cases only the first character of the name, leaving the rest
/// unchanged.
pub fn to_title_case(file_name: &str) -> (r: String)
    ensures
        r@ == title_of(file_name@),
{
    let len = file_name.unicode_len();
    if len == 0 {
        let r = String::new();
        proof {
            assert(r@ =~= title_of(file_name@));
        }
        return r;
    }
    let first = file_name.get_char(0);
    let rest = file_name.substring_char(1, len);
    let mut r = String::new();
    r.push(upper_char_exec(first));
    r.append(rest);
    proof {
        assert(r@ =~= title_of(file_name@));
    }
    r
}

} // verus!
