//! Text handling: strings that live for the rest of the program, equality of
//! string slices, and the clean-up of names typed into the interface.

use vstd::prelude::*;
use regex::Regex;

verus! {

/// `PartialEq::eq` of std on string slices: equal exactly when they hold the
/// same characters.
pub assume_specification[ <str as PartialEq>::eq ](a: &str, b: &str) -> (equal: bool)
    ensures
        equal == (a@ == b@),
;

/// `String::leak` of std: the string's contents, kept for the rest of the
/// program.
#[verifier::external_body]
fn leak_string(s: String) -> (leaked: &'static str)
    ensures
        leaked@ == s@,
{
    s.leak()
}

/// Gives up ownership of `s`, so that its contents live as long as the
/// program.
pub fn string_to_static_str(s: String) -> (leaked: &'static str)
    ensures
        leaked@ == s@,
{
    leak_string(s)
}

/// Whether `regex` accepts `pattern`, as `Regex::new` decides it.
pub uninterp spec fn regex_compiles(pattern: Seq<char>) -> bool;

/// What `Regex::replace_all` gives on a regular expression compiled by
/// `Regex::new` from `pattern`: `text` with every leftmost-first,
/// non-overlapping match replaced by `rep` (which holds no `$` expansions in
/// this library).
pub uninterp spec fn regex_replace_all(pattern: Seq<char>, text: Seq<char>, rep: Seq<char>) -> Seq<char>;

/// `Regex::new` of `regex` followed by `Regex::replace_all` (made an owned
/// `String`): compiles `pattern` with the default options and replaces its
/// matches in `text` by `rep`. `None` where `pattern` is not a valid pattern
/// (or too big). The negated class `[^a-zA-Z\d\s:_-]` compiles; each of
/// its matches is one character outside the class, so replacing them by
/// nothing keeps exactly the characters inside it, in order. Of ASCII, the
/// class holds the letters, the digits `0`-`9`, the white space (`\t` to
/// `\r` and the space), `:`, `_` and `-`; `\d` and `\s` add the other
/// Unicode decimal digits and white space.
#[verifier::external_body]
fn regex_replace(pattern: &str, text: &str, rep: &str) -> (replaced: Option<String>)
    ensures
        replaced is Some <==> regex_compiles(pattern@),
        replaced is Some <== (pattern@ == "[^a-zA-Z\\d\\s:_-]"@),
        replaced matches Some(r) ==> r@ == regex_replace_all(pattern@, text@, rep@),
        replaced matches Some(r) ==> (pattern@ == "[^a-zA-Z\\d\\s:_-]"@ && rep@ == ""@)
            ==> exists|keep: spec_fn(char) -> bool|
            (forall|ch: char|
                #![trigger keep(ch)]
                (ch as u32) < 128 ==> (keep(ch) == (('a' <= ch && ch <= 'z') || ('A' <= ch && ch
                    <= 'Z') || ('0' <= ch && ch <= '9') || ch == ' ' || ('\t' <= ch && ch <= '\r')
                    || ch == ':' || ch == '_' || ch == '-')))
            && r@ == text@.filter(keep),
{
    match Regex::new(pattern) {
        Ok(re) => Some(re.replace_all(text, rep).into_owned()),
        Err(_) => None,
    }
}

/// The characters that a name may not hold: all but ASCII letters, digits,
/// white space, `:`, `_` and `-`.
pub const NAME_FORBIDDEN: &'static str = "[^a-zA-Z\\d\\s:_-]";

/// A name with every forbidden character (see `NAME_FORBIDDEN`) removed.
pub open spec fn clean_name_spec(name: Seq<char>) -> Seq<char> {
    regex_replace_all(NAME_FORBIDDEN@, name, ""@)
}

/// Removes from `name` every character that `NAME_FORBIDDEN` matches: the
/// name keeps, in order, its ASCII letters, digits, white space, `:`, `_`
/// and `-` (and its other Unicode digits and white space), and loses every
/// other character. A name made only of kept characters comes back as it
/// is.
pub fn clean_name(name: &str) -> (clean: Option<String>)
    ensures
        clean is Some <==> regex_compiles(NAME_FORBIDDEN@),
        clean matches Some(c) ==> c@ == clean_name_spec(name@),
        clean matches Some(c) && exists|keep: spec_fn(char) -> bool|
            (forall|ch: char|
                #![trigger keep(ch)]
                (ch as u32) < 128 ==> (keep(ch) == (('a' <= ch && ch <= 'z') || ('A' <= ch && ch
                    <= 'Z') || ('0' <= ch && ch <= '9') || ch == ' ' || ('\t' <= ch && ch <= '\r')
                    || ch == ':' || ch == '_' || ch == '-')))
            && c@ == name@.filter(keep),
        (forall|i: int|
            #![trigger name@[i]]
            0 <= i < name@.len() ==> (('a' <= name@[i] && name@[i] <= 'z') || ('A' <= name@[i]
                && name@[i] <= 'Z') || ('0' <= name@[i] && name@[i] <= '9') || name@[i] == ' '
                || ('\t' <= name@[i] && name@[i] <= '\r') || name@[i] == ':' || name@[i] == '_'
                || name@[i] == '-')) ==> (clean matches Some(c) && c@ == name@),
{
    let clean = regex_replace(NAME_FORBIDDEN, name, "");
    proof {
        let c = clean->0;
        let keep = choose|keep: spec_fn(char) -> bool|
            (forall|ch: char|
                #![trigger keep(ch)]
                (ch as u32) < 128 ==> (keep(ch) == (('a' <= ch && ch <= 'z') || ('A' <= ch && ch
                    <= 'Z') || ('0' <= ch && ch <= '9') || ch == ' ' || ('\t' <= ch && ch <= '\r')
                    || ch == ':' || ch == '_' || ch == '-')))
            && c@ == name@.filter(keep);
        if forall|i: int|
            #![trigger name@[i]]
            0 <= i < name@.len() ==> (('a' <= name@[i] && name@[i] <= 'z') || ('A' <= name@[i]
                && name@[i] <= 'Z') || ('0' <= name@[i] && name@[i] <= '9') || name@[i] == ' '
                || ('\t' <= name@[i] && name@[i] <= '\r') || name@[i] == ':' || name@[i] == '_'
                || name@[i] == '-') {
            assert forall|i: int| 0 <= i < name@.len() implies #[trigger] keep(name@[i]) by {
                assert((name@[i] as u32) < 128);
            }
            lemma_filter_keeps_all(name@, keep);
        }
    }
    clean
}

/// Filtering a sequence by a predicate that holds of all its elements gives
/// the sequence back.
pub proof fn lemma_filter_keeps_all(s: Seq<char>, keep: spec_fn(char) -> bool)
    requires
        forall|i: int| 0 <= i < s.len() ==> #[trigger] keep(s[i]),
    ensures
        s.filter(keep) == s,
    decreases s.len(),
{
    reveal(Seq::filter);
    if s.len() > 0 {
        lemma_filter_keeps_all(s.drop_last(), keep);
        assert(s.drop_last().push(s.last()) =~= s);
    }
}

} // verus!
