//! Locations of the data directory and of the two SQLite files in it.

use vstd::prelude::*;

verus! {

/// A character that separates path components: `/` everywhere, and the
/// platform's main separator `sep` besides.
pub open spec fn is_separator(c: char, sep: char) -> bool {
    c == '/' || c == sep
}

/// An ASCII letter.
pub open spec fn is_ascii_letter(c: char) -> bool {
    ('a' <= c && c <= 'z') || ('A' <= c && c <= 'Z')
}

/// A bare Windows drive such as `C:`: where the separator is `\`, a path
/// of just a drive letter and a colon.
pub open spec fn is_bare_drive(base: Seq<char>, sep: char) -> bool {
    sep == '\\' && base.len() == 2 && is_ascii_letter(base[0]) && base[1] == ':'
}

/// The path `base` extended by the relative component `name`, as
/// `PathBuf::push` extends it: a separator is put between them unless `base`
/// is empty, already ends in one, or is a bare Windows drive (`C:` gives
/// `C:name`, relative to that drive's current directory).
pub open spec fn join_path(base: Seq<char>, name: Seq<char>, sep: char) -> Seq<char> {
    if base.len() == 0 || is_separator(base.last(), sep) || is_bare_drive(base, sep) {
        base + name
    } else {
        base + seq![sep] + name
    }
}

/// `String::push` of std appends one character to the string.
pub assume_specification[ String::push ](s: &mut String, ch: char)
    ensures
        final(s)@ == old(s)@.push(ch),
;

/// Extends `base` by the relative component `name` (a plain file or
/// directory name, with no separator or drive of its own).
fn join(base: &str, name: &str, sep: char) -> (joined: String)
    ensures
        joined@ == join_path(base@, name@, sep),
        (base@.len() > 0 && base@.last() != '/' && base@.last() != sep && !(sep == '\\'
            && base@.len() == 2 && base@[1] == ':')) ==> joined@ == base@ + seq![sep] + name@,
        (base@.len() == 0 || base@.last() == '/' || base@.last() == sep) ==> joined@ == base@
            + name@,
{
    let n = base.unicode_len();
    let mut joined = base.to_string();
    if n > 0 {
        let last = base.get_char(n - 1);
        let drive = n == 2 && sep == '\\' && last == ':' && {
            let c = base.get_char(0);
            ('a' <= c && c <= 'z') || ('A' <= c && c <= 'Z')
        };
        if last != '/' && last != sep && !drive {
            joined.push(sep);
        }
    }
    joined.append(name);
    joined
}

/// Joining a non-empty base that ends in no separator and is no bare drive
/// puts exactly one separator, the platform's, between base and name,
/// whatever the name; joining onto an empty base, or one that ends in a
/// separator, puts none.
pub proof fn lemma_join_separator(base: Seq<char>, name: Seq<char>, sep: char)
    ensures
        (base.len() > 0 && base.last() != '/' && base.last() != sep && !(sep == '\\' && base.len()
            == 2 && base[1] == ':')) ==> join_path(base, name, sep) == base + seq![sep] + name,
        (base.len() == 0 || base.last() == '/' || base.last() == sep) ==> join_path(base, name, sep)
            == base + name,
{
}

} // verus!

verus! {

/// The view of an optional string.
pub open spec fn opt_view(s: Option<String>) -> Option<Seq<char>> {
    match s {
        Some(v) => Some(v@),
        None => None,
    }
}

/// The home directory: `HOME` where it is set, else `USERPROFILE`, else the
/// current directory `.`.
pub open spec fn home_dir(home: Option<Seq<char>>, user_profile: Option<Seq<char>>) -> Seq<char> {
    match home {
        Some(h) => h,
        None => match user_profile {
            Some(u) => u,
            None => "."@,
        },
    }
}

/// The data directory: `.autotext` in the home directory.
pub open spec fn data_dir_spec(
    home: Option<Seq<char>>,
    user_profile: Option<Seq<char>>,
    sep: char,
) -> Seq<char> {
    join_path(home_dir(home, user_profile), ".autotext"@, sep)
}

/// The data directory, given the values of the `HOME` and `USERPROFILE`
/// environment variables (`None` where unset) and the platform separator.
pub fn data_dir(home: Option<String>, user_profile: Option<String>, sep: char) -> (dir: String)
    ensures
        dir@ == data_dir_spec(opt_view(home), opt_view(user_profile), sep),
        home matches Some(h) ==> (h@.len() > 0 && h@.last() != '/' && h@.last() != sep && !(sep
            == '\\' && h@.len() == 2 && h@[1] == ':')) ==> dir@ == h@ + seq![sep] + ".autotext"@,
        (home is None && user_profile is Some) ==> ({
            let u = user_profile->0@;
            (u.len() > 0 && u.last() != '/' && u.last() != sep && !(sep == '\\' && u.len() == 2
                && u[1] == ':')) ==> dir@ == u + seq![sep] + ".autotext"@
        }),
        home is None && user_profile is None && sep != '.' ==> dir@ == "."@ + seq![sep]
            + ".autotext"@,
{
    proof {
        reveal_strlit(".");
    }
    let base = match home {
        Some(h) => h,
        None => match user_profile {
            Some(u) => u,
            None => ".".to_string(),
        },
    };
    join(base.as_str(), ".autotext", sep)
}

/// The settings database, `settings.db` in the data directory.
pub fn settings_path(data_dir: &str, sep: char) -> (path: String)
    ensures
        path@ == join_path(data_dir@, "settings.db"@, sep),
        (data_dir@.len() > 0 && data_dir@.last() != '/' && data_dir@.last() != sep && !(sep
            == '\\' && data_dir@.len() == 2 && data_dir@[1] == ':')) ==> path@ == data_dir@
            + seq![sep] + "settings.db"@,
        (data_dir@.len() == 0 || data_dir@.last() == '/' || data_dir@.last() == sep) ==> path@
            == data_dir@ + "settings.db"@,
{
    join(data_dir, "settings.db", sep)
}

/// The snippet database, `database.db` in the data directory.
pub fn database_path(data_dir: &str, sep: char) -> (path: String)
    ensures
        path@ == join_path(data_dir@, "database.db"@, sep),
        (data_dir@.len() > 0 && data_dir@.last() != '/' && data_dir@.last() != sep && !(sep
            == '\\' && data_dir@.len() == 2 && data_dir@[1] == ':')) ==> path@ == data_dir@
            + seq![sep] + "database.db"@,
        (data_dir@.len() == 0 || data_dir@.last() == '/' || data_dir@.last() == sep) ==> path@
            == data_dir@ + "database.db"@,
{
    join(data_dir, "database.db", sep)
}

} // verus!
