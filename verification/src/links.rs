//! Where the addresses of the SEE ALSO section come from: the home page that
//! a Cargo manifest names, and the address of the remote `origin` in the
//! configuration of a git repository.
//!
//! Both readers take the text of the file. Neither fails: a text that does
//! not hold the address yields `None`.

use vstd::prelude::*;
use crate::text::{
    from_chars, has_prefix, lines, slice, split_lines, starts_with, text_of, to_chars, trim,
    trimmed, views,
};

verus! {

/// A TOML value of the `toml` crate. To the verifier it is opaque: what it
/// holds is known through `strings_in` alone.
#[verifier::external_type_specification]
#[verifier::external_body]
pub struct ExValue(toml::Value);

/// The error of the `toml` crate's parser.
#[verifier::external_type_specification]
#[verifier::external_body]
pub struct ExParseError(toml::de::Error);

/// The strings that a TOML value holds, each under the path of table keys
/// that leads to it. A string holds itself under the empty path. A table
/// holds, under a key followed by a path, what its entry for that key holds
/// under that path. Any other value holds nothing.
pub uninterp spec fn strings_in(value: toml::Value) -> Map<Seq<Seq<char>>, Seq<char>>;

/// The strings that the TOML document written in `text` holds, as
/// `strings_in` gives them for the parsed document; `None` where `text` is
/// no TOML document.
pub uninterp spec fn document_strings(text: Seq<char>) -> Option<Map<Seq<Seq<char>>, Seq<char>>>;

/// What `strings` holds below `key`: each string whose path begins with
/// `key`, under the rest of its path.
pub open spec fn below(strings: Map<Seq<Seq<char>>, Seq<char>>, key: Seq<char>) -> Map<
    Seq<Seq<char>>,
    Seq<char>,
> {
    Map::new(
        |path: Seq<Seq<char>>| strings.contains_key(seq![key] + path),
        |path: Seq<Seq<char>>| strings[seq![key] + path],
    )
}

/// `toml::from_str`, asked for a `toml::Value`, parses the text as a TOML
/// document. The contract says that the outcome depends on the text alone:
/// the parsed document holds the strings that `document_strings` names, and
/// the parser fails just where that name is `None`.
#[verifier::external_body]
fn parse_document(text: &str) -> (r: Result<toml::Value, toml::de::Error>)
    ensures
        match r {
            Ok(document) => document_strings(text@) == Some(strings_in(document)),
            Err(_) => document_strings(text@) is None,
        },
{
    toml::from_str(text)
}

/// `toml::Value::get` with a string index returns the entry of a table for
/// that key, and `None` where the value is no table or the table has no such
/// key. So the entry holds what the value holds below the key, and where
/// there is no entry the value holds nothing below the key.
#[verifier::external_body]
fn entry<'a>(value: &'a toml::Value, key: &str) -> (r: Option<&'a toml::Value>)
    ensures
        below(strings_in(*value), key@) == match r {
            Some(child) => strings_in(*child),
            None => Map::empty(),
        },
{
    value.get(key)
}

/// `toml::Value::as_str` returns the text of a value that is a string, and
/// `None` for any other value. A string holds itself under the empty path
/// and nothing else; no other value holds anything under the empty path.
pub assume_specification[ toml::Value::as_str ](value: &toml::Value) -> (r: Option<&str>)
    ensures
        match r {
            Some(s) => strings_in(*value) == Map::<Seq<Seq<char>>, Seq<char>>::empty().insert(
                Seq::empty(),
                s@,
            ),
            None => !strings_in(*value).contains_key(Seq::empty()),
        },
;

/// The string that `strings` holds under `path`, if it holds one.
pub open spec fn string_at(strings: Map<Seq<Seq<char>>, Seq<char>>, path: Seq<Seq<char>>) -> Option<
    Seq<char>,
> {
    if strings.contains_key(path) {
        Some(strings[path])
    } else {
        None
    }
}

/// The home page among the strings of a manifest: the string under
/// `package.homepage`, or else the one under `workspace.package.homepage`.
pub open spec fn homepage_among(strings: Map<Seq<Seq<char>>, Seq<char>>) -> Option<Seq<char>> {
    match string_at(strings, seq!["package"@, "homepage"@]) {
        Some(address) => Some(address),
        None => string_at(strings, seq!["workspace"@, "package"@, "homepage"@]),
    }
}

/// The home page that the manifest written in `manifest` names, if it is a
/// TOML document and names one.
pub open spec fn manifest_homepage(manifest: Seq<char>) -> Option<Seq<char>> {
    match document_strings(manifest) {
        Some(strings) => homepage_among(strings),
        None => None,
    }
}

/// The views of the keys in `path`, in order.
pub open spec fn keys(path: Seq<&str>) -> Seq<Seq<char>> {
    Seq::new(path.len(), |i: int| path[i]@)
}

/// The string that `document` holds under the keys of `path`.
pub fn string_under(document: &toml::Value, path: &Vec<&str>) -> (r: Option<String>)
    ensures
        text_of(r) == string_at(strings_in(*document), keys(path@)),
{
    let mut value: &toml::Value = document;
    let mut i: usize = 0;
    proof {
        assert forall|rest: Seq<Seq<char>>|
            string_at(strings_in(*value), rest) == string_at(
                strings_in(*document),
                #[trigger] (keys(path@).take(0) + rest),
            ) by {
            assert(keys(path@).take(0) + rest =~= rest);
        }
    }
    while i < path.len()
        invariant
            i <= path.len(),
            forall|rest: Seq<Seq<char>>|
                string_at(strings_in(*value), rest) == string_at(
                    strings_in(*document),
                    #[trigger] (keys(path@).take(i as int) + rest),
                ),
        decreases path.len() - i,
    {
        let ghost key = path[i as int]@;
        let ghost above = strings_in(*value);
        match entry(value, path[i]) {
            Some(child) => {
                proof {
                    assert forall|rest: Seq<Seq<char>>|
                        string_at(strings_in(*child), rest) == string_at(
                            strings_in(*document),
                            #[trigger] (keys(path@).take(i + 1) + rest),
                        ) by {
                        assert(keys(path@).take(i + 1) + rest =~= keys(path@).take(i as int) + (
                        seq![key] + rest));
                        assert(string_at(below(above, key), rest) == string_at(
                            above,
                            seq![key] + rest,
                        ));
                    }
                }
                value = child;
            },
            None => {
                proof {
                    let rest = keys(path@).skip(i + 1);
                    assert(keys(path@) =~= keys(path@).take(i as int) + (seq![key] + rest));
                    assert(!below(above, key).contains_key(rest));
                }
                return None;
            },
        }
        i += 1;
    }
    proof {
        assert(keys(path@).take(i as int) + Seq::<Seq<char>>::empty() =~= keys(path@));
    }
    match value.as_str() {
        Some(s) => Some(s.to_owned()),
        None => None,
    }
}

/// The home page that a parsed manifest names: the string under
/// `package.homepage`, or else the one under `workspace.package.homepage`.
/// An entry that is no string counts as missing.
pub fn homepage_in(document: &toml::Value) -> (r: Option<String>)
    ensures
        text_of(r) == homepage_among(strings_in(*document)),
{
    let own: Vec<&str> = vec!["package", "homepage"];
    let shared: Vec<&str> = vec!["workspace", "package", "homepage"];
    proof {
        assert(keys(own@) =~= seq!["package"@, "homepage"@]);
        assert(keys(shared@) =~= seq!["workspace"@, "package"@, "homepage"@]);
    }
    match string_under(document, &own) {
        Some(address) => Some(address),
        None => string_under(document, &shared),
    }
}

/// The home page that a Cargo manifest names, given the text of the
/// manifest. A text that is no TOML document, or that names no home page,
/// yields `None`.
pub fn extract_homepage(manifest: &str) -> (r: Option<String>)
    ensures
        text_of(r) == manifest_homepage(manifest@),
{
    match parse_document(manifest) {
        Ok(document) => homepage_in(&document),
        Err(_) => None,
    }
}

/// The header of the section on the remote `origin`.
pub open spec fn is_origin_header(line: Seq<char>) -> bool {
    has_prefix(trimmed(line), "[remote \"origin\"]"@)
}

/// The header of a section: a line that begins, once trimmed, with `[`.
pub open spec fn is_section_header(line: Seq<char>) -> bool {
    has_prefix(trimmed(line), "["@)
}

/// A line that sets the address: it begins, once trimmed, with `url =`.
pub open spec fn is_url_line(line: Seq<char>) -> bool {
    has_prefix(trimmed(line), "url ="@)
}

/// The address that a url line sets: what follows `url =`, trimmed.
pub open spec fn url_value(line: Seq<char>) -> Seq<char> {
    trimmed(trimmed(line).skip("url ="@.len() as int))
}

/// The address of the remote `origin` among `ls`: what the first url line
/// within a section on that remote sets. `in_origin` says whether `ls`
/// begins within such a section.
pub open spec fn origin_url(ls: Seq<Seq<char>>, in_origin: bool) -> Option<Seq<char>>
    decreases ls.len(),
{
    if ls.len() == 0 {
        None
    } else if is_origin_header(ls[0]) {
        origin_url(ls.drop_first(), true)
    } else if in_origin && is_url_line(ls[0]) {
        Some(url_value(ls[0]))
    } else if is_section_header(ls[0]) {
        origin_url(ls.drop_first(), false)
    } else {
        origin_url(ls.drop_first(), in_origin)
    }
}

/// The address of the remote `origin` that the git configuration written
/// in `config` sets, if it sets one.
pub open spec fn repository_url(config: Seq<char>) -> Option<Seq<char>> {
    origin_url(lines(config), false)
}

/// The address of the remote `origin`, given the text of a git
/// configuration: the value of the first line `url = ...` that stands under
/// the header `[remote "origin"]`, before the header of any other section.
/// A text without such a line yields `None`.
pub fn extract_git_repo_url(config: &str) -> (r: Option<String>)
    ensures
        text_of(r) == repository_url(config@),
{
    let ls = split_lines(&to_chars(config));
    let mut in_origin = false;
    let mut i: usize = 0;
    proof {
        assert(views(ls@).skip(0) =~= views(ls@));
    }
    while i < ls.len()
        invariant
            i <= ls.len(),
            views(ls@) == lines(config@),
            origin_url(views(ls@).skip(i as int), in_origin) == origin_url(views(ls@), false),
        decreases ls.len() - i,
    {
        proof {
            assert(views(ls@).skip(i as int).drop_first() =~= views(ls@).skip(i + 1));
        }
        let t = trim(&ls[i]);
        if starts_with(&t, "[remote \"origin\"]") {
            in_origin = true;
        } else if in_origin && starts_with(&t, "url =") {
            let marker = to_chars("url =");
            let value = slice(&t, marker.len(), t.len());
            return Some(from_chars(&trim(&value)));
        } else if starts_with(&t, "[") {
            in_origin = false;
        }
        i += 1;
    }
    None
}

} // verus!
