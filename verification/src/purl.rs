//! Package URLs of the `gentoo` type: how one is written from category, name
//! and version, and how such a text is taken apart again.
//!
//! The segments are written as they are, without percent-encoding. A text is
//! read from left to right: the category ends at the first `/`, the name at
//! the first `@` after it and the version at the first `?` after that.

use crate::text::{cut_at, cut_prefix, split_once, strip_prefix};
use crate::text::{lemma_cut_at_absent, lemma_cut_at_joined};
use vstd::prelude::*;

verus! {

/// Scheme and type that every package URL of this library begins with.
pub const PURL_PREFIX: &'static str = "pkg:gentoo/";

/// The key of the qualifier that names the repository a package came from.
pub const REPOSITORY_KEY: &'static str = "repository=";

/// Model of a [`PackageUrl`].
pub struct PackageUrlModel {
    pub category: Seq<char>,
    pub name: Seq<char>,
    pub version: Seq<char>,
    pub repository: Option<Seq<char>>,
}

/// The parts of a package URL.
#[derive(Debug)]
pub struct PackageUrl {
    /// The namespace: the package's category.
    pub category: String,
    /// The package's name.
    pub name: String,
    /// The version of the package.
    pub version: String,
    /// The repository the package came from, where the source knows it.
    pub repository: Option<String>,
}

impl View for PackageUrl {
    type V = PackageUrlModel;

    open spec fn view(&self) -> PackageUrlModel {
        PackageUrlModel {
            category: self.category@,
            name: self.name@,
            version: self.version@,
            repository: self.repository.deep_view(),
        }
    }
}

impl DeepView for PackageUrl {
    type V = PackageUrlModel;

    open spec fn deep_view(&self) -> PackageUrlModel {
        self@
    }
}

/// The text of a package URL: `pkg:gentoo/<category>/<name>@<version>`,
/// followed by `?repository=<repository>` where a repository is known.
pub open spec fn purl_text(
    category: Seq<char>,
    name: Seq<char>,
    version: Seq<char>,
    repository: Option<Seq<char>>,
) -> Seq<char> {
    let base = PURL_PREFIX@ + category + seq!['/'] + name + seq!['@'] + version;
    match repository {
        Some(r) => base + seq!['?'] + REPOSITORY_KEY@ + r,
        None => base,
    }
}

/// What a text says as a package URL, or `None` where it is not of the form
/// that [`purl_text`] writes.
pub open spec fn parsed_purl(text: Seq<char>) -> Option<PackageUrlModel> {
    match cut_prefix(text, PURL_PREFIX@) {
        None => None,
        Some(path) => match cut_at(path, '/') {
            None => None,
            Some((category, rest)) => match cut_at(rest, '@') {
                None => None,
                Some((name, tail)) => match cut_at(tail, '?') {
                    None => Some(PackageUrlModel { category, name, version: tail, repository: None }),
                    Some((version, query)) => match cut_prefix(query, REPOSITORY_KEY@) {
                        None => None,
                        Some(r) => Some(
                            PackageUrlModel { category, name, version, repository: Some(r) },
                        ),
                    },
                },
            },
        },
    }
}

/// Writes the package URL of a package.
pub fn package_url(category: &str, name: &str, version: &str, repository: Option<&str>) -> (url:
    String)
    ensures
        url@ == purl_text(category@, name@, version@, repository.deep_view()),
{
    proof {
        reveal_strlit("/");
        reveal_strlit("@");
        reveal_strlit("?");
    }
    let mut url = String::from_str(PURL_PREFIX);
    url.append(category);
    url.append("/");
    url.append(name);
    url.append("@");
    url.append(version);
    match repository {
        Some(r) => {
            url.append("?");
            url.append(REPOSITORY_KEY);
            url.append(r);
        },
        None => {},
    }
    url
}

/// Reads a package URL. Gives `None` for a text that lacks the prefix, the
/// `/` after the category or the `@` before the version, or whose part after
/// a `?` is not the repository qualifier.
pub fn parse_package_url(text: &str) -> (parsed: Option<PackageUrl>)
    ensures
        parsed.deep_view() == parsed_purl(text@),
{
    let path = match strip_prefix(text, PURL_PREFIX) {
        Some(path) => path,
        None => {
            return None;
        },
    };
    let (category, rest) = match split_once(path, '/') {
        Some(parts) => parts,
        None => {
            return None;
        },
    };
    let (name, tail) = match split_once(rest, '@') {
        Some(parts) => parts,
        None => {
            return None;
        },
    };
    match split_once(tail, '?') {
        None => Some(
            PackageUrl {
                category: String::from_str(category),
                name: String::from_str(name),
                version: String::from_str(tail),
                repository: None,
            },
        ),
        Some((version, query)) => match strip_prefix(query, REPOSITORY_KEY) {
            None => None,
            Some(r) => Some(
                PackageUrl {
                    category: String::from_str(category),
                    name: String::from_str(name),
                    version: String::from_str(version),
                    repository: Some(String::from_str(r)),
                },
            ),
        },
    }
}

/// Round trip: reading the package URL that was written for a package gives
/// its category, name, version and repository back unchanged.
///
/// The segments are written without escaping, so this holds where no segment
/// holds the character that ends it: no `/` in the category, no `@` in the
/// name and no `?` in the version.
pub proof fn lemma_purl_round_trip(
    category: Seq<char>,
    name: Seq<char>,
    version: Seq<char>,
    repository: Option<Seq<char>>,
)
    requires
        !category.contains('/'),
        !name.contains('@'),
        !version.contains('?'),
    ensures
        parsed_purl(purl_text(category, name, version, repository)) == Some(
            PackageUrlModel { category, name, version, repository },
        ),
{
    let text = purl_text(category, name, version, repository);
    let query = match repository {
        Some(r) => seq!['?'] + REPOSITORY_KEY@ + r,
        None => Seq::<char>::empty(),
    };
    let tail = version + query;
    let rest = name + seq!['@'] + tail;
    let path = category + seq!['/'] + rest;
    assert(text.take(PURL_PREFIX@.len() as int) =~= PURL_PREFIX@);
    assert(cut_prefix(text, PURL_PREFIX@) == Some(path));
    lemma_cut_at_joined(category, '/', rest);
    lemma_cut_at_joined(name, '@', tail);
    match repository {
        Some(r) => {
            let q = REPOSITORY_KEY@ + r;
            assert(tail =~= version + seq!['?'] + q);
            lemma_cut_at_joined(version, '?', q);
            assert(q.take(REPOSITORY_KEY@.len() as int) =~= REPOSITORY_KEY@);
            assert(cut_prefix(q, REPOSITORY_KEY@) == Some(r));
        },
        None => {
            lemma_cut_at_absent(version, '?');
        },
    }
}

} // verus!
