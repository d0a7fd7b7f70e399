//! The URLs that name modules: where they come from and what people call them.
//!
//! A URL is held as its text in normal form, as `url::Url::as_str` gives it.
use crate::text::find_file_stem;
use crate::text::find_last_part;
use crate::text::find_part;
use crate::text::find_second_part;
use crate::text::starts_with;
use deno_path_util::url_from_directory_path;
use deno_path_util::url_from_file_path;
use deno_path_util::PathToUrlError;
use deno_semver::jsr::JsrPackageReqReference;
use deno_semver::npm::NpmPackageReqReference;
use std::path::PathBuf;
use url::ParseError;
use url::Url;
use vstd::prelude::*;

verus! {

/// `url::ParseError`: why a text is no URL.
#[verifier::external_type_specification]
#[verifier::external_body]
pub struct ExUrlParseError(ParseError);

/// `deno_path_util::PathToUrlError`: the path that no URL stands for.
#[verifier::external_type_specification]
#[verifier::external_body]
pub struct ExPathToUrlError(PathToUrlError);

/// `std::path::PathBuf`: a path as the machine has it.
#[verifier::external_type_specification]
#[verifier::external_body]
pub struct ExPathBuf(PathBuf);

/// Why there is no URL for a specifier.
#[derive(Debug)]
pub enum SpecifierError {
    /// A text that is no URL.
    Url(ParseError),
    /// A path that no URL stands for.
    Path(PathToUrlError),
}

/// Who asks for a module.
pub enum Importer<'a> {
    /// The module with this URL.
    Module(&'a str),
    /// The command line, in this directory.
    Directory(&'a PathBuf),
}

/// What an `Importer` says, with a text in place of a string.
pub enum ImporterView {
    Module(Seq<char>),
    Directory(PathBuf),
}

impl<'a> View for Importer<'a> {
    type V = ImporterView;

    open spec fn view(&self) -> ImporterView {
        match self {
            Importer::Module(text) => ImporterView::Module(text@),
            Importer::Directory(directory) => ImporterView::Directory(**directory),
        }
    }
}

/// What the bundler is to bundle, and into what.
#[derive(Debug, PartialEq, Eq)]
pub struct BundleInput {
    /// What the bundle is called.
    pub name: String,
    /// The URL of the module to begin with.
    pub import: String,
    /// The pattern for the name of the file that the bundle is written to.
    pub entry_filenames: &'static str,
}

/// What `url::Url::parse` makes of `text`: the text of the URL in normal form, or
/// `None` if it refuses `text`.
pub uninterp spec fn parsed_url(text: Seq<char>) -> Option<Seq<char>>;

/// The path that `std::path::Path::join` makes of `path`, taken as relative to `base`.
pub uninterp spec fn joined_path(base: PathBuf, path: Seq<char>) -> PathBuf;

/// What `deno_path_util::url_from_file_path` makes of `path`: the text of a URL, or
/// `None` if no URL stands for the path.
pub uninterp spec fn file_url_text(path: PathBuf) -> Option<Seq<char>>;

/// What `deno_path_util::url_from_directory_path` makes of `directory`: the text of a
/// URL, or `None` if no URL stands for the path.
pub uninterp spec fn directory_url_text(directory: PathBuf) -> Option<Seq<char>>;

/// The package name that `deno_semver` reads out of the `jsr:` URL `url`, or `None`
/// if it does not take `url` for a reference to a JSR package.
pub uninterp spec fn jsr_package_name(url: Seq<char>) -> Option<Seq<char>>;

/// The package name that `deno_semver` reads out of the `npm:` URL `url`, or `None`
/// if it does not take `url` for a reference to an npm package.
pub uninterp spec fn npm_package_name(url: Seq<char>) -> Option<Seq<char>>;

/// Whether `text` begins with the scheme of a URL in lower-case letters.
pub open spec fn has_scheme(text: Seq<char>) -> bool {
    let scheme = crate::text::before_first(text, ':');
    &&& 0 < scheme.len() < text.len()
    &&& forall|i: int| 0 <= i < scheme.len() ==> 'a' <= #[trigger] scheme[i] <= 'z'
}

/// The scheme that `text` begins with, and the colon behind it.
pub open spec fn scheme_of(text: Seq<char>) -> Seq<char> {
    text.take(crate::text::before_first(text, ':').len() as int + 1)
}

/// Whether `url` is the text of a URL in normal form.
pub open spec fn is_normal_url(url: Seq<char>) -> bool {
    parsed_url(url) == Some(url)
}

/// Whether parsing `text` into `url` was free of what the parser does not finish in one
/// go: tabs and line breaks inside the text, `file:` URLs with a host, whose path can
/// begin with a drive letter once it is shortened, and `xn--`, the mark of an
/// international domain name.
pub open spec fn is_settled(text: Seq<char>, url: Seq<char>) -> bool {
    &&& !text.contains('\t')
    &&& !text.contains('\n')
    &&& !text.contains('\r')
    &&& "file:"@.is_prefix_of(url) ==> "file:///"@.is_prefix_of(url)
    &&& !crate::text::holds(url, "xn--"@)
}

/// Whether a URL leads up or nowhere at `segment` of its path: at a dot or two, each of
/// them plain or escaped.
pub open spec fn is_dot_segment(segment: Seq<char>) -> bool {
    ||| segment == "."@
    ||| segment == "%2e"@
    ||| segment == "%2E"@
    ||| segment == ".."@
    ||| segment == ".%2e"@
    ||| segment == ".%2E"@
    ||| segment == "%2e."@
    ||| segment == "%2E."@
    ||| segment == "%2e%2e"@
    ||| segment == "%2e%2E"@
    ||| segment == "%2E%2e"@
    ||| segment == "%2E%2E"@
}

/// Whether one of the segments into which slashes cut `path` is a dot segment.
pub open spec fn has_dot_segment(path: Seq<char>) -> bool
    decreases path.len(),
{
    let segment = crate::text::before_first(path, '/');
    ||| is_dot_segment(segment)
    ||| segment.len() < path.len() && has_dot_segment(path.skip(segment.len() as int + 1))
}

/// Whether `c` stands as it is in the path of a URL.
pub open spec fn is_path_char(c: char) -> bool {
    &&& '!' <= c <= '~'
    &&& c != '"' && c != '#' && c != '<' && c != '>' && c != '?'
    &&& c != '\\' && c != '`' && c != '{' && c != '}'
}

/// Whether `c` stands as it is in the query and in the fragment of a URL.
pub open spec fn is_query_char(c: char) -> bool {
    &&& '!' <= c <= '~'
    &&& c != '"' && c != '\'' && c != '<' && c != '>' && c != '`'
}

/// What stands in `rest` before the query and the fragment.
pub open spec fn path_part(rest: Seq<char>) -> Seq<char> {
    crate::text::before_first(crate::text::before_first(rest, '#'), '?')
}

/// Whether `rest`, a path with the query and the fragment behind it, is in normal form.
pub open spec fn is_plain_rest(rest: Seq<char>) -> bool {
    let path = path_part(rest);
    &&& forall|i: int| 0 <= i < path.len() ==> is_path_char(#[trigger] path[i])
    &&& forall|i: int| path.len() <= i < rest.len() ==> is_query_char(#[trigger] rest[i])
    &&& !has_dot_segment(path)
}

/// Whether `host` is a domain name in plain lower-case letters, and no address.
pub open spec fn is_plain_host(host: Seq<char>) -> bool {
    let last = crate::text::after_last(host, '.');
    &&& forall|i: int|
        0 <= i < host.len() ==> {
            ||| 'a' <= #[trigger] host[i] <= 'z'
            ||| '0' <= host[i] <= '9'
            ||| host[i] == '-'
            ||| host[i] == '.'
        }
    &&& last.len() > 0
    &&& 'a' <= last[0] <= 'z'
    &&& !crate::text::holds(host, "xn--"@)
}

/// Whether `rest` is a plain host, and behind the next slash a path in normal form.
pub open spec fn is_plain_authority(rest: Seq<char>) -> bool {
    let host = crate::text::before_first(rest, '/');
    &&& is_plain_host(host)
    &&& host.len() < rest.len()
    &&& is_plain_rest(rest.skip(host.len() as int + 1))
}

/// Whether `url` is the URL of a file on this machine, of a file that the host with a
/// plain name serves, or of something that has no path to go up and down in (a `jsr:`,
/// `npm:`, `node:` or `data:` URL), and is in normal form.
pub open spec fn is_plain_url(url: Seq<char>) -> bool {
    let scheme = crate::text::before_first(url, ':');
    let opaque = url.skip(scheme.len() as int + 1);
    let path = path_part(opaque);
    ||| {
        &&& "file:///"@.is_prefix_of(url)
        &&& is_plain_rest(url.skip(8))
        &&& url.len() > 8 ==> url[8] != '/'
    }
    ||| "https://"@.is_prefix_of(url) && is_plain_authority(url.skip(8))
    ||| "http://"@.is_prefix_of(url) && is_plain_authority(url.skip(7))
    ||| {
        &&& has_scheme(url)
        &&& scheme != "file"@ && scheme != "http"@ && scheme != "https"@
        &&& scheme != "ws"@ && scheme != "wss"@ && scheme != "ftp"@
        &&& opaque.len() > 0 ==> opaque[0] != '/'
        &&& forall|i: int| 0 <= i < path.len() ==> '!' <= #[trigger] path[i] <= '~'
        &&& forall|i: int| path.len() <= i < opaque.len() ==> is_query_char(#[trigger] opaque[i])
    }
}

/// Calls `url::Url::parse`. Trusted: whether `text` is a URL, and its normal form,
/// depend on `text` alone; the normal form keeps a scheme in lower-case letters, a text
/// without a colon is no URL, the normal form parses to itself if it is settled, and
/// so does every plain URL. Which error a text that is no URL gives is left open.
#[verifier::external_body]
pub(crate) fn parse_url(text: &str) -> (url: Result<String, ParseError>)
    ensures
        parsed_url(text@) == (match url {
            Ok(url) => Some(url@),
            Err(_) => None,
        }),
        url matches Ok(url) ==> (has_scheme(text@) ==> scheme_of(text@).is_prefix_of(url@)),
        !text@.contains(':') ==> url is Err,
        url matches Ok(url) ==> (is_settled(text@, url@) ==> is_normal_url(url@)),
        is_plain_url(text@) ==> (url matches Ok(url) && url@ == text@),
{
    Url::parse(text).map(String::from)
}

/// Whether `path` is the name of a file in plain ASCII characters, which is the same
/// on every machine and in every URL.
pub open spec fn is_plain_file_name(path: Seq<char>) -> bool {
    &&& path.len() > 0
    &&& path != seq!['.']
    &&& path != seq!['.', '.']
    &&& forall|i: int|
        0 <= i < path.len() ==> {
            ||| 'a' <= #[trigger] path[i] <= 'z'
            ||| 'A' <= path[i] <= 'Z'
            ||| '0' <= path[i] <= '9'
            ||| path[i] == '.'
            ||| path[i] == '_'
            ||| path[i] == '-'
        }
}

/// Whether `path` leads down from a directory by plain file names, with a slash between
/// any two of them.
pub open spec fn is_plain_path(path: Seq<char>) -> bool
    decreases path.len(),
{
    let name = crate::text::before_first(path, '/');
    &&& is_plain_file_name(name)
    &&& name.len() < path.len() ==> is_plain_path(path.skip(name.len() as int + 1))
}

/// Calls `std::path::Path::join`. Trusted: the path depends on `base` and `path` alone.
#[verifier::external_body]
fn join_path(base: &PathBuf, path: &str) -> (joined: PathBuf)
    ensures
        joined == joined_path(*base, path@),
{
    base.join(path)
}

/// Calls `deno_path_util::url_from_file_path`. Trusted: whether there is a URL, and
/// which one, depend on the path alone; it is a `file:` URL that parses to itself if it
/// is plain. If the path was joined from a directory and a plain path, and nothing in
/// the URL is escaped, the URL ends in all of that plain path. A dot and a slash before
/// the plain path change nothing, unless a slash in the URL is escaped. Paths are opaque
/// to the proofs, so what else the URL holds, and which paths have none, is left to the
/// name.
#[verifier::external_body]
fn file_url(path: &PathBuf) -> (url: Result<String, PathToUrlError>)
    ensures
        file_url_text(*path) == (match url {
            Ok(url) => Some(url@),
            Err(_) => None,
        }),
        url matches Ok(url) ==> "file://"@.is_prefix_of(url@),
        url matches Ok(url) ==> (is_plain_url(url@) ==> is_normal_url(url@)),
        url matches Ok(url) ==> forall|base: PathBuf, tail: Seq<char>|
            *path == #[trigger] joined_path(base, tail) && is_plain_path(tail) && !url@.contains(
                '%',
            ) ==> (seq!['/'] + tail).is_suffix_of(url@),
        !(url matches Ok(url) && crate::text::holds(url@, "%2F"@)) ==> forall|
            base: PathBuf,
            tail: Seq<char>,
        |
            *path == #[trigger] joined_path(base, "./"@ + tail) && is_plain_path(tail)
                ==> file_url_text(joined_path(base, tail)) == (match url {
                Ok(url) => Some(url@),
                Err(_) => None,
            }),
        url matches Ok(url) ==> forall|base: PathBuf, tail: Seq<char>|
            *path == #[trigger] joined_path(base, "./"@ + tail) && is_plain_path(tail)
                && !url@.contains('%') ==> (seq!['/'] + tail).is_suffix_of(url@),
{
    url_from_file_path(path).map(String::from)
}

/// Calls `deno_path_util::url_from_directory_path`. Trusted: whether there is a URL, and
/// which one, depend on the directory alone; it is a `file:` URL that ends in a slash,
/// and it parses to itself if it is plain. Paths are opaque to the proofs, so what
/// stands between, and which directories have no URL, is left to the name.
#[verifier::external_body]
fn directory_url(directory: &PathBuf) -> (url: Result<String, PathToUrlError>)
    ensures
        directory_url_text(*directory) == (match url {
            Ok(url) => Some(url@),
            Err(_) => None,
        }),
        url matches Ok(url) ==> "file://"@.is_prefix_of(url@) && url@.last() == '/',
        url matches Ok(url) ==> (is_plain_url(url@) ==> is_normal_url(url@)),
{
    url_from_directory_path(directory).map(String::from)
}

/// Whether the version that `url` may ask for can be counted up. A number in it that is
/// the largest `u64` cannot, and there is no range of versions for it. Only references
/// to packages ask for a version.
pub open spec fn has_version_range(url: Seq<char>) -> bool {
    "jsr:"@.is_prefix_of(url) || "npm:"@.is_prefix_of(url) ==> !crate::text::holds(
        url,
        "18446744073709551615"@,
    )
}

/// Calls `deno_semver::jsr::JsrPackageReqReference::from_str` on the text of a URL.
/// Trusted: the name of the package depends on that text alone, and only a URL that
/// begins with `jsr:` has one.
/// The call counts up the numbers of the version that is asked for.
#[verifier::external_body]
fn read_jsr_package_name(url: &str) -> (name: Option<String>)
    requires
        has_version_range(url@),
    ensures
        crate::text::text_view(name) == jsr_package_name(url@),
        name is Some ==> "jsr:"@.is_prefix_of(url@),
{
    let reference = JsrPackageReqReference::from_str(url).ok()?;
    Some(reference.req().name.to_string())
}

/// Calls `deno_semver::npm::NpmPackageReqReference::from_str` on the text of a URL.
/// Trusted: the name of the package depends on that text alone, and only a URL that
/// begins with `npm:` has one.
/// The call counts up the numbers of the version that is asked for.
#[verifier::external_body]
fn read_npm_package_name(url: &str) -> (name: Option<String>)
    requires
        has_version_range(url@),
    ensures
        crate::text::text_view(name) == npm_package_name(url@),
        name is Some ==> "npm:"@.is_prefix_of(url@),
{
    let reference = NpmPackageReqReference::from_str(url).ok()?;
    Some(reference.req().name.to_string())
}

/// Whether the command line argument `argument` is a URL and not a path.
pub open spec fn is_url_argument(argument: Seq<char>) -> bool {
    ||| "jsr:"@.is_prefix_of(argument)
    ||| "https:"@.is_prefix_of(argument)
    ||| "file:"@.is_prefix_of(argument)
}

/// Whether the command line argument `argument` is a URL and not a path.
pub fn names_url(argument: &str) -> (yes: bool)
    ensures
        yes == is_url_argument(argument@),
{
    starts_with(argument, "jsr:") || starts_with(argument, "https:") || starts_with(
        argument,
        "file:",
    )
}

proof fn lemma_scheme_of(scheme: Seq<char>, text: Seq<char>)
    requires
        scheme.len() > 1,
        scheme.last() == ':',
        forall|i: int| 0 <= i < scheme.len() - 1 ==> 'a' <= #[trigger] scheme[i] <= 'z',
        scheme.is_prefix_of(text),
    ensures
        has_scheme(text),
        scheme_of(text) == scheme,
{
    let letters = scheme.drop_last();
    let rest = text.skip(scheme.len() as int);
    assert(text =~= letters + seq![':'] + rest) by {
        assert forall|i: int| 0 <= i < scheme.len() implies scheme[i] == text[i] by {
            assert(text.subrange(0, scheme.len() as int)[i] == text[i]);
        }
    }
    assert(!letters.contains(':')) by {
        if letters.contains(':') {
            let i = choose|i: int| 0 <= i < letters.len() && letters[i] == ':';
            assert('a' <= scheme[i] <= 'z');
        }
    }
    crate::text::lemma_cut_at_first(letters, rest, ':');
    assert forall|i: int| 0 <= i < letters.len() implies 'a' <= #[trigger] letters[i] <= 'z' by {
        assert('a' <= scheme[i] <= 'z');
    }
    assert(text.take(letters.len() as int + 1) =~= scheme);
}

proof fn lemma_scheme_kept(argument: Seq<char>)
    ensures
        "jsr:"@.is_prefix_of(argument) ==> has_scheme(argument) && scheme_of(argument) == "jsr:"@,
        "https:"@.is_prefix_of(argument) ==> has_scheme(argument) && scheme_of(argument)
            == "https:"@,
        "file:"@.is_prefix_of(argument) ==> has_scheme(argument) && scheme_of(argument)
            == "file:"@,
{
    reveal_strlit("jsr:");
    reveal_strlit("https:");
    reveal_strlit("file:");
    if "jsr:"@.is_prefix_of(argument) {
        lemma_scheme_of("jsr:"@, argument);
    }
    if "https:"@.is_prefix_of(argument) {
        lemma_scheme_of("https:"@, argument);
    }
    if "file:"@.is_prefix_of(argument) {
        lemma_scheme_of("file:"@, argument);
    }
}

/// The URL of the module that the command line argument `argument` names: a `jsr:`,
/// `https:` or `file:` URL, or else a path, which is taken as relative to `cwd`. `None`
/// if there is no such URL.
pub open spec fn entrypoint_of(argument: Seq<char>, cwd: PathBuf) -> Option<Seq<char>> {
    if is_url_argument(argument) {
        parsed_url(argument)
    } else {
        file_url_text(joined_path(cwd, argument))
    }
}

/// The URL that the specifiers of `importer` are relative to, if there is one.
pub open spec fn referrer_of(importer: ImporterView) -> Option<Seq<char>> {
    match importer {
        ImporterView::Module(text) => parsed_url(text),
        ImporterView::Directory(directory) => directory_url_text(directory),
    }
}

/// Whether the module with the URL `url` can be named as an importer by that URL: its
/// specifiers are then relative to just that URL.
pub open spec fn is_own_referrer(url: Seq<char>) -> bool {
    referrer_of(ImporterView::Module(url)) == Some(url)
}

/// The URL of the module that the command line argument `argument` names: a `jsr:`,
/// `https:` or `file:` URL, or else a path, which is taken as relative to `cwd`. A URL
/// keeps its scheme, and a path its names. The module can be named as an importer by
/// its URL if that is settled or plain.
pub fn resolve_entrypoint(argument: &str, cwd: &PathBuf) -> (url: Result<String, SpecifierError>)
    ensures
        match url {
            Ok(url) => entrypoint_of(argument@, *cwd) == Some(url@),
            Err(SpecifierError::Url(_)) => {
                &&& is_url_argument(argument@)
                &&& entrypoint_of(argument@, *cwd) is None
            },
            Err(SpecifierError::Path(_)) => {
                &&& !is_url_argument(argument@)
                &&& entrypoint_of(argument@, *cwd) is None
            },
        },
        is_url_argument(argument@) && is_plain_url(argument@) ==> (url matches Ok(url) && url@
            == argument@),
        url matches Ok(url) ==> {
            &&& "jsr:"@.is_prefix_of(argument@) ==> "jsr:"@.is_prefix_of(url@)
            &&& "https:"@.is_prefix_of(argument@) ==> "https:"@.is_prefix_of(url@)
            &&& "file:"@.is_prefix_of(argument@) ==> "file:"@.is_prefix_of(url@)
            &&& is_url_argument(argument@) && is_settled(argument@, url@) ==> is_own_referrer(url@)
            &&& !is_url_argument(argument@) && is_plain_url(url@) ==> is_own_referrer(url@)
            &&& !is_url_argument(argument@) ==> "file://"@.is_prefix_of(url@)
            &&& !is_url_argument(argument@) && is_plain_path(argument@) && !url@.contains('%') ==> {
                &&& (seq!['/'] + argument@).is_suffix_of(url@)
                &&& crate::text::after_last(url@, '/') == crate::text::after_last(argument@, '/')
            }
        },
        is_url_argument(argument@) ==> parsed_url(argument@) == (match url {
            Ok(url) => Some(url@),
            Err(_) => None,
        }),
        !is_url_argument(argument@) ==> file_url_text(joined_path(*cwd, argument@)) == (match url {
            Ok(url) => Some(url@),
            Err(_) => None,
        }),
        "./"@.is_prefix_of(argument@) && is_plain_path(argument@.skip(2)) ==> {
            &&& !(url matches Ok(url) && crate::text::holds(url@, "%2F"@)) ==> entrypoint_of(
                argument@.skip(2),
                *cwd,
            ) == (match url {
                Ok(url) => Some(url@),
                Err(_) => None,
            })
            &&& url matches Ok(url) ==> (!url@.contains('%') ==> (seq!['/'] + argument@.skip(
                2,
            )).is_suffix_of(url@))
        },
{
    proof {
        lemma_scheme_kept(argument@);
        if "./"@.is_prefix_of(argument@) {
            lemma_dot_slash(argument@);
            if is_plain_path(argument@.skip(2)) {
                law_plain_path_is_no_url(argument@.skip(2));
            }
        }
    }
    if names_url(argument) {
        match parse_url(argument) {
            Ok(url) => Ok(url),
            Err(error) => Err(SpecifierError::Url(error)),
        }
    } else {
        match file_url(&join_path(cwd, argument)) {
            Ok(url) => {
                proof {
                    if (seq!['/'] + argument@).is_suffix_of(url@) {
                        crate::text::lemma_after_last_of_suffix(url@, argument@, '/');
                    }
                }
                Ok(url)
            },
            Err(error) => Err(SpecifierError::Path(error)),
        }
    }
}

/// The URL that the specifiers of `importer` are relative to. Where that URL is settled
/// or plain, it can itself be named as an importer.
pub fn resolve_referrer(importer: Importer) -> (url: Result<String, SpecifierError>)
    ensures
        match url {
            Ok(url) => referrer_of(importer@) == Some(url@),
            Err(SpecifierError::Url(_)) => importer@ is Module && referrer_of(importer@) is None,
            Err(SpecifierError::Path(_)) => {
                &&& importer@ is Directory
                &&& referrer_of(importer@) is None
            },
        },
        importer@ matches ImporterView::Module(text) ==> {
            &&& !text.contains(':') ==> url is Err
            &&& is_plain_url(text) ==> (url matches Ok(url) && url@ == text)
            &&& url matches Ok(url) ==> (is_settled(text, url@) ==> is_own_referrer(url@))
        },
        importer@ is Directory ==> (url matches Ok(url) ==> {
            &&& "file://"@.is_prefix_of(url@)
            &&& url@.last() == '/'
            &&& is_plain_url(url@) ==> is_own_referrer(url@)
        }),
{
    match importer {
        Importer::Module(text) => match parse_url(text) {
            Ok(url) => Ok(url),
            Err(error) => Err(SpecifierError::Url(error)),
        },
        Importer::Directory(directory) => match directory_url(directory) {
            Ok(url) => Ok(url),
            Err(error) => Err(SpecifierError::Path(error)),
        },
    }
}

/// What people call the module with the URL `url`, if `jsr` and `npm` are the names
/// of the packages that it refers to. A JSR package is called by its name without
/// the scope, an npm package by its full name, a file by its name without the
/// extension, and anything else is remote. There is no name for a JSR package
/// without a scope, nor for a file URL that does not end in the name of a file.
pub open spec fn display_name_of(
    url: Seq<char>,
    jsr: Option<Seq<char>>,
    npm: Option<Seq<char>>,
) -> Option<Seq<char>> {
    match (jsr, npm) {
        (Some(name), _) => crate::text::second_part(name, '/'),
        (None, Some(name)) => Some(name),
        (None, None) => if "file:"@.is_prefix_of(url) {
            crate::text::file_stem(crate::text::after_last(url, '/'))
        } else {
            Some("remote"@)
        },
    }
}

/// What people call the module with the URL `url`, if `jsr` and `npm` are the names
/// of the packages that it refers to; `None` if there is no name for it.
pub fn display_name(url: &str, jsr: Option<String>, npm: Option<String>) -> (name: Option<String>)
    ensures
        crate::text::text_view(name) == display_name_of(url@, crate::text::text_view(jsr), crate::text::text_view(npm)),
{
    match (jsr, npm) {
        (Some(name), _) => find_second_part(name.as_str(), '/'),
        (None, Some(name)) => Some(name),
        (None, None) => if starts_with(url, "file:") {
            find_file_stem(find_last_part(url, '/'))
        } else {
            Some("remote".to_owned())
        },
    }
}

/// What people call the module with the URL `url`, told from its scheme. A `jsr:` or
/// `npm:` URL that is no reference to a package is remote like any other, and there is
/// no name if the version that it asks for has no range.
pub open spec fn name_by_scheme(url: Seq<char>) -> Option<Seq<char>> {
    if !has_version_range(url) {
        None
    } else if "jsr:"@.is_prefix_of(url) {
        match jsr_package_name(url) {
            Some(name) => crate::text::second_part(name, '/'),
            None => Some("remote"@),
        }
    } else if "npm:"@.is_prefix_of(url) {
        match npm_package_name(url) {
            Some(name) => Some(name),
            None => Some("remote"@),
        }
    } else if "file:"@.is_prefix_of(url) {
        crate::text::file_stem(crate::text::after_last(url, '/'))
    } else {
        Some("remote"@)
    }
}

proof fn lemma_schemes_differ(url: Seq<char>)
    ensures
        "jsr:"@.is_prefix_of(url) ==> !"npm:"@.is_prefix_of(url) && !"file:"@.is_prefix_of(url),
        "npm:"@.is_prefix_of(url) ==> !"file:"@.is_prefix_of(url),
{
    reveal_strlit("jsr:");
    reveal_strlit("npm:");
    reveal_strlit("file:");
    if url.len() >= 4 {
        assert(url.subrange(0, 4)[0] == url[0]);
    }
    if url.len() >= 5 {
        assert(url.subrange(0, 5)[0] == url[0]);
    }
}

/// Whether the version that `url` may ask for can be counted up.
fn check_version_range(url: &str) -> (yes: bool)
    ensures
        yes == has_version_range(url@),
{
    !(starts_with(url, "jsr:") || starts_with(url, "npm:")) || !find_part(
        url,
        "18446744073709551615",
    )
}

/// What people call the module with the URL `url`. The URL must have such a name;
/// `try_resolve_display_name` finds out whether it has.
pub fn resolve_display_name(url: &str) -> (name: String)
    requires
        has_version_range(url@),
        display_name_of(url@, jsr_package_name(url@), npm_package_name(url@)) is Some,
    ensures
        Some(name@) == display_name_of(url@, jsr_package_name(url@), npm_package_name(url@)),
        Some(name@) == name_by_scheme(url@),
{
    let jsr = read_jsr_package_name(url);
    let npm = read_npm_package_name(url);
    proof {
        lemma_schemes_differ(url@);
    }
    display_name(url, jsr, npm).unwrap()
}

/// What people call the module with the URL `url`; `None` if there is no name for it.
pub fn try_resolve_display_name(url: &str) -> (name: Option<String>)
    ensures
        has_version_range(url@) ==> crate::text::text_view(name) == display_name_of(
            url@,
            jsr_package_name(url@),
            npm_package_name(url@),
        ),
        crate::text::text_view(name) == name_by_scheme(url@),
{
    if !check_version_range(url) {
        return None;
    }
    let jsr = read_jsr_package_name(url);
    let npm = read_npm_package_name(url);
    proof {
        lemma_schemes_differ(url@);
    }
    if display_name(url, jsr, npm).is_some() {
        Some(resolve_display_name(url))
    } else {
        None
    }
}

/// What the bundler is to bundle if it begins with the module with the URL
/// `entrypoint`; `None` if there is no name for that module.
pub fn bundle_input(entrypoint: &str) -> (input: Option<BundleInput>)
    ensures
        match input {
            Some(input) => {
                &&& name_by_scheme(entrypoint@) == Some(input.name@)
                &&& input.import@ == entrypoint@
                &&& input.entry_filenames@ == "[name].bundle.js"@
            },
            None => name_by_scheme(entrypoint@) is None,
        },
        "https:"@.is_prefix_of(entrypoint@) ==> (input matches Some(input) && input.name@
            == "remote"@),
{
    proof {
        reveal_strlit("jsr:");
        reveal_strlit("npm:");
        reveal_strlit("file:");
        reveal_strlit("https:");
        if "https:"@.is_prefix_of(entrypoint@) {
            assert("https:"@[0] == entrypoint@.subrange(0, 6)[0]);
            assert("jsr:"@[0] != entrypoint@.subrange(0, 4)[0]);
            assert("npm:"@[0] != entrypoint@.subrange(0, 4)[0]);
            assert("file:"@[0] != entrypoint@.subrange(0, 5)[0]);
        }
    }
    match try_resolve_display_name(entrypoint) {
        Some(name) => Some(
            BundleInput {
                name,
                import: entrypoint.to_owned(),
                entry_filenames: "[name].bundle.js",
            },
        ),
        None => None,
    }
}

/// Two references to one package are called the same, whatever version and whatever
/// path in the package they ask for.
pub proof fn law_package_is_called_by_name_alone(first: Seq<char>, second: Seq<char>)
    requires
        has_version_range(first),
        has_version_range(second),
    ensures
        "jsr:"@.is_prefix_of(first) && "jsr:"@.is_prefix_of(second) && jsr_package_name(first)
            == jsr_package_name(second) ==> name_by_scheme(first) == name_by_scheme(second),
        "npm:"@.is_prefix_of(first) && "npm:"@.is_prefix_of(second) && npm_package_name(first)
            == npm_package_name(second) ==> name_by_scheme(first) == name_by_scheme(second),
{
    lemma_schemes_differ(first);
    lemma_schemes_differ(second);
}

/// A JSR package is called by its name without the scope.
pub proof fn law_jsr_package_without_scope(
    url: Seq<char>,
    scope: Seq<char>,
    package: Seq<char>,
    npm: Option<Seq<char>>,
)
    requires
        !scope.contains('/'),
        !package.contains('/'),
    ensures
        display_name_of(url, Some(scope + seq!['/'] + package), npm) == Some(package),
{
    let name = scope + seq!['/'] + package;
    crate::text::lemma_cut_at_first(scope, package, '/');
    assert(name.skip(scope.len() as int + 1) =~= package);
    crate::text::lemma_uncut(package, '/');
}

/// A file is called by its name without the extension, whatever the directory.
pub proof fn law_file_without_extension(
    directory: Seq<char>,
    stem: Seq<char>,
    extension: Seq<char>,
)
    requires
        "file:"@.is_prefix_of(directory),
        stem.len() > 0,
        stem != seq!['.'] || extension.len() > 0,
        !stem.contains('/'),
        !extension.contains('/'),
        !extension.contains('.'),
    ensures
        display_name_of(
            directory + seq!['/'] + stem + seq!['.'] + extension,
            None,
            None,
        ) == Some(stem),
{
    let name = stem + seq!['.'] + extension;
    let url = directory + seq!['/'] + stem + seq!['.'] + extension;
    assert(url =~= directory + seq!['/'] + name);
    assert("file:"@.is_prefix_of(url)) by {
        let n = "file:"@.len() as int;
        assert(url.subrange(0, n) =~= directory.subrange(0, n));
    }
    assert(!name.contains('/')) by {
        if name.contains('/') {
            let i = choose|i: int| 0 <= i < name.len() && name[i] == '/';
            if i < stem.len() {
                assert(stem[i] == '/');
            } else if i > stem.len() {
                assert(extension[i - stem.len() - 1] == '/');
            }
        }
    }
    crate::text::lemma_cut_at_last(directory, name, '/');
    crate::text::lemma_cut_at_last(stem, extension, '.');
    assert(name[stem.len() as int] == '.');
    assert(name != seq!['.']);
    assert(name != seq!['.', '.']) by {
        if name == seq!['.', '.'] {
            assert(stem =~= seq!['.']);
        }
    }
    assert(name.take(stem.len() as int) =~= stem);
}

/// What a module is called holds no slash, unless it is an npm package: such a name
/// can stand in a file name.
pub proof fn law_display_name_has_no_slash(
    url: Seq<char>,
    jsr: Option<Seq<char>>,
    npm: Option<Seq<char>>,
    name: Seq<char>,
)
    requires
        display_name_of(url, jsr, npm) == Some(name),
        jsr is Some || npm is None,
    ensures
        !name.contains('/'),
{
    match jsr {
        Some(package) => {
            let first = crate::text::before_first(package, '/');
            crate::text::lemma_before_first(package.skip(first.len() as int + 1), '/');
        },
        None => {
            if "file:"@.is_prefix_of(url) {
                let file = crate::text::after_last(url, '/');
                crate::text::lemma_after_last(url, '/');
                crate::text::lemma_after_last(file, '.');
                if name.contains('/') {
                    let i = choose|i: int| 0 <= i < name.len() && name[i] == '/';
                    assert(file[i] == '/');
                }
            } else {
                reveal_strlit("remote");
            }
        },
    }
}

proof fn lemma_dot_slash(argument: Seq<char>)
    requires
        "./"@.is_prefix_of(argument),
    ensures
        argument == "./"@ + argument.skip(2),
        !is_url_argument(argument),
{
    reveal_strlit("./");
    reveal_strlit("jsr:");
    reveal_strlit("https:");
    reveal_strlit("file:");
    assert(argument.subrange(0, 2)[0] == argument[0]);
    assert(argument.subrange(0, 2)[1] == argument[1]);
    assert(argument =~= "./"@ + argument.skip(2));
    if argument.len() >= 4 {
        assert(argument.subrange(0, 4)[0] == argument[0]);
    }
    if argument.len() >= 5 {
        assert(argument.subrange(0, 5)[0] == argument[0]);
    }
    if argument.len() >= 6 {
        assert(argument.subrange(0, 6)[0] == argument[0]);
    }
}

/// A plain path holds no colon, so it is not taken for a URL.
pub proof fn law_plain_path_is_no_url(path: Seq<char>)
    requires
        is_plain_path(path),
    ensures
        !path.contains(':'),
        !is_url_argument(path),
    decreases path.len(),
{
    let name = crate::text::before_first(path, '/');
    crate::text::lemma_before_first(path, '/');
    let rest = path.skip(name.len() as int + 1);
    if name.len() < path.len() {
        law_plain_path_is_no_url(rest);
    }
    if path.contains(':') {
        let i = choose|i: int| 0 <= i < path.len() && path[i] == ':';
        if i < name.len() {
            assert(name[i] == path.take(name.len() as int)[i]);
        } else if i > name.len() {
            assert(rest[i - name.len() - 1] == ':');
        }
    }
    lemma_no_colon_is_no_url(path);
}

proof fn lemma_no_colon_is_no_url(argument: Seq<char>)
    requires
        !argument.contains(':'),
    ensures
        !is_url_argument(argument),
{
    reveal_strlit("jsr:");
    reveal_strlit("https:");
    reveal_strlit("file:");
    if "jsr:"@.is_prefix_of(argument) {
        assert("jsr:"@[3] == argument.subrange(0, 4)[3]);
        assert(argument[3] == ':');
    }
    if "https:"@.is_prefix_of(argument) {
        assert("https:"@[5] == argument.subrange(0, 6)[5]);
        assert(argument[5] == ':');
    }
    if "file:"@.is_prefix_of(argument) {
        assert("file:"@[4] == argument.subrange(0, 5)[4]);
        assert(argument[4] == ':');
    }
}

proof fn lemma_argument_by_scheme(scheme: Seq<char>, rest: Seq<char>)
    requires
        !scheme.contains(':'),
    ensures
        is_url_argument(scheme + seq![':'] + rest) <==> scheme == "jsr"@ || scheme == "https"@
            || scheme == "file"@,
{
    reveal_strlit("jsr:");
    reveal_strlit("https:");
    reveal_strlit("file:");
    reveal_strlit("jsr");
    reveal_strlit("https");
    reveal_strlit("file");
    let argument = scheme + seq![':'] + rest;
    crate::text::lemma_cut_at_first(scheme, rest, ':');
    lemma_scheme_kept(argument);
    assert("jsr:"@ =~= "jsr"@.push(':'));
    assert("https:"@ =~= "https"@.push(':'));
    assert("file:"@ =~= "file"@.push(':'));
    assert(scheme_of(argument) =~= scheme.push(':'));
    assert(scheme.push(':').drop_last() =~= scheme);
    assert("jsr"@.push(':').drop_last() =~= "jsr"@);
    assert("https"@.push(':').drop_last() =~= "https"@);
    assert("file"@.push(':').drop_last() =~= "file"@);
    assert(scheme.push(':').is_prefix_of(argument)) by {
        assert(argument.subrange(0, scheme.len() as int + 1) =~= scheme.push(':'));
    }
}

/// An argument is taken for a URL exactly if what stands before its first colon is `jsr`,
/// `https` or `file`, and is then parsed as it is. Any other argument is a path: all of it
/// is looked for from the working directory on, and nothing of it is dropped.
pub proof fn law_entrypoint_by_scheme(scheme: Seq<char>, rest: Seq<char>, cwd: PathBuf)
    requires
        !scheme.contains(':'),
    ensures
        ({
            let argument = scheme + seq![':'] + rest;
            if scheme == "jsr"@ || scheme == "https"@ || scheme == "file"@ {
                is_url_argument(argument) && entrypoint_of(argument, cwd) == parsed_url(argument)
            } else {
                &&& !is_url_argument(argument)
                &&& entrypoint_of(argument, cwd) == file_url_text(joined_path(cwd, argument))
            }
        }),
        !is_url_argument(scheme),
        entrypoint_of(scheme, cwd) == file_url_text(joined_path(cwd, scheme)),
{
    lemma_argument_by_scheme(scheme, rest);
    lemma_no_colon_is_no_url(scheme);
}

/// A path behind a dot and a slash names the same module as without them, and keeps all of
/// its directories, as far as the file system does not tell the two apart.
pub proof fn law_dot_slash_changes_nothing(path: Seq<char>, cwd: PathBuf)
    requires
        is_plain_path(path),
    ensures
        entrypoint_of("./"@ + path, cwd) == file_url_text(
            joined_path(cwd, "./"@ + path),
        ),
        file_url_text(joined_path(cwd, "./"@ + path)) == file_url_text(
            joined_path(cwd, path),
        ) <==> entrypoint_of("./"@ + path, cwd) == entrypoint_of(path, cwd),
{
    reveal_strlit("./");
    let argument = "./"@ + path;
    assert("./"@ =~= argument.subrange(0, 2));
    lemma_dot_slash(argument);
    law_plain_path_is_no_url(path);
}

/// The specifiers of a module are relative to the URL that its own text stands for, and
/// those of the command line to the URL of the directory.
pub proof fn law_referrer_is_the_importer(text: Seq<char>, directory: PathBuf)
    ensures
        referrer_of(ImporterView::Module(text)) == parsed_url(text),
        referrer_of(ImporterView::Directory(directory)) == directory_url_text(directory),
        is_own_referrer(text) <==> parsed_url(text) == Some(text),
{
}

/// An importer is known by its text or its directory.
pub proof fn law_importer_tells_all(importer: Importer)
    ensures
        importer matches Importer::Module(text) ==> importer@ == ImporterView::Module(text@),
        importer matches Importer::Directory(directory) ==> importer@ == ImporterView::Directory(
            *directory,
        ),
{
}

/// A JSR package is called by the second part of its name. An npm package is called by its
/// full name. What is neither a package nor a file is
/// called remote, whatever its scheme, and a file is called by what stands behind its
/// last slash.
pub proof fn law_other_names(url: Seq<char>, name: Seq<char>, npm: Option<Seq<char>>)
    ensures
        display_name_of(url, None, Some(name)) == Some(name),
        !"file:"@.is_prefix_of(url) ==> display_name_of(url, None, None) == Some("remote"@),
        "file:"@.is_prefix_of(url) ==> display_name_of(url, None, None) == crate::text::file_stem(
            crate::text::after_last(url, '/'),
        ),
        display_name_of(url, Some(name), npm) == crate::text::second_part(name, '/'),
        !name.contains('/') ==> display_name_of(url, Some(name), npm) is None,
{
    if !name.contains('/') {
        crate::text::lemma_uncut(name, '/');
    }
}

/// A JSR package is called by its name without the scope, an npm package by its full name,
/// and one that refers to no package is remote. What is neither is called by its file, or
/// is remote.
pub proof fn law_called_by_scheme(url: Seq<char>, name: Seq<char>)
    requires
        has_version_range(url),
    ensures
        "npm:"@.is_prefix_of(url) && npm_package_name(url) == Some(name) ==> name_by_scheme(url)
            == Some(name),
        "npm:"@.is_prefix_of(url) && npm_package_name(url) is None ==> name_by_scheme(url) == Some(
            "remote"@,
        ),
        "jsr:"@.is_prefix_of(url) && jsr_package_name(url) == Some(name) ==> name_by_scheme(url)
            == crate::text::second_part(name, '/'),
        "jsr:"@.is_prefix_of(url) && jsr_package_name(url) is None ==> name_by_scheme(url) == Some(
            "remote"@,
        ),
        "file:"@.is_prefix_of(url) ==> name_by_scheme(url) == crate::text::file_stem(
            crate::text::after_last(url, '/'),
        ),
        !"npm:"@.is_prefix_of(url) && !"jsr:"@.is_prefix_of(url) && !"file:"@.is_prefix_of(url)
            ==> name_by_scheme(url) == Some("remote"@),
{
    lemma_schemes_differ(url);
}

/// Only a reference to a package can ask for a version without a range, and only one that
/// holds the largest `u64`: its twenty digits stand in the URL one behind the other.
pub proof fn law_version_without_range_is_the_largest_number(url: Seq<char>)
    ensures
        !has_version_range(url) <==> {
            &&& "jsr:"@.is_prefix_of(url) || "npm:"@.is_prefix_of(url)
            &&& exists|i: int|
                #![trigger url.subrange(i, i + 20)]
                0 <= i && i + 20 <= url.len() && url.subrange(i, i + 20)
                    == "18446744073709551615"@
        },
        !has_version_range(url) ==> name_by_scheme(url) is None,
{
    reveal_strlit("18446744073709551615");
    let number = "18446744073709551615"@;
    if crate::text::holds(url, number) {
        crate::text::law_held_part_stands_in_text(url, number);
        let i = choose|i: int|
            #![trigger url.subrange(i, i + number.len())]
            0 <= i && i + number.len() <= url.len() && url.subrange(i, i + number.len()) == number;
        assert(url.subrange(i, i + 20) == number);
    }
    if exists|i: int|
        #![trigger url.subrange(i, i + 20)]
        0 <= i && i + 20 <= url.len() && url.subrange(i, i + 20) == number {
        let i = choose|i: int|
            #![trigger url.subrange(i, i + 20)]
            0 <= i && i + 20 <= url.len() && url.subrange(i, i + 20) == number;
        assert(number =~= url.skip(i).subrange(0, number.len() as int));
        assert(number.is_prefix_of(url.skip(i)));
    }
}

} // verus!
