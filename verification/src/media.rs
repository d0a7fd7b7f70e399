//! What kind of file a module is, and how the bundler is to treat it.
use deno_graph::MediaType as Found;
use std::collections::HashMap;
use url::Url;
use vstd::prelude::*;

verus! {

/// The kind of a file, told from its URL and from the headers it was served with.
#[derive(Clone, Copy, Debug, PartialEq, Eq, Structural)]
pub enum MediaType {
    JavaScript,
    Jsx,
    Mjs,
    Cjs,
    TypeScript,
    Mts,
    Cts,
    Dts,
    Dmts,
    Dcts,
    Tsx,
    Css,
    Json,
    Html,
    Sql,
    Wasm,
    SourceMap,
    Unknown,
}

impl MediaType {
    /// The name of the kind.
    pub open spec fn spec_name(self) -> Seq<char> {
        match self {
            MediaType::JavaScript => "JavaScript"@,
            MediaType::Jsx => "Jsx"@,
            MediaType::Mjs => "Mjs"@,
            MediaType::Cjs => "Cjs"@,
            MediaType::TypeScript => "TypeScript"@,
            MediaType::Mts => "Mts"@,
            MediaType::Cts => "Cts"@,
            MediaType::Dts => "Dts"@,
            MediaType::Dmts => "Dmts"@,
            MediaType::Dcts => "Dcts"@,
            MediaType::Tsx => "Tsx"@,
            MediaType::Css => "Css"@,
            MediaType::Json => "Json"@,
            MediaType::Html => "Html"@,
            MediaType::Sql => "Sql"@,
            MediaType::Wasm => "Wasm"@,
            MediaType::SourceMap => "SourceMap"@,
            MediaType::Unknown => "Unknown"@,
        }
    }

    /// The name of the kind.
    pub fn name(self) -> (name: &'static str)
        ensures
            name@ == self.spec_name(),
    {
        match self {
            MediaType::JavaScript => "JavaScript",
            MediaType::Jsx => "Jsx",
            MediaType::Mjs => "Mjs",
            MediaType::Cjs => "Cjs",
            MediaType::TypeScript => "TypeScript",
            MediaType::Mts => "Mts",
            MediaType::Cts => "Cts",
            MediaType::Dts => "Dts",
            MediaType::Dmts => "Dmts",
            MediaType::Dcts => "Dcts",
            MediaType::Tsx => "Tsx",
            MediaType::Css => "Css",
            MediaType::Json => "Json",
            MediaType::Html => "Html",
            MediaType::Sql => "Sql",
            MediaType::Wasm => "Wasm",
            MediaType::SourceMap => "SourceMap",
            MediaType::Unknown => "Unknown",
        }
    }

    /// Whether modules of this kind hold JavaScript, with or without JSX.
    pub open spec fn is_javascript(self) -> bool {
        ||| self == MediaType::JavaScript
        ||| self == MediaType::Mjs
        ||| self == MediaType::Cjs
        ||| self == MediaType::Jsx
    }

    /// Whether modules of this kind hold TypeScript, with or without JSX.
    pub open spec fn is_typescript(self) -> bool {
        ||| self == MediaType::TypeScript
        ||| self == MediaType::Mts
        ||| self == MediaType::Cts
        ||| self == MediaType::Dts
        ||| self == MediaType::Dmts
        ||| self == MediaType::Dcts
        ||| self == MediaType::Tsx
    }

    /// Whether modules of this kind may hold JSX.
    pub open spec fn is_jsx(self) -> bool {
        self == MediaType::Jsx || self == MediaType::Tsx
    }
}

/// How the bundler treats a module.
#[derive(Debug, PartialEq, Eq)]
pub enum ModuleType {
    Js,
    Jsx,
    Ts,
    Tsx,
    Json,
    Css,
    Asset,
    /// A treatment that the bundler knows by this name only.
    Custom(String),
}

/// What a `ModuleType` says, with the text of a name in place of its string.
pub enum ModuleTypeView {
    Js,
    Jsx,
    Ts,
    Tsx,
    Json,
    Css,
    Asset,
    Custom(Seq<char>),
}

impl View for ModuleType {
    type V = ModuleTypeView;

    open spec fn view(&self) -> ModuleTypeView {
        match self {
            ModuleType::Js => ModuleTypeView::Js,
            ModuleType::Jsx => ModuleTypeView::Jsx,
            ModuleType::Ts => ModuleTypeView::Ts,
            ModuleType::Tsx => ModuleTypeView::Tsx,
            ModuleType::Json => ModuleTypeView::Json,
            ModuleType::Css => ModuleTypeView::Css,
            ModuleType::Asset => ModuleTypeView::Asset,
            ModuleType::Custom(name) => ModuleTypeView::Custom(name@),
        }
    }
}

/// The treatment of modules of the kind `media_type`.
pub open spec fn module_type_of(media_type: MediaType) -> ModuleTypeView {
    if media_type.is_typescript() {
        if media_type.is_jsx() {
            ModuleTypeView::Tsx
        } else {
            ModuleTypeView::Ts
        }
    } else if media_type.is_javascript() {
        if media_type.is_jsx() {
            ModuleTypeView::Jsx
        } else {
            ModuleTypeView::Js
        }
    } else {
        match media_type {
            MediaType::Css => ModuleTypeView::Css,
            MediaType::Json => ModuleTypeView::Json,
            MediaType::Wasm => ModuleTypeView::Custom("wasm"@),
            MediaType::SourceMap => ModuleTypeView::Custom("map"@),
            MediaType::Html => ModuleTypeView::Custom("html"@),
            _ => ModuleTypeView::Asset,
        }
    }
}

/// How the bundler treats modules of the kind `media_type`.
pub fn media_to_module_type(media_type: MediaType) -> (module_type: ModuleType)
    ensures
        module_type@ == module_type_of(media_type),
{
    match media_type {
        MediaType::JavaScript | MediaType::Mjs | MediaType::Cjs => ModuleType::Js,
        MediaType::Jsx => ModuleType::Jsx,
        MediaType::TypeScript
        | MediaType::Mts
        | MediaType::Cts
        | MediaType::Dts
        | MediaType::Dmts
        | MediaType::Dcts => ModuleType::Ts,
        MediaType::Tsx => ModuleType::Tsx,
        MediaType::Css => ModuleType::Css,
        MediaType::Json => ModuleType::Json,
        MediaType::Wasm => ModuleType::Custom("wasm".to_owned()),
        MediaType::SourceMap => ModuleType::Custom("map".to_owned()),
        MediaType::Unknown => ModuleType::Asset,
        MediaType::Html => ModuleType::Custom("html".to_owned()),
        MediaType::Sql => ModuleType::Asset,
    }
}

/// What `deno_graph::MediaType::from_specifier_and_headers` tells of a file with
/// the URL `url` that was served with `headers`; `None` if `url` is not the text of
/// a URL.
pub uninterp spec fn found_media_type(
    url: Seq<char>,
    headers: Option<Map<String, String>>,
) -> Option<MediaType>;

/// Calls `deno_graph::MediaType::from_specifier_and_headers` on the URL with the
/// text `url`. Trusted: the kind found depends on that text and on the headers
/// alone, and one is found exactly if `url::Url::parse` accepts the text.
#[verifier::external_body]
pub(crate) fn media_type_from(
    url: &str,
    headers: Option<&HashMap<String, String>>,
) -> (media_type: Option<MediaType>)
    ensures
        media_type == found_media_type(url@, headers_view(headers)),
        media_type is Some <==> crate::specifier::parsed_url(url@) is Some,
{
    let url = Url::parse(url).ok()?;
    let media_type = match Found::from_specifier_and_headers(&url, headers) {
        Found::JavaScript => MediaType::JavaScript, Found::Jsx => MediaType::Jsx,
        Found::Mjs => MediaType::Mjs, Found::Cjs => MediaType::Cjs,
        Found::TypeScript => MediaType::TypeScript, Found::Mts => MediaType::Mts,
        Found::Cts => MediaType::Cts, Found::Dts => MediaType::Dts,
        Found::Dmts => MediaType::Dmts, Found::Dcts => MediaType::Dcts,
        Found::Tsx => MediaType::Tsx, Found::Css => MediaType::Css,
        Found::Json => MediaType::Json, Found::Html => MediaType::Html,
        Found::Sql => MediaType::Sql, Found::Wasm => MediaType::Wasm,
        Found::SourceMap => MediaType::SourceMap, Found::Unknown => MediaType::Unknown,
    };
    Some(media_type)
}

/// The contents of `headers`.
pub open spec fn headers_view(
    headers: Option<&HashMap<String, String>>,
) -> Option<Map<String, String>> {
    match headers {
        Some(headers) => Some(headers@),
        None => None,
    }
}

/// JavaScript and TypeScript are bundled as such, with JSX exactly if the kind is one with
/// JSX; so is CSS, and so is JSON. WebAssembly, source maps and HTML are treated each by
/// a name of its own, and all the rest is an asset.
pub proof fn law_module_type_by_kind(kind: MediaType)
    ensures
        module_type_of(kind) is Js <==> kind is JavaScript || kind is Mjs || kind is Cjs,
        module_type_of(kind) is Jsx <==> kind is Jsx,
        module_type_of(kind) is Ts <==> kind is TypeScript || kind is Mts || kind is Cts
            || kind is Dts || kind is Dmts || kind is Dcts,
        module_type_of(kind) is Tsx <==> kind is Tsx,
        module_type_of(kind) is Css <==> kind is Css,
        module_type_of(kind) is Json <==> kind is Json,
        module_type_of(kind) is Asset <==> kind is Sql || kind is Unknown,
        module_type_of(kind) matches ModuleTypeView::Custom(name) ==> {
            ||| kind is Wasm && name == "wasm"@
            ||| kind is SourceMap && name == "map"@
            ||| kind is Html && name == "html"@
        },
{
}

/// A treatment is known by which of the eight it is, and one of a name of its own by that
/// name.
pub proof fn law_module_type_tells_all(module_type: ModuleType)
    ensures
        module_type@ is Js <==> module_type is Js,
        module_type@ is Jsx <==> module_type is Jsx,
        module_type@ is Ts <==> module_type is Ts,
        module_type@ is Tsx <==> module_type is Tsx,
        module_type@ is Json <==> module_type is Json,
        module_type@ is Css <==> module_type is Css,
        module_type@ is Asset <==> module_type is Asset,
        module_type matches ModuleType::Custom(name) ==> module_type@ == ModuleTypeView::Custom(
            name@,
        ),
{
}

/// A kind is called by its own name, and by no other's.
pub proof fn law_kinds_are_told_by_name(kind: MediaType)
    ensures
        kind.spec_name() == "JavaScript"@ <==> kind is JavaScript,
        kind.spec_name() == "Jsx"@ <==> kind is Jsx,
        kind.spec_name() == "Mjs"@ <==> kind is Mjs,
        kind.spec_name() == "Cjs"@ <==> kind is Cjs,
        kind.spec_name() == "TypeScript"@ <==> kind is TypeScript,
        kind.spec_name() == "Mts"@ <==> kind is Mts,
        kind.spec_name() == "Cts"@ <==> kind is Cts,
        kind.spec_name() == "Dts"@ <==> kind is Dts,
        kind.spec_name() == "Dmts"@ <==> kind is Dmts,
        kind.spec_name() == "Dcts"@ <==> kind is Dcts,
        kind.spec_name() == "Tsx"@ <==> kind is Tsx,
        kind.spec_name() == "Css"@ <==> kind is Css,
        kind.spec_name() == "Json"@ <==> kind is Json,
        kind.spec_name() == "Html"@ <==> kind is Html,
        kind.spec_name() == "Sql"@ <==> kind is Sql,
        kind.spec_name() == "Wasm"@ <==> kind is Wasm,
        kind.spec_name() == "SourceMap"@ <==> kind is SourceMap,
        kind.spec_name() == "Unknown"@ <==> kind is Unknown,
{
    reveal_strlit("JavaScript");
    reveal_strlit("Jsx");
    reveal_strlit("Mjs");
    reveal_strlit("Cjs");
    reveal_strlit("TypeScript");
    reveal_strlit("Mts");
    reveal_strlit("Cts");
    reveal_strlit("Dts");
    reveal_strlit("Dmts");
    reveal_strlit("Dcts");
    reveal_strlit("Tsx");
    reveal_strlit("Css");
    reveal_strlit("Json");
    reveal_strlit("Html");
    reveal_strlit("Sql");
    reveal_strlit("Wasm");
    reveal_strlit("SourceMap");
    reveal_strlit("Unknown");
    assert(mark("JavaScript"@) == (10int, 'J', 'a', 'v'));
    assert(mark("Jsx"@) == (3int, 'J', 's', 'x'));
    assert(mark("Mjs"@) == (3int, 'M', 'j', 's'));
    assert(mark("Cjs"@) == (3int, 'C', 'j', 's'));
    assert(mark("TypeScript"@) == (10int, 'T', 'y', 'p'));
    assert(mark("Mts"@) == (3int, 'M', 't', 's'));
    assert(mark("Cts"@) == (3int, 'C', 't', 's'));
    assert(mark("Dts"@) == (3int, 'D', 't', 's'));
    assert(mark("Dmts"@) == (4int, 'D', 'm', 't'));
    assert(mark("Dcts"@) == (4int, 'D', 'c', 't'));
    assert(mark("Tsx"@) == (3int, 'T', 's', 'x'));
    assert(mark("Css"@) == (3int, 'C', 's', 's'));
    assert(mark("Json"@) == (4int, 'J', 's', 'o'));
    assert(mark("Html"@) == (4int, 'H', 't', 'm'));
    assert(mark("Sql"@) == (3int, 'S', 'q', 'l'));
    assert(mark("Wasm"@) == (4int, 'W', 'a', 's'));
    assert(mark("SourceMap"@) == (9int, 'S', 'o', 'u'));
    assert(mark("Unknown"@) == (7int, 'U', 'n', 'k'));
    let told = mark(kind.spec_name());
}

/// What tells the names of two kinds apart: the length and the first three letters.
spec fn mark(name: Seq<char>) -> (int, char, char, char) {
    (name.len() as int, name[0], name[1], name[2])
}

/// Headers are known by their contents, and whether there are any.
pub proof fn law_headers_tell_all(headers: &HashMap<String, String>)
    ensures
        headers_view(Some(headers)) == Some(headers@),
        headers_view(None) is None,
{
}

} // verus!
