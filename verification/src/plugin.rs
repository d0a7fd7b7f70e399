//! How the bundler's plugin resolves and loads modules.
//!
//! Resolving a specifier begins with the referrer and ends in the id of a module, which
//! `resolved_id` gives. A load takes up to three steps. `begin_load` tells which URL to
//! load, `try_look_up` what to do after a look into the graph, and `finish_load` what to
//! hand to the bundler once a file had to be fetched.
use crate::graph::find_module;
use crate::graph::follow_redirects;
use crate::graph::GraphModule;
use crate::graph::GraphModuleView;
use crate::media::media_to_module_type;
use crate::media::media_type_from;
use crate::media::MediaType;
use crate::media::ModuleType;
use crate::media::ModuleTypeView;
use crate::specifier::parse_url;
use crate::specifier::SpecifierError;
use deno_graph::ModuleGraph;
use std::collections::HashMap;
use vstd::prelude::*;

verus! {

/// How a module is asked for.
#[derive(Clone, Copy, Debug, PartialEq, Eq, Structural)]
pub enum ImportKind {
    Import,
    DynamicImport,
    Require,
    AtImport,
    UrlImport,
    NewUrl,
    HotAccept,
}

/// By the rules of which module system a specifier is resolved.
#[derive(Clone, Copy, Debug, PartialEq, Eq, Structural)]
pub enum ResolutionMode {
    Import,
    Require,
}

/// A loaded module.
#[derive(Debug, PartialEq, Eq)]
pub struct LoadOutput {
    pub code: String,
    pub module_type: ModuleType,
}

/// What is to be done with a module after a look into the graph.
#[derive(Debug, PartialEq, Eq)]
pub enum LoadStep {
    /// The module is loaded.
    Done(LoadOutput),
    /// The file is to be fetched.
    Fetch,
}

/// What a `LoadOutput` says, with texts in place of strings.
pub struct LoadOutputView {
    pub code: Seq<char>,
    pub module_type: ModuleTypeView,
}

/// What a `LoadStep` says, with texts in place of strings.
pub enum LoadStepView {
    Done(LoadOutputView),
    Fetch,
}

impl View for LoadOutput {
    type V = LoadOutputView;

    open spec fn view(&self) -> LoadOutputView {
        LoadOutputView { code: self.code@, module_type: self.module_type@ }
    }
}

impl View for LoadStep {
    type V = LoadStepView;

    open spec fn view(&self) -> LoadStepView {
        match self {
            LoadStep::Done(output) => LoadStepView::Done(output@),
            LoadStep::Fetch => LoadStepView::Fetch,
        }
    }
}

/// The name of the plugin.
pub fn plugin_name() -> (name: &'static str)
    ensures
        name@ == "http-import"@,
{
    "http-import"
}

/// By which rules the specifier of a module that is asked for by `kind` is resolved.
pub fn resolution_mode(kind: ImportKind) -> (mode: ResolutionMode)
    ensures
        mode == ResolutionMode::Require <==> kind == ImportKind::Require,
        mode == ResolutionMode::Import <==> kind != ImportKind::Require,
{
    match kind {
        ImportKind::Require => ResolutionMode::Require,
        _ => ResolutionMode::Import,
    }
}

/// What the bundler gets of a module with the text `code` that is of the kind
/// `media_type`.
pub open spec fn output_of(code: Seq<char>, media_type: MediaType) -> LoadOutputView {
    LoadOutputView { code, module_type: crate::media::module_type_of(media_type) }
}

/// What is to be done with a module if `module` is what the graph holds of it: source
/// text in the graph is used, and anything else is fetched.
pub open spec fn step_of(module: Option<GraphModuleView>) -> LoadStepView {
    match module {
        Some(GraphModuleView::Js { source, media_type }) => LoadStepView::Done(
            output_of(source, media_type),
        ),
        Some(GraphModuleView::Json { source, media_type }) => LoadStepView::Done(
            output_of(source, media_type),
        ),
        _ => LoadStepView::Fetch,
    }
}

/// What the bundler gets of a module with the text `code` that is of the kind
/// `media_type`.
pub fn load_output(code: String, media_type: MediaType) -> (output: LoadOutput)
    ensures
        output@ == output_of(code@, media_type),
{
    LoadOutput { code, module_type: media_to_module_type(media_type) }
}

/// The URL that is to be loaded as the module `id`.
pub fn begin_load(id: &str) -> (url: Result<String, SpecifierError>)
    ensures
        match url {
            Ok(url) => crate::specifier::parsed_url(id@) == Some(url@),
            Err(SpecifierError::Url(_)) => crate::specifier::parsed_url(id@) is None,
            Err(SpecifierError::Path(_)) => false,
        },
        !id@.contains(':') ==> url is Err,
        crate::specifier::is_plain_url(id@) ==> (url matches Ok(url) && url@ == id@),
        url matches Ok(url) ==> (crate::specifier::is_settled(id@, url@)
            ==> crate::specifier::is_own_referrer(url@)),
{
    match parse_url(id) {
        Ok(url) => Ok(url),
        Err(error) => Err(SpecifierError::Url(error)),
    }
}

/// What is to be done with a module if `module` is what the graph holds of it.
/// WebAssembly modules cannot be loaded.
pub fn continue_load(module: Option<GraphModule>) -> (step: LoadStep)
    requires
        module != Some(GraphModule::Wasm),
    ensures
        step@ == step_of(crate::graph::module_view(module)),
{
    match module {
        Some(GraphModule::Js { source, media_type }) => LoadStep::Done(
            load_output(source, media_type),
        ),
        Some(GraphModule::Json { source, media_type }) => LoadStep::Done(
            load_output(source, media_type),
        ),
        _ => LoadStep::Fetch,
    }
}

/// What is to be done with the module `id` after a look into the graph. The module found
/// there must not be a WebAssembly module; `try_look_up` finds out whether it is one.
pub fn look_up(graph: &ModuleGraph, id: &str) -> (step: Result<LoadStep, SpecifierError>)
    requires
        crate::graph::found_at(*graph, id@) != Some(GraphModuleView::Wasm),
    ensures
        match step {
            Ok(step) => {
                &&& crate::specifier::parsed_url(id@) matches Some(url)
                &&& step@ == step_of(crate::graph::module_at(*graph, url))
            },
            Err(SpecifierError::Url(_)) => crate::specifier::parsed_url(id@) is None,
            Err(SpecifierError::Path(_)) => false,
        },
{
    match begin_load(id) {
        Ok(_) => Ok(continue_load(find_module(graph, id))),
        Err(error) => Err(error),
    }
}

/// What is to be done with the module `id` after a look into the graph; `None` if it is a
/// WebAssembly module, which cannot be loaded.
pub fn try_look_up(graph: &ModuleGraph, id: &str) -> (step: Result<Option<LoadStep>, SpecifierError>)
    ensures
        match step {
            Ok(Some(step)) => {
                &&& crate::specifier::parsed_url(id@) matches Some(url)
                &&& crate::graph::module_at(*graph, url) != Some(GraphModuleView::Wasm)
                &&& step@ == step_of(crate::graph::module_at(*graph, url))
            },
            Ok(None) => {
                &&& crate::specifier::parsed_url(id@) matches Some(url)
                &&& crate::graph::module_at(*graph, url) == Some(GraphModuleView::Wasm)
            },
            Err(SpecifierError::Url(_)) => crate::specifier::parsed_url(id@) is None,
            Err(SpecifierError::Path(_)) => false,
        },
{
    match find_module(graph, id) {
        Some(GraphModule::Wasm) => Ok(None),
        _ => match look_up(graph, id) {
            Ok(step) => Ok(Some(step)),
            Err(error) => Err(error),
        },
    }
}

/// The id of the module that a specifier was resolved to, if `url` is what the resolver
/// made of the specifier: the URL to which the graph redirects it. The module can be
/// named as an importer by its id if that is plain, or if the graph does not redirect
/// `url` and its normal form is settled.
pub fn resolved_id(graph: &ModuleGraph, url: &str) -> (id: Result<String, SpecifierError>)
    ensures
        match id {
            Ok(id) => {
                &&& crate::specifier::parsed_url(url@) matches Some(normal)
                &&& id@ == crate::graph::destination(*graph, normal)
                &&& crate::specifier::is_plain_url(id@) || (normal == id@
                    && crate::specifier::is_settled(url@, id@))
                    ==> crate::specifier::is_own_referrer(id@)
            },
            Err(SpecifierError::Url(_)) => crate::specifier::parsed_url(url@) is None,
            Err(SpecifierError::Path(_)) => false,
        },
        crate::specifier::is_plain_url(url@) ==> id is Ok,
{
    match parse_url(url) {
        Ok(_) => Ok(follow_redirects(graph, url).unwrap()),
        Err(error) => Err(SpecifierError::Url(error)),
    }
}

/// The text that `String::from_utf8_lossy` makes of `bytes`.
pub uninterp spec fn lossy_text(bytes: Seq<u8>) -> Seq<char>;

/// Calls `String::from_utf8_lossy`. Trusted: the text depends on the bytes alone, and
/// bytes that are UTF-8 give the text that they encode.
#[verifier::external_body]
fn decode_lossy(bytes: &[u8]) -> (text: String)
    ensures
        text@ == lossy_text(bytes@),
        vstd::utf8::valid_utf8(bytes@) ==> text@ == vstd::utf8::decode_utf8(bytes@),
{
    String::from_utf8_lossy(bytes).to_string()
}

/// What the bundler gets of the module `id` if `source` is the file that was fetched
/// for it, served with `headers`. A file in UTF-8 keeps its text.
pub fn finish_load(
    id: &str,
    source: &[u8],
    headers: Option<&HashMap<String, String>>,
) -> (output: Result<LoadOutput, SpecifierError>)
    ensures
        match output {
            Ok(output) => {
                &&& crate::media::found_media_type(
                    id@,
                    crate::media::headers_view(headers),
                ) matches Some(media_type)
                &&& output@ == output_of(lossy_text(source@), media_type)
                &&& vstd::utf8::valid_utf8(source@) ==> output.code@ == vstd::utf8::decode_utf8(
                    source@,
                )
                &&& crate::specifier::parsed_url(id@) is Some
            },
            Err(SpecifierError::Url(_)) => crate::specifier::parsed_url(id@) is None,
            Err(SpecifierError::Path(_)) => false,
        },
        !id@.contains(':') ==> output is Err,
{
    match parse_url(id) {
        Ok(_) => {
            let media_type = media_type_from(id, headers).unwrap();
            Ok(load_output(decode_lossy(source), media_type))
        },
        Err(error) => Err(SpecifierError::Url(error)),
    }
}

/// A file that is fetched in UTF-8 is loaded just like a module of the graph with the
/// same text and of the same kind.
pub proof fn law_fetched_like_found(source: Seq<char>, media_type: MediaType)
    ensures
        vstd::utf8::valid_utf8(vstd::utf8::encode_utf8(source)),
        step_of(Some(GraphModuleView::Js { source, media_type })) == LoadStepView::Done(
            output_of(vstd::utf8::decode_utf8(vstd::utf8::encode_utf8(source)), media_type),
        ),
        step_of(Some(GraphModuleView::Json { source, media_type })) == step_of(
            Some(GraphModuleView::Js { source, media_type }),
        ),
{
    vstd::utf8::encode_utf8_valid_utf8(source);
    vstd::utf8::encode_utf8_decode_utf8(source);
}

/// A module keeps its text when it is loaded, and how it is bundled goes by the kind of
/// its file alone, whatever the text.
pub proof fn law_loaded_by_kind(code: Seq<char>, other: Seq<char>, kind: MediaType)
    ensures
        output_of(code, kind).code == code,
        output_of(code, kind).module_type == output_of(other, kind).module_type,
        output_of(code, kind).module_type == crate::media::module_type_of(kind),
        output_of(code, kind).module_type is Js <==> kind is JavaScript || kind is Mjs
            || kind is Cjs,
        output_of(code, kind).module_type is Jsx <==> kind is Jsx,
        output_of(code, kind).module_type is Ts <==> kind is TypeScript || kind is Mts
            || kind is Cts || kind is Dts || kind is Dmts || kind is Dcts,
        output_of(code, kind).module_type is Tsx <==> kind is Tsx,
        output_of(code, kind).module_type is Css <==> kind is Css,
        output_of(code, kind).module_type is Json <==> kind is Json,
        output_of(code, kind).module_type is Asset <==> kind is Sql || kind is Unknown,
{
}

/// A module is fetched exactly if the graph does not hold its text; a text in the graph is
/// what is loaded, bundled by the kind of the file.
pub proof fn law_fetched_unless_text_is_in_the_graph(module: Option<GraphModuleView>)
    ensures
        step_of(module) is Fetch <==> match module {
            Some(module) => !(module is Js) && !(module is Json),
            None => true,
        },
        module matches Some(GraphModuleView::Js { source, media_type }) ==> (step_of(
            module,
        ) matches LoadStepView::Done(output) && output.code == source && output.module_type
            == crate::media::module_type_of(media_type)),
        module matches Some(GraphModuleView::Json { source, media_type }) ==> (step_of(
            module,
        ) matches LoadStepView::Done(output) && output.code == source && output.module_type
            == crate::media::module_type_of(media_type)),
{
}

/// A step is known by which of the two it is, and a loaded module by its text and its
/// treatment.
pub proof fn law_step_tells_all(step: LoadStep)
    ensures
        step is Fetch ==> step@ is Fetch,
        step matches LoadStep::Done(output) ==> (step@ matches LoadStepView::Done(told)
            && told.code == output.code@ && told.module_type == output.module_type@),
{
}

} // verus!
