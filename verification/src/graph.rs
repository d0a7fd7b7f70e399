//! What the module graph knows: where URLs lead, and the modules found there.
//!
//! The graph holds its modules under their own URLs. Another URL can be redirected to
//! one of them.
use crate::media::MediaType;
use deno_graph::MediaType as Known;
use deno_graph::Module;
use deno_graph::ModuleGraph;
use url::Url;
use vstd::prelude::*;

verus! {

/// `deno_graph::ModuleGraph`: the modules that were loaded to build the graph.
#[verifier::external_type_specification]
#[verifier::external_body]
pub struct ExModuleGraph(ModuleGraph);

/// A module of the graph.
#[derive(Debug, PartialEq, Eq)]
pub enum GraphModule {
    Js { source: String, media_type: MediaType },
    Json { source: String, media_type: MediaType },
    Wasm,
    Npm,
    Node,
    External,
}

/// A module of the graph without the kind of its file.
enum GraphContent {
    Js(String),
    Json(String),
    Wasm,
    Npm,
    Node,
    External,
}

/// What a `GraphModule` says, with texts in place of strings.
pub enum GraphModuleView {
    Js { source: Seq<char>, media_type: MediaType },
    Json { source: Seq<char>, media_type: MediaType },
    Wasm,
    Npm,
    Node,
    External,
}

impl View for GraphModule {
    type V = GraphModuleView;

    open spec fn view(&self) -> GraphModuleView {
        match self {
            GraphModule::Js { source, media_type } => GraphModuleView::Js {
                source: source@,
                media_type: *media_type,
            },
            GraphModule::Json { source, media_type } => GraphModuleView::Json {
                source: source@,
                media_type: *media_type,
            },
            GraphModule::Wasm => GraphModuleView::Wasm,
            GraphModule::Npm => GraphModuleView::Npm,
            GraphModule::Node => GraphModuleView::Node,
            GraphModule::External => GraphModuleView::External,
        }
    }
}

/// What the module says, if there is one.
pub open spec fn module_view(module: Option<GraphModule>) -> Option<GraphModuleView> {
    match module {
        Some(module) => Some(module@),
        None => None,
    }
}

/// The kind of the file, if the text of the module is in the graph.
pub open spec fn kind_of(module: GraphModuleView) -> Option<MediaType> {
    match module {
        GraphModuleView::Js { media_type, .. } => Some(media_type),
        GraphModuleView::Json { media_type, .. } => Some(media_type),
        _ => None,
    }
}

/// Whether `content` is what `module` says, but for the kind of the file.
spec fn is_content_of(content: Option<GraphContent>, module: Option<GraphModuleView>) -> bool {
    match (content, module) {
        (Some(GraphContent::Js(text)), Some(GraphModuleView::Js { source, .. })) => text@ == source,
        (Some(GraphContent::Json(text)), Some(GraphModuleView::Json { source, .. })) => text@
            == source,
        (Some(GraphContent::Wasm), Some(GraphModuleView::Wasm)) => true,
        (Some(GraphContent::Npm), Some(GraphModuleView::Npm)) => true,
        (Some(GraphContent::Node), Some(GraphModuleView::Node)) => true,
        (Some(GraphContent::External), Some(GraphModuleView::External)) => true,
        (None, None) => true,
        _ => false,
    }
}

/// The modules that `graph` holds, under the texts of their URLs.
pub uninterp spec fn graph_modules(graph: ModuleGraph) -> Map<Seq<char>, GraphModuleView>;

/// Where the redirects of `graph` lead in the end, from each URL that is redirected.
pub uninterp spec fn graph_redirects(graph: ModuleGraph) -> Map<Seq<char>, Seq<char>>;

/// Where `url` leads: to itself, unless it is redirected.
pub open spec fn follow(redirects: Map<Seq<char>, Seq<char>>, url: Seq<char>) -> Seq<char> {
    if redirects.contains_key(url) {
        redirects[url]
    } else {
        url
    }
}

/// The one of `modules` where `url` leads, if there is a URL.
pub open spec fn pick(
    modules: Map<Seq<char>, GraphModuleView>,
    redirects: Map<Seq<char>, Seq<char>>,
    url: Option<Seq<char>>,
) -> Option<GraphModuleView> {
    match url {
        Some(url) => if modules.contains_key(follow(redirects, url)) {
            Some(modules[follow(redirects, url)])
        } else {
            None
        },
        None => None,
    }
}

/// Where `url` leads in `graph`.
pub open spec fn destination(graph: ModuleGraph, url: Seq<char>) -> Seq<char> {
    follow(graph_redirects(graph), url)
}

/// The module that `graph` holds where `url` leads.
pub open spec fn module_at(graph: ModuleGraph, url: Seq<char>) -> Option<GraphModuleView> {
    pick(graph_modules(graph), graph_redirects(graph), Some(url))
}

/// The module that `graph` holds for the URL with the text `id`: none, if `id` is not
/// the text of a URL.
pub open spec fn found_at(graph: ModuleGraph, id: Seq<char>) -> Option<GraphModuleView> {
    pick(graph_modules(graph), graph_redirects(graph), crate::specifier::parsed_url(id))
}

/// Calls `deno_graph::ModuleGraph::resolve` on the URL with the text `url`. Trusted: the
/// redirects are followed from the normal form of the text; where they end depends on
/// the graph and that form alone, and is the form itself if the graph does not redirect
/// it. A URL that they lead to parses to itself if it is plain.
#[verifier::external_body]
pub(crate) fn follow_redirects(graph: &ModuleGraph, url: &str) -> (end: Option<String>)
    ensures
        crate::text::text_view(end) == (match crate::specifier::parsed_url(url@) {
            Some(url) => Some(follow(graph_redirects(*graph), url)),
            None => None,
        }),
        end matches Some(end) ==> (crate::specifier::is_plain_url(end@)
            ==> crate::specifier::is_normal_url(end@)),
{
    let url = Url::parse(url).ok()?;
    Some(graph.resolve(&url).to_string())
}

/// Calls `deno_graph::ModuleGraph::get` on the URL with the text `id`. Trusted: the
/// module is the one that the graph holds where the normal form of the text leads.
#[verifier::external_body]
fn read_content(graph: &ModuleGraph, id: &str) -> (content: Option<GraphContent>)
    ensures
        is_content_of(
            content,
            pick(
                graph_modules(*graph),
                graph_redirects(*graph),
                crate::specifier::parsed_url(id@),
            ),
        ),
{
    let url = Url::parse(id).ok()?;
    Some(match graph.get(&url)? {
        Module::Js(js) => GraphContent::Js(js.source.text.to_string()),
        Module::Json(json) => GraphContent::Json(json.source.text.to_string()),
        Module::Wasm(_) => GraphContent::Wasm,
        Module::Npm(_) => GraphContent::Npm,
        Module::Node(_) => GraphContent::Node,
        Module::External(_) => GraphContent::External,
    })
}

/// Calls `deno_graph::Module::media_type` on the module that
/// `deno_graph::ModuleGraph::get` finds for the URL with the text `id`. Trusted: there is
/// a kind if a module is found, and it is the kind of the module if the module's text is in
/// the graph.
#[verifier::external_body]
fn read_media_type(graph: &ModuleGraph, id: &str) -> (media_type: Option<MediaType>)
    ensures
        pick(
            graph_modules(*graph),
            graph_redirects(*graph),
            crate::specifier::parsed_url(id@),
        ) matches Some(module) ==> {
            &&& media_type is Some
            &&& kind_of(module) is Some ==> media_type == kind_of(module)
        },
{
    let url = Url::parse(id).ok()?;
    let media_type = match graph.get(&url)?.media_type() {
        Known::JavaScript => MediaType::JavaScript, Known::Jsx => MediaType::Jsx,
        Known::Mjs => MediaType::Mjs, Known::Cjs => MediaType::Cjs,
        Known::TypeScript => MediaType::TypeScript, Known::Mts => MediaType::Mts,
        Known::Cts => MediaType::Cts, Known::Dts => MediaType::Dts,
        Known::Dmts => MediaType::Dmts, Known::Dcts => MediaType::Dcts,
        Known::Tsx => MediaType::Tsx, Known::Css => MediaType::Css,
        Known::Json => MediaType::Json, Known::Html => MediaType::Html,
        Known::Sql => MediaType::Sql, Known::Wasm => MediaType::Wasm,
        Known::SourceMap => MediaType::SourceMap, Known::Unknown => MediaType::Unknown,
    };
    Some(media_type)
}

/// The module that the graph holds for the URL with the text `id`.
pub fn find_module(graph: &ModuleGraph, id: &str) -> (module: Option<GraphModule>)
    ensures
        module_view(module) == found_at(*graph, id@),
{
    match read_content(graph, id) {
        Some(GraphContent::Js(source)) => {
            let media_type = read_media_type(graph, id).unwrap();
            Some(GraphModule::Js { source, media_type })
        },
        Some(GraphContent::Json(source)) => {
            let media_type = read_media_type(graph, id).unwrap();
            Some(GraphModule::Json { source, media_type })
        },
        Some(GraphContent::Wasm) => Some(GraphModule::Wasm),
        Some(GraphContent::Npm) => Some(GraphModule::Npm),
        Some(GraphContent::Node) => Some(GraphModule::Node),
        Some(GraphContent::External) => Some(GraphModule::External),
        None => None,
    }
}

/// A URL that is not redirected finds the module that the graph holds under it.
pub proof fn law_module_is_found_under_its_url(graph: ModuleGraph, url: Seq<char>)
    ensures
        !graph_redirects(graph).contains_key(url) ==> {
            &&& destination(graph, url) == url
            &&& module_at(graph, url) is Some <==> graph_modules(graph).contains_key(url)
            &&& module_at(graph, url) matches Some(module) ==> module == graph_modules(graph)[url]
        },
{
}

/// A redirected URL finds the module that the graph holds where the redirects lead.
pub proof fn law_module_is_found_through_redirects(graph: ModuleGraph, url: Seq<char>)
    ensures
        graph_redirects(graph).contains_key(url) ==> ({
            let end = graph_redirects(graph)[url];
            &&& destination(graph, url) == end
            &&& module_at(graph, url) is Some <==> graph_modules(graph).contains_key(end)
            &&& module_at(graph, url) matches Some(module) ==> module == graph_modules(graph)[end]
        }),
{
}

/// What is found for a text is what is found for the URL that it stands for.
pub proof fn law_module_is_found_by_normal_form(graph: ModuleGraph, id: Seq<char>, url: Seq<char>)
    ensures
        crate::specifier::parsed_url(id) == Some(url) ==> found_at(graph, id) == module_at(
            graph,
            url,
        ),
        crate::specifier::parsed_url(id) is None ==> found_at(graph, id) is None,
{
}

/// A module is known by which of the six it is, and one with a text by the text and the
/// kind of its file.
pub proof fn law_graph_module_tells_all(module: GraphModule)
    ensures
        module matches GraphModule::Js { source, media_type } ==> module@ == (GraphModuleView::Js {
            source: source@,
            media_type,
        }),
        module matches GraphModule::Json { source, media_type } ==> module@ == (
        GraphModuleView::Json { source: source@, media_type }),
        module is Wasm ==> module@ is Wasm,
        module is Npm ==> module@ is Npm,
        module is Node ==> module@ is Node,
        module is External ==> module@ is External,
        module_view(Some(module)) == Some(module@),
        module_view(None) is None,
{
}

/// A module and its content without the kind of the file are of the same sort and have
/// the same text.
proof fn law_content_tells_all(content: GraphContent, module: GraphModuleView)
    requires
        is_content_of(Some(content), Some(module)),
    ensures
        content matches GraphContent::Js(text) ==> (module matches GraphModuleView::Js {
            source,
            ..
        } && source == text@),
        content matches GraphContent::Json(text) ==> (module matches GraphModuleView::Json {
            source,
            ..
        } && source == text@),
        content is Wasm <==> module is Wasm,
        content is Npm <==> module is Npm,
        content is Node <==> module is Node,
        content is External <==> module is External,
        !is_content_of(None, Some(module)),
        !is_content_of(Some(content), None),
{
}

/// The kind of a file is told by the module, if the graph holds its text.
pub proof fn law_kind_is_that_of_the_module(source: Seq<char>, kind: MediaType)
    ensures
        kind_of(GraphModuleView::Js { source, media_type: kind }) == Some(kind),
        kind_of(GraphModuleView::Json { source, media_type: kind }) == Some(kind),
{
}

} // verus!
