use deno_graph::analysis::ModuleAnalyzer;
use deno_graph::analysis::ModuleInfo;
use deno_graph::source::MemoryLoader;
use deno_graph::source::NullFileSystem;
use deno_graph::source::Source;
use deno_graph::BuildOptions;
use deno_graph::GraphKind;
use deno_graph::ModuleGraph;
use rolldown_deno::graph::find_module;
use rolldown_deno::graph::GraphModule;
use rolldown_deno::media::MediaType;
use rolldown_deno::media::ModuleType;
use rolldown_deno::plugin::begin_load;
use rolldown_deno::plugin::look_up;
use rolldown_deno::plugin::resolved_id;
use rolldown_deno::plugin::try_look_up;
use rolldown_deno::plugin::LoadOutput;
use rolldown_deno::plugin::LoadStep;
use rolldown_deno::specifier::resolve_referrer;
use rolldown_deno::specifier::Importer;
use rolldown_deno::specifier::SpecifierError;
use std::future::Future;
use std::pin::Pin;
use std::sync::Arc;
use url::Url;

struct NoDependencies;

impl ModuleAnalyzer for NoDependencies {
    fn analyze<'a, 'b, 'c>(
        &'a self,
        _specifier: &'b Url,
        _source: Arc<str>,
        _media_type: deno_graph::MediaType,
    ) -> Pin<Box<dyn Future<Output = Result<ModuleInfo, deno_error::JsErrorBox>> + 'c>>
    where
        'a: 'c,
        'b: 'c,
        Self: 'c,
    {
        Box::pin(async { Ok(ModuleInfo::default()) })
    }
}

fn module(url: &'static str, content: &'static str) -> (&'static str, Source<&'static str>) {
    (url, Source::Module { specifier: url, maybe_headers: None, content })
}

fn graph() -> ModuleGraph {
    let sources = vec![
        module("https://example.com/a.ts", "let a: number;"),
        module("https://example.com/b.tsx", "<b/>"),
        module("https://example.com/c.json", "{}"),
        module("https://example.com/d.wasm", "\0asm\x01\0\0\0"),
        ("https://example.com/old.ts", Source::Redirect("https://example.com/a.ts")),
        ("https://example.com/older.ts", Source::Redirect("https://example.com/old.ts")),
        ("https://example.com/e.ts", Source::External("https://example.com/e.ts")),
    ];
    let roots: Vec<Url> = sources
        .iter()
        .map(|(url, _)| *url)
        .chain(["node:fs", "https://example.com/missing.ts"])
        .map(|url| Url::parse(url).unwrap())
        .collect();
    let loader = MemoryLoader::new(sources, Vec::new());
    let mut graph = ModuleGraph::new(GraphKind::CodeOnly);
    let options = BuildOptions {
        is_dynamic: false,
        skip_dynamic_deps: false,
        unstable_bytes_imports: false,
        unstable_text_imports: false,
        executor: Default::default(),
        locker: None,
        file_system: &NullFileSystem,
        jsr_url_provider: Default::default(),
        passthrough_jsr_specifiers: false,
        module_analyzer: &NoDependencies,
        module_info_cacher: Default::default(),
        npm_resolver: None,
        reporter: None,
        resolver: None,
    };
    let runtime = tokio::runtime::Builder::new_current_thread().build().unwrap();
    runtime.block_on(graph.build(roots, Vec::new(), &loader, options));
    graph
}

fn loaded(code: &str, module_type: ModuleType) -> LoadStep {
    LoadStep::Done(LoadOutput { code: code.to_string(), module_type })
}

#[test]
fn modules_are_found_by_their_url() {
    let graph = graph();
    let ts = GraphModule::Js {
        source: "let a: number;".to_string(),
        media_type: MediaType::TypeScript,
    };
    assert_eq!(find_module(&graph, "https://example.com/a.ts"), Some(ts));
    let tsx = GraphModule::Js { source: "<b/>".to_string(), media_type: MediaType::Tsx };
    assert_eq!(find_module(&graph, "HTTPS://EXAMPLE.com/x/../b.tsx"), Some(tsx));
    let json = GraphModule::Json { source: "{}".to_string(), media_type: MediaType::Json };
    assert_eq!(find_module(&graph, "https://example.com/c.json"), Some(json));
    assert_eq!(find_module(&graph, "https://example.com/d.wasm"), Some(GraphModule::Wasm));
    assert_eq!(find_module(&graph, "node:fs"), Some(GraphModule::Node));
    assert_eq!(find_module(&graph, "https://example.com/e.ts"), Some(GraphModule::External));
    assert_eq!(find_module(&graph, "https://example.com/missing.ts"), None);
    assert_eq!(find_module(&graph, "https://example.com/never.ts"), None);
    assert_eq!(find_module(&graph, "a.ts"), None);
}

#[test]
fn redirected_modules_are_found() {
    let graph = graph();
    for url in ["https://example.com/old.ts", "https://example.com/older.ts"] {
        assert_eq!(
            look_up(&graph, url).unwrap(),
            loaded("let a: number;", ModuleType::Ts)
        );
    }
}

#[test]
fn modules_are_looked_up() {
    let graph = graph();
    let step = |id: &str| try_look_up(&graph, id).unwrap();
    assert_eq!(
        step("https://example.com/a.ts"),
        Some(loaded("let a: number;", ModuleType::Ts))
    );
    assert_eq!(step("https://example.com/c.json"), Some(loaded("{}", ModuleType::Json)));
    assert_eq!(step("https://example.com/d.wasm"), None);
    assert_eq!(step("https://example.com/e.ts"), Some(LoadStep::Fetch));
    assert_eq!(step("node:fs"), Some(LoadStep::Fetch));
    assert_eq!(step("https://example.com/missing.ts"), Some(LoadStep::Fetch));
    assert_eq!(look_up(&graph, "npm:a").unwrap(), LoadStep::Fetch);
    assert!(matches!(try_look_up(&graph, "a.ts"), Err(SpecifierError::Url(_))));
    assert!(matches!(look_up(&graph, "a.ts"), Err(SpecifierError::Url(_))));
}

#[test]
fn ids_follow_the_redirects() {
    let graph = graph();
    let id = |url: &str| resolved_id(&graph, url).unwrap();
    assert_eq!(id("https://example.com/older.ts"), "https://example.com/a.ts");
    assert_eq!(id("https://example.com/old.ts"), "https://example.com/a.ts");
    assert_eq!(id("https://example.com/a.ts"), "https://example.com/a.ts");
    assert_eq!(id("https://example.com/./new.ts"), "https://example.com/new.ts");
    assert!(matches!(resolved_id(&graph, "a.ts"), Err(SpecifierError::Url(_))));
}

#[test]
fn redirects_in_a_circle_come_to_an_end() {
    let mut graph = ModuleGraph::new(GraphKind::CodeOnly);
    let a = Url::parse("file:///a").unwrap();
    let b = Url::parse("file:///b").unwrap();
    graph.redirects.insert(a.clone(), b.clone());
    graph.redirects.insert(b, a);
    assert_eq!(resolved_id(&graph, "file:///a").unwrap(), "file:///b");
    assert_eq!(resolved_id(&graph, "file:///b").unwrap(), "file:///a");
}

#[test]
fn ids_can_be_named_as_importers() {
    let graph = graph();
    for url in [
        "https://example.com/older.ts",
        "https://example.com:8080/x?y#z",
        "file:///work/a%20b.ts",
        "npm:@types/node@20",
        "jsr:@std/path",
        "node:fs",
    ] {
        let id = resolved_id(&graph, url).unwrap();
        assert_eq!(resolve_referrer(Importer::Module(&id)).unwrap(), id);
        assert_eq!(begin_load(&id).unwrap(), id);
        assert_eq!(resolved_id(&graph, &id).unwrap(), id);
    }
}
