use rolldown_deno::graph::GraphModule;
use rolldown_deno::media::MediaType;
use rolldown_deno::media::ModuleType;
use rolldown_deno::plugin::begin_load;
use rolldown_deno::plugin::continue_load;
use rolldown_deno::plugin::finish_load;
use rolldown_deno::plugin::load_output;
use rolldown_deno::plugin::plugin_name;
use rolldown_deno::plugin::resolution_mode;
use rolldown_deno::plugin::ImportKind;
use rolldown_deno::plugin::LoadOutput;
use rolldown_deno::plugin::LoadStep;
use rolldown_deno::plugin::ResolutionMode;
use rolldown_deno::specifier::bundle_input;
use rolldown_deno::specifier::display_name;
use rolldown_deno::specifier::names_url;
use rolldown_deno::specifier::resolve_display_name;
use rolldown_deno::specifier::resolve_entrypoint;
use rolldown_deno::specifier::resolve_referrer;
use rolldown_deno::specifier::try_resolve_display_name;
use rolldown_deno::specifier::Importer;
use rolldown_deno::specifier::SpecifierError;
use std::collections::HashMap;
use std::path::PathBuf;

fn output(code: &str, module_type: ModuleType) -> LoadOutput {
    LoadOutput { code: code.to_string(), module_type }
}

fn named(name: &str) -> Option<String> {
    Some(name.to_string())
}

#[test]
fn plugin_has_a_name() {
    assert_eq!(plugin_name(), "http-import");
}

#[test]
fn only_require_is_resolved_as_require() {
    assert_eq!(resolution_mode(ImportKind::Require), ResolutionMode::Require);
    for kind in [
        ImportKind::Import,
        ImportKind::DynamicImport,
        ImportKind::AtImport,
        ImportKind::UrlImport,
        ImportKind::NewUrl,
        ImportKind::HotAccept,
    ] {
        assert_eq!(resolution_mode(kind), ResolutionMode::Import);
    }
}

#[test]
fn load_begins_with_a_url() {
    assert_eq!(
        begin_load("HTTPS://Example.com/a/../b.ts").unwrap(),
        "https://example.com/b.ts"
    );
    assert!(matches!(begin_load("./b.ts"), Err(SpecifierError::Url(_))));
}

#[test]
fn modules_of_the_graph_are_not_fetched() {
    let js = GraphModule::Js { source: "a".to_string(), media_type: MediaType::Tsx };
    assert_eq!(continue_load(Some(js)), LoadStep::Done(output("a", ModuleType::Tsx)));
    let json = GraphModule::Json { source: "{}".to_string(), media_type: MediaType::Json };
    assert_eq!(continue_load(Some(json)), LoadStep::Done(output("{}", ModuleType::Json)));
}

#[test]
fn other_modules_are_fetched() {
    assert_eq!(continue_load(None), LoadStep::Fetch);
    assert_eq!(continue_load(Some(GraphModule::Npm)), LoadStep::Fetch);
    assert_eq!(continue_load(Some(GraphModule::Node)), LoadStep::Fetch);
    assert_eq!(continue_load(Some(GraphModule::External)), LoadStep::Fetch);
}

#[test]
fn output_of_text_and_kind() {
    assert_eq!(
        load_output("x".to_string(), MediaType::Wasm),
        output("x", ModuleType::Custom("wasm".to_string()))
    );
}

#[test]
fn fetched_file_is_of_the_kind_its_name_tells() {
    let source = b"let a = '\xc3\xa9';".to_vec();
    assert_eq!(
        finish_load("https://example.com/a.ts", &source, None).unwrap(),
        output("let a = '\u{e9}';", ModuleType::Ts)
    );
    assert_eq!(
        finish_load("https://example.com/a.css", &source, None).unwrap().module_type,
        ModuleType::Css
    );
    assert_eq!(
        finish_load("https://example.com/a", &source, None).unwrap().module_type,
        ModuleType::Asset
    );
}

#[test]
fn fetched_file_is_of_the_kind_its_headers_tell() {
    let mut headers = HashMap::new();
    headers.insert("content-type".to_string(), "text/tsx; charset=utf-8".to_string());
    let loaded = finish_load("https://example.com/a", &b"x".to_vec(), Some(&headers)).unwrap();
    assert_eq!(loaded, output("x", ModuleType::Tsx));
    let none = HashMap::new();
    let loaded = finish_load("https://example.com/a.json", &b"1".to_vec(), Some(&none)).unwrap();
    assert_eq!(loaded, output("1", ModuleType::Json));
}

#[test]
fn fetched_files_are_of_many_kinds() {
    let module_type =
        |id: &str| finish_load(id, &Vec::new(), None).unwrap().module_type;
    let custom = |name: &str| ModuleType::Custom(name.to_string());
    assert_eq!(module_type("file:///a.js"), ModuleType::Js);
    assert_eq!(module_type("file:///a.jsx"), ModuleType::Jsx);
    assert_eq!(module_type("file:///a.mjs"), ModuleType::Js);
    assert_eq!(module_type("file:///a.cjs"), ModuleType::Js);
    assert_eq!(module_type("file:///a.mts"), ModuleType::Ts);
    assert_eq!(module_type("file:///a.cts"), ModuleType::Ts);
    assert_eq!(module_type("file:///a.d.ts"), ModuleType::Ts);
    assert_eq!(module_type("file:///a.d.mts"), ModuleType::Ts);
    assert_eq!(module_type("file:///a.d.cts"), ModuleType::Ts);
    assert_eq!(module_type("file:///a.html"), ModuleType::Asset);
    assert_eq!(module_type("file:///a.sql"), ModuleType::Asset);
    assert_eq!(module_type("file:///a.wasm"), custom("wasm"));
    assert_eq!(module_type("file:///a.js.map"), custom("map"));
}

#[test]
fn bytes_that_are_no_text_are_replaced() {
    let loaded = finish_load("file:///a.js", &vec![0x61, 0xff, 0x62], None).unwrap();
    assert_eq!(loaded, output("a\u{fffd}b", ModuleType::Js));
}

#[test]
fn what_is_no_url_is_not_loaded() {
    assert!(matches!(finish_load("a.js", &Vec::new(), None), Err(SpecifierError::Url(_))));
}

#[test]
fn fetched_file_is_loaded_like_one_in_the_graph() {
    let text = "let a = '\u{20ac}';";
    let module = GraphModule::Js { source: text.to_string(), media_type: MediaType::TypeScript };
    let fetched = finish_load("file:///a.ts", &text.as_bytes().to_vec(), None).unwrap();
    assert_eq!(continue_load(Some(module)), LoadStep::Done(fetched));
}

#[test]
fn some_arguments_are_urls() {
    assert!(names_url("jsr:@std/path"));
    assert!(names_url("https://example.com/a.ts"));
    assert!(names_url("file:///a.ts"));
    assert!(!names_url("http://example.com/a.ts"));
    assert!(!names_url("npm:chalk"));
    assert!(!names_url("a.ts"));
    assert!(!names_url("JSR:@std/path"));
    assert!(!names_url("jsr"));
    assert!(!names_url(""));
}

#[test]
fn entrypoint_urls_are_normalized() {
    let cwd = PathBuf::from("/work");
    assert_eq!(
        resolve_entrypoint("https://example.com/a/./b.ts", &cwd).unwrap(),
        "https://example.com/a/b.ts"
    );
    assert_eq!(resolve_entrypoint("jsr:@std/path", &cwd).unwrap(), "jsr:@std/path");
    assert!(matches!(resolve_entrypoint("https:", &cwd), Err(SpecifierError::Url(_))));
}

#[test]
fn entrypoint_urls_keep_their_scheme() {
    let cwd = PathBuf::from("/work");
    for argument in ["jsr:@std/path", "https:example.com", "file:a.ts"] {
        let url = resolve_entrypoint(argument, &cwd).unwrap();
        let scheme = argument.split(':').next().unwrap();
        assert!(url.starts_with(scheme));
    }
    assert_eq!(resolve_entrypoint("file:a.ts", &cwd).unwrap(), "file:///a.ts");
}

#[test]
fn bundle_of_an_entrypoint() {
    let cwd = PathBuf::from("/work");
    let name = |argument: &str| {
        bundle_input(&resolve_entrypoint(argument, &cwd).unwrap()).map(|input| input.name)
    };
    assert_eq!(name("src/main.ts"), named("main"));
    assert_eq!(name("https://example.com/main.ts"), named("remote"));
    assert_eq!(name("jsr:@std/path@1"), named("path"));
}

#[test]
fn entrypoint_paths_are_relative_to_the_directory() {
    let cwd = PathBuf::from("/work");
    assert_eq!(resolve_entrypoint("src/../main.ts", &cwd).unwrap(), "file:///work/main.ts");
    assert_eq!(resolve_entrypoint("/other/main.ts", &cwd).unwrap(), "file:///other/main.ts");
    assert_eq!(resolve_entrypoint("a b.ts", &cwd).unwrap(), "file:///work/a%20b.ts");
    let nowhere = PathBuf::from("work");
    assert!(matches!(resolve_entrypoint("main.ts", &nowhere), Err(SpecifierError::Path(_))));
}

#[test]
fn entrypoint_paths_keep_their_names() {
    let cwd = PathBuf::from("/work/app");
    for argument in ["main.ts", "src/main.ts", "a/b/c.d.ts", "A_b/c-1"] {
        let url = resolve_entrypoint(argument, &cwd).unwrap();
        assert_eq!(url, format!("file:///work/app/{}", argument));
    }
    let spaced = PathBuf::from("/my work");
    assert_eq!(resolve_entrypoint("src/main.ts", &spaced).unwrap(), "file:///my%20work/src/main.ts");
    assert_eq!(resolve_entrypoint("src/main.ts", &PathBuf::from("/")).unwrap(), "file:///src/main.ts");
    assert_eq!(resolve_entrypoint("http:/a.ts", &cwd).unwrap(), "file:///work/app/http:/a.ts");
}

#[test]
fn modules_are_their_own_referrers() {
    let cwd = PathBuf::from("/work");
    for text in [
        "HTTPS://Example.com:443/a/../b%20c.ts?q='x'#y z",
        "jsr:@std/path@1/posix",
        "npm:@types/node@20",
        "node:fs",
        "data:text/javascript,export default 1",
        "file:C|/a/./b.ts",
        "file:///C|/a.ts",
        "file://localhost//a//b.ts",
        "web+demo:/.//not-a-host/",
        "https://user:pass@[::1]:8080",
    ] {
        let id = resolve_referrer(Importer::Module(text)).unwrap();
        assert_eq!(resolve_referrer(Importer::Module(&id)).unwrap(), id);
        assert_eq!(begin_load(&id).unwrap(), id);
    }
    let id = resolve_entrypoint("src/main.ts", &cwd).unwrap();
    assert_eq!(resolve_referrer(Importer::Module(&id)).unwrap(), id);
    let id = resolve_referrer(Importer::Directory(&cwd)).unwrap();
    assert_eq!(resolve_referrer(Importer::Module(&id)).unwrap(), id);
}

#[test]
fn some_urls_take_two_goes_to_settle() {
    let parse = |text: &str| resolve_referrer(Importer::Module(text)).unwrap();
    assert_eq!(parse("file://host//C:/a.ts"), "file://host/C:/a.ts");
    assert_eq!(parse("file://host/C:/a.ts"), "file:///C:/a.ts");
    assert_eq!(parse("file:C:\t.."), "file:///C:/..");
    assert_eq!(parse("file:///C:/.."), "file:///C:/");
}

#[test]
fn referrer_is_the_importer_or_the_directory() {
    assert_eq!(
        resolve_referrer(Importer::Module("https://example.com/./a.ts")).unwrap(),
        "https://example.com/a.ts"
    );
    assert!(matches!(resolve_referrer(Importer::Module("a.ts")), Err(SpecifierError::Url(_))));
    let directory = PathBuf::from("/work/src");
    assert_eq!(
        resolve_referrer(Importer::Directory(&directory)).unwrap(),
        "file:///work/src/"
    );
    let root = PathBuf::from("/");
    assert_eq!(resolve_referrer(Importer::Directory(&root)).unwrap(), "file:///");
    let nowhere = PathBuf::from("src");
    assert!(matches!(
        resolve_referrer(Importer::Directory(&nowhere)),
        Err(SpecifierError::Path(_))
    ));
}

#[test]
fn jsr_packages_are_called_without_their_scope() {
    assert_eq!(resolve_display_name("jsr:@std/path"), "path");
    assert_eq!(resolve_display_name("jsr:@std/path@1/posix"), "path");
    assert_eq!(try_resolve_display_name("jsr:@std/path@^1.0.0"), named("path"));
    assert_eq!(try_resolve_display_name("jsr:path"), None);
    assert_eq!(try_resolve_display_name("jsr:@std/"), named("remote"));
}

#[test]
fn npm_packages_are_called_by_their_full_name() {
    assert_eq!(resolve_display_name("npm:chalk@5"), "chalk");
    assert_eq!(try_resolve_display_name("npm:@types/node@20/fs"), named("@types/node"));
}

#[test]
fn packages_are_called_by_name_alone() {
    for url in ["npm:a", "npm:a@1", "npm:a@^2.0.0-pre", "npm:a@latest/b/c.js", "npm:/a@~1.2"] {
        assert_eq!(resolve_display_name(url), "a");
    }
    for url in ["jsr:@s/a", "jsr:@s/a@1", "jsr:@s/a@^2.0.0", "jsr:/@s/a@1/b", "jsr:@t/a@*"] {
        assert_eq!(resolve_display_name(url), "a");
    }
    assert_eq!(resolve_display_name("npm:a@18446744073709551614"), "a");
}

#[test]
fn packages_without_a_version_range_are_not_called_anything() {
    for url in [
        "jsr:@a/b@18446744073709551615",
        "jsr:@a/b@^18446744073709551615",
        "npm:a@~18446744073709551615",
        "npm:a@1.18446744073709551615",
    ] {
        assert_eq!(try_resolve_display_name(url), None);
        assert_eq!(bundle_input(url), None);
    }
    let url = "https://example.com/18446744073709551615";
    assert_eq!(try_resolve_display_name(url), named("remote"));
    let url = "file:///work/18446744073709551615.ts";
    assert_eq!(try_resolve_display_name(url), named("18446744073709551615"));
}

#[test]
fn plain_urls_are_in_normal_form() {
    for url in [
        "file:///",
        "file:///work/it's/.deno/a@1.0/b%20c.ts?x={y}#z\\",
        "file:///C|/a//b.ts",
        "https://a-b.example.com//x/~y/[z]^|.ts?a=b?c#d#e",
        "http://localhost/%2f...",
        "jsr:@std/path@^1/posix",
        "npm:",
        "node:fs/promises",
        "data:text/javascript,a/../{b}\"<>`",
        "foo:a?b#c",
    ] {
        assert_eq!(resolve_referrer(Importer::Module(url)).unwrap(), url);
    }
}

#[test]
fn files_are_called_without_their_extension() {
    assert_eq!(resolve_display_name("file:///work/main.ts"), "main");
    assert_eq!(resolve_display_name("file:///work/types.d.ts"), "types.d");
    assert_eq!(resolve_display_name("file:///work/main"), "main");
    assert_eq!(resolve_display_name("file:///work/.env"), ".env");
    assert_eq!(resolve_display_name("file:///work/a."), "a");
    assert_eq!(resolve_display_name("file:///work/main.ts?x=1"), "main");
    assert_eq!(resolve_display_name("file:///work/..."), "..");
    assert_eq!(resolve_display_name("file:///C:/a.ts?b\\c.d"), "a.ts?b\\c");
}

#[test]
fn directories_are_not_called_anything() {
    assert_eq!(try_resolve_display_name("file:///work/"), None);
    assert_eq!(try_resolve_display_name("file:///work?a/."), None);
    assert_eq!(try_resolve_display_name("file:///work?a/.."), None);
}

#[test]
fn anything_else_is_remote() {
    assert_eq!(resolve_display_name("https://example.com/main.ts"), "remote");
    assert_eq!(resolve_display_name("npm:"), "remote");
    assert_eq!(resolve_display_name("jsr:"), "remote");
}

#[test]
fn display_name_goes_by_the_package_first() {
    let url = "file:///work/main.ts";
    assert_eq!(display_name(url, named("@a/b"), named("c")), named("b"));
    assert_eq!(display_name(url, named("@a/b/c"), None), named("b"));
    assert_eq!(display_name(url, named("@a/"), None), named(""));
    assert_eq!(display_name(url, named("a"), named("c")), None);
    assert_eq!(display_name(url, None, named("@c/d")), named("@c/d"));
    assert_eq!(display_name(url, None, None), named("main"));
    assert_eq!(display_name("data:,", None, None), named("remote"));
}

#[test]
fn display_names_hold_no_slash_unless_from_npm() {
    for url in ["jsr:@std/path", "file:///a/b/c.ts", "https://example.com/a/b"] {
        assert!(!resolve_display_name(url).contains('/'));
    }
    assert!(resolve_display_name("npm:@types/node").contains('/'));
}

#[test]
fn bundle_is_called_like_its_entrypoint() {
    let input = bundle_input("file:///work/main.ts").unwrap();
    assert_eq!(input.name, "main");
    assert_eq!(input.import, "file:///work/main.ts");
    assert_eq!(input.entry_filenames, "[name].bundle.js");
    assert_eq!(bundle_input("file:///work/"), None);
}
