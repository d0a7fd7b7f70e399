use rolldown_deno::media::media_to_module_type;
use rolldown_deno::media::MediaType;
use rolldown_deno::media::ModuleType;
use rolldown_deno::module_analyzer::collect_dependencies;
use rolldown_deno::module_analyzer::module_info;
use rolldown_deno::module_analyzer::parse_mode;
use rolldown_deno::module_analyzer::DependencyCollector;
use rolldown_deno::module_analyzer::DependencyDescriptor;
use rolldown_deno::module_analyzer::DynamicArgument;
use rolldown_deno::module_analyzer::DynamicDependencyDescriptor;
use rolldown_deno::module_analyzer::DynamicTemplatePart;
use rolldown_deno::module_analyzer::ModuleInfo;
use rolldown_deno::module_analyzer::OxcModuleAnalyzer;
use rolldown_deno::module_analyzer::StaticDependencyDescriptor;
use rolldown_deno::module_analyzer::StaticDependencyKind;
use rolldown_deno::module_analyzer::UnsupportedMediaType;
use rolldown_deno::position::Position;
use rolldown_deno::position::PositionRange;
use rolldown_deno::position::Span;
use rolldown_deno::syntax::DynamicImport;
use rolldown_deno::syntax::Goal;
use rolldown_deno::syntax::ImportSource;
use rolldown_deno::syntax::ModuleNode;
use rolldown_deno::syntax::ParseMode;
use rolldown_deno::syntax::ParsedModule;
use rolldown_deno::syntax::StringLiteral;
use rolldown_deno::syntax::TemplateLiteral;

const ALL: [MediaType; 18] = [
    MediaType::JavaScript,
    MediaType::Jsx,
    MediaType::Mjs,
    MediaType::Cjs,
    MediaType::TypeScript,
    MediaType::Mts,
    MediaType::Cts,
    MediaType::Dts,
    MediaType::Dmts,
    MediaType::Dcts,
    MediaType::Tsx,
    MediaType::Css,
    MediaType::Json,
    MediaType::Html,
    MediaType::Sql,
    MediaType::Wasm,
    MediaType::SourceMap,
    MediaType::Unknown,
];

fn range(line: usize, start: usize, end: usize) -> PositionRange {
    PositionRange {
        start: Position { line, character: start },
        end: Position { line, character: end },
    }
}

fn static_dependency(
    kind: StaticDependencyKind,
    specifier: &str,
    specifier_range: PositionRange,
) -> DependencyDescriptor {
    DependencyDescriptor::Static(StaticDependencyDescriptor {
        kind,
        specifier: specifier.to_string(),
        specifier_range,
    })
}

fn dynamic_dependency(
    argument: DynamicArgument,
    argument_range: PositionRange,
) -> DependencyDescriptor {
    DependencyDescriptor::Dynamic(DynamicDependencyDescriptor { argument, argument_range })
}

fn text(value: &str) -> DynamicTemplatePart {
    DynamicTemplatePart::String { value: value.to_string() }
}

fn literal(value: &str, start: u32, end: u32) -> StringLiteral {
    StringLiteral { value: value.to_string(), span: Span { start, end } }
}

fn analyze(source: &str, media_type: MediaType) -> ModuleInfo {
    OxcModuleAnalyzer.analyze(source, media_type).unwrap()
}

#[test]
fn imports_and_exports_are_dependencies() {
    let source = "import a from \"./a.js\";\nexport { b } from './b.js';\nexport * from './c.js';\n";
    let info = analyze(source, MediaType::JavaScript);
    assert!(!info.is_script);
    assert_eq!(
        info.dependencies,
        vec![
            static_dependency(StaticDependencyKind::Import, "./a.js", range(0, 14, 22)),
            static_dependency(StaticDependencyKind::Export, "./b.js", range(1, 18, 26)),
            static_dependency(StaticDependencyKind::Export, "./c.js", range(2, 14, 22)),
        ]
    );
}

#[test]
fn string_escapes_are_resolved() {
    let info = analyze("import './\\u0061.js';", MediaType::Mjs);
    assert_eq!(
        info.dependencies,
        vec![static_dependency(StaticDependencyKind::Import, "./a.js", range(0, 7, 20))]
    );
}

#[test]
fn own_exports_are_no_dependencies() {
    let info = analyze("const a = 1;\nexport { a };\nexport const b = 2;", MediaType::JavaScript);
    assert!(!info.is_script);
    assert_eq!(info.dependencies, vec![]);
}

#[test]
fn dynamic_imports_are_dependencies() {
    let source = "import(\"./a.js\");\nif (x) { await import(name); }\n";
    let info = analyze(source, MediaType::Mjs);
    assert_eq!(
        info.dependencies,
        vec![
            dynamic_dependency(DynamicArgument::String("./a.js".to_string()), range(0, 7, 15)),
            dynamic_dependency(DynamicArgument::Expr, range(1, 15, 27)),
        ]
    );
}

#[test]
fn template_parts_come_before_its_expressions() {
    let info = analyze("import(`./${a}/b${c}.js`);", MediaType::Mjs);
    assert_eq!(
        info.dependencies,
        vec![dynamic_dependency(
            DynamicArgument::Template(vec![
                text("./"),
                text("/b"),
                text(".js"),
                DynamicTemplatePart::Expr,
                DynamicTemplatePart::Expr,
            ]),
            range(0, 7, 24),
        )]
    );
}

#[test]
fn template_without_expressions_is_a_template() {
    let info = analyze("import(`./a.js`);", MediaType::Mjs);
    assert_eq!(
        info.dependencies,
        vec![dynamic_dependency(
            DynamicArgument::Template(vec![text("./a.js")]),
            range(0, 7, 15),
        )]
    );
}

#[test]
fn exported_declarations_are_not_searched() {
    let info = analyze("export const a = () => import('./a.js');", MediaType::Mjs);
    assert_eq!(info.dependencies, vec![]);
    let info = analyze("const a = () => import('./a.js');", MediaType::Mjs);
    assert_eq!(info.dependencies.len(), 1);
    let info = analyze("export default () => import('./a.js');", MediaType::Mjs);
    assert_eq!(info.dependencies.len(), 1);
}

#[test]
fn arguments_of_dynamic_imports_are_not_searched() {
    let info = analyze("import(import('./a.js'));", MediaType::Mjs);
    assert_eq!(
        info.dependencies,
        vec![dynamic_dependency(DynamicArgument::Expr, range(0, 0, 24))]
    );
}

#[test]
fn dependency_named_twice_is_listed_twice() {
    let info = analyze("import './a.js';\nimport './a.js';", MediaType::Mjs);
    assert_eq!(
        info.dependencies,
        vec![
            static_dependency(StaticDependencyKind::Import, "./a.js", range(0, 7, 15)),
            static_dependency(StaticDependencyKind::Import, "./a.js", range(1, 7, 15)),
        ]
    );
}

#[test]
fn types_are_parsed_in_typescript_only() {
    let source = "import type { A } from './a.ts';\nlet a: A = 1;\n";
    let info = analyze(source, MediaType::TypeScript);
    assert_eq!(
        info.dependencies,
        vec![static_dependency(StaticDependencyKind::Import, "./a.ts", range(0, 23, 31))]
    );
    assert_eq!(analyze(source, MediaType::Mjs).dependencies, vec![]);
}

#[test]
fn jsx_is_parsed_where_it_is_allowed() {
    let source = "import './a.js';\nlet a = <p>{import('./b.js')}</p>;\n";
    assert_eq!(analyze(source, MediaType::Jsx).dependencies.len(), 2);
    assert_eq!(analyze(source, MediaType::Tsx).dependencies.len(), 2);
    assert_eq!(analyze(source, MediaType::Mjs).dependencies.len(), 0);
}

#[test]
fn scripts_are_told_from_modules() {
    assert!(analyze("let a = 1;", MediaType::JavaScript).is_script);
    assert!(!analyze("let a = 1; export {};", MediaType::JavaScript).is_script);
    assert!(!analyze("let a = 1;", MediaType::Mjs).is_script);
    assert!(analyze("let a = 1;", MediaType::Cjs).is_script);
    assert!(analyze("let a = 1;", MediaType::Cts).is_script);
    assert!(!analyze("let a = 1;", MediaType::Dcts).is_script);
    assert!(analyze("let a = 1;", MediaType::Dts).is_script);
}

#[test]
fn broken_text_is_analyzed_without_error() {
    let info = analyze("import './a.js'; let let = ;", MediaType::Mjs);
    assert_eq!(info.dependencies, vec![]);
}

#[test]
fn other_kinds_are_not_analyzed() {
    for media_type in [
        MediaType::Json,
        MediaType::Css,
        MediaType::Html,
        MediaType::Wasm,
        MediaType::Sql,
        MediaType::SourceMap,
        MediaType::Unknown,
    ] {
        let error = OxcModuleAnalyzer.analyze("import './a.js';", media_type).unwrap_err();
        assert_eq!(error, UnsupportedMediaType { media_type });
        assert_eq!(
            error.message(),
            format!("Unsupported media type for analysis: {:?}", media_type)
        );
    }
    let css = UnsupportedMediaType { media_type: MediaType::Css };
    assert_eq!(css.message(), "Unsupported media type for analysis: Css");
}

#[test]
fn kinds_have_their_names() {
    for media_type in ALL {
        assert_eq!(media_type.name(), format!("{:?}", media_type));
    }
}

#[test]
fn modes_of_all_kinds() {
    let mode = |goal, typescript, jsx| Some(ParseMode { goal, typescript, jsx });
    assert_eq!(parse_mode(MediaType::JavaScript), mode(Goal::Unambiguous, false, false));
    assert_eq!(parse_mode(MediaType::Mjs), mode(Goal::Module, false, false));
    assert_eq!(parse_mode(MediaType::Cjs), mode(Goal::Script, false, false));
    assert_eq!(parse_mode(MediaType::Jsx), mode(Goal::Module, false, true));
    assert_eq!(parse_mode(MediaType::TypeScript), mode(Goal::Unambiguous, true, false));
    assert_eq!(parse_mode(MediaType::Mts), mode(Goal::Module, true, false));
    assert_eq!(parse_mode(MediaType::Cts), mode(Goal::Script, true, false));
    assert_eq!(parse_mode(MediaType::Tsx), mode(Goal::Unambiguous, true, true));
    assert_eq!(parse_mode(MediaType::Dts), mode(Goal::Unambiguous, true, false));
    assert_eq!(parse_mode(MediaType::Dmts), mode(Goal::Module, true, false));
    assert_eq!(parse_mode(MediaType::Dcts), mode(Goal::Module, true, false));
    assert_eq!(parse_mode(MediaType::Css), None);
}

#[test]
fn module_types_of_all_kinds() {
    let custom = |name: &str| ModuleType::Custom(name.to_string());
    let expected = [
        ModuleType::Js,
        ModuleType::Jsx,
        ModuleType::Js,
        ModuleType::Js,
        ModuleType::Ts,
        ModuleType::Ts,
        ModuleType::Ts,
        ModuleType::Ts,
        ModuleType::Ts,
        ModuleType::Ts,
        ModuleType::Tsx,
        ModuleType::Css,
        ModuleType::Json,
        custom("html"),
        ModuleType::Asset,
        custom("wasm"),
        custom("map"),
        ModuleType::Asset,
    ];
    for (media_type, module_type) in ALL.into_iter().zip(expected) {
        assert_eq!(media_to_module_type(media_type), module_type);
    }
}

#[test]
fn kinds_are_analyzed_as_they_are_bundled() {
    for media_type in ALL {
        let expected = match media_to_module_type(media_type) {
            ModuleType::Js => Some((false, false)),
            ModuleType::Jsx => Some((false, true)),
            ModuleType::Ts => Some((true, false)),
            ModuleType::Tsx => Some((true, true)),
            _ => None,
        };
        assert_eq!(parse_mode(media_type).map(|mode| (mode.typescript, mode.jsx)), expected);
    }
}

#[test]
fn invalid_escape_in_a_template_stands_for_nothing() {
    let nodes = vec![ModuleNode::DynamicImport(DynamicImport {
        source: ImportSource::TemplateLiteral(TemplateLiteral {
            quasis: vec![None, Some("b".to_string())],
            expressions: 1,
            span: Span { start: 7, end: 20 },
        }),
        span: Span { start: 0, end: 21 },
    })];
    assert_eq!(
        collect_dependencies("", &nodes),
        vec![dynamic_dependency(
            DynamicArgument::Template(vec![text(""), text("b"), DynamicTemplatePart::Expr]),
            range(0, 7, 20),
        )]
    );
}

#[test]
fn collector_adds_behind_what_it_has() {
    let source = "export { a } from 'a';\n";
    let mut collector = DependencyCollector { source_text: source, dependencies: Vec::new() };
    collector.visit_export_named_declaration(&Some(literal("a", 18, 21)));
    collector.visit_export_named_declaration(&None);
    collector.visit_import_declaration(&literal("b", 0, 1));
    collector.visit_export_all_declaration(&literal("c", 1, 2));
    collector.visit_import_expression(&DynamicImport {
        source: ImportSource::Other,
        span: Span { start: 2, end: 3 },
    });
    assert_eq!(
        collector.dependencies,
        vec![
            static_dependency(StaticDependencyKind::Export, "a", range(0, 18, 21)),
            static_dependency(StaticDependencyKind::Import, "b", range(0, 0, 1)),
            static_dependency(StaticDependencyKind::Export, "c", range(0, 1, 2)),
            dynamic_dependency(DynamicArgument::Expr, range(0, 2, 3)),
        ]
    );
}

#[test]
fn dependencies_of_two_stretches_follow_each_other() {
    let source = "abc\ndef";
    let first = || vec![ModuleNode::Import(literal("a", 0, 1)), ModuleNode::ExportNamed(None)];
    let second = || vec![ModuleNode::ExportAll(literal("b", 4, 5))];
    let mut all = first();
    all.extend(second());
    let mut expected = collect_dependencies(source, &first());
    expected.extend(collect_dependencies(source, &second()));
    assert_eq!(collect_dependencies(source, &all), expected);
    assert_eq!(expected.len(), 2);
}

#[test]
fn info_of_a_parsed_module() {
    let parsed = ParsedModule {
        nodes: vec![ModuleNode::Import(literal("a", 7, 10))],
        is_script: true,
    };
    let info = module_info("import 'a'", &parsed);
    assert!(info.is_script);
    assert_eq!(
        info.dependencies,
        vec![static_dependency(StaticDependencyKind::Import, "a", range(0, 7, 10))]
    );
}
