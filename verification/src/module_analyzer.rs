//! What a module depends on.
use crate::media::MediaType;
use crate::position::span_to_position_range;
use crate::position::PositionRange;
use crate::position::RangeView;
use crate::syntax::parse_module;
use crate::syntax::DynamicImport;
use crate::syntax::DynamicImportView;
use crate::syntax::Goal;
use crate::syntax::ImportSource;
use crate::syntax::ImportSourceView;
use crate::syntax::ModuleNode;
use crate::syntax::ModuleNodeView;
use crate::syntax::ParseMode;
use crate::syntax::ParsedModule;
use crate::syntax::ParsedModuleView;
use crate::syntax::StringLiteral;
use crate::syntax::StringLiteralView;
use crate::syntax::TemplateLiteral;
use crate::syntax::TemplateLiteralView;
use vstd::prelude::*;

verus! {

/// Whether a dependency that is written in full is imported or exported again.
#[derive(Clone, Copy, Debug, PartialEq, Eq, Structural)]
pub enum StaticDependencyKind {
    Import,
    Export,
}

/// A dependency named by an import or export declaration. It carries no types
/// specifier and no import attributes.
#[derive(Debug, PartialEq, Eq)]
pub struct StaticDependencyDescriptor {
    pub kind: StaticDependencyKind,
    pub specifier: String,
    pub specifier_range: PositionRange,
}

/// A part of a template literal that names a dependency.
#[derive(Debug, PartialEq, Eq)]
pub enum DynamicTemplatePart {
    String { value: String },
    Expr,
}

/// What an `import(..)` expression is given to import.
#[derive(Debug, PartialEq, Eq)]
pub enum DynamicArgument {
    String(String),
    Template(Vec<DynamicTemplatePart>),
    Expr,
}

/// A dependency named by an `import(..)` expression. It carries no types specifier
/// and no import attributes.
#[derive(Debug, PartialEq, Eq)]
pub struct DynamicDependencyDescriptor {
    pub argument: DynamicArgument,
    pub argument_range: PositionRange,
}

/// A dependency of a module.
#[derive(Debug, PartialEq, Eq)]
pub enum DependencyDescriptor {
    Static(StaticDependencyDescriptor),
    Dynamic(DynamicDependencyDescriptor),
}

/// What is known of a module from its text alone.
#[derive(Debug, PartialEq, Eq)]
pub struct ModuleInfo {
    /// Whether the text is a script and not a module.
    pub is_script: bool,
    /// What the module depends on, in the order in which a walk over its syntax
    /// tree meets it.
    pub dependencies: Vec<DependencyDescriptor>,
}

/// A module of a kind that holds no JavaScript or TypeScript.
#[derive(Clone, Copy, Debug, PartialEq, Eq, Structural)]
pub struct UnsupportedMediaType {
    pub media_type: MediaType,
}

/// What a `DynamicTemplatePart` says, with texts and sequences in place of strings and vectors.
pub enum TemplatePartView {
    String(Seq<char>),
    Expr,
}

/// What a `DynamicArgument` says, with texts and sequences in place of strings and vectors.
pub enum ArgumentView {
    String(Seq<char>),
    Template(Seq<TemplatePartView>),
    Expr,
}

/// What a `DependencyDescriptor` says, with texts and sequences in place of strings and vectors.
pub enum DependencyView {
    Static { kind: StaticDependencyKind, specifier: Seq<char>, specifier_range: RangeView },
    Dynamic { argument: ArgumentView, argument_range: RangeView },
}

/// What a `ModuleInfo` says, with texts and sequences in place of strings and vectors.
pub struct ModuleInfoView {
    pub is_script: bool,
    pub dependencies: Seq<DependencyView>,
}

impl View for DynamicTemplatePart {
    type V = TemplatePartView;

    open spec fn view(&self) -> TemplatePartView {
        match self {
            DynamicTemplatePart::String { value } => TemplatePartView::String(value@),
            DynamicTemplatePart::Expr => TemplatePartView::Expr,
        }
    }
}

/// What the parts say.
pub open spec fn parts_view(parts: Seq<DynamicTemplatePart>) -> Seq<TemplatePartView> {
    parts.map_values(|part: DynamicTemplatePart| part@)
}

impl View for DynamicArgument {
    type V = ArgumentView;

    open spec fn view(&self) -> ArgumentView {
        match self {
            DynamicArgument::String(value) => ArgumentView::String(value@),
            DynamicArgument::Template(parts) => ArgumentView::Template(parts_view(parts@)),
            DynamicArgument::Expr => ArgumentView::Expr,
        }
    }
}

impl View for DependencyDescriptor {
    type V = DependencyView;

    open spec fn view(&self) -> DependencyView {
        match self {
            DependencyDescriptor::Static(descriptor) => DependencyView::Static {
                kind: descriptor.kind,
                specifier: descriptor.specifier@,
                specifier_range: descriptor.specifier_range@,
            },
            DependencyDescriptor::Dynamic(descriptor) => DependencyView::Dynamic {
                argument: descriptor.argument@,
                argument_range: descriptor.argument_range@,
            },
        }
    }
}

/// What the dependencies say.
pub open spec fn dependencies_view(dependencies: Seq<DependencyDescriptor>) -> Seq<DependencyView> {
    dependencies.map_values(|dependency: DependencyDescriptor| dependency@)
}

impl View for ModuleInfo {
    type V = ModuleInfoView;

    open spec fn view(&self) -> ModuleInfoView {
        ModuleInfoView {
            is_script: self.is_script,
            dependencies: dependencies_view(self.dependencies@),
        }
    }
}

/// The place of `span` in the text `source`.
pub open spec fn range_in(source: Seq<char>, span: crate::position::Span) -> RangeView {
    crate::position::range_of(vstd::utf8::encode_utf8(source), span)
}

/// The dependency that a declaration with the source `literal` names.
pub open spec fn static_dependency(
    source: Seq<char>,
    kind: StaticDependencyKind,
    literal: StringLiteralView,
) -> DependencyView {
    DependencyView::Static {
        kind,
        specifier: literal.value,
        specifier_range: range_in(source, literal.span),
    }
}

/// What a literal part of a template stands for in a dependency: nothing, if it
/// holds an invalid escape.
pub open spec fn quasi_part(quasi: Option<Seq<char>>) -> TemplatePartView {
    match quasi {
        Some(cooked) => TemplatePartView::String(cooked),
        None => TemplatePartView::String(Seq::empty()),
    }
}

/// The parts of a dependency that the template `template` names: first its literal
/// parts, then its expressions.
pub open spec fn template_parts(template: TemplateLiteralView) -> Seq<TemplatePartView> {
    template.quasis.map_values(|quasi: Option<Seq<char>>| quasi_part(quasi)) + Seq::new(
        template.expressions,
        |i: int| TemplatePartView::Expr,
    )
}

/// The dependency that the expression `import` names. Its place is that of the
/// literal that it is given, or of the whole expression if that is no literal.
pub open spec fn dynamic_dependency(
    source: Seq<char>,
    import: DynamicImportView,
) -> DependencyView {
    match import.source {
        ImportSourceView::StringLiteral(literal) => DependencyView::Dynamic {
            argument: ArgumentView::String(literal.value),
            argument_range: range_in(source, literal.span),
        },
        ImportSourceView::TemplateLiteral(template) => DependencyView::Dynamic {
            argument: ArgumentView::Template(template_parts(template)),
            argument_range: range_in(source, template.span),
        },
        ImportSourceView::Other => DependencyView::Dynamic {
            argument: ArgumentView::Expr,
            argument_range: range_in(source, import.span),
        },
    }
}

/// The dependency that `node` names, if it names one.
pub open spec fn dependency_of(source: Seq<char>, node: ModuleNodeView) -> Option<DependencyView> {
    match node {
        ModuleNodeView::Import(literal) => Some(
            static_dependency(source, StaticDependencyKind::Import, literal),
        ),
        ModuleNodeView::ExportNamed(Some(literal)) => Some(
            static_dependency(source, StaticDependencyKind::Export, literal),
        ),
        ModuleNodeView::ExportNamed(None) => None,
        ModuleNodeView::ExportAll(literal) => Some(
            static_dependency(source, StaticDependencyKind::Export, literal),
        ),
        ModuleNodeView::DynamicImport(import) => Some(dynamic_dependency(source, import)),
    }
}

/// The dependencies that `nodes` name, in the same order.
pub open spec fn dependencies_of(
    source: Seq<char>,
    nodes: Seq<ModuleNodeView>,
) -> Seq<DependencyView>
    decreases nodes.len(),
{
    if nodes.len() == 0 {
        Seq::empty()
    } else {
        let rest = dependencies_of(source, nodes.drop_last());
        match dependency_of(source, nodes.last()) {
            Some(dependency) => rest.push(dependency),
            None => rest,
        }
    }
}

/// What is known of a module with the text `source` in which the parser found
/// `parsed`.
pub open spec fn info_of(source: Seq<char>, parsed: ParsedModuleView) -> ModuleInfoView {
    ModuleInfoView {
        is_script: parsed.is_script,
        dependencies: dependencies_of(source, parsed.nodes),
    }
}

/// The grammar for modules of the kind `media_type`; `None` if they hold no
/// JavaScript or TypeScript.
pub open spec fn mode_of(media_type: MediaType) -> Option<ParseMode> {
    if media_type.is_javascript() || media_type.is_typescript() {
        Some(
            ParseMode {
                goal: match media_type {
                    MediaType::Cjs | MediaType::Cts => Goal::Script,
                    MediaType::JavaScript
                    | MediaType::TypeScript
                    | MediaType::Tsx
                    | MediaType::Dts => Goal::Unambiguous,
                    _ => Goal::Module,
                },
                typescript: media_type.is_typescript(),
                jsx: media_type.is_jsx(),
            },
        )
    } else {
        None
    }
}

/// Turns the nodes of a module into its dependencies.
pub struct DependencyCollector<'a> {
    pub source_text: &'a str,
    pub dependencies: Vec<DependencyDescriptor>,
}

impl<'a> DependencyCollector<'a> {
    /// The dependencies collected so far.
    pub open spec fn collected(self) -> Seq<DependencyView> {
        dependencies_view(self.dependencies@)
    }

    fn push(&mut self, dependency: DependencyDescriptor)
        ensures
            final(self).source_text == old(self).source_text,
            final(self).collected() == old(self).collected().push(dependency@),
            final(self).dependencies@ == old(self).dependencies@.push(dependency),
    {
        self.dependencies.push(dependency);
        assert(self.collected() =~= old(self).collected().push(dependency@));
    }

    /// Adds the dependency of `import .. from "source"`.
    pub fn visit_import_declaration(&mut self, source: &StringLiteral)
        ensures
            final(self).source_text == old(self).source_text,
            final(self).collected() == old(self).collected().push(
                static_dependency(old(self).source_text@, StaticDependencyKind::Import, source@),
            ),
            final(self).dependencies@.drop_last() == old(self).dependencies@,
            final(self).dependencies@.last() matches DependencyDescriptor::Static(added)
                && added.kind == StaticDependencyKind::Import && added.specifier@ == source.value@,
    {
        let specifier_range = span_to_position_range(self.source_text, source.span);
        self.push(
            DependencyDescriptor::Static(
                StaticDependencyDescriptor {
                    kind: StaticDependencyKind::Import,
                    specifier: source.value.clone(),
                    specifier_range,
                },
            ),
        );
    }

    /// Adds the dependency of `export { .. } from "source"`. An export without a
    /// source adds none.
    pub fn visit_export_named_declaration(&mut self, source: &Option<StringLiteral>)
        ensures
            final(self).source_text == old(self).source_text,
            final(self).collected() == (match *source {
                Some(source) => old(self).collected().push(
                    static_dependency(old(self).source_text@, StaticDependencyKind::Export, source@),
                ),
                None => old(self).collected(),
            }),
            source matches Some(source) ==> {
                &&& final(self).dependencies@.drop_last() == old(self).dependencies@
                &&& final(self).dependencies@.last() matches DependencyDescriptor::Static(added)
                &&& added.kind == StaticDependencyKind::Export
                &&& added.specifier@ == source.value@
            },
            source is None ==> final(self).dependencies@ == old(self).dependencies@,
    {
        if let Some(source) = source {
            let specifier_range = span_to_position_range(self.source_text, source.span);
            self.push(
                DependencyDescriptor::Static(
                    StaticDependencyDescriptor {
                        kind: StaticDependencyKind::Export,
                        specifier: source.value.clone(),
                        specifier_range,
                    },
                ),
            );
        }
    }

    /// Adds the dependency of `export * from "source"`.
    pub fn visit_export_all_declaration(&mut self, source: &StringLiteral)
        ensures
            final(self).source_text == old(self).source_text,
            final(self).collected() == old(self).collected().push(
                static_dependency(old(self).source_text@, StaticDependencyKind::Export, source@),
            ),
            final(self).dependencies@.drop_last() == old(self).dependencies@,
            final(self).dependencies@.last() matches DependencyDescriptor::Static(added)
                && added.kind == StaticDependencyKind::Export && added.specifier@ == source.value@,
    {
        let specifier_range = span_to_position_range(self.source_text, source.span);
        self.push(
            DependencyDescriptor::Static(
                StaticDependencyDescriptor {
                    kind: StaticDependencyKind::Export,
                    specifier: source.value.clone(),
                    specifier_range,
                },
            ),
        );
    }

    /// Adds the dependency of `import(..)`.
    pub fn visit_import_expression(&mut self, import: &DynamicImport)
        ensures
            final(self).source_text == old(self).source_text,
            final(self).collected() == old(self).collected().push(
                dynamic_dependency(old(self).source_text@, import@),
            ),
            final(self).dependencies@.drop_last() == old(self).dependencies@,
            final(self).dependencies@.last() matches DependencyDescriptor::Dynamic(added)
                && match import.source {
                ImportSource::StringLiteral(literal) => added.argument matches
                    DynamicArgument::String(text) && text@ == literal.value@,
                ImportSource::TemplateLiteral(_) => added.argument is Template,
                ImportSource::Other => added.argument is Expr,
            },
    {
        let (argument, argument_range) = match &import.source {
            ImportSource::StringLiteral(literal) => (
                DynamicArgument::String(literal.value.clone()),
                span_to_position_range(self.source_text, literal.span),
            ),
            ImportSource::TemplateLiteral(template) => (
                DynamicArgument::Template(collect_template_parts(template)),
                span_to_position_range(self.source_text, template.span),
            ),
            ImportSource::Other => (
                DynamicArgument::Expr,
                span_to_position_range(self.source_text, import.span),
            ),
        };
        self.push(
            DependencyDescriptor::Dynamic(DynamicDependencyDescriptor { argument, argument_range }),
        );
    }

    /// Adds the dependency that `node` names, if it names one.
    pub fn visit(&mut self, node: &ModuleNode)
        ensures
            final(self).source_text == old(self).source_text,
            final(self).collected() == (match dependency_of(old(self).source_text@, node@) {
                Some(dependency) => old(self).collected().push(dependency),
                None => old(self).collected(),
            }),
    {
        match node {
            ModuleNode::Import(source) => self.visit_import_declaration(source),
            ModuleNode::ExportNamed(source) => self.visit_export_named_declaration(source),
            ModuleNode::ExportAll(source) => self.visit_export_all_declaration(source),
            ModuleNode::DynamicImport(import) => self.visit_import_expression(import),
        }
    }
}

/// The parts of a dependency that `template` names.
fn collect_template_parts(template: &TemplateLiteral) -> (parts: Vec<DynamicTemplatePart>)
    ensures
        parts_view(parts@) == template_parts(template@),
{
    let mut parts: Vec<DynamicTemplatePart> = Vec::new();
    let ghost wanted = template_parts(template@);
    let mut i: usize = 0;
    while i < template.quasis.len()
        invariant
            i <= template.quasis@.len(),
            wanted == template_parts(template@),
            parts_view(parts@) =~= wanted.take(i as int),
        decreases template.quasis.len() - i,
    {
        let value = match &template.quasis[i] {
            Some(cooked) => cooked.clone(),
            None => String::new(),
        };
        let part = DynamicTemplatePart::String { value };
        assert(part@ == wanted[i as int]) by {
            assert(value@ =~= (match template.quasis@[i as int] {
                Some(cooked) => cooked@,
                None => Seq::<char>::empty(),
            }));
        }
        let ghost collected = parts_view(parts@);
        parts.push(part);
        assert(parts_view(parts@) =~= collected.push(part@));
        i += 1;
    }
    let mut n: usize = 0;
    while n < template.expressions
        invariant
            n <= template.expressions,
            wanted == template_parts(template@),
            parts_view(parts@) =~= wanted.take(template.quasis@.len() + n),
        decreases template.expressions - n,
    {
        let ghost collected = parts_view(parts@);
        parts.push(DynamicTemplatePart::Expr);
        assert(parts_view(parts@) =~= collected.push(TemplatePartView::Expr));
        n += 1;
    }
    assert(wanted.take(template.quasis@.len() + n) =~= wanted);
    parts
}

/// The dependencies that `nodes` name in a module with the text `source_text`.
pub fn collect_dependencies(source_text: &str, nodes: &Vec<ModuleNode>) -> (dependencies: Vec<
    DependencyDescriptor,
>)
    ensures
        dependencies_view(dependencies@) == dependencies_of(
            source_text@,
            crate::syntax::nodes_view(nodes@),
        ),
{
    let mut collector = DependencyCollector { source_text, dependencies: Vec::new() };
    let ghost seen = crate::syntax::nodes_view(nodes@);
    assert(collector.collected() =~= Seq::empty());
    let mut i: usize = 0;
    while i < nodes.len()
        invariant
            i <= nodes@.len(),
            seen == crate::syntax::nodes_view(nodes@),
            collector.source_text == source_text,
            collector.collected() == dependencies_of(source_text@, seen.take(i as int)),
        decreases nodes.len() - i,
    {
        assert(seen.take(i + 1).drop_last() =~= seen.take(i as int));
        assert(seen.take(i + 1).last() == nodes@[i as int]@);
        collector.visit(&nodes[i]);
        i += 1;
    }
    assert(seen.take(i as int) =~= seen);
    collector.dependencies
}

/// What is known of a module with the text `source_text` in which the parser found
/// `parsed`.
pub fn module_info(source_text: &str, parsed: &ParsedModule) -> (info: ModuleInfo)
    ensures
        info@ == info_of(source_text@, parsed@),
{
    ModuleInfo {
        is_script: parsed.is_script,
        dependencies: collect_dependencies(source_text, &parsed.nodes),
    }
}

/// The grammar for modules of the kind `media_type`; `None` if they hold no
/// JavaScript or TypeScript.
pub fn parse_mode(media_type: MediaType) -> (mode: Option<ParseMode>)
    ensures
        mode == mode_of(media_type),
{
    let (goal, typescript, jsx) = match media_type {
        MediaType::JavaScript => (Goal::Unambiguous, false, false),
        MediaType::Mjs => (Goal::Module, false, false),
        MediaType::Cjs => (Goal::Script, false, false),
        MediaType::Jsx => (Goal::Module, false, true),
        MediaType::TypeScript => (Goal::Unambiguous, true, false),
        MediaType::Mts => (Goal::Module, true, false),
        MediaType::Cts => (Goal::Script, true, false),
        MediaType::Tsx => (Goal::Unambiguous, true, true),
        MediaType::Dts => (Goal::Unambiguous, true, false),
        MediaType::Dmts | MediaType::Dcts => (Goal::Module, true, false),
        MediaType::Json
        | MediaType::Css
        | MediaType::Html
        | MediaType::Wasm
        | MediaType::Sql
        | MediaType::SourceMap
        | MediaType::Unknown => return None,
    };
    Some(ParseMode { goal, typescript, jsx })
}

/// Finds out what modules depend on with the `oxc` parser.
pub struct OxcModuleAnalyzer;

impl OxcModuleAnalyzer {
    /// What is known of a module with the text `source_text` that is of the kind
    /// `media_type`. A text with syntax errors is analyzed too, as far as the parser
    /// makes sense of it.
    pub fn analyze(&self, source_text: &str, media_type: MediaType) -> (info: Result<
        ModuleInfo,
        UnsupportedMediaType,
    >)
        ensures
            match mode_of(media_type) {
                Some(mode) => info matches Ok(info) && info@ == info_of(
                    source_text@,
                    crate::syntax::parsed_module(source_text@, mode),
                ),
                None => info == Err::<ModuleInfo, UnsupportedMediaType>(
                    UnsupportedMediaType { media_type },
                ),
            },
            media_type == MediaType::Cjs || media_type == MediaType::Cts ==> info->Ok_0.is_script,
            mode_of(media_type) matches Some(mode) && mode.goal == Goal::Module
                ==> !info->Ok_0.is_script,
    {
        match parse_mode(media_type) {
            Some(mode) => {
                let parsed = parse_module(source_text, mode);
                Ok(module_info(source_text, &parsed))
            },
            None => Err(UnsupportedMediaType { media_type }),
        }
    }
}

impl UnsupportedMediaType {
    /// The message for people.
    pub fn message(self) -> (message: String)
        ensures
            message@ == "Unsupported media type for analysis: "@ + self.media_type.spec_name(),
    {
        "Unsupported media type for analysis: ".to_owned().concat(self.media_type.name())
    }
}

/// Whether `node` names a dependency: all but exports of the module's own do.
pub open spec fn names_dependency(node: ModuleNodeView) -> bool {
    node != ModuleNodeView::ExportNamed(None)
}

/// The dependencies of two stretches of nodes, one behind the other, are those of the
/// first followed by those of the second: what comes later changes nothing of what
/// came before, and the order of the text is kept.
pub proof fn law_dependencies_keep_order(
    source: Seq<char>,
    first: Seq<ModuleNodeView>,
    second: Seq<ModuleNodeView>,
)
    ensures
        dependencies_of(source, first + second) == dependencies_of(source, first)
            + dependencies_of(source, second),
    decreases second.len(),
{
    if second.len() == 0 {
        assert(first + second =~= first);
        assert(dependencies_of(source, first) + dependencies_of(source, second)
            =~= dependencies_of(source, first));
    } else {
        let all = first + second;
        assert(all.drop_last() =~= first + second.drop_last());
        law_dependencies_keep_order(source, first, second.drop_last());
        assert(dependencies_of(source, all) =~= dependencies_of(source, first) + dependencies_of(
            source,
            second,
        ));
    }
}

/// There are as many dependencies as there are nodes that name one: none is dropped,
/// and none that is named twice is merged.
pub proof fn law_one_dependency_per_naming_node(source: Seq<char>, nodes: Seq<ModuleNodeView>)
    ensures
        dependencies_of(source, nodes).len() == nodes.filter(
            |node: ModuleNodeView| names_dependency(node),
        ).len(),
    decreases nodes.len(),
{
    reveal(Seq::filter);
    if nodes.len() > 0 {
        law_one_dependency_per_naming_node(source, nodes.drop_last());
    }
}

/// A dependency is listed exactly if some node names it.
pub proof fn law_dependencies_are_those_named(
    source: Seq<char>,
    nodes: Seq<ModuleNodeView>,
    dependency: DependencyView,
)
    ensures
        dependencies_of(source, nodes).contains(dependency) <==> exists|i: int|
            0 <= i < nodes.len() && dependency_of(source, #[trigger] nodes[i]) == Some(dependency),
    decreases nodes.len(),
{
    if nodes.len() > 0 {
        let rest = nodes.drop_last();
        let found = dependencies_of(source, rest);
        let all = dependencies_of(source, nodes);
        law_dependencies_are_those_named(source, rest, dependency);
        if all.contains(dependency) {
            if found.contains(dependency) {
                let i = choose|i: int|
                    0 <= i < rest.len() && dependency_of(source, #[trigger] rest[i]) == Some(
                        dependency,
                    );
                assert(nodes[i] == rest[i]);
            } else {
                let k = choose|k: int| 0 <= k < all.len() && all[k] == dependency;
                assert(k == found.len()) by {
                    if k < found.len() {
                        assert(found[k] == dependency);
                    }
                }
                assert(dependency_of(source, nodes[nodes.len() - 1]) == Some(dependency));
            }
        }
        if exists|i: int|
            0 <= i < nodes.len() && dependency_of(source, #[trigger] nodes[i]) == Some(
                dependency,
            ) {
            let i = choose|i: int|
                0 <= i < nodes.len() && dependency_of(source, #[trigger] nodes[i]) == Some(
                    dependency,
                );
            if i < rest.len() {
                assert(rest[i] == nodes[i]);
                let k = choose|k: int| 0 <= k < found.len() && found[k] == dependency;
                assert(all[k] == dependency);
            } else {
                assert(all.last() == dependency);
            }
        }
    }
}

/// The kinds of modules that can be analyzed are those that are bundled as JavaScript
/// or TypeScript, with or without JSX, and they are parsed as what they are bundled as.
pub proof fn law_analyzed_as_bundled(media_type: MediaType)
    ensures
        match (mode_of(media_type), crate::media::module_type_of(media_type)) {
            (Some(mode), crate::media::ModuleTypeView::Js) => !mode.typescript && !mode.jsx,
            (Some(mode), crate::media::ModuleTypeView::Jsx) => !mode.typescript && mode.jsx,
            (Some(mode), crate::media::ModuleTypeView::Ts) => mode.typescript && !mode.jsx,
            (Some(mode), crate::media::ModuleTypeView::Tsx) => mode.typescript && mode.jsx,
            (Some(_), _) => false,
            (None, module_type) => {
                &&& module_type != crate::media::ModuleTypeView::Js
                &&& module_type != crate::media::ModuleTypeView::Jsx
                &&& module_type != crate::media::ModuleTypeView::Ts
                &&& module_type != crate::media::ModuleTypeView::Tsx
            },
        },
{
}

/// An import declaration, a named export with a source and an export of everything each
/// name the module that their literal says, character for character; the place is that of
/// the literal. A named export without a source names none.
pub proof fn law_declaration_names_its_literal(source: Seq<char>, literal: StringLiteralView)
    ensures
        dependencies_of(source, seq![ModuleNodeView::Import(literal)]).len() == 1,
        dependencies_of(source, seq![ModuleNodeView::Import(literal)])[0] matches
            DependencyView::Static { kind, specifier, specifier_range } && kind
            == StaticDependencyKind::Import && specifier == literal.value && specifier_range
            == crate::position::range_of(vstd::utf8::encode_utf8(source), literal.span),
        dependencies_of(source, seq![ModuleNodeView::ExportNamed(Some(literal))]).len() == 1,
        dependencies_of(source, seq![ModuleNodeView::ExportNamed(Some(literal))])[0] matches
            DependencyView::Static { kind, specifier, specifier_range } && kind
            == StaticDependencyKind::Export && specifier == literal.value && specifier_range
            == crate::position::range_of(vstd::utf8::encode_utf8(source), literal.span),
        dependencies_of(source, seq![ModuleNodeView::ExportAll(literal)]).len() == 1,
        dependencies_of(source, seq![ModuleNodeView::ExportAll(literal)])[0] matches
            DependencyView::Static { kind, specifier, specifier_range } && kind
            == StaticDependencyKind::Export && specifier == literal.value && specifier_range
            == crate::position::range_of(vstd::utf8::encode_utf8(source), literal.span),
        dependencies_of(source, seq![ModuleNodeView::ExportNamed(None)]).len() == 0,
        dependencies_of(source, Seq::empty()).len() == 0,
{
    lemma_dependencies_of_one(source, ModuleNodeView::Import(literal));
    lemma_dependencies_of_one(source, ModuleNodeView::ExportNamed(Some(literal)));
    lemma_dependencies_of_one(source, ModuleNodeView::ExportAll(literal));
    lemma_dependencies_of_one(source, ModuleNodeView::ExportNamed(None));
}

proof fn lemma_dependencies_of_one(source: Seq<char>, node: ModuleNodeView)
    ensures
        dependencies_of(source, seq![node]) == (match dependency_of(source, node) {
            Some(dependency) => seq![dependency],
            None => Seq::empty(),
        }),
{
    reveal_with_fuel(dependencies_of, 2);
    assert(seq![node].drop_last() =~= Seq::<ModuleNodeView>::empty());
    assert(seq![node].last() == node);
    if let Some(dependency) = dependency_of(source, node) {
        assert(Seq::<DependencyView>::empty().push(dependency) =~= seq![dependency]);
    }
}

/// An `import(..)` expression names what it is given: a string, whatever it says, exactly
/// if it is given a string literal; a template exactly if it is given a template; and an
/// unknown expression exactly if it is given neither. The place is that of the literal,
/// or of the whole expression.
pub proof fn law_dynamic_import_names_its_argument(source: Seq<char>, import: DynamicImportView)
    ensures
        dependencies_of(source, seq![ModuleNodeView::DynamicImport(import)]).len() == 1,
        dependencies_of(source, seq![ModuleNodeView::DynamicImport(import)])[0]
            == dynamic_dependency(source, import),
        dynamic_dependency(source, import) matches DependencyView::Dynamic {
            argument,
            argument_range,
        } && match import.source {
            ImportSourceView::StringLiteral(literal) => {
                &&& argument == ArgumentView::String(literal.value)
                &&& argument_range == crate::position::range_of(
                    vstd::utf8::encode_utf8(source),
                    literal.span,
                )
            },
            ImportSourceView::TemplateLiteral(template) => {
                &&& argument is Template
                &&& argument_range == crate::position::range_of(
                    vstd::utf8::encode_utf8(source),
                    template.span,
                )
            },
            ImportSourceView::Other => {
                &&& argument is Expr
                &&& argument_range == crate::position::range_of(
                    vstd::utf8::encode_utf8(source),
                    import.span,
                )
            },
        },
{
    lemma_dependencies_of_one(source, ModuleNodeView::DynamicImport(import));
}

/// A template names first what each of its literal parts stands for, in order, nothing
/// for one with an invalid escape, and then one unknown part for each of its expressions.
pub proof fn law_template_names_its_parts(
    source: Seq<char>,
    template: TemplateLiteralView,
    span: crate::position::Span,
    i: int,
)
    requires
        0 <= i < template.quasis.len() + template.expressions,
    ensures
        ({
            let import = DynamicImportView {
                source: ImportSourceView::TemplateLiteral(template),
                span,
            };
            &&& dynamic_dependency(source, import) matches DependencyView::Dynamic { argument, .. }
            &&& argument matches ArgumentView::Template(parts)
            &&& parts.len() == template.quasis.len() + template.expressions
            &&& i < template.quasis.len() ==> (parts[i] matches TemplatePartView::String(text)
                && match template.quasis[i] {
                Some(cooked) => text == cooked,
                None => text.len() == 0,
            })
            &&& template.quasis.len() <= i ==> parts[i] is Expr
        }),
{
}

/// A template without parts names none.
pub proof fn law_empty_template_names_nothing(template: TemplateLiteralView)
    requires
        template.quasis.len() == 0,
        template.expressions == 0,
    ensures
        template_parts(template).len() == 0,
{
}

/// What is known of a module is whether the parser took it for a script, and what the
/// nodes that the parser found depend on.
pub proof fn law_info_is_what_was_parsed(source: Seq<char>, parsed: ParsedModuleView)
    ensures
        info_of(source, parsed).is_script == parsed.is_script,
        info_of(source, parsed).dependencies == dependencies_of(source, parsed.nodes),
        parsed.nodes.len() == 0 ==> info_of(source, parsed).dependencies.len() == 0,
{
}

/// JavaScript and TypeScript can be analyzed, and nothing else. Types are allowed in
/// TypeScript alone, and JSX where the kind is one with JSX. CommonJS is parsed as a
/// script; a kind that leaves open which of the two a text is, is told by the text.
pub proof fn law_grammar_by_kind(kind: MediaType)
    ensures
        mode_of(kind) is None <==> kind is Json || kind is Css || kind is Html || kind is Wasm
            || kind is Sql || kind is SourceMap || kind is Unknown,
        mode_of(kind) matches Some(mode) ==> {
            &&& mode.typescript <==> kind is TypeScript || kind is Mts || kind is Cts || kind is Dts
                || kind is Dmts || kind is Dcts || kind is Tsx
            &&& mode.jsx <==> kind is Jsx || kind is Tsx
            &&& mode.goal is Script <==> kind is Cjs || kind is Cts
            &&& mode.goal is Unambiguous <==> kind is JavaScript || kind is TypeScript
                || kind is Tsx || kind is Dts
            &&& mode.goal is Module <==> kind is Mjs || kind is Jsx || kind is Mts || kind is Dmts
                || kind is Dcts
        },
{
}

/// A dependency is known by its kind, its specifier or argument, and its place.
pub proof fn law_dependency_tells_all(dependency: DependencyDescriptor)
    ensures
        dependency matches DependencyDescriptor::Static(descriptor) ==> dependency@ == (
        DependencyView::Static {
            kind: descriptor.kind,
            specifier: descriptor.specifier@,
            specifier_range: descriptor.specifier_range@,
        }),
        dependency matches DependencyDescriptor::Dynamic(descriptor) ==> {
            &&& dependency@ == (DependencyView::Dynamic {
                argument: descriptor.argument@,
                argument_range: descriptor.argument_range@,
            })
            &&& descriptor.argument matches DynamicArgument::String(text) ==> descriptor.argument@
                == ArgumentView::String(text@)
            &&& descriptor.argument is Expr ==> descriptor.argument@ is Expr
            &&& descriptor.argument matches DynamicArgument::Template(parts) ==> (
            descriptor.argument@ matches ArgumentView::Template(told) && told.len() == parts@.len()
                && forall|i: int|
                0 <= i < parts@.len() ==> told[i] == (match #[trigger] parts@[i] {
                    DynamicTemplatePart::String { value } => TemplatePartView::String(value@),
                    DynamicTemplatePart::Expr => TemplatePartView::Expr,
                }))
        },
{
}

/// What is known of a module is told by its dependencies, one by one, and by whether it is
/// a script.
pub proof fn law_module_info_tells_all(info: ModuleInfo, i: int)
    requires
        0 <= i < info.dependencies@.len(),
    ensures
        info@.is_script == info.is_script,
        info@.dependencies.len() == info.dependencies@.len(),
        info@.dependencies[i] == info.dependencies@[i]@,
{
}

/// Any two declarations with the same source name the same specifier, whatever kind they
/// are of, wherever they stand and whatever the text around them.
pub proof fn law_specifier_is_the_literal(
    source: Seq<char>,
    kind: StaticDependencyKind,
    literal: StringLiteralView,
)
    ensures
        static_dependency(source, kind, literal) matches DependencyView::Static {
            kind: told,
            specifier,
            specifier_range,
        } && told == kind && specifier == literal.value && specifier_range
            == crate::position::range_of(vstd::utf8::encode_utf8(source), literal.span),
{
}

/// What was collected is told by the dependencies, one by one.
pub proof fn law_collector_tells_all(collector: DependencyCollector, i: int)
    requires
        0 <= i < collector.dependencies@.len(),
    ensures
        collector.collected().len() == collector.dependencies@.len(),
        collector.collected()[i] == collector.dependencies@[i]@,
{
}

} // verus!
