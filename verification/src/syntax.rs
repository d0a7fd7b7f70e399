//! The parts of a module's syntax that say what the module depends on.
use crate::position::Span;
use oxc::allocator::Allocator;
use oxc::ast::ast::ExportAllDeclaration;
use oxc::ast::ast::ExportNamedDeclaration;
use oxc::ast::ast::Expression;
use oxc::ast::ast::ImportDeclaration;
use oxc::ast::ast::ImportExpression;
use oxc::ast_visit::walk::walk_program;
use oxc::ast_visit::Visit;
use oxc::parser::Parser;
use oxc::span::SourceType;
use vstd::prelude::*;

verus! {

/// Which of the two goals of the grammar a text is parsed with.
#[derive(Clone, Copy, Debug, PartialEq, Eq, Structural)]
pub enum Goal {
    Module,
    Script,
    /// A module if the text holds module syntax, otherwise a script.
    Unambiguous,
}

/// The grammar a text is parsed with.
#[derive(Clone, Copy, Debug, PartialEq, Eq, Structural)]
pub struct ParseMode {
    pub goal: Goal,
    pub typescript: bool,
    pub jsx: bool,
}

/// A string literal: what it stands for and where it is written.
#[derive(Debug, PartialEq, Eq)]
pub struct StringLiteral {
    pub value: String,
    pub span: Span,
}

/// A template literal.
#[derive(Debug, PartialEq, Eq)]
pub struct TemplateLiteral {
    /// What each literal part stands for; `None` if it holds an invalid escape.
    pub quasis: Vec<Option<String>>,
    /// How many expressions stand between the literal parts.
    pub expressions: usize,
    pub span: Span,
}

/// What an `import(..)` expression is given to import.
#[derive(Debug, PartialEq, Eq)]
pub enum ImportSource {
    StringLiteral(StringLiteral),
    TemplateLiteral(TemplateLiteral),
    /// Any other expression.
    Other,
}

/// An `import(..)` expression.
#[derive(Debug, PartialEq, Eq)]
pub struct DynamicImport {
    pub source: ImportSource,
    pub span: Span,
}

/// A part of a module that can name another module.
#[derive(Debug, PartialEq, Eq)]
pub enum ModuleNode {
    /// `import .. from "source"`
    Import(StringLiteral),
    /// `export { .. } from "source"`, or without a source `export { .. }` and
    /// `export` in front of a declaration.
    ExportNamed(Option<StringLiteral>),
    /// `export * from "source"`
    ExportAll(StringLiteral),
    /// `import(source)`
    DynamicImport(DynamicImport),
}

/// What the parser finds in a text.
#[derive(Debug, PartialEq, Eq)]
pub struct ParsedModule {
    /// The parts that can name another module, in the order of the walk. Nothing
    /// is listed that stands inside another listed part.
    pub nodes: Vec<ModuleNode>,
    /// Whether the text was taken as a script.
    pub is_script: bool,
}

/// What a `StringLiteral` says, with texts and sequences in place of strings and vectors.
pub struct StringLiteralView {
    pub value: Seq<char>,
    pub span: Span,
}

/// What a `TemplateLiteral` says, with texts and sequences in place of strings and vectors.
pub struct TemplateLiteralView {
    pub quasis: Seq<Option<Seq<char>>>,
    pub expressions: nat,
    pub span: Span,
}

/// What a `ImportSource` says, with texts and sequences in place of strings and vectors.
pub enum ImportSourceView {
    StringLiteral(StringLiteralView),
    TemplateLiteral(TemplateLiteralView),
    Other,
}

/// What a `DynamicImport` says, with texts and sequences in place of strings and vectors.
pub struct DynamicImportView {
    pub source: ImportSourceView,
    pub span: Span,
}

/// What a `ModuleNode` says, with texts and sequences in place of strings and vectors.
pub enum ModuleNodeView {
    Import(StringLiteralView),
    ExportNamed(Option<StringLiteralView>),
    ExportAll(StringLiteralView),
    DynamicImport(DynamicImportView),
}

/// What a `ParsedModule` says, with texts and sequences in place of strings and vectors.
pub struct ParsedModuleView {
    pub nodes: Seq<ModuleNodeView>,
    pub is_script: bool,
}

impl View for StringLiteral {
    type V = StringLiteralView;

    open spec fn view(&self) -> StringLiteralView {
        StringLiteralView { value: self.value@, span: self.span }
    }
}

impl View for TemplateLiteral {
    type V = TemplateLiteralView;

    open spec fn view(&self) -> TemplateLiteralView {
        TemplateLiteralView {
            quasis: self.quasis@.map_values(
                |quasi: Option<String>|
                    match quasi {
                        Some(cooked) => Some(cooked@),
                        None => None,
                    },
            ),
            expressions: self.expressions as nat,
            span: self.span,
        }
    }
}

impl View for ImportSource {
    type V = ImportSourceView;

    open spec fn view(&self) -> ImportSourceView {
        match self {
            ImportSource::StringLiteral(literal) => ImportSourceView::StringLiteral(literal@),
            ImportSource::TemplateLiteral(template) => ImportSourceView::TemplateLiteral(template@),
            ImportSource::Other => ImportSourceView::Other,
        }
    }
}

impl View for DynamicImport {
    type V = DynamicImportView;

    open spec fn view(&self) -> DynamicImportView {
        DynamicImportView { source: self.source@, span: self.span }
    }
}

impl View for ModuleNode {
    type V = ModuleNodeView;

    open spec fn view(&self) -> ModuleNodeView {
        match self {
            ModuleNode::Import(source) => ModuleNodeView::Import(source@),
            ModuleNode::ExportNamed(Some(source)) => ModuleNodeView::ExportNamed(Some(source@)),
            ModuleNode::ExportNamed(None) => ModuleNodeView::ExportNamed(None),
            ModuleNode::ExportAll(source) => ModuleNodeView::ExportAll(source@),
            ModuleNode::DynamicImport(import) => ModuleNodeView::DynamicImport(import@),
        }
    }
}

/// What the nodes say.
pub open spec fn nodes_view(nodes: Seq<ModuleNode>) -> Seq<ModuleNodeView> {
    nodes.map_values(|node: ModuleNode| node@)
}

impl View for ParsedModule {
    type V = ParsedModuleView;

    open spec fn view(&self) -> ParsedModuleView {
        ParsedModuleView { nodes: nodes_view(self.nodes@), is_script: self.is_script }
    }
}

/// `oxc::ast::ast::ImportDeclaration`: an import declaration in a syntax tree.
#[verifier::external_type_specification]
#[verifier::external_body]
pub struct ExImportDeclaration<'a>(ImportDeclaration<'a>);

/// `oxc::ast::ast::ExportNamedDeclaration`: an export with names or of a declaration in a syntax tree.
#[verifier::external_type_specification]
#[verifier::external_body]
pub struct ExExportNamedDeclaration<'a>(ExportNamedDeclaration<'a>);

/// `oxc::ast::ast::ExportAllDeclaration`: an export of everything another module exports in a syntax tree.
#[verifier::external_type_specification]
#[verifier::external_body]
pub struct ExExportAllDeclaration<'a>(ExportAllDeclaration<'a>);

/// `oxc::ast::ast::ImportExpression`: an `import(..)` expression in a syntax tree.
#[verifier::external_type_specification]
#[verifier::external_body]
pub struct ExImportExpression<'a>(ImportExpression<'a>);

/// The source of the `oxc` import declaration `node`.
pub uninterp spec fn imported_source(node: ImportDeclaration<'_>) -> StringLiteralView;

/// The source of the `oxc` named export `node`, if it has one.
pub uninterp spec fn named_export_source(node: ExportNamedDeclaration<'_>) -> Option<
    StringLiteralView,
>;

/// The source of the `oxc` export of everything `node`.
pub uninterp spec fn full_export_source(node: ExportAllDeclaration<'_>) -> StringLiteralView;

/// What the `oxc` import expression `node` is given to import, and where it stands.
pub uninterp spec fn expression_import(node: ImportExpression<'_>) -> DynamicImportView;

/// What the literal says, if there is one.
pub open spec fn literal_view(literal: Option<StringLiteral>) -> Option<StringLiteralView> {
    match literal {
        Some(literal) => Some(literal@),
        None => None,
    }
}

/// Reads the field `source` of an `oxc::ast::ast::ImportDeclaration`. Trusted: the value
/// and the span of the literal depend on the declaration alone.
#[verifier::external_body]
fn import_source(node: &ImportDeclaration<'_>) -> (source: StringLiteral)
    ensures
        source@ == imported_source(*node),
{
    let span = Span { start: node.source.span.start, end: node.source.span.end };
    StringLiteral { value: node.source.value.to_string(), span }
}

/// Reads the field `source` of an `oxc::ast::ast::ExportNamedDeclaration`. Trusted:
/// whether there is a literal, its value and its span depend on the declaration alone.
#[verifier::external_body]
fn export_named_source(node: &ExportNamedDeclaration<'_>) -> (source: Option<StringLiteral>)
    ensures
        literal_view(source) == named_export_source(*node),
{
    node.source.as_ref().map(
        |source| {
            let span = Span { start: source.span.start, end: source.span.end };
            StringLiteral { value: source.value.to_string(), span }
        },
    )
}

/// Reads the field `source` of an `oxc::ast::ast::ExportAllDeclaration`. Trusted: the
/// value and the span of the literal depend on the declaration alone.
#[verifier::external_body]
fn export_all_source(node: &ExportAllDeclaration<'_>) -> (source: StringLiteral)
    ensures
        source@ == full_export_source(*node),
{
    let span = Span { start: node.source.span.start, end: node.source.span.end };
    StringLiteral { value: node.source.value.to_string(), span }
}

/// Reads the fields `source` and `span` of an `oxc::ast::ast::ImportExpression`. Trusted:
/// what is imported, and where the expression stands, depend on the expression alone.
#[verifier::external_body]
fn dynamic_import(node: &ImportExpression<'_>) -> (import: DynamicImport)
    ensures
        import@ == expression_import(*node),
{
    let source = match &node.source {
        Expression::StringLiteral(it) => ImportSource::StringLiteral(StringLiteral {
            value: it.value.to_string(),
            span: Span { start: it.span.start, end: it.span.end },
        }),
        Expression::TemplateLiteral(it) => ImportSource::TemplateLiteral(TemplateLiteral {
            quasis: it.quasis.iter().map(|q| q.value.cooked.map(|c| c.into_string())).collect(),
            expressions: it.expressions.len(),
            span: Span { start: it.span.start, end: it.span.end },
        }),
        _ => ImportSource::Other,
    };
    DynamicImport { source, span: Span { start: node.span.start, end: node.span.end } }
}

/// Lists the nodes of interest that a walk over a syntax tree meets. The walk does
/// not go on into a node that is listed.
pub struct NodeRecorder {
    pub nodes: Vec<ModuleNode>,
}

impl<'a> Visit<'a> for NodeRecorder {
    fn visit_import_declaration(&mut self, node: &ImportDeclaration<'a>)
        ensures
            nodes_view(final(self).nodes@) == nodes_view(old(self).nodes@).push(
                ModuleNodeView::Import(imported_source(*node)),
            ),
    {
        self.nodes.push(ModuleNode::Import(import_source(node)));
    }

    fn visit_export_named_declaration(&mut self, node: &ExportNamedDeclaration<'a>)
        ensures
            nodes_view(final(self).nodes@) == nodes_view(old(self).nodes@).push(
                ModuleNodeView::ExportNamed(named_export_source(*node)),
            ),
    {
        self.nodes.push(ModuleNode::ExportNamed(export_named_source(node)));
    }

    fn visit_export_all_declaration(&mut self, node: &ExportAllDeclaration<'a>)
        ensures
            nodes_view(final(self).nodes@) == nodes_view(old(self).nodes@).push(
                ModuleNodeView::ExportAll(full_export_source(*node)),
            ),
    {
        self.nodes.push(ModuleNode::ExportAll(export_all_source(node)));
    }

    fn visit_import_expression(&mut self, node: &ImportExpression<'a>)
        ensures
            nodes_view(final(self).nodes@) == nodes_view(old(self).nodes@).push(
                ModuleNodeView::DynamicImport(expression_import(*node)),
            ),
    {
        self.nodes.push(ModuleNode::DynamicImport(dynamic_import(node)));
    }
}

/// What `oxc` finds in the text `source` when it parses it with the grammar `mode`
/// and then walks over the tree: the nodes that a `NodeRecorder` lists on the way, and
/// whether the text was taken as a script.
pub uninterp spec fn parsed_module(source: Seq<char>, mode: ParseMode) -> ParsedModuleView;

/// Calls `oxc::parser::Parser::parse` on `source`, then
/// `oxc::ast_visit::walk::walk_program` on the tree with a `NodeRecorder` as the
/// visitor. Trusted: what comes out depends on the text and the grammar alone; a text
/// that is parsed as a module is no script, and one that is parsed as a script is one.
#[verifier::external_body]
pub(crate) fn parse_module(source: &str, mode: ParseMode) -> (parsed: ParsedModule)
    ensures
        parsed@ == parsed_module(source@, mode),
        mode.goal == Goal::Module ==> !parsed.is_script,
        mode.goal == Goal::Script ==> parsed.is_script,
{
    let source_type = match mode.goal {
        Goal::Module => SourceType::default().with_module(true),
        Goal::Script => SourceType::default().with_module(false),
        Goal::Unambiguous => SourceType::default().with_unambiguous(true),
    };
    let source_type = source_type.with_typescript(mode.typescript).with_jsx(mode.jsx);
    let allocator = Allocator::default();
    let program = Parser::new(&allocator, source, source_type).parse().program;
    let mut recorder = NodeRecorder { nodes: Vec::new() };
    walk_program(&mut recorder, &program);
    ParsedModule { nodes: recorder.nodes, is_script: program.source_type.is_script() }
}

/// A literal is known by its value and its place.
pub proof fn law_string_literal_tells_all(literal: StringLiteral)
    ensures
        literal@.value == literal.value@,
        literal@.span == literal.span,
        literal_view(Some(literal)) == Some(literal@),
        literal_view(None) is None,
{
}

/// A template is known by its literal parts, one by one, by how many expressions stand
/// between them, and by its place.
pub proof fn law_template_literal_tells_all(template: TemplateLiteral, i: int)
    requires
        0 <= i < template.quasis@.len(),
    ensures
        template@.quasis.len() == template.quasis@.len(),
        template.quasis@[i] matches Some(cooked) ==> template@.quasis[i] == Some(cooked@),
        template.quasis@[i] is None ==> template@.quasis[i] is None,
        template@.expressions == template.expressions,
        template@.span == template.span,
{
}

/// What an `import(..)` expression is given is told by what kind of expression that is and
/// by the literal, if it is one.
pub proof fn law_dynamic_import_tells_all(import: DynamicImport)
    ensures
        import@.span == import.span,
        import.source matches ImportSource::StringLiteral(literal) ==> import@.source
            == ImportSourceView::StringLiteral(literal@),
        import.source matches ImportSource::TemplateLiteral(template) ==> import@.source
            == ImportSourceView::TemplateLiteral(template@),
        import.source is Other ==> import@.source is Other,
{
}

/// A node is known by which of the four it is and by what stands in it.
pub proof fn law_node_tells_all(node: ModuleNode)
    ensures
        node matches ModuleNode::Import(source) ==> node@ == ModuleNodeView::Import(source@),
        node matches ModuleNode::ExportAll(source) ==> node@ == ModuleNodeView::ExportAll(source@),
        node matches ModuleNode::DynamicImport(import) ==> node@ == ModuleNodeView::DynamicImport(
            import@,
        ),
        node matches ModuleNode::ExportNamed(Some(source)) ==> node@
            == ModuleNodeView::ExportNamed(Some(source@)),
        node == ModuleNode::ExportNamed(None) ==> node@ == ModuleNodeView::ExportNamed(None),
{
}

/// What the parser finds is known by its nodes, one by one, and by whether the text is a
/// script.
pub proof fn law_parsed_module_tells_all(parsed: ParsedModule, i: int)
    requires
        0 <= i < parsed.nodes@.len(),
    ensures
        parsed@.is_script == parsed.is_script,
        parsed@.nodes.len() == parsed.nodes@.len(),
        parsed@.nodes[i] == parsed.nodes@[i]@,
{
}

} // verus!
