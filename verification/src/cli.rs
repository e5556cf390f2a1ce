//! Command-line argument structures and the questions asked of every
//! command: which project and program it targets, which query options it
//! takes, and whether it needs the bridge.
use vstd::prelude::*;
use crate::query::planner::opt_view;

verus! {

/// The text of an optional string slice.
pub open spec fn str_opt(o: Option<&str>) -> Option<Seq<char>> {
    match o {
        Some(s) => Some(s@),
        None => None,
    }
}

/// `Option::as_deref` on an optional string.
pub fn as_deref(o: &Option<String>) -> (r: Option<&str>)
    ensures
        str_opt(r) == opt_view(*o),
{
    match o {
        Some(s) => Some(s.as_str()),
        None => None,
    }
}

/// A copy of an optional string.
pub fn copy_opt(o: &Option<String>) -> (r: Option<String>)
    ensures
        r == *o,
{
    match o {
        Some(s) => Some(s.clone()),
        None => None,
    }
}

/// What every command answers: the project and program it targets, its
/// query options, and whether it needs a live bridge.
pub trait CommandMeta {
    spec fn project_of(&self) -> Option<Seq<char>>;

    spec fn program_of(&self) -> Option<Seq<char>>;

    spec fn options_of(&self) -> Option<QueryOptions>;

    spec fn bridge_of(&self) -> bool;

    /// `--project` from the command's arguments, if it takes one.
    fn project(&self) -> (r: Option<&str>)
        ensures
            str_opt(r) == self.project_of(),
    ;

    /// `--program` from the command's arguments, if it takes one.
    fn program(&self) -> (r: Option<&str>)
        ensures
            str_opt(r) == self.program_of(),
    ;

    /// The command's query options, if it has them.
    fn query_options(&self) -> (r: Option<QueryOptions>)
        ensures
            r == self.options_of(),
    ;

    /// Whether the command needs a live bridge (commands that do not say
    /// so are run without one).
    fn requires_bridge(&self) -> (r: bool)
        ensures
            r == self.bridge_of(),
    ;
}

/// Common query options used across commands.
#[derive(Clone, Default, Debug)]
pub struct QueryOptions {
    pub program: Option<String>,
    pub project: Option<String>,
    /// Filter expression: `<field><op><value>`, combined with AND/OR/NOT.
    pub filter: Option<String>,
    /// Field selection (comma-separated; a leading `-` excludes).
    pub fields: Option<String>,
    /// Output format name.
    pub format: Option<String>,
    /// Maximum number of results (0 = unlimited).
    pub limit: Option<usize>,
    /// Skip the first N results.
    pub offset: Option<usize>,
    /// Sort keys (comma-separated, `-` prefix for descending).
    pub sort: Option<String>,
    /// Only return the count.
    pub count: bool,
    /// Output as JSON.
    pub json: bool,
}

impl QueryOptions {
    /// A field-by-field copy.
    pub fn copy(&self) -> (r: QueryOptions)
        ensures
            r == *self,
    {
        QueryOptions {
            program: copy_opt(&self.program),
            project: copy_opt(&self.project),
            filter: copy_opt(&self.filter),
            fields: copy_opt(&self.fields),
            format: copy_opt(&self.format),
            limit: self.limit,
            offset: self.offset,
            sort: copy_opt(&self.sort),
            count: self.count,
            json: self.json,
        }
    }
}

/// Query options that carry only an output format.
pub open spec fn format_only(format: Option<String>) -> QueryOptions {
    QueryOptions {
        program: None,
        project: None,
        filter: None,
        fields: None,
        format: format,
        limit: None,
        offset: None,
        sort: None,
        count: false,
        json: false,
    }
}

impl CommandMeta for QueryOptions {
    open spec fn project_of(&self) -> Option<Seq<char>> {
        opt_view(self.project)
    }

    open spec fn program_of(&self) -> Option<Seq<char>> {
        opt_view(self.program)
    }

    open spec fn options_of(&self) -> Option<QueryOptions> {
        Some(*self)
    }

    open spec fn bridge_of(&self) -> bool {
        false
    }

    fn project(&self) -> (r: Option<&str>) {
        as_deref(&self.project)
    }

    fn program(&self) -> (r: Option<&str>) {
        as_deref(&self.program)
    }

    fn query_options(&self) -> (r: Option<QueryOptions>) {
        Some(self.copy())
    }

    fn requires_bridge(&self) -> (r: bool) {
        false
    }
}

/// Target selector shared by commands that take a positional TARGET or a
/// `--target` flag (function/symbol name, or 0xADDRESS); the flag wins.
#[derive(Clone, Default, Debug)]
pub struct TargetArgs {
    /// Target (name | 0xaddr | FUN_<hex>), positional
    pub positional_target: Option<String>,
    /// Target given with `--target`
    pub target: Option<String>,
}

/// Project/program targeting for the bridge lifecycle commands; both
/// optional (global flags, environment and config defaults fill the gaps).
#[derive(Clone, Default, Debug)]
pub struct BridgeTargetArgs {
    /// Project path
    pub project: Option<String>,
    /// Program name to load
    pub program: Option<String>,
}

/// Arguments of the universal `query` command.
#[derive(Clone, Default, Debug)]
pub struct QueryArgs {
    /// Data type to query (functions, strings, imports, ...)
    pub data_type: String,
    /// Target program
    pub program: Option<String>,
    /// Project name
    pub project: Option<String>,
    /// Filter expression
    pub filter: Option<String>,
    /// Field selection (comma-separated)
    pub fields: Option<String>,
    /// Output format
    pub format: Option<String>,
    /// Maximum number of results (0 = unlimited)
    pub limit: Option<usize>,
    /// Skip first N results
    pub offset: Option<usize>,
    /// Sort keys (comma-separated, `-` for descending)
    pub sort: Option<String>,
    /// Only return count
    pub count: bool,
    /// Output as JSON
    pub json: bool,
}

impl CommandMeta for QueryArgs {
    open spec fn project_of(&self) -> Option<Seq<char>> {
        opt_view(self.project)
    }

    open spec fn program_of(&self) -> Option<Seq<char>> {
        opt_view(self.program)
    }

    open spec fn options_of(&self) -> Option<QueryOptions> {
        Some(query_args_options(*self))
    }

    open spec fn bridge_of(&self) -> bool {
        false
    }

    fn project(&self) -> (r: Option<&str>) {
        as_deref(&self.project)
    }

    fn program(&self) -> (r: Option<&str>) {
        as_deref(&self.program)
    }

    fn query_options(&self) -> (r: Option<QueryOptions>) {
        Some(self.to_options())
    }

    fn requires_bridge(&self) -> (r: bool) {
        false
    }
}

/// Arguments of the `project` command.
#[derive(Clone, Debug)]
pub struct ProjectArgs {
    /// The project subcommand
    pub command: ProjectCommands,
}

/// Program and project of a `program` subcommand.
#[derive(Clone, Debug)]
pub struct ProgramTargetArgs {
    pub program: Option<String>,
    pub project: Option<String>,
}

impl CommandMeta for ProgramTargetArgs {
    open spec fn project_of(&self) -> Option<Seq<char>> {
        opt_view(self.project)
    }

    open spec fn program_of(&self) -> Option<Seq<char>> {
        opt_view(self.program)
    }

    open spec fn options_of(&self) -> Option<QueryOptions> {
        None
    }

    open spec fn bridge_of(&self) -> bool {
        false
    }

    fn project(&self) -> (r: Option<&str>) {
        as_deref(&self.project)
    }

    fn program(&self) -> (r: Option<&str>) {
        as_deref(&self.program)
    }

    fn query_options(&self) -> (r: Option<QueryOptions>) {
        None
    }

    fn requires_bridge(&self) -> (r: bool) {
        false
    }
}

/// Arguments of `program export`.
#[derive(Clone, Debug)]
pub struct ExportArgs {
    /// Export format (xml, json, asm, c)
    pub format: String,
    pub program: Option<String>,
    pub project: Option<String>,
    /// Output file
    pub output: Option<String>,
}

impl CommandMeta for ExportArgs {
    open spec fn project_of(&self) -> Option<Seq<char>> {
        opt_view(self.project)
    }

    open spec fn program_of(&self) -> Option<Seq<char>> {
        opt_view(self.program)
    }

    open spec fn options_of(&self) -> Option<QueryOptions> {
        None
    }

    open spec fn bridge_of(&self) -> bool {
        false
    }

    fn project(&self) -> (r: Option<&str>) {
        as_deref(&self.project)
    }

    fn program(&self) -> (r: Option<&str>) {
        as_deref(&self.program)
    }

    fn query_options(&self) -> (r: Option<QueryOptions>) {
        None
    }

    fn requires_bridge(&self) -> (r: bool) {
        false
    }
}

/// Arguments of `function list`.
#[derive(Clone, Debug)]
pub struct FunctionListArgs {
    /// Only functions with these tags
    pub tags: Vec<String>,
    /// Only functions without tags
    pub untagged: bool,
    pub options: QueryOptions,
}

impl CommandMeta for FunctionListArgs {
    open spec fn project_of(&self) -> Option<Seq<char>> {
        opt_view(self.options.project)
    }

    open spec fn program_of(&self) -> Option<Seq<char>> {
        opt_view(self.options.program)
    }

    open spec fn options_of(&self) -> Option<QueryOptions> {
        Some(self.options)
    }

    open spec fn bridge_of(&self) -> bool {
        false
    }

    fn project(&self) -> (r: Option<&str>) {
        as_deref(&self.options.project)
    }

    fn program(&self) -> (r: Option<&str>) {
        as_deref(&self.options.program)
    }

    fn query_options(&self) -> (r: Option<QueryOptions>) {
        Some(self.options.copy())
    }

    fn requires_bridge(&self) -> (r: bool) {
        false
    }
}

/// A function target with query options.
#[derive(Clone, Debug)]
pub struct FunctionGetArgs {
    pub target: TargetArgs,
    pub options: QueryOptions,
}

impl CommandMeta for FunctionGetArgs {
    open spec fn project_of(&self) -> Option<Seq<char>> {
        opt_view(self.options.project)
    }

    open spec fn program_of(&self) -> Option<Seq<char>> {
        opt_view(self.options.program)
    }

    open spec fn options_of(&self) -> Option<QueryOptions> {
        Some(self.options)
    }

    open spec fn bridge_of(&self) -> bool {
        false
    }

    fn project(&self) -> (r: Option<&str>) {
        as_deref(&self.options.project)
    }

    fn program(&self) -> (r: Option<&str>) {
        as_deref(&self.options.program)
    }

    fn query_options(&self) -> (r: Option<QueryOptions>) {
        Some(self.options.copy())
    }

    fn requires_bridge(&self) -> (r: bool) {
        false
    }
}

/// Arguments of a rename.
#[derive(Clone, Debug)]
pub struct RenameArgs {
    pub old_name: String,
    pub new_name: String,
    pub program: Option<String>,
    pub project: Option<String>,
}

impl CommandMeta for RenameArgs {
    open spec fn project_of(&self) -> Option<Seq<char>> {
        opt_view(self.project)
    }

    open spec fn program_of(&self) -> Option<Seq<char>> {
        opt_view(self.program)
    }

    open spec fn options_of(&self) -> Option<QueryOptions> {
        None
    }

    open spec fn bridge_of(&self) -> bool {
        false
    }

    fn project(&self) -> (r: Option<&str>) {
        as_deref(&self.project)
    }

    fn program(&self) -> (r: Option<&str>) {
        as_deref(&self.program)
    }

    fn query_options(&self) -> (r: Option<QueryOptions>) {
        None
    }

    fn requires_bridge(&self) -> (r: bool) {
        false
    }
}

/// Arguments of `function create`.
#[derive(Clone, Debug)]
pub struct CreateFunctionArgs {
    pub address: String,
    pub name: Option<String>,
    pub program: Option<String>,
    pub project: Option<String>,
}

impl CommandMeta for CreateFunctionArgs {
    open spec fn project_of(&self) -> Option<Seq<char>> {
        opt_view(self.project)
    }

    open spec fn program_of(&self) -> Option<Seq<char>> {
        opt_view(self.program)
    }

    open spec fn options_of(&self) -> Option<QueryOptions> {
        None
    }

    open spec fn bridge_of(&self) -> bool {
        false
    }

    fn project(&self) -> (r: Option<&str>) {
        as_deref(&self.project)
    }

    fn program(&self) -> (r: Option<&str>) {
        as_deref(&self.program)
    }

    fn query_options(&self) -> (r: Option<QueryOptions>) {
        None
    }

    fn requires_bridge(&self) -> (r: bool) {
        false
    }
}

/// Arguments of `function decompile`.
#[derive(Clone, Debug)]
pub struct FunctionDecompileArgs {
    pub target: TargetArgs,
    /// Include local variables
    pub with_vars: bool,
    /// Include parameters
    pub with_params: bool,
    pub options: QueryOptions,
}

impl CommandMeta for FunctionDecompileArgs {
    open spec fn project_of(&self) -> Option<Seq<char>> {
        opt_view(self.options.project)
    }

    open spec fn program_of(&self) -> Option<Seq<char>> {
        opt_view(self.options.program)
    }

    open spec fn options_of(&self) -> Option<QueryOptions> {
        Some(self.options)
    }

    open spec fn bridge_of(&self) -> bool {
        false
    }

    fn project(&self) -> (r: Option<&str>) {
        as_deref(&self.options.project)
    }

    fn program(&self) -> (r: Option<&str>) {
        as_deref(&self.options.program)
    }

    fn query_options(&self) -> (r: Option<QueryOptions>) {
        Some(self.options.copy())
    }

    fn requires_bridge(&self) -> (r: bool) {
        false
    }
}

/// Arguments of `function set-signature`.
#[derive(Clone, Debug)]
pub struct SetSignatureArgs {
    pub target: TargetArgs,
    pub signature: String,
    pub program: Option<String>,
    pub project: Option<String>,
}

impl CommandMeta for SetSignatureArgs {
    open spec fn project_of(&self) -> Option<Seq<char>> {
        opt_view(self.project)
    }

    open spec fn program_of(&self) -> Option<Seq<char>> {
        opt_view(self.program)
    }

    open spec fn options_of(&self) -> Option<QueryOptions> {
        None
    }

    open spec fn bridge_of(&self) -> bool {
        false
    }

    fn project(&self) -> (r: Option<&str>) {
        as_deref(&self.project)
    }

    fn program(&self) -> (r: Option<&str>) {
        as_deref(&self.program)
    }

    fn query_options(&self) -> (r: Option<QueryOptions>) {
        None
    }

    fn requires_bridge(&self) -> (r: bool) {
        false
    }
}

/// Arguments of `function set-return-type`.
#[derive(Clone, Debug)]
pub struct SetReturnTypeArgs {
    pub target: TargetArgs,
    pub return_type: String,
    pub program: Option<String>,
    pub project: Option<String>,
}

impl CommandMeta for SetReturnTypeArgs {
    open spec fn project_of(&self) -> Option<Seq<char>> {
        opt_view(self.project)
    }

    open spec fn program_of(&self) -> Option<Seq<char>> {
        opt_view(self.program)
    }

    open spec fn options_of(&self) -> Option<QueryOptions> {
        None
    }

    open spec fn bridge_of(&self) -> bool {
        false
    }

    fn project(&self) -> (r: Option<&str>) {
        as_deref(&self.project)
    }

    fn program(&self) -> (r: Option<&str>) {
        as_deref(&self.program)
    }

    fn query_options(&self) -> (r: Option<QueryOptions>) {
        None
    }

    fn requires_bridge(&self) -> (r: bool) {
        false
    }
}

/// Arguments of `function set-calling-convention`.
#[derive(Clone, Debug)]
pub struct SetCallingConventionArgs {
    pub target: TargetArgs,
    pub convention: String,
    pub program: Option<String>,
    pub project: Option<String>,
}

impl CommandMeta for SetCallingConventionArgs {
    open spec fn project_of(&self) -> Option<Seq<char>> {
        opt_view(self.project)
    }

    open spec fn program_of(&self) -> Option<Seq<char>> {
        opt_view(self.program)
    }

    open spec fn options_of(&self) -> Option<QueryOptions> {
        None
    }

    open spec fn bridge_of(&self) -> bool {
        false
    }

    fn project(&self) -> (r: Option<&str>) {
        as_deref(&self.project)
    }

    fn program(&self) -> (r: Option<&str>) {
        as_deref(&self.program)
    }

    fn query_options(&self) -> (r: Option<QueryOptions>) {
        None
    }

    fn requires_bridge(&self) -> (r: bool) {
        false
    }
}

/// Arguments of `function set-var-type`.
#[derive(Clone, Debug)]
pub struct SetVarTypeArgs {
    pub target: TargetArgs,
    pub var_name: String,
    /// The type name
    pub ty_name: String,
    pub program: Option<String>,
    pub project: Option<String>,
}

impl CommandMeta for SetVarTypeArgs {
    open spec fn project_of(&self) -> Option<Seq<char>> {
        opt_view(self.project)
    }

    open spec fn program_of(&self) -> Option<Seq<char>> {
        opt_view(self.program)
    }

    open spec fn options_of(&self) -> Option<QueryOptions> {
        None
    }

    open spec fn bridge_of(&self) -> bool {
        false
    }

    fn project(&self) -> (r: Option<&str>) {
        as_deref(&self.project)
    }

    fn program(&self) -> (r: Option<&str>) {
        as_deref(&self.program)
    }

    fn query_options(&self) -> (r: Option<QueryOptions>) {
        None
    }

    fn requires_bridge(&self) -> (r: bool) {
        false
    }
}

/// Arguments of `strings refs`.
#[derive(Clone, Debug)]
pub struct StringRefsArgs {
    pub string: String,
    pub options: QueryOptions,
}

impl CommandMeta for StringRefsArgs {
    open spec fn project_of(&self) -> Option<Seq<char>> {
        opt_view(self.options.project)
    }

    open spec fn program_of(&self) -> Option<Seq<char>> {
        opt_view(self.options.program)
    }

    open spec fn options_of(&self) -> Option<QueryOptions> {
        Some(self.options)
    }

    open spec fn bridge_of(&self) -> bool {
        false
    }

    fn project(&self) -> (r: Option<&str>) {
        as_deref(&self.options.project)
    }

    fn program(&self) -> (r: Option<&str>) {
        as_deref(&self.options.program)
    }

    fn query_options(&self) -> (r: Option<QueryOptions>) {
        Some(self.options.copy())
    }

    fn requires_bridge(&self) -> (r: bool) {
        false
    }
}

/// Arguments of `symbol get`/`delete`.
#[derive(Clone, Debug)]
pub struct SymbolGetArgs {
    pub name: String,
    pub options: QueryOptions,
}

impl CommandMeta for SymbolGetArgs {
    open spec fn project_of(&self) -> Option<Seq<char>> {
        opt_view(self.options.project)
    }

    open spec fn program_of(&self) -> Option<Seq<char>> {
        opt_view(self.options.program)
    }

    open spec fn options_of(&self) -> Option<QueryOptions> {
        Some(self.options)
    }

    open spec fn bridge_of(&self) -> bool {
        false
    }

    fn project(&self) -> (r: Option<&str>) {
        as_deref(&self.options.project)
    }

    fn program(&self) -> (r: Option<&str>) {
        as_deref(&self.options.program)
    }

    fn query_options(&self) -> (r: Option<QueryOptions>) {
        Some(self.options.copy())
    }

    fn requires_bridge(&self) -> (r: bool) {
        false
    }
}

/// Arguments of `symbol create`.
#[derive(Clone, Debug)]
pub struct CreateSymbolArgs {
    pub address: String,
    pub name: String,
    pub program: Option<String>,
    pub project: Option<String>,
}

impl CommandMeta for CreateSymbolArgs {
    open spec fn project_of(&self) -> Option<Seq<char>> {
        opt_view(self.project)
    }

    open spec fn program_of(&self) -> Option<Seq<char>> {
        opt_view(self.program)
    }

    open spec fn options_of(&self) -> Option<QueryOptions> {
        None
    }

    open spec fn bridge_of(&self) -> bool {
        false
    }

    fn project(&self) -> (r: Option<&str>) {
        as_deref(&self.project)
    }

    fn program(&self) -> (r: Option<&str>) {
        as_deref(&self.program)
    }

    fn query_options(&self) -> (r: Option<QueryOptions>) {
        None
    }

    fn requires_bridge(&self) -> (r: bool) {
        false
    }
}

/// Arguments of `memory read`.
#[derive(Clone, Debug)]
pub struct MemReadArgs {
    pub address: String,
    pub size: usize,
    pub options: QueryOptions,
}

impl CommandMeta for MemReadArgs {
    open spec fn project_of(&self) -> Option<Seq<char>> {
        opt_view(self.options.project)
    }

    open spec fn program_of(&self) -> Option<Seq<char>> {
        opt_view(self.options.program)
    }

    open spec fn options_of(&self) -> Option<QueryOptions> {
        Some(self.options)
    }

    open spec fn bridge_of(&self) -> bool {
        false
    }

    fn project(&self) -> (r: Option<&str>) {
        as_deref(&self.options.project)
    }

    fn program(&self) -> (r: Option<&str>) {
        as_deref(&self.options.program)
    }

    fn query_options(&self) -> (r: Option<QueryOptions>) {
        Some(self.options.copy())
    }

    fn requires_bridge(&self) -> (r: bool) {
        false
    }
}

/// Arguments of `memory write`.
#[derive(Clone, Debug)]
pub struct MemWriteArgs {
    pub address: String,
    pub bytes: String,
    pub program: Option<String>,
    pub project: Option<String>,
}

impl CommandMeta for MemWriteArgs {
    open spec fn project_of(&self) -> Option<Seq<char>> {
        opt_view(self.project)
    }

    open spec fn program_of(&self) -> Option<Seq<char>> {
        opt_view(self.program)
    }

    open spec fn options_of(&self) -> Option<QueryOptions> {
        None
    }

    open spec fn bridge_of(&self) -> bool {
        false
    }

    fn project(&self) -> (r: Option<&str>) {
        as_deref(&self.project)
    }

    fn program(&self) -> (r: Option<&str>) {
        as_deref(&self.program)
    }

    fn query_options(&self) -> (r: Option<QueryOptions>) {
        None
    }

    fn requires_bridge(&self) -> (r: bool) {
        false
    }
}

/// Arguments of `memory search`.
#[derive(Clone, Debug)]
pub struct MemSearchArgs {
    pub pattern: String,
    pub options: QueryOptions,
}

impl CommandMeta for MemSearchArgs {
    open spec fn project_of(&self) -> Option<Seq<char>> {
        opt_view(self.options.project)
    }

    open spec fn program_of(&self) -> Option<Seq<char>> {
        opt_view(self.options.program)
    }

    open spec fn options_of(&self) -> Option<QueryOptions> {
        Some(self.options)
    }

    open spec fn bridge_of(&self) -> bool {
        false
    }

    fn project(&self) -> (r: Option<&str>) {
        as_deref(&self.options.project)
    }

    fn program(&self) -> (r: Option<&str>) {
        as_deref(&self.options.program)
    }

    fn query_options(&self) -> (r: Option<QueryOptions>) {
        Some(self.options.copy())
    }

    fn requires_bridge(&self) -> (r: bool) {
        false
    }
}

/// Arguments of the cross-reference commands.
#[derive(Clone, Debug)]
pub struct XRefArgs {
    pub target: TargetArgs,
    pub options: QueryOptions,
}

impl CommandMeta for XRefArgs {
    open spec fn project_of(&self) -> Option<Seq<char>> {
        opt_view(self.options.project)
    }

    open spec fn program_of(&self) -> Option<Seq<char>> {
        opt_view(self.options.program)
    }

    open spec fn options_of(&self) -> Option<QueryOptions> {
        Some(self.options)
    }

    open spec fn bridge_of(&self) -> bool {
        false
    }

    fn project(&self) -> (r: Option<&str>) {
        as_deref(&self.options.project)
    }

    fn program(&self) -> (r: Option<&str>) {
        as_deref(&self.options.program)
    }

    fn query_options(&self) -> (r: Option<QueryOptions>) {
        Some(self.options.copy())
    }

    fn requires_bridge(&self) -> (r: bool) {
        false
    }
}

/// Arguments of `type get`.
#[derive(Clone, Debug)]
pub struct TypeGetArgs {
    pub name: String,
    pub options: QueryOptions,
}

impl CommandMeta for TypeGetArgs {
    open spec fn project_of(&self) -> Option<Seq<char>> {
        opt_view(self.options.project)
    }

    open spec fn program_of(&self) -> Option<Seq<char>> {
        opt_view(self.options.program)
    }

    open spec fn options_of(&self) -> Option<QueryOptions> {
        Some(self.options)
    }

    open spec fn bridge_of(&self) -> bool {
        false
    }

    fn project(&self) -> (r: Option<&str>) {
        as_deref(&self.options.project)
    }

    fn program(&self) -> (r: Option<&str>) {
        as_deref(&self.options.program)
    }

    fn query_options(&self) -> (r: Option<QueryOptions>) {
        Some(self.options.copy())
    }

    fn requires_bridge(&self) -> (r: bool) {
        false
    }
}

/// Arguments of `type create`.
#[derive(Clone, Debug)]
pub struct CreateTypeArgs {
    pub definition: String,
    pub program: Option<String>,
    pub project: Option<String>,
}

impl CommandMeta for CreateTypeArgs {
    open spec fn project_of(&self) -> Option<Seq<char>> {
        opt_view(self.project)
    }

    open spec fn program_of(&self) -> Option<Seq<char>> {
        opt_view(self.program)
    }

    open spec fn options_of(&self) -> Option<QueryOptions> {
        None
    }

    open spec fn bridge_of(&self) -> bool {
        false
    }

    fn project(&self) -> (r: Option<&str>) {
        as_deref(&self.project)
    }

    fn program(&self) -> (r: Option<&str>) {
        as_deref(&self.program)
    }

    fn query_options(&self) -> (r: Option<QueryOptions>) {
        None
    }

    fn requires_bridge(&self) -> (r: bool) {
        false
    }
}

/// Arguments of `type apply`.
#[derive(Clone, Debug)]
pub struct ApplyTypeArgs {
    pub address: String,
    /// The type name
    pub ty_name: String,
    pub program: Option<String>,
    pub project: Option<String>,
}

impl CommandMeta for ApplyTypeArgs {
    open spec fn project_of(&self) -> Option<Seq<char>> {
        opt_view(self.project)
    }

    open spec fn program_of(&self) -> Option<Seq<char>> {
        opt_view(self.program)
    }

    open spec fn options_of(&self) -> Option<QueryOptions> {
        None
    }

    open spec fn bridge_of(&self) -> bool {
        false
    }

    fn project(&self) -> (r: Option<&str>) {
        as_deref(&self.project)
    }

    fn program(&self) -> (r: Option<&str>) {
        as_deref(&self.program)
    }

    fn query_options(&self) -> (r: Option<QueryOptions>) {
        None
    }

    fn requires_bridge(&self) -> (r: bool) {
        false
    }
}

/// Arguments of `type delete`.
#[derive(Clone, Debug)]
pub struct TypeDeleteArgs {
    pub name: String,
    pub program: Option<String>,
    pub project: Option<String>,
}

impl CommandMeta for TypeDeleteArgs {
    open spec fn project_of(&self) -> Option<Seq<char>> {
        opt_view(self.project)
    }

    open spec fn program_of(&self) -> Option<Seq<char>> {
        opt_view(self.program)
    }

    open spec fn options_of(&self) -> Option<QueryOptions> {
        None
    }

    open spec fn bridge_of(&self) -> bool {
        false
    }

    fn project(&self) -> (r: Option<&str>) {
        as_deref(&self.project)
    }

    fn program(&self) -> (r: Option<&str>) {
        as_deref(&self.program)
    }

    fn query_options(&self) -> (r: Option<QueryOptions>) {
        None
    }

    fn requires_bridge(&self) -> (r: bool) {
        false
    }
}

/// Arguments of `type rename`.
#[derive(Clone, Debug)]
pub struct TypeRenameArgs {
    pub old_name: String,
    pub new_name: String,
    pub program: Option<String>,
    pub project: Option<String>,
}

impl CommandMeta for TypeRenameArgs {
    open spec fn project_of(&self) -> Option<Seq<char>> {
        opt_view(self.project)
    }

    open spec fn program_of(&self) -> Option<Seq<char>> {
        opt_view(self.program)
    }

    open spec fn options_of(&self) -> Option<QueryOptions> {
        None
    }

    open spec fn bridge_of(&self) -> bool {
        false
    }

    fn project(&self) -> (r: Option<&str>) {
        as_deref(&self.project)
    }

    fn program(&self) -> (r: Option<&str>) {
        as_deref(&self.program)
    }

    fn query_options(&self) -> (r: Option<QueryOptions>) {
        None
    }

    fn requires_bridge(&self) -> (r: bool) {
        false
    }
}

/// Arguments of `type create-enum`.
#[derive(Clone, Debug)]
pub struct CreateEnumArgs {
    pub name: String,
    /// Comma-separated NAME=VALUE pairs
    pub values: String,
    /// Size in bytes (default 4)
    pub size: i32,
    pub program: Option<String>,
    pub project: Option<String>,
}

impl CommandMeta for CreateEnumArgs {
    open spec fn project_of(&self) -> Option<Seq<char>> {
        opt_view(self.project)
    }

    open spec fn program_of(&self) -> Option<Seq<char>> {
        opt_view(self.program)
    }

    open spec fn options_of(&self) -> Option<QueryOptions> {
        None
    }

    open spec fn bridge_of(&self) -> bool {
        false
    }

    fn project(&self) -> (r: Option<&str>) {
        as_deref(&self.project)
    }

    fn program(&self) -> (r: Option<&str>) {
        as_deref(&self.program)
    }

    fn query_options(&self) -> (r: Option<QueryOptions>) {
        None
    }

    fn requires_bridge(&self) -> (r: bool) {
        false
    }
}

/// Arguments of `type typedef`.
#[derive(Clone, Debug)]
pub struct TypedefArgs {
    pub name: String,
    pub base_type: String,
    pub program: Option<String>,
    pub project: Option<String>,
}

impl CommandMeta for TypedefArgs {
    open spec fn project_of(&self) -> Option<Seq<char>> {
        opt_view(self.project)
    }

    open spec fn program_of(&self) -> Option<Seq<char>> {
        opt_view(self.program)
    }

    open spec fn options_of(&self) -> Option<QueryOptions> {
        None
    }

    open spec fn bridge_of(&self) -> bool {
        false
    }

    fn project(&self) -> (r: Option<&str>) {
        as_deref(&self.project)
    }

    fn program(&self) -> (r: Option<&str>) {
        as_deref(&self.program)
    }

    fn query_options(&self) -> (r: Option<QueryOptions>) {
        None
    }

    fn requires_bridge(&self) -> (r: bool) {
        false
    }
}

/// Arguments of `type add-field`.
#[derive(Clone, Debug)]
pub struct TypeAddFieldArgs {
    /// The type name
    pub ty_name: String,
    pub name: String,
    pub field_type: String,
    pub offset: Option<i32>,
    pub size: Option<i32>,
    pub program: Option<String>,
    pub project: Option<String>,
}

impl CommandMeta for TypeAddFieldArgs {
    open spec fn project_of(&self) -> Option<Seq<char>> {
        opt_view(self.project)
    }

    open spec fn program_of(&self) -> Option<Seq<char>> {
        opt_view(self.program)
    }

    open spec fn options_of(&self) -> Option<QueryOptions> {
        None
    }

    open spec fn bridge_of(&self) -> bool {
        false
    }

    fn project(&self) -> (r: Option<&str>) {
        as_deref(&self.project)
    }

    fn program(&self) -> (r: Option<&str>) {
        as_deref(&self.program)
    }

    fn query_options(&self) -> (r: Option<QueryOptions>) {
        None
    }

    fn requires_bridge(&self) -> (r: bool) {
        false
    }
}

/// Arguments of `type del-field`.
#[derive(Clone, Debug)]
pub struct TypeDelFieldArgs {
    /// The type name
    pub ty_name: String,
    pub name: String,
    pub program: Option<String>,
    pub project: Option<String>,
}

impl CommandMeta for TypeDelFieldArgs {
    open spec fn project_of(&self) -> Option<Seq<char>> {
        opt_view(self.project)
    }

    open spec fn program_of(&self) -> Option<Seq<char>> {
        opt_view(self.program)
    }

    open spec fn options_of(&self) -> Option<QueryOptions> {
        None
    }

    open spec fn bridge_of(&self) -> bool {
        false
    }

    fn project(&self) -> (r: Option<&str>) {
        as_deref(&self.project)
    }

    fn program(&self) -> (r: Option<&str>) {
        as_deref(&self.program)
    }

    fn query_options(&self) -> (r: Option<QueryOptions>) {
        None
    }

    fn requires_bridge(&self) -> (r: bool) {
        false
    }
}

/// Arguments of `tag list`.
#[derive(Clone, Debug)]
pub struct TagListArgs {
    /// Only the tags of this function
    pub function: Option<String>,
    pub options: QueryOptions,
}

impl CommandMeta for TagListArgs {
    open spec fn project_of(&self) -> Option<Seq<char>> {
        opt_view(self.options.project)
    }

    open spec fn program_of(&self) -> Option<Seq<char>> {
        opt_view(self.options.program)
    }

    open spec fn options_of(&self) -> Option<QueryOptions> {
        Some(self.options)
    }

    open spec fn bridge_of(&self) -> bool {
        false
    }

    fn project(&self) -> (r: Option<&str>) {
        as_deref(&self.options.project)
    }

    fn program(&self) -> (r: Option<&str>) {
        as_deref(&self.options.program)
    }

    fn query_options(&self) -> (r: Option<QueryOptions>) {
        Some(self.options.copy())
    }

    fn requires_bridge(&self) -> (r: bool) {
        false
    }
}

/// Arguments of `tag get`.
#[derive(Clone, Debug)]
pub struct TagGetArgs {
    pub name: String,
    pub options: QueryOptions,
}

impl CommandMeta for TagGetArgs {
    open spec fn project_of(&self) -> Option<Seq<char>> {
        opt_view(self.options.project)
    }

    open spec fn program_of(&self) -> Option<Seq<char>> {
        opt_view(self.options.program)
    }

    open spec fn options_of(&self) -> Option<QueryOptions> {
        Some(self.options)
    }

    open spec fn bridge_of(&self) -> bool {
        false
    }

    fn project(&self) -> (r: Option<&str>) {
        as_deref(&self.options.project)
    }

    fn program(&self) -> (r: Option<&str>) {
        as_deref(&self.options.program)
    }

    fn query_options(&self) -> (r: Option<QueryOptions>) {
        Some(self.options.copy())
    }

    fn requires_bridge(&self) -> (r: bool) {
        false
    }
}

/// Arguments of `tag create`.
#[derive(Clone, Debug)]
pub struct TagCreateArgs {
    pub name: String,
    pub comment: Option<String>,
    pub program: Option<String>,
    pub project: Option<String>,
}

impl CommandMeta for TagCreateArgs {
    open spec fn project_of(&self) -> Option<Seq<char>> {
        opt_view(self.project)
    }

    open spec fn program_of(&self) -> Option<Seq<char>> {
        opt_view(self.program)
    }

    open spec fn options_of(&self) -> Option<QueryOptions> {
        None
    }

    open spec fn bridge_of(&self) -> bool {
        false
    }

    fn project(&self) -> (r: Option<&str>) {
        as_deref(&self.project)
    }

    fn program(&self) -> (r: Option<&str>) {
        as_deref(&self.program)
    }

    fn query_options(&self) -> (r: Option<QueryOptions>) {
        None
    }

    fn requires_bridge(&self) -> (r: bool) {
        false
    }
}

/// Arguments of `tag delete`.
#[derive(Clone, Debug)]
pub struct TagDeleteArgs {
    pub name: String,
    pub program: Option<String>,
    pub project: Option<String>,
}

impl CommandMeta for TagDeleteArgs {
    open spec fn project_of(&self) -> Option<Seq<char>> {
        opt_view(self.project)
    }

    open spec fn program_of(&self) -> Option<Seq<char>> {
        opt_view(self.program)
    }

    open spec fn options_of(&self) -> Option<QueryOptions> {
        None
    }

    open spec fn bridge_of(&self) -> bool {
        false
    }

    fn project(&self) -> (r: Option<&str>) {
        as_deref(&self.project)
    }

    fn program(&self) -> (r: Option<&str>) {
        as_deref(&self.program)
    }

    fn query_options(&self) -> (r: Option<QueryOptions>) {
        None
    }

    fn requires_bridge(&self) -> (r: bool) {
        false
    }
}

/// Arguments of `tag rename`.
#[derive(Clone, Debug)]
pub struct TagRenameArgs {
    pub old_name: String,
    pub new_name: String,
    pub program: Option<String>,
    pub project: Option<String>,
}

impl CommandMeta for TagRenameArgs {
    open spec fn project_of(&self) -> Option<Seq<char>> {
        opt_view(self.project)
    }

    open spec fn program_of(&self) -> Option<Seq<char>> {
        opt_view(self.program)
    }

    open spec fn options_of(&self) -> Option<QueryOptions> {
        None
    }

    open spec fn bridge_of(&self) -> bool {
        false
    }

    fn project(&self) -> (r: Option<&str>) {
        as_deref(&self.project)
    }

    fn program(&self) -> (r: Option<&str>) {
        as_deref(&self.program)
    }

    fn query_options(&self) -> (r: Option<QueryOptions>) {
        None
    }

    fn requires_bridge(&self) -> (r: bool) {
        false
    }
}

/// Arguments of `tag set-comment`.
#[derive(Clone, Debug)]
pub struct TagSetCommentArgs {
    pub name: String,
    pub comment: String,
    pub program: Option<String>,
    pub project: Option<String>,
}

impl CommandMeta for TagSetCommentArgs {
    open spec fn project_of(&self) -> Option<Seq<char>> {
        opt_view(self.project)
    }

    open spec fn program_of(&self) -> Option<Seq<char>> {
        opt_view(self.program)
    }

    open spec fn options_of(&self) -> Option<QueryOptions> {
        None
    }

    open spec fn bridge_of(&self) -> bool {
        false
    }

    fn project(&self) -> (r: Option<&str>) {
        as_deref(&self.project)
    }

    fn program(&self) -> (r: Option<&str>) {
        as_deref(&self.program)
    }

    fn query_options(&self) -> (r: Option<QueryOptions>) {
        None
    }

    fn requires_bridge(&self) -> (r: bool) {
        false
    }
}

/// Arguments of `tag add`.
#[derive(Clone, Debug)]
pub struct TagAttachArgs {
    pub target: String,
    /// At least one tag
    pub tags: Vec<String>,
    /// Do not create missing tags
    pub no_create: bool,
    pub program: Option<String>,
    pub project: Option<String>,
}

impl CommandMeta for TagAttachArgs {
    open spec fn project_of(&self) -> Option<Seq<char>> {
        opt_view(self.project)
    }

    open spec fn program_of(&self) -> Option<Seq<char>> {
        opt_view(self.program)
    }

    open spec fn options_of(&self) -> Option<QueryOptions> {
        None
    }

    open spec fn bridge_of(&self) -> bool {
        false
    }

    fn project(&self) -> (r: Option<&str>) {
        as_deref(&self.project)
    }

    fn program(&self) -> (r: Option<&str>) {
        as_deref(&self.program)
    }

    fn query_options(&self) -> (r: Option<QueryOptions>) {
        None
    }

    fn requires_bridge(&self) -> (r: bool) {
        false
    }
}

/// Arguments of `tag remove`.
#[derive(Clone, Debug)]
pub struct TagDetachArgs {
    pub target: String,
    pub tags: Vec<String>,
    /// Remove every tag
    pub all: bool,
    pub program: Option<String>,
    pub project: Option<String>,
}

impl CommandMeta for TagDetachArgs {
    open spec fn project_of(&self) -> Option<Seq<char>> {
        opt_view(self.project)
    }

    open spec fn program_of(&self) -> Option<Seq<char>> {
        opt_view(self.program)
    }

    open spec fn options_of(&self) -> Option<QueryOptions> {
        None
    }

    open spec fn bridge_of(&self) -> bool {
        false
    }

    fn project(&self) -> (r: Option<&str>) {
        as_deref(&self.project)
    }

    fn program(&self) -> (r: Option<&str>) {
        as_deref(&self.program)
    }

    fn query_options(&self) -> (r: Option<QueryOptions>) {
        None
    }

    fn requires_bridge(&self) -> (r: bool) {
        false
    }
}

/// Arguments of `comment get`/`delete`.
#[derive(Clone, Debug)]
pub struct CommentGetArgs {
    pub address: String,
    pub options: QueryOptions,
}

impl CommandMeta for CommentGetArgs {
    open spec fn project_of(&self) -> Option<Seq<char>> {
        opt_view(self.options.project)
    }

    open spec fn program_of(&self) -> Option<Seq<char>> {
        opt_view(self.options.program)
    }

    open spec fn options_of(&self) -> Option<QueryOptions> {
        Some(self.options)
    }

    open spec fn bridge_of(&self) -> bool {
        false
    }

    fn project(&self) -> (r: Option<&str>) {
        as_deref(&self.options.project)
    }

    fn program(&self) -> (r: Option<&str>) {
        as_deref(&self.options.program)
    }

    fn query_options(&self) -> (r: Option<QueryOptions>) {
        Some(self.options.copy())
    }

    fn requires_bridge(&self) -> (r: bool) {
        false
    }
}

/// Arguments of `comment set`.
#[derive(Clone, Debug)]
pub struct CommentSetArgs {
    pub address: String,
    pub text: String,
    pub comment_type: Option<String>,
    pub program: Option<String>,
    pub project: Option<String>,
}

impl CommandMeta for CommentSetArgs {
    open spec fn project_of(&self) -> Option<Seq<char>> {
        opt_view(self.project)
    }

    open spec fn program_of(&self) -> Option<Seq<char>> {
        opt_view(self.program)
    }

    open spec fn options_of(&self) -> Option<QueryOptions> {
        None
    }

    open spec fn bridge_of(&self) -> bool {
        false
    }

    fn project(&self) -> (r: Option<&str>) {
        as_deref(&self.project)
    }

    fn program(&self) -> (r: Option<&str>) {
        as_deref(&self.program)
    }

    fn query_options(&self) -> (r: Option<QueryOptions>) {
        None
    }

    fn requires_bridge(&self) -> (r: bool) {
        false
    }
}

/// Arguments of `find instruction`.
#[derive(Clone, Debug)]
pub struct FindInstructionArgs {
    pub pattern: String,
    pub start: Option<String>,
    pub end: Option<String>,
    pub case_sensitive: bool,
    pub options: QueryOptions,
}

impl CommandMeta for FindInstructionArgs {
    open spec fn project_of(&self) -> Option<Seq<char>> {
        opt_view(self.options.project)
    }

    open spec fn program_of(&self) -> Option<Seq<char>> {
        opt_view(self.options.program)
    }

    open spec fn options_of(&self) -> Option<QueryOptions> {
        Some(self.options)
    }

    open spec fn bridge_of(&self) -> bool {
        false
    }

    fn project(&self) -> (r: Option<&str>) {
        as_deref(&self.options.project)
    }

    fn program(&self) -> (r: Option<&str>) {
        as_deref(&self.options.program)
    }

    fn query_options(&self) -> (r: Option<QueryOptions>) {
        Some(self.options.copy())
    }

    fn requires_bridge(&self) -> (r: bool) {
        false
    }
}

/// Arguments of `find constant`.
#[derive(Clone, Debug)]
pub struct FindConstantArgs {
    pub value: String,
    /// Operand size in bytes (default 4)
    pub size: usize,
    /// Most hits to report (default 100)
    pub max: usize,
    pub no_refs: bool,
    pub options: QueryOptions,
}

impl CommandMeta for FindConstantArgs {
    open spec fn project_of(&self) -> Option<Seq<char>> {
        opt_view(self.options.project)
    }

    open spec fn program_of(&self) -> Option<Seq<char>> {
        opt_view(self.options.program)
    }

    open spec fn options_of(&self) -> Option<QueryOptions> {
        Some(self.options)
    }

    open spec fn bridge_of(&self) -> bool {
        false
    }

    fn project(&self) -> (r: Option<&str>) {
        as_deref(&self.options.project)
    }

    fn program(&self) -> (r: Option<&str>) {
        as_deref(&self.options.program)
    }

    fn query_options(&self) -> (r: Option<QueryOptions>) {
        Some(self.options.copy())
    }

    fn requires_bridge(&self) -> (r: bool) {
        false
    }
}

/// Arguments of `find string`.
#[derive(Clone, Debug)]
pub struct FindStringArgs {
    pub pattern: String,
    pub options: QueryOptions,
}

impl CommandMeta for FindStringArgs {
    open spec fn project_of(&self) -> Option<Seq<char>> {
        opt_view(self.options.project)
    }

    open spec fn program_of(&self) -> Option<Seq<char>> {
        opt_view(self.options.program)
    }

    open spec fn options_of(&self) -> Option<QueryOptions> {
        Some(self.options)
    }

    open spec fn bridge_of(&self) -> bool {
        false
    }

    fn project(&self) -> (r: Option<&str>) {
        as_deref(&self.options.project)
    }

    fn program(&self) -> (r: Option<&str>) {
        as_deref(&self.options.program)
    }

    fn query_options(&self) -> (r: Option<QueryOptions>) {
        Some(self.options.copy())
    }

    fn requires_bridge(&self) -> (r: bool) {
        false
    }
}

/// Arguments of `find bytes`.
#[derive(Clone, Debug)]
pub struct FindBytesArgs {
    pub hex: String,
    pub options: QueryOptions,
}

impl CommandMeta for FindBytesArgs {
    open spec fn project_of(&self) -> Option<Seq<char>> {
        opt_view(self.options.project)
    }

    open spec fn program_of(&self) -> Option<Seq<char>> {
        opt_view(self.options.program)
    }

    open spec fn options_of(&self) -> Option<QueryOptions> {
        Some(self.options)
    }

    open spec fn bridge_of(&self) -> bool {
        false
    }

    fn project(&self) -> (r: Option<&str>) {
        as_deref(&self.options.project)
    }

    fn program(&self) -> (r: Option<&str>) {
        as_deref(&self.options.program)
    }

    fn query_options(&self) -> (r: Option<QueryOptions>) {
        Some(self.options.copy())
    }

    fn requires_bridge(&self) -> (r: bool) {
        false
    }
}

/// Arguments of `find function`.
#[derive(Clone, Debug)]
pub struct FindFunctionArgs {
    pub pattern: String,
    pub options: QueryOptions,
}

impl CommandMeta for FindFunctionArgs {
    open spec fn project_of(&self) -> Option<Seq<char>> {
        opt_view(self.options.project)
    }

    open spec fn program_of(&self) -> Option<Seq<char>> {
        opt_view(self.options.program)
    }

    open spec fn options_of(&self) -> Option<QueryOptions> {
        Some(self.options)
    }

    open spec fn bridge_of(&self) -> bool {
        false
    }

    fn project(&self) -> (r: Option<&str>) {
        as_deref(&self.options.project)
    }

    fn program(&self) -> (r: Option<&str>) {
        as_deref(&self.options.program)
    }

    fn query_options(&self) -> (r: Option<QueryOptions>) {
        Some(self.options.copy())
    }

    fn requires_bridge(&self) -> (r: bool) {
        false
    }
}

/// Arguments of `find calls`.
#[derive(Clone, Debug)]
pub struct FindCallsArgs {
    pub target: TargetArgs,
    pub options: QueryOptions,
}

impl CommandMeta for FindCallsArgs {
    open spec fn project_of(&self) -> Option<Seq<char>> {
        opt_view(self.options.project)
    }

    open spec fn program_of(&self) -> Option<Seq<char>> {
        opt_view(self.options.program)
    }

    open spec fn options_of(&self) -> Option<QueryOptions> {
        Some(self.options)
    }

    open spec fn bridge_of(&self) -> bool {
        false
    }

    fn project(&self) -> (r: Option<&str>) {
        as_deref(&self.options.project)
    }

    fn program(&self) -> (r: Option<&str>) {
        as_deref(&self.options.program)
    }

    fn query_options(&self) -> (r: Option<QueryOptions>) {
        Some(self.options.copy())
    }

    fn requires_bridge(&self) -> (r: bool) {
        false
    }
}

/// Arguments of `graph callers`/`callees`.
#[derive(Clone, Debug)]
pub struct GraphFunctionArgs {
    pub target: TargetArgs,
    pub depth: Option<usize>,
    pub options: QueryOptions,
}

impl CommandMeta for GraphFunctionArgs {
    open spec fn project_of(&self) -> Option<Seq<char>> {
        opt_view(self.options.project)
    }

    open spec fn program_of(&self) -> Option<Seq<char>> {
        opt_view(self.options.program)
    }

    open spec fn options_of(&self) -> Option<QueryOptions> {
        Some(self.options)
    }

    open spec fn bridge_of(&self) -> bool {
        false
    }

    fn project(&self) -> (r: Option<&str>) {
        as_deref(&self.options.project)
    }

    fn program(&self) -> (r: Option<&str>) {
        as_deref(&self.options.program)
    }

    fn query_options(&self) -> (r: Option<QueryOptions>) {
        Some(self.options.copy())
    }

    fn requires_bridge(&self) -> (r: bool) {
        false
    }
}

/// Arguments of `graph export`.
#[derive(Clone, Debug)]
pub struct GraphExportArgs {
    /// Export format
    pub format: String,
    pub options: QueryOptions,
}

impl CommandMeta for GraphExportArgs {
    open spec fn project_of(&self) -> Option<Seq<char>> {
        opt_view(self.options.project)
    }

    open spec fn program_of(&self) -> Option<Seq<char>> {
        opt_view(self.options.program)
    }

    open spec fn options_of(&self) -> Option<QueryOptions> {
        Some(self.options)
    }

    open spec fn bridge_of(&self) -> bool {
        false
    }

    fn project(&self) -> (r: Option<&str>) {
        as_deref(&self.options.project)
    }

    fn program(&self) -> (r: Option<&str>) {
        as_deref(&self.options.program)
    }

    fn query_options(&self) -> (r: Option<QueryOptions>) {
        Some(self.options.copy())
    }

    fn requires_bridge(&self) -> (r: bool) {
        false
    }
}

/// Arguments of `decompile`.
#[derive(Clone, Debug)]
pub struct DecompileArgs {
    pub target: TargetArgs,
    pub with_vars: bool,
    pub with_params: bool,
    pub options: QueryOptions,
}

impl CommandMeta for DecompileArgs {
    open spec fn project_of(&self) -> Option<Seq<char>> {
        opt_view(self.options.project)
    }

    open spec fn program_of(&self) -> Option<Seq<char>> {
        opt_view(self.options.program)
    }

    open spec fn options_of(&self) -> Option<QueryOptions> {
        Some(self.options)
    }

    open spec fn bridge_of(&self) -> bool {
        false
    }

    fn project(&self) -> (r: Option<&str>) {
        as_deref(&self.options.project)
    }

    fn program(&self) -> (r: Option<&str>) {
        as_deref(&self.options.program)
    }

    fn query_options(&self) -> (r: Option<QueryOptions>) {
        Some(self.options.copy())
    }

    fn requires_bridge(&self) -> (r: bool) {
        false
    }
}

/// Arguments of `disasm`.
#[derive(Clone, Debug)]
pub struct DisasmArgs {
    pub target: TargetArgs,
    pub num_instructions: Option<usize>,
    pub end: Option<String>,
    pub no_resolve: bool,
    pub options: QueryOptions,
}

impl CommandMeta for DisasmArgs {
    open spec fn project_of(&self) -> Option<Seq<char>> {
        opt_view(self.options.project)
    }

    open spec fn program_of(&self) -> Option<Seq<char>> {
        opt_view(self.options.program)
    }

    open spec fn options_of(&self) -> Option<QueryOptions> {
        Some(self.options)
    }

    open spec fn bridge_of(&self) -> bool {
        false
    }

    fn project(&self) -> (r: Option<&str>) {
        as_deref(&self.options.project)
    }

    fn program(&self) -> (r: Option<&str>) {
        as_deref(&self.options.program)
    }

    fn query_options(&self) -> (r: Option<QueryOptions>) {
        Some(self.options.copy())
    }

    fn requires_bridge(&self) -> (r: bool) {
        false
    }
}

/// Arguments of `decompile-multi`.
#[derive(Clone, Debug)]
pub struct DecompileMultiArgs {
    pub targets: Vec<String>,
    pub options: QueryOptions,
}

impl CommandMeta for DecompileMultiArgs {
    open spec fn project_of(&self) -> Option<Seq<char>> {
        opt_view(self.options.project)
    }

    open spec fn program_of(&self) -> Option<Seq<char>> {
        opt_view(self.options.program)
    }

    open spec fn options_of(&self) -> Option<QueryOptions> {
        Some(self.options)
    }

    open spec fn bridge_of(&self) -> bool {
        false
    }

    fn project(&self) -> (r: Option<&str>) {
        as_deref(&self.options.project)
    }

    fn program(&self) -> (r: Option<&str>) {
        as_deref(&self.options.program)
    }

    fn query_options(&self) -> (r: Option<QueryOptions>) {
        Some(self.options.copy())
    }

    fn requires_bridge(&self) -> (r: bool) {
        false
    }
}

/// Arguments of `raw`: a bridge command and its JSON arguments.
#[derive(Clone, Debug)]
pub struct RawArgs {
    pub command: String,
    /// The JSON arguments (default `{}`)
    pub json_args: String,
    pub options: QueryOptions,
}

impl CommandMeta for RawArgs {
    open spec fn project_of(&self) -> Option<Seq<char>> {
        opt_view(self.options.project)
    }

    open spec fn program_of(&self) -> Option<Seq<char>> {
        opt_view(self.options.program)
    }

    open spec fn options_of(&self) -> Option<QueryOptions> {
        None
    }

    open spec fn bridge_of(&self) -> bool {
        false
    }

    fn project(&self) -> (r: Option<&str>) {
        as_deref(&self.options.project)
    }

    fn program(&self) -> (r: Option<&str>) {
        as_deref(&self.options.program)
    }

    fn query_options(&self) -> (r: Option<QueryOptions>) {
        None
    }

    fn requires_bridge(&self) -> (r: bool) {
        false
    }
}

/// Arguments of `diff programs`. The minimum similarity is held as
/// written (a decimal number); it is applied where the similarities are.
#[derive(Clone, Debug)]
pub struct DiffProgramsArgs {
    pub program1: Option<String>,
    pub program2: Option<String>,
    pub changed: bool,
    pub unmatched: bool,
    pub min_sim: Option<String>,
    pub name: Option<String>,
    pub limit: Option<usize>,
    pub format: Option<String>,
    pub program: Option<String>,
    pub project: Option<String>,
}

impl CommandMeta for DiffProgramsArgs {
    open spec fn project_of(&self) -> Option<Seq<char>> {
        opt_view(self.project)
    }

    open spec fn program_of(&self) -> Option<Seq<char>> {
        opt_view(self.program)
    }

    open spec fn options_of(&self) -> Option<QueryOptions> {
        Some(format_only(self.format))
    }

    open spec fn bridge_of(&self) -> bool {
        false
    }

    fn project(&self) -> (r: Option<&str>) {
        as_deref(&self.project)
    }

    fn program(&self) -> (r: Option<&str>) {
        as_deref(&self.program)
    }

    fn query_options(&self) -> (r: Option<QueryOptions>) {
        Some(format_options(&self.format))
    }

    fn requires_bridge(&self) -> (r: bool) {
        false
    }
}

/// Arguments of `diff functions`.
#[derive(Clone, Debug)]
pub struct DiffFunctionsArgs {
    pub func1: String,
    pub func2: String,
    pub format: Option<String>,
    pub project: Option<String>,
}

impl CommandMeta for DiffFunctionsArgs {
    open spec fn project_of(&self) -> Option<Seq<char>> {
        opt_view(self.project)
    }

    open spec fn program_of(&self) -> Option<Seq<char>> {
        None
    }

    open spec fn options_of(&self) -> Option<QueryOptions> {
        Some(format_only(self.format))
    }

    open spec fn bridge_of(&self) -> bool {
        false
    }

    fn project(&self) -> (r: Option<&str>) {
        as_deref(&self.project)
    }

    fn program(&self) -> (r: Option<&str>) {
        None
    }

    fn query_options(&self) -> (r: Option<QueryOptions>) {
        Some(format_options(&self.format))
    }

    fn requires_bridge(&self) -> (r: bool) {
        false
    }
}

/// Arguments of `patch bytes`.
#[derive(Clone, Debug)]
pub struct PatchBytesArgs {
    pub address: String,
    pub hex: String,
    pub program: Option<String>,
    pub project: Option<String>,
}

impl CommandMeta for PatchBytesArgs {
    open spec fn project_of(&self) -> Option<Seq<char>> {
        opt_view(self.project)
    }

    open spec fn program_of(&self) -> Option<Seq<char>> {
        opt_view(self.program)
    }

    open spec fn options_of(&self) -> Option<QueryOptions> {
        None
    }

    open spec fn bridge_of(&self) -> bool {
        false
    }

    fn project(&self) -> (r: Option<&str>) {
        as_deref(&self.project)
    }

    fn program(&self) -> (r: Option<&str>) {
        as_deref(&self.program)
    }

    fn query_options(&self) -> (r: Option<QueryOptions>) {
        None
    }

    fn requires_bridge(&self) -> (r: bool) {
        false
    }
}

/// Arguments of `patch nop`.
#[derive(Clone, Debug)]
pub struct PatchNopArgs {
    pub address: String,
    pub count: Option<usize>,
    pub program: Option<String>,
    pub project: Option<String>,
}

impl CommandMeta for PatchNopArgs {
    open spec fn project_of(&self) -> Option<Seq<char>> {
        opt_view(self.project)
    }

    open spec fn program_of(&self) -> Option<Seq<char>> {
        opt_view(self.program)
    }

    open spec fn options_of(&self) -> Option<QueryOptions> {
        None
    }

    open spec fn bridge_of(&self) -> bool {
        false
    }

    fn project(&self) -> (r: Option<&str>) {
        as_deref(&self.project)
    }

    fn program(&self) -> (r: Option<&str>) {
        as_deref(&self.program)
    }

    fn query_options(&self) -> (r: Option<QueryOptions>) {
        None
    }

    fn requires_bridge(&self) -> (r: bool) {
        false
    }
}

/// Arguments of `patch export`.
#[derive(Clone, Debug)]
pub struct PatchExportArgs {
    pub output: String,
    pub program: Option<String>,
    pub project: Option<String>,
}

impl CommandMeta for PatchExportArgs {
    open spec fn project_of(&self) -> Option<Seq<char>> {
        opt_view(self.project)
    }

    open spec fn program_of(&self) -> Option<Seq<char>> {
        opt_view(self.program)
    }

    open spec fn options_of(&self) -> Option<QueryOptions> {
        None
    }

    open spec fn bridge_of(&self) -> bool {
        false
    }

    fn project(&self) -> (r: Option<&str>) {
        as_deref(&self.project)
    }

    fn program(&self) -> (r: Option<&str>) {
        as_deref(&self.program)
    }

    fn query_options(&self) -> (r: Option<QueryOptions>) {
        None
    }

    fn requires_bridge(&self) -> (r: bool) {
        false
    }
}

/// Arguments of `script run`.
#[derive(Clone, Debug)]
pub struct ScriptRunArgs {
    pub script_path: String,
    pub program: Option<String>,
    pub project: Option<String>,
    /// `PATH[:MIN_ROWS]` expectations
    pub expect: Vec<String>,
    pub allow_empty: bool,
    pub args: Vec<String>,
}

impl CommandMeta for ScriptRunArgs {
    open spec fn project_of(&self) -> Option<Seq<char>> {
        opt_view(self.project)
    }

    open spec fn program_of(&self) -> Option<Seq<char>> {
        opt_view(self.program)
    }

    open spec fn options_of(&self) -> Option<QueryOptions> {
        None
    }

    open spec fn bridge_of(&self) -> bool {
        false
    }

    fn project(&self) -> (r: Option<&str>) {
        as_deref(&self.project)
    }

    fn program(&self) -> (r: Option<&str>) {
        as_deref(&self.program)
    }

    fn query_options(&self) -> (r: Option<QueryOptions>) {
        None
    }

    fn requires_bridge(&self) -> (r: bool) {
        false
    }
}

/// Arguments of `script python`/`java`.
#[derive(Clone, Debug)]
pub struct ScriptInlineArgs {
    pub code: String,
    pub program: Option<String>,
    pub project: Option<String>,
}

impl CommandMeta for ScriptInlineArgs {
    open spec fn project_of(&self) -> Option<Seq<char>> {
        opt_view(self.project)
    }

    open spec fn program_of(&self) -> Option<Seq<char>> {
        opt_view(self.program)
    }

    open spec fn options_of(&self) -> Option<QueryOptions> {
        None
    }

    open spec fn bridge_of(&self) -> bool {
        false
    }

    fn project(&self) -> (r: Option<&str>) {
        as_deref(&self.project)
    }

    fn program(&self) -> (r: Option<&str>) {
        as_deref(&self.program)
    }

    fn query_options(&self) -> (r: Option<QueryOptions>) {
        None
    }

    fn requires_bridge(&self) -> (r: bool) {
        false
    }
}

/// Arguments of `batch`.
#[derive(Clone, Debug)]
pub struct BatchArgs {
    pub script_file: String,
    pub project: Option<String>,
    pub program: Option<String>,
}

impl CommandMeta for BatchArgs {
    open spec fn project_of(&self) -> Option<Seq<char>> {
        opt_view(self.project)
    }

    open spec fn program_of(&self) -> Option<Seq<char>> {
        opt_view(self.program)
    }

    open spec fn options_of(&self) -> Option<QueryOptions> {
        None
    }

    open spec fn bridge_of(&self) -> bool {
        false
    }

    fn project(&self) -> (r: Option<&str>) {
        as_deref(&self.project)
    }

    fn program(&self) -> (r: Option<&str>) {
        as_deref(&self.program)
    }

    fn query_options(&self) -> (r: Option<QueryOptions>) {
        None
    }

    fn requires_bridge(&self) -> (r: bool) {
        false
    }
}

/// Arguments of `set-default`.
#[derive(Clone, Debug)]
pub struct SetDefaultArgs {
    pub kind: String,
    pub value: String,
}

/// Arguments of `summary`.
#[derive(Clone, Debug)]
pub struct SummaryArgs {
    pub options: QueryOptions,
}

impl CommandMeta for SummaryArgs {
    open spec fn project_of(&self) -> Option<Seq<char>> {
        opt_view(self.options.project)
    }

    open spec fn program_of(&self) -> Option<Seq<char>> {
        opt_view(self.options.program)
    }

    open spec fn options_of(&self) -> Option<QueryOptions> {
        Some(self.options)
    }

    open spec fn bridge_of(&self) -> bool {
        false
    }

    fn project(&self) -> (r: Option<&str>) {
        as_deref(&self.options.project)
    }

    fn program(&self) -> (r: Option<&str>) {
        as_deref(&self.options.program)
    }

    fn query_options(&self) -> (r: Option<QueryOptions>) {
        Some(self.options.copy())
    }

    fn requires_bridge(&self) -> (r: bool) {
        false
    }
}

/// Arguments of `stats`.
#[derive(Clone, Debug)]
pub struct StatsArgs {
    pub options: QueryOptions,
}

impl CommandMeta for StatsArgs {
    open spec fn project_of(&self) -> Option<Seq<char>> {
        opt_view(self.options.project)
    }

    open spec fn program_of(&self) -> Option<Seq<char>> {
        opt_view(self.options.program)
    }

    open spec fn options_of(&self) -> Option<QueryOptions> {
        Some(self.options)
    }

    open spec fn bridge_of(&self) -> bool {
        false
    }

    fn project(&self) -> (r: Option<&str>) {
        as_deref(&self.options.project)
    }

    fn program(&self) -> (r: Option<&str>) {
        as_deref(&self.options.program)
    }

    fn query_options(&self) -> (r: Option<QueryOptions>) {
        Some(self.options.copy())
    }

    fn requires_bridge(&self) -> (r: bool) {
        false
    }
}

/// Arguments of `import`.
#[derive(Clone, Debug)]
pub struct ImportArgs {
    pub binary: String,
    pub program: Option<String>,
    pub project: Option<String>,
    pub no_analyze: bool,
    pub detach: bool,
}

impl CommandMeta for ImportArgs {
    open spec fn project_of(&self) -> Option<Seq<char>> {
        opt_view(self.project)
    }

    open spec fn program_of(&self) -> Option<Seq<char>> {
        opt_view(self.program)
    }

    open spec fn options_of(&self) -> Option<QueryOptions> {
        None
    }

    open spec fn bridge_of(&self) -> bool {
        false
    }

    fn project(&self) -> (r: Option<&str>) {
        as_deref(&self.project)
    }

    fn program(&self) -> (r: Option<&str>) {
        as_deref(&self.program)
    }

    fn query_options(&self) -> (r: Option<QueryOptions>) {
        None
    }

    fn requires_bridge(&self) -> (r: bool) {
        false
    }
}

/// Arguments of `analyze`.
#[derive(Clone, Debug)]
pub struct AnalyzeArgs {
    pub program: Option<String>,
    pub project: Option<String>,
    pub detach: bool,
}

impl CommandMeta for AnalyzeArgs {
    open spec fn project_of(&self) -> Option<Seq<char>> {
        opt_view(self.project)
    }

    open spec fn program_of(&self) -> Option<Seq<char>> {
        opt_view(self.program)
    }

    open spec fn options_of(&self) -> Option<QueryOptions> {
        None
    }

    open spec fn bridge_of(&self) -> bool {
        false
    }

    fn project(&self) -> (r: Option<&str>) {
        as_deref(&self.project)
    }

    fn program(&self) -> (r: Option<&str>) {
        as_deref(&self.program)
    }

    fn query_options(&self) -> (r: Option<QueryOptions>) {
        None
    }

    fn requires_bridge(&self) -> (r: bool) {
        false
    }
}

/// Arguments of `setup`.
#[derive(Clone, Debug)]
pub struct SetupArgs {
    pub version: Option<String>,
    pub dir: Option<String>,
    pub force: bool,
}

/// Query options with only the given output format.
pub fn format_options(format: &Option<String>) -> (r: QueryOptions)
    ensures
        r == format_only(*format),
{
    QueryOptions {
        program: None,
        project: None,
        filter: None,
        fields: None,
        format: copy_opt(format),
        limit: None,
        offset: None,
        sort: None,
        count: false,
        json: false,
    }
}

/// The query options a `query` command carries in its own fields.
pub open spec fn query_args_options(a: QueryArgs) -> QueryOptions {
    QueryOptions {
        program: a.program,
        project: a.project,
        filter: a.filter,
        fields: a.fields,
        format: a.format,
        limit: a.limit,
        offset: a.offset,
        sort: a.sort,
        count: a.count,
        json: a.json,
    }
}

impl QueryArgs {
    /// The query options built from this command's fields.
    pub fn to_options(&self) -> (r: QueryOptions)
        ensures
            r == query_args_options(*self),
    {
        QueryOptions {
            program: copy_opt(&self.program),
            project: copy_opt(&self.project),
            filter: copy_opt(&self.filter),
            fields: copy_opt(&self.fields),
            format: copy_opt(&self.format),
            limit: self.limit,
            offset: self.offset,
            sort: copy_opt(&self.sort),
            count: self.count,
            json: self.json,
        }
    }
}

impl TargetArgs {
    /// The target, preferring the `--target` flag over the positional one.
    pub fn resolved_target(&self) -> (r: &str)
        requires
            self.target is Some || self.positional_target is Some,
        ensures
            r@ == match self.target {
                Some(t) => t@,
                None => self.positional_target->0@,
            },
    {
        match &self.target {
            Some(t) => t.as_str(),
            None => match &self.positional_target {
                Some(p) => p.as_str(),
                None => {
                    assert(false);
                    ""
                },
            },
        }
    }
}

/// The `project` subcommands.
#[derive(Clone, Debug)]
#[allow(inconsistent_fields)]
pub enum ProjectCommands {
    Create { name: String },
    List,
    Delete { name: String },
    Info { name: Option<String> },
}

/// The `program` subcommands.
#[derive(Clone, Debug)]
pub enum ProgramCommands {
    List(ProgramTargetArgs),
    Open(ProgramTargetArgs),
    Close(ProgramTargetArgs),
    Delete(ProgramTargetArgs),
    Info(ProgramTargetArgs),
    Export(ExportArgs),
}

impl CommandMeta for ProgramCommands {
    open spec fn project_of(&self) -> Option<Seq<char>> {
        match self {
            ProgramCommands::List(a) => a.project_of(),
            ProgramCommands::Open(a) => a.project_of(),
            ProgramCommands::Close(a) => a.project_of(),
            ProgramCommands::Delete(a) => a.project_of(),
            ProgramCommands::Info(a) => a.project_of(),
            ProgramCommands::Export(a) => a.project_of(),
        }
    }

    open spec fn program_of(&self) -> Option<Seq<char>> {
        match self {
            ProgramCommands::List(a) => a.program_of(),
            ProgramCommands::Open(a) => a.program_of(),
            ProgramCommands::Close(a) => a.program_of(),
            ProgramCommands::Delete(a) => a.program_of(),
            ProgramCommands::Info(a) => a.program_of(),
            ProgramCommands::Export(a) => a.program_of(),
        }
    }

    open spec fn options_of(&self) -> Option<QueryOptions> {
        match self {
            ProgramCommands::List(a) => a.options_of(),
            ProgramCommands::Open(a) => a.options_of(),
            ProgramCommands::Close(a) => a.options_of(),
            ProgramCommands::Delete(a) => a.options_of(),
            ProgramCommands::Info(a) => a.options_of(),
            ProgramCommands::Export(a) => a.options_of(),
        }
    }

    open spec fn bridge_of(&self) -> bool {
        true
    }

    fn project(&self) -> (r: Option<&str>) {
        match self {
            ProgramCommands::List(a) => a.project(),
            ProgramCommands::Open(a) => a.project(),
            ProgramCommands::Close(a) => a.project(),
            ProgramCommands::Delete(a) => a.project(),
            ProgramCommands::Info(a) => a.project(),
            ProgramCommands::Export(a) => a.project(),
        }
    }

    fn program(&self) -> (r: Option<&str>) {
        match self {
            ProgramCommands::List(a) => a.program(),
            ProgramCommands::Open(a) => a.program(),
            ProgramCommands::Close(a) => a.program(),
            ProgramCommands::Delete(a) => a.program(),
            ProgramCommands::Info(a) => a.program(),
            ProgramCommands::Export(a) => a.program(),
        }
    }

    fn query_options(&self) -> (r: Option<QueryOptions>) {
        match self {
            ProgramCommands::List(a) => a.query_options(),
            ProgramCommands::Open(a) => a.query_options(),
            ProgramCommands::Close(a) => a.query_options(),
            ProgramCommands::Delete(a) => a.query_options(),
            ProgramCommands::Info(a) => a.query_options(),
            ProgramCommands::Export(a) => a.query_options(),
        }
    }

    fn requires_bridge(&self) -> (r: bool) {
        true
    }
}

/// The `function` subcommands.
#[derive(Clone, Debug)]
pub enum FunctionCommands {
    List(FunctionListArgs),
    Get(FunctionGetArgs),
    Decompile(FunctionDecompileArgs),
    Disasm(FunctionGetArgs),
    Calls(FunctionGetArgs),
    XRefs(FunctionGetArgs),
    Rename(RenameArgs),
    Create(CreateFunctionArgs),
    Delete(FunctionGetArgs),
    SetSignature(SetSignatureArgs),
    SetReturnType(SetReturnTypeArgs),
    SetCallingConvention(SetCallingConventionArgs),
    SetVarType(SetVarTypeArgs),
}

impl CommandMeta for FunctionCommands {
    open spec fn project_of(&self) -> Option<Seq<char>> {
        match self {
            FunctionCommands::List(a) => a.project_of(),
            FunctionCommands::Get(a) => a.project_of(),
            FunctionCommands::Decompile(a) => a.project_of(),
            FunctionCommands::Disasm(a) => a.project_of(),
            FunctionCommands::Calls(a) => a.project_of(),
            FunctionCommands::XRefs(a) => a.project_of(),
            FunctionCommands::Rename(a) => a.project_of(),
            FunctionCommands::Create(a) => a.project_of(),
            FunctionCommands::Delete(a) => a.project_of(),
            FunctionCommands::SetSignature(a) => a.project_of(),
            FunctionCommands::SetReturnType(a) => a.project_of(),
            FunctionCommands::SetCallingConvention(a) => a.project_of(),
            FunctionCommands::SetVarType(a) => a.project_of(),
        }
    }

    open spec fn program_of(&self) -> Option<Seq<char>> {
        match self {
            FunctionCommands::List(a) => a.program_of(),
            FunctionCommands::Get(a) => a.program_of(),
            FunctionCommands::Decompile(a) => a.program_of(),
            FunctionCommands::Disasm(a) => a.program_of(),
            FunctionCommands::Calls(a) => a.program_of(),
            FunctionCommands::XRefs(a) => a.program_of(),
            FunctionCommands::Rename(a) => a.program_of(),
            FunctionCommands::Create(a) => a.program_of(),
            FunctionCommands::Delete(a) => a.program_of(),
            FunctionCommands::SetSignature(a) => a.program_of(),
            FunctionCommands::SetReturnType(a) => a.program_of(),
            FunctionCommands::SetCallingConvention(a) => a.program_of(),
            FunctionCommands::SetVarType(a) => a.program_of(),
        }
    }

    open spec fn options_of(&self) -> Option<QueryOptions> {
        match self {
            FunctionCommands::List(a) => a.options_of(),
            FunctionCommands::Get(a) => a.options_of(),
            FunctionCommands::Decompile(a) => a.options_of(),
            FunctionCommands::Disasm(a) => a.options_of(),
            FunctionCommands::Calls(a) => a.options_of(),
            FunctionCommands::XRefs(a) => a.options_of(),
            FunctionCommands::Rename(a) => a.options_of(),
            FunctionCommands::Create(a) => a.options_of(),
            FunctionCommands::Delete(a) => a.options_of(),
            FunctionCommands::SetSignature(a) => a.options_of(),
            FunctionCommands::SetReturnType(a) => a.options_of(),
            FunctionCommands::SetCallingConvention(a) => a.options_of(),
            FunctionCommands::SetVarType(a) => a.options_of(),
        }
    }

    open spec fn bridge_of(&self) -> bool {
        true
    }

    fn project(&self) -> (r: Option<&str>) {
        match self {
            FunctionCommands::List(a) => a.project(),
            FunctionCommands::Get(a) => a.project(),
            FunctionCommands::Decompile(a) => a.project(),
            FunctionCommands::Disasm(a) => a.project(),
            FunctionCommands::Calls(a) => a.project(),
            FunctionCommands::XRefs(a) => a.project(),
            FunctionCommands::Rename(a) => a.project(),
            FunctionCommands::Create(a) => a.project(),
            FunctionCommands::Delete(a) => a.project(),
            FunctionCommands::SetSignature(a) => a.project(),
            FunctionCommands::SetReturnType(a) => a.project(),
            FunctionCommands::SetCallingConvention(a) => a.project(),
            FunctionCommands::SetVarType(a) => a.project(),
        }
    }

    fn program(&self) -> (r: Option<&str>) {
        match self {
            FunctionCommands::List(a) => a.program(),
            FunctionCommands::Get(a) => a.program(),
            FunctionCommands::Decompile(a) => a.program(),
            FunctionCommands::Disasm(a) => a.program(),
            FunctionCommands::Calls(a) => a.program(),
            FunctionCommands::XRefs(a) => a.program(),
            FunctionCommands::Rename(a) => a.program(),
            FunctionCommands::Create(a) => a.program(),
            FunctionCommands::Delete(a) => a.program(),
            FunctionCommands::SetSignature(a) => a.program(),
            FunctionCommands::SetReturnType(a) => a.program(),
            FunctionCommands::SetCallingConvention(a) => a.program(),
            FunctionCommands::SetVarType(a) => a.program(),
        }
    }

    fn query_options(&self) -> (r: Option<QueryOptions>) {
        match self {
            FunctionCommands::List(a) => a.query_options(),
            FunctionCommands::Get(a) => a.query_options(),
            FunctionCommands::Decompile(a) => a.query_options(),
            FunctionCommands::Disasm(a) => a.query_options(),
            FunctionCommands::Calls(a) => a.query_options(),
            FunctionCommands::XRefs(a) => a.query_options(),
            FunctionCommands::Rename(a) => a.query_options(),
            FunctionCommands::Create(a) => a.query_options(),
            FunctionCommands::Delete(a) => a.query_options(),
            FunctionCommands::SetSignature(a) => a.query_options(),
            FunctionCommands::SetReturnType(a) => a.query_options(),
            FunctionCommands::SetCallingConvention(a) => a.query_options(),
            FunctionCommands::SetVarType(a) => a.query_options(),
        }
    }

    fn requires_bridge(&self) -> (r: bool) {
        true
    }
}

/// The `strings` subcommands.
#[derive(Clone, Debug)]
pub enum StringsCommands {
    List(QueryOptions),
    Refs(StringRefsArgs),
}

impl CommandMeta for StringsCommands {
    open spec fn project_of(&self) -> Option<Seq<char>> {
        match self {
            StringsCommands::List(a) => a.project_of(),
            StringsCommands::Refs(a) => a.project_of(),
        }
    }

    open spec fn program_of(&self) -> Option<Seq<char>> {
        match self {
            StringsCommands::List(a) => a.program_of(),
            StringsCommands::Refs(a) => a.program_of(),
        }
    }

    open spec fn options_of(&self) -> Option<QueryOptions> {
        match self {
            StringsCommands::List(a) => a.options_of(),
            StringsCommands::Refs(a) => a.options_of(),
        }
    }

    open spec fn bridge_of(&self) -> bool {
        true
    }

    fn project(&self) -> (r: Option<&str>) {
        match self {
            StringsCommands::List(a) => a.project(),
            StringsCommands::Refs(a) => a.project(),
        }
    }

    fn program(&self) -> (r: Option<&str>) {
        match self {
            StringsCommands::List(a) => a.program(),
            StringsCommands::Refs(a) => a.program(),
        }
    }

    fn query_options(&self) -> (r: Option<QueryOptions>) {
        match self {
            StringsCommands::List(a) => a.query_options(),
            StringsCommands::Refs(a) => a.query_options(),
        }
    }

    fn requires_bridge(&self) -> (r: bool) {
        true
    }
}

/// The `symbol` subcommands.
#[derive(Clone, Debug)]
pub enum SymbolCommands {
    List(QueryOptions),
    Get(SymbolGetArgs),
    Create(CreateSymbolArgs),
    Delete(SymbolGetArgs),
    Rename(RenameArgs),
}

impl CommandMeta for SymbolCommands {
    open spec fn project_of(&self) -> Option<Seq<char>> {
        match self {
            SymbolCommands::List(a) => a.project_of(),
            SymbolCommands::Get(a) => a.project_of(),
            SymbolCommands::Create(a) => a.project_of(),
            SymbolCommands::Delete(a) => a.project_of(),
            SymbolCommands::Rename(a) => a.project_of(),
        }
    }

    open spec fn program_of(&self) -> Option<Seq<char>> {
        match self {
            SymbolCommands::List(a) => a.program_of(),
            SymbolCommands::Get(a) => a.program_of(),
            SymbolCommands::Create(a) => a.program_of(),
            SymbolCommands::Delete(a) => a.program_of(),
            SymbolCommands::Rename(a) => a.program_of(),
        }
    }

    open spec fn options_of(&self) -> Option<QueryOptions> {
        match self {
            SymbolCommands::List(a) => a.options_of(),
            SymbolCommands::Get(a) => a.options_of(),
            SymbolCommands::Create(a) => a.options_of(),
            SymbolCommands::Delete(a) => a.options_of(),
            SymbolCommands::Rename(a) => a.options_of(),
        }
    }

    open spec fn bridge_of(&self) -> bool {
        true
    }

    fn project(&self) -> (r: Option<&str>) {
        match self {
            SymbolCommands::List(a) => a.project(),
            SymbolCommands::Get(a) => a.project(),
            SymbolCommands::Create(a) => a.project(),
            SymbolCommands::Delete(a) => a.project(),
            SymbolCommands::Rename(a) => a.project(),
        }
    }

    fn program(&self) -> (r: Option<&str>) {
        match self {
            SymbolCommands::List(a) => a.program(),
            SymbolCommands::Get(a) => a.program(),
            SymbolCommands::Create(a) => a.program(),
            SymbolCommands::Delete(a) => a.program(),
            SymbolCommands::Rename(a) => a.program(),
        }
    }

    fn query_options(&self) -> (r: Option<QueryOptions>) {
        match self {
            SymbolCommands::List(a) => a.query_options(),
            SymbolCommands::Get(a) => a.query_options(),
            SymbolCommands::Create(a) => a.query_options(),
            SymbolCommands::Delete(a) => a.query_options(),
            SymbolCommands::Rename(a) => a.query_options(),
        }
    }

    fn requires_bridge(&self) -> (r: bool) {
        true
    }
}

/// The `memory` subcommands.
#[derive(Clone, Debug)]
pub enum MemoryCommands {
    MemoryMap(QueryOptions),
    Read(MemReadArgs),
    Write(MemWriteArgs),
    Search(MemSearchArgs),
}

impl CommandMeta for MemoryCommands {
    open spec fn project_of(&self) -> Option<Seq<char>> {
        match self {
            MemoryCommands::MemoryMap(a) => a.project_of(),
            MemoryCommands::Read(a) => a.project_of(),
            MemoryCommands::Write(a) => a.project_of(),
            MemoryCommands::Search(a) => a.project_of(),
        }
    }

    open spec fn program_of(&self) -> Option<Seq<char>> {
        match self {
            MemoryCommands::MemoryMap(a) => a.program_of(),
            MemoryCommands::Read(a) => a.program_of(),
            MemoryCommands::Write(a) => a.program_of(),
            MemoryCommands::Search(a) => a.program_of(),
        }
    }

    open spec fn options_of(&self) -> Option<QueryOptions> {
        match self {
            MemoryCommands::MemoryMap(a) => a.options_of(),
            MemoryCommands::Read(a) => a.options_of(),
            MemoryCommands::Write(a) => a.options_of(),
            MemoryCommands::Search(a) => a.options_of(),
        }
    }

    open spec fn bridge_of(&self) -> bool {
        true
    }

    fn project(&self) -> (r: Option<&str>) {
        match self {
            MemoryCommands::MemoryMap(a) => a.project(),
            MemoryCommands::Read(a) => a.project(),
            MemoryCommands::Write(a) => a.project(),
            MemoryCommands::Search(a) => a.project(),
        }
    }

    fn program(&self) -> (r: Option<&str>) {
        match self {
            MemoryCommands::MemoryMap(a) => a.program(),
            MemoryCommands::Read(a) => a.program(),
            MemoryCommands::Write(a) => a.program(),
            MemoryCommands::Search(a) => a.program(),
        }
    }

    fn query_options(&self) -> (r: Option<QueryOptions>) {
        match self {
            MemoryCommands::MemoryMap(a) => a.query_options(),
            MemoryCommands::Read(a) => a.query_options(),
            MemoryCommands::Write(a) => a.query_options(),
            MemoryCommands::Search(a) => a.query_options(),
        }
    }

    fn requires_bridge(&self) -> (r: bool) {
        true
    }
}

/// The cross-reference subcommands.
#[derive(Clone, Debug)]
pub enum XRefCommands {
    To(XRefArgs),
    From(XRefArgs),
    List(XRefArgs),
}

impl CommandMeta for XRefCommands {
    open spec fn project_of(&self) -> Option<Seq<char>> {
        match self {
            XRefCommands::To(a) => a.project_of(),
            XRefCommands::From(a) => a.project_of(),
            XRefCommands::List(a) => a.project_of(),
        }
    }

    open spec fn program_of(&self) -> Option<Seq<char>> {
        match self {
            XRefCommands::To(a) => a.program_of(),
            XRefCommands::From(a) => a.program_of(),
            XRefCommands::List(a) => a.program_of(),
        }
    }

    open spec fn options_of(&self) -> Option<QueryOptions> {
        match self {
            XRefCommands::To(a) => a.options_of(),
            XRefCommands::From(a) => a.options_of(),
            XRefCommands::List(a) => a.options_of(),
        }
    }

    open spec fn bridge_of(&self) -> bool {
        true
    }

    fn project(&self) -> (r: Option<&str>) {
        match self {
            XRefCommands::To(a) => a.project(),
            XRefCommands::From(a) => a.project(),
            XRefCommands::List(a) => a.project(),
        }
    }

    fn program(&self) -> (r: Option<&str>) {
        match self {
            XRefCommands::To(a) => a.program(),
            XRefCommands::From(a) => a.program(),
            XRefCommands::List(a) => a.program(),
        }
    }

    fn query_options(&self) -> (r: Option<QueryOptions>) {
        match self {
            XRefCommands::To(a) => a.query_options(),
            XRefCommands::From(a) => a.query_options(),
            XRefCommands::List(a) => a.query_options(),
        }
    }

    fn requires_bridge(&self) -> (r: bool) {
        true
    }
}

/// The `type` subcommands.
#[derive(Clone, Debug)]
pub enum TypeCommands {
    List(QueryOptions),
    Get(TypeGetArgs),
    Create(CreateTypeArgs),
    Apply(ApplyTypeArgs),
    Delete(TypeDeleteArgs),
    Rename(TypeRenameArgs),
    CreateEnum(CreateEnumArgs),
    Typedef(TypedefArgs),
    AddField(TypeAddFieldArgs),
    DelField(TypeDelFieldArgs),
}

impl CommandMeta for TypeCommands {
    open spec fn project_of(&self) -> Option<Seq<char>> {
        match self {
            TypeCommands::List(a) => a.project_of(),
            TypeCommands::Get(a) => a.project_of(),
            TypeCommands::Create(a) => a.project_of(),
            TypeCommands::Apply(a) => a.project_of(),
            TypeCommands::Delete(a) => a.project_of(),
            TypeCommands::Rename(a) => a.project_of(),
            TypeCommands::CreateEnum(a) => a.project_of(),
            TypeCommands::Typedef(a) => a.project_of(),
            TypeCommands::AddField(a) => a.project_of(),
            TypeCommands::DelField(a) => a.project_of(),
        }
    }

    open spec fn program_of(&self) -> Option<Seq<char>> {
        match self {
            TypeCommands::List(a) => a.program_of(),
            TypeCommands::Get(a) => a.program_of(),
            TypeCommands::Create(a) => a.program_of(),
            TypeCommands::Apply(a) => a.program_of(),
            TypeCommands::Delete(a) => a.program_of(),
            TypeCommands::Rename(a) => a.program_of(),
            TypeCommands::CreateEnum(a) => a.program_of(),
            TypeCommands::Typedef(a) => a.program_of(),
            TypeCommands::AddField(a) => a.program_of(),
            TypeCommands::DelField(a) => a.program_of(),
        }
    }

    open spec fn options_of(&self) -> Option<QueryOptions> {
        match self {
            TypeCommands::List(a) => a.options_of(),
            TypeCommands::Get(a) => a.options_of(),
            TypeCommands::Create(a) => a.options_of(),
            TypeCommands::Apply(a) => a.options_of(),
            TypeCommands::Delete(a) => a.options_of(),
            TypeCommands::Rename(a) => a.options_of(),
            TypeCommands::CreateEnum(a) => a.options_of(),
            TypeCommands::Typedef(a) => a.options_of(),
            TypeCommands::AddField(a) => a.options_of(),
            TypeCommands::DelField(a) => a.options_of(),
        }
    }

    open spec fn bridge_of(&self) -> bool {
        true
    }

    fn project(&self) -> (r: Option<&str>) {
        match self {
            TypeCommands::List(a) => a.project(),
            TypeCommands::Get(a) => a.project(),
            TypeCommands::Create(a) => a.project(),
            TypeCommands::Apply(a) => a.project(),
            TypeCommands::Delete(a) => a.project(),
            TypeCommands::Rename(a) => a.project(),
            TypeCommands::CreateEnum(a) => a.project(),
            TypeCommands::Typedef(a) => a.project(),
            TypeCommands::AddField(a) => a.project(),
            TypeCommands::DelField(a) => a.project(),
        }
    }

    fn program(&self) -> (r: Option<&str>) {
        match self {
            TypeCommands::List(a) => a.program(),
            TypeCommands::Get(a) => a.program(),
            TypeCommands::Create(a) => a.program(),
            TypeCommands::Apply(a) => a.program(),
            TypeCommands::Delete(a) => a.program(),
            TypeCommands::Rename(a) => a.program(),
            TypeCommands::CreateEnum(a) => a.program(),
            TypeCommands::Typedef(a) => a.program(),
            TypeCommands::AddField(a) => a.program(),
            TypeCommands::DelField(a) => a.program(),
        }
    }

    fn query_options(&self) -> (r: Option<QueryOptions>) {
        match self {
            TypeCommands::List(a) => a.query_options(),
            TypeCommands::Get(a) => a.query_options(),
            TypeCommands::Create(a) => a.query_options(),
            TypeCommands::Apply(a) => a.query_options(),
            TypeCommands::Delete(a) => a.query_options(),
            TypeCommands::Rename(a) => a.query_options(),
            TypeCommands::CreateEnum(a) => a.query_options(),
            TypeCommands::Typedef(a) => a.query_options(),
            TypeCommands::AddField(a) => a.query_options(),
            TypeCommands::DelField(a) => a.query_options(),
        }
    }

    fn requires_bridge(&self) -> (r: bool) {
        true
    }
}

/// The `tag` subcommands.
#[derive(Clone, Debug)]
pub enum TagCommands {
    List(TagListArgs),
    Get(TagGetArgs),
    Create(TagCreateArgs),
    Delete(TagDeleteArgs),
    Rename(TagRenameArgs),
    SetComment(TagSetCommentArgs),
    Add(TagAttachArgs),
    Remove(TagDetachArgs),
}

impl CommandMeta for TagCommands {
    open spec fn project_of(&self) -> Option<Seq<char>> {
        match self {
            TagCommands::List(a) => a.project_of(),
            TagCommands::Get(a) => a.project_of(),
            TagCommands::Create(a) => a.project_of(),
            TagCommands::Delete(a) => a.project_of(),
            TagCommands::Rename(a) => a.project_of(),
            TagCommands::SetComment(a) => a.project_of(),
            TagCommands::Add(a) => a.project_of(),
            TagCommands::Remove(a) => a.project_of(),
        }
    }

    open spec fn program_of(&self) -> Option<Seq<char>> {
        match self {
            TagCommands::List(a) => a.program_of(),
            TagCommands::Get(a) => a.program_of(),
            TagCommands::Create(a) => a.program_of(),
            TagCommands::Delete(a) => a.program_of(),
            TagCommands::Rename(a) => a.program_of(),
            TagCommands::SetComment(a) => a.program_of(),
            TagCommands::Add(a) => a.program_of(),
            TagCommands::Remove(a) => a.program_of(),
        }
    }

    open spec fn options_of(&self) -> Option<QueryOptions> {
        match self {
            TagCommands::List(a) => a.options_of(),
            TagCommands::Get(a) => a.options_of(),
            TagCommands::Create(a) => a.options_of(),
            TagCommands::Delete(a) => a.options_of(),
            TagCommands::Rename(a) => a.options_of(),
            TagCommands::SetComment(a) => a.options_of(),
            TagCommands::Add(a) => a.options_of(),
            TagCommands::Remove(a) => a.options_of(),
        }
    }

    open spec fn bridge_of(&self) -> bool {
        true
    }

    fn project(&self) -> (r: Option<&str>) {
        match self {
            TagCommands::List(a) => a.project(),
            TagCommands::Get(a) => a.project(),
            TagCommands::Create(a) => a.project(),
            TagCommands::Delete(a) => a.project(),
            TagCommands::Rename(a) => a.project(),
            TagCommands::SetComment(a) => a.project(),
            TagCommands::Add(a) => a.project(),
            TagCommands::Remove(a) => a.project(),
        }
    }

    fn program(&self) -> (r: Option<&str>) {
        match self {
            TagCommands::List(a) => a.program(),
            TagCommands::Get(a) => a.program(),
            TagCommands::Create(a) => a.program(),
            TagCommands::Delete(a) => a.program(),
            TagCommands::Rename(a) => a.program(),
            TagCommands::SetComment(a) => a.program(),
            TagCommands::Add(a) => a.program(),
            TagCommands::Remove(a) => a.program(),
        }
    }

    fn query_options(&self) -> (r: Option<QueryOptions>) {
        match self {
            TagCommands::List(a) => a.query_options(),
            TagCommands::Get(a) => a.query_options(),
            TagCommands::Create(a) => a.query_options(),
            TagCommands::Delete(a) => a.query_options(),
            TagCommands::Rename(a) => a.query_options(),
            TagCommands::SetComment(a) => a.query_options(),
            TagCommands::Add(a) => a.query_options(),
            TagCommands::Remove(a) => a.query_options(),
        }
    }

    fn requires_bridge(&self) -> (r: bool) {
        true
    }
}

/// The `comment` subcommands.
#[derive(Clone, Debug)]
pub enum CommentCommands {
    List(QueryOptions),
    Get(CommentGetArgs),
    SetText(CommentSetArgs),
    Delete(CommentGetArgs),
}

impl CommandMeta for CommentCommands {
    open spec fn project_of(&self) -> Option<Seq<char>> {
        match self {
            CommentCommands::List(a) => a.project_of(),
            CommentCommands::Get(a) => a.project_of(),
            CommentCommands::SetText(a) => a.project_of(),
            CommentCommands::Delete(a) => a.project_of(),
        }
    }

    open spec fn program_of(&self) -> Option<Seq<char>> {
        match self {
            CommentCommands::List(a) => a.program_of(),
            CommentCommands::Get(a) => a.program_of(),
            CommentCommands::SetText(a) => a.program_of(),
            CommentCommands::Delete(a) => a.program_of(),
        }
    }

    open spec fn options_of(&self) -> Option<QueryOptions> {
        match self {
            CommentCommands::List(a) => a.options_of(),
            CommentCommands::Get(a) => a.options_of(),
            CommentCommands::SetText(a) => a.options_of(),
            CommentCommands::Delete(a) => a.options_of(),
        }
    }

    open spec fn bridge_of(&self) -> bool {
        true
    }

    fn project(&self) -> (r: Option<&str>) {
        match self {
            CommentCommands::List(a) => a.project(),
            CommentCommands::Get(a) => a.project(),
            CommentCommands::SetText(a) => a.project(),
            CommentCommands::Delete(a) => a.project(),
        }
    }

    fn program(&self) -> (r: Option<&str>) {
        match self {
            CommentCommands::List(a) => a.program(),
            CommentCommands::Get(a) => a.program(),
            CommentCommands::SetText(a) => a.program(),
            CommentCommands::Delete(a) => a.program(),
        }
    }

    fn query_options(&self) -> (r: Option<QueryOptions>) {
        match self {
            CommentCommands::List(a) => a.query_options(),
            CommentCommands::Get(a) => a.query_options(),
            CommentCommands::SetText(a) => a.query_options(),
            CommentCommands::Delete(a) => a.query_options(),
        }
    }

    fn requires_bridge(&self) -> (r: bool) {
        true
    }
}

/// The `find` subcommands.
#[derive(Clone, Debug)]
pub enum FindCommands {
    String(FindStringArgs),
    Bytes(FindBytesArgs),
    Constant(FindConstantArgs),
    Instruction(FindInstructionArgs),
    Function(FindFunctionArgs),
    Calls(FindCallsArgs),
    Crypto(QueryOptions),
    Interesting(QueryOptions),
}

impl CommandMeta for FindCommands {
    open spec fn project_of(&self) -> Option<Seq<char>> {
        match self {
            FindCommands::String(a) => a.project_of(),
            FindCommands::Bytes(a) => a.project_of(),
            FindCommands::Constant(a) => a.project_of(),
            FindCommands::Instruction(a) => a.project_of(),
            FindCommands::Function(a) => a.project_of(),
            FindCommands::Calls(a) => a.project_of(),
            FindCommands::Crypto(a) => a.project_of(),
            FindCommands::Interesting(a) => a.project_of(),
        }
    }

    open spec fn program_of(&self) -> Option<Seq<char>> {
        match self {
            FindCommands::String(a) => a.program_of(),
            FindCommands::Bytes(a) => a.program_of(),
            FindCommands::Constant(a) => a.program_of(),
            FindCommands::Instruction(a) => a.program_of(),
            FindCommands::Function(a) => a.program_of(),
            FindCommands::Calls(a) => a.program_of(),
            FindCommands::Crypto(a) => a.program_of(),
            FindCommands::Interesting(a) => a.program_of(),
        }
    }

    open spec fn options_of(&self) -> Option<QueryOptions> {
        match self {
            FindCommands::String(a) => a.options_of(),
            FindCommands::Bytes(a) => a.options_of(),
            FindCommands::Constant(a) => a.options_of(),
            FindCommands::Instruction(a) => a.options_of(),
            FindCommands::Function(a) => a.options_of(),
            FindCommands::Calls(a) => a.options_of(),
            FindCommands::Crypto(a) => a.options_of(),
            FindCommands::Interesting(a) => a.options_of(),
        }
    }

    open spec fn bridge_of(&self) -> bool {
        true
    }

    fn project(&self) -> (r: Option<&str>) {
        match self {
            FindCommands::String(a) => a.project(),
            FindCommands::Bytes(a) => a.project(),
            FindCommands::Constant(a) => a.project(),
            FindCommands::Instruction(a) => a.project(),
            FindCommands::Function(a) => a.project(),
            FindCommands::Calls(a) => a.project(),
            FindCommands::Crypto(a) => a.project(),
            FindCommands::Interesting(a) => a.project(),
        }
    }

    fn program(&self) -> (r: Option<&str>) {
        match self {
            FindCommands::String(a) => a.program(),
            FindCommands::Bytes(a) => a.program(),
            FindCommands::Constant(a) => a.program(),
            FindCommands::Instruction(a) => a.program(),
            FindCommands::Function(a) => a.program(),
            FindCommands::Calls(a) => a.program(),
            FindCommands::Crypto(a) => a.program(),
            FindCommands::Interesting(a) => a.program(),
        }
    }

    fn query_options(&self) -> (r: Option<QueryOptions>) {
        match self {
            FindCommands::String(a) => a.query_options(),
            FindCommands::Bytes(a) => a.query_options(),
            FindCommands::Constant(a) => a.query_options(),
            FindCommands::Instruction(a) => a.query_options(),
            FindCommands::Function(a) => a.query_options(),
            FindCommands::Calls(a) => a.query_options(),
            FindCommands::Crypto(a) => a.query_options(),
            FindCommands::Interesting(a) => a.query_options(),
        }
    }

    fn requires_bridge(&self) -> (r: bool) {
        true
    }
}

/// The `graph` subcommands.
#[derive(Clone, Debug)]
pub enum GraphCommands {
    Calls(QueryOptions),
    Callers(GraphFunctionArgs),
    Callees(GraphFunctionArgs),
    Export(GraphExportArgs),
}

impl CommandMeta for GraphCommands {
    open spec fn project_of(&self) -> Option<Seq<char>> {
        match self {
            GraphCommands::Calls(a) => a.project_of(),
            GraphCommands::Callers(a) => a.project_of(),
            GraphCommands::Callees(a) => a.project_of(),
            GraphCommands::Export(a) => a.project_of(),
        }
    }

    open spec fn program_of(&self) -> Option<Seq<char>> {
        match self {
            GraphCommands::Calls(a) => a.program_of(),
            GraphCommands::Callers(a) => a.program_of(),
            GraphCommands::Callees(a) => a.program_of(),
            GraphCommands::Export(a) => a.program_of(),
        }
    }

    open spec fn options_of(&self) -> Option<QueryOptions> {
        match self {
            GraphCommands::Calls(a) => a.options_of(),
            GraphCommands::Callers(a) => a.options_of(),
            GraphCommands::Callees(a) => a.options_of(),
            GraphCommands::Export(a) => a.options_of(),
        }
    }

    open spec fn bridge_of(&self) -> bool {
        true
    }

    fn project(&self) -> (r: Option<&str>) {
        match self {
            GraphCommands::Calls(a) => a.project(),
            GraphCommands::Callers(a) => a.project(),
            GraphCommands::Callees(a) => a.project(),
            GraphCommands::Export(a) => a.project(),
        }
    }

    fn program(&self) -> (r: Option<&str>) {
        match self {
            GraphCommands::Calls(a) => a.program(),
            GraphCommands::Callers(a) => a.program(),
            GraphCommands::Callees(a) => a.program(),
            GraphCommands::Export(a) => a.program(),
        }
    }

    fn query_options(&self) -> (r: Option<QueryOptions>) {
        match self {
            GraphCommands::Calls(a) => a.query_options(),
            GraphCommands::Callers(a) => a.query_options(),
            GraphCommands::Callees(a) => a.query_options(),
            GraphCommands::Export(a) => a.query_options(),
        }
    }

    fn requires_bridge(&self) -> (r: bool) {
        true
    }
}

/// The `diff` subcommands.
#[derive(Clone, Debug)]
pub enum DiffCommands {
    Programs(DiffProgramsArgs),
    Functions(DiffFunctionsArgs),
}

impl CommandMeta for DiffCommands {
    open spec fn project_of(&self) -> Option<Seq<char>> {
        match self {
            DiffCommands::Programs(a) => a.project_of(),
            DiffCommands::Functions(a) => a.project_of(),
        }
    }

    open spec fn program_of(&self) -> Option<Seq<char>> {
        match self {
            DiffCommands::Programs(a) => a.program_of(),
            DiffCommands::Functions(a) => a.program_of(),
        }
    }

    open spec fn options_of(&self) -> Option<QueryOptions> {
        match self {
            DiffCommands::Programs(a) => a.options_of(),
            DiffCommands::Functions(a) => a.options_of(),
        }
    }

    open spec fn bridge_of(&self) -> bool {
        true
    }

    fn project(&self) -> (r: Option<&str>) {
        match self {
            DiffCommands::Programs(a) => a.project(),
            DiffCommands::Functions(a) => a.project(),
        }
    }

    fn program(&self) -> (r: Option<&str>) {
        match self {
            DiffCommands::Programs(a) => a.program(),
            DiffCommands::Functions(a) => a.program(),
        }
    }

    fn query_options(&self) -> (r: Option<QueryOptions>) {
        match self {
            DiffCommands::Programs(a) => a.query_options(),
            DiffCommands::Functions(a) => a.query_options(),
        }
    }

    fn requires_bridge(&self) -> (r: bool) {
        true
    }
}

/// The `dump` subcommands.
#[derive(Clone, Debug)]
pub enum DumpCommands {
    Imports(QueryOptions),
    Exports(QueryOptions),
    Functions(QueryOptions),
    Strings(QueryOptions),
}

impl CommandMeta for DumpCommands {
    open spec fn project_of(&self) -> Option<Seq<char>> {
        match self {
            DumpCommands::Imports(a) => a.project_of(),
            DumpCommands::Exports(a) => a.project_of(),
            DumpCommands::Functions(a) => a.project_of(),
            DumpCommands::Strings(a) => a.project_of(),
        }
    }

    open spec fn program_of(&self) -> Option<Seq<char>> {
        match self {
            DumpCommands::Imports(a) => a.program_of(),
            DumpCommands::Exports(a) => a.program_of(),
            DumpCommands::Functions(a) => a.program_of(),
            DumpCommands::Strings(a) => a.program_of(),
        }
    }

    open spec fn options_of(&self) -> Option<QueryOptions> {
        match self {
            DumpCommands::Imports(a) => a.options_of(),
            DumpCommands::Exports(a) => a.options_of(),
            DumpCommands::Functions(a) => a.options_of(),
            DumpCommands::Strings(a) => a.options_of(),
        }
    }

    open spec fn bridge_of(&self) -> bool {
        true
    }

    fn project(&self) -> (r: Option<&str>) {
        match self {
            DumpCommands::Imports(a) => a.project(),
            DumpCommands::Exports(a) => a.project(),
            DumpCommands::Functions(a) => a.project(),
            DumpCommands::Strings(a) => a.project(),
        }
    }

    fn program(&self) -> (r: Option<&str>) {
        match self {
            DumpCommands::Imports(a) => a.program(),
            DumpCommands::Exports(a) => a.program(),
            DumpCommands::Functions(a) => a.program(),
            DumpCommands::Strings(a) => a.program(),
        }
    }

    fn query_options(&self) -> (r: Option<QueryOptions>) {
        match self {
            DumpCommands::Imports(a) => a.query_options(),
            DumpCommands::Exports(a) => a.query_options(),
            DumpCommands::Functions(a) => a.query_options(),
            DumpCommands::Strings(a) => a.query_options(),
        }
    }

    fn requires_bridge(&self) -> (r: bool) {
        true
    }
}

/// The `patch` subcommands.
#[derive(Clone, Debug)]
pub enum PatchCommands {
    Bytes(PatchBytesArgs),
    Nop(PatchNopArgs),
    Export(PatchExportArgs),
}

impl CommandMeta for PatchCommands {
    open spec fn project_of(&self) -> Option<Seq<char>> {
        match self {
            PatchCommands::Bytes(a) => a.project_of(),
            PatchCommands::Nop(a) => a.project_of(),
            PatchCommands::Export(a) => a.project_of(),
        }
    }

    open spec fn program_of(&self) -> Option<Seq<char>> {
        match self {
            PatchCommands::Bytes(a) => a.program_of(),
            PatchCommands::Nop(a) => a.program_of(),
            PatchCommands::Export(a) => a.program_of(),
        }
    }

    open spec fn options_of(&self) -> Option<QueryOptions> {
        match self {
            PatchCommands::Bytes(a) => a.options_of(),
            PatchCommands::Nop(a) => a.options_of(),
            PatchCommands::Export(a) => a.options_of(),
        }
    }

    open spec fn bridge_of(&self) -> bool {
        true
    }

    fn project(&self) -> (r: Option<&str>) {
        match self {
            PatchCommands::Bytes(a) => a.project(),
            PatchCommands::Nop(a) => a.project(),
            PatchCommands::Export(a) => a.project(),
        }
    }

    fn program(&self) -> (r: Option<&str>) {
        match self {
            PatchCommands::Bytes(a) => a.program(),
            PatchCommands::Nop(a) => a.program(),
            PatchCommands::Export(a) => a.program(),
        }
    }

    fn query_options(&self) -> (r: Option<QueryOptions>) {
        match self {
            PatchCommands::Bytes(a) => a.query_options(),
            PatchCommands::Nop(a) => a.query_options(),
            PatchCommands::Export(a) => a.query_options(),
        }
    }

    fn requires_bridge(&self) -> (r: bool) {
        true
    }
}

/// The `script` subcommands.
#[derive(Clone, Debug)]
pub enum ScriptCommands {
    Run(ScriptRunArgs),
    Python(ScriptInlineArgs),
    Java(ScriptInlineArgs),
    List,
}

impl CommandMeta for ScriptCommands {
    open spec fn project_of(&self) -> Option<Seq<char>> {
        match self {
            ScriptCommands::Run(a) => a.project_of(),
            ScriptCommands::Python(a) => a.project_of(),
            ScriptCommands::Java(a) => a.project_of(),
            ScriptCommands::List => None,
        }
    }

    open spec fn program_of(&self) -> Option<Seq<char>> {
        match self {
            ScriptCommands::Run(a) => a.program_of(),
            ScriptCommands::Python(a) => a.program_of(),
            ScriptCommands::Java(a) => a.program_of(),
            ScriptCommands::List => None,
        }
    }

    open spec fn options_of(&self) -> Option<QueryOptions> {
        match self {
            ScriptCommands::Run(a) => a.options_of(),
            ScriptCommands::Python(a) => a.options_of(),
            ScriptCommands::Java(a) => a.options_of(),
            ScriptCommands::List => None,
        }
    }

    open spec fn bridge_of(&self) -> bool {
        true
    }

    fn project(&self) -> (r: Option<&str>) {
        match self {
            ScriptCommands::Run(a) => a.project(),
            ScriptCommands::Python(a) => a.project(),
            ScriptCommands::Java(a) => a.project(),
            ScriptCommands::List => None,
        }
    }

    fn program(&self) -> (r: Option<&str>) {
        match self {
            ScriptCommands::Run(a) => a.program(),
            ScriptCommands::Python(a) => a.program(),
            ScriptCommands::Java(a) => a.program(),
            ScriptCommands::List => None,
        }
    }

    fn query_options(&self) -> (r: Option<QueryOptions>) {
        match self {
            ScriptCommands::Run(a) => a.query_options(),
            ScriptCommands::Python(a) => a.query_options(),
            ScriptCommands::Java(a) => a.query_options(),
            ScriptCommands::List => None,
        }
    }

    fn requires_bridge(&self) -> (r: bool) {
        true
    }
}

/// The `config` subcommands.
#[derive(Clone, Debug)]
pub enum ConfigCommands {
    List,
    Get { key: String },
    SetValue { key: String, value: String },
    Reset,
}

/// The commands.
#[derive(Clone, Debug)]
pub enum Commands {
    /// Universal query command for any data type
    Query(QueryArgs),
    /// Project management commands
    Project(ProjectArgs),
    /// Program/binary management commands
    Program(ProgramCommands),
    /// Function operations
    Function(FunctionCommands),
    /// String operations
    Strings(StringsCommands),
    /// Symbol operations
    Symbol(SymbolCommands),
    /// Memory operations
    Memory(MemoryCommands),
    /// Cross-reference operations
    XRef(XRefCommands),
    /// Type operations
    Type(TypeCommands),
    /// Function tag operations
    Tag(TagCommands),
    /// Comment operations
    Comment(CommentCommands),
    /// Search operations
    Find(FindCommands),
    /// Graph operations
    Graph(GraphCommands),
    /// Decompile function
    Decompile(DecompileArgs),
    /// Disassemble code
    Disasm(DisasmArgs),
    /// Decompile several addresses in one bridge round trip
    DecompileMulti(DecompileMultiArgs),
    /// Send a raw bridge command with a JSON args payload
    Raw(RawArgs),
    /// Diff operations
    Diff(DiffCommands),
    /// Dump/export data
    Dump(DumpCommands),
    /// Patch binary
    Patch(PatchCommands),
    /// Script execution
    Script(ScriptCommands),
    /// Batch operations
    Batch(BatchArgs),
    /// Configuration management
    Config(ConfigCommands),
    /// Set default values
    SetDefault(SetDefaultArgs),
    /// Program summary
    Summary(SummaryArgs),
    /// Program statistics
    Stats(StatsArgs),
    /// Show version information
    Version,
    /// Check Ghidra installation
    Doctor,
    /// Initialize configuration
    Init,
    /// Import a binary into a project
    Import(ImportArgs),
    /// Analyze a program
    Analyze(AnalyzeArgs),
    /// Start the bridge
    Start(BridgeTargetArgs),
    /// Stop the bridge
    Stop(BridgeTargetArgs),
    /// Restart the bridge
    Restart(BridgeTargetArgs),
    /// Show bridge status
    Status(BridgeTargetArgs),
    /// Ping the bridge
    Ping(BridgeTargetArgs),
    /// List active, queued, and recently completed bridge jobs
    Jobs { job_id: Option<u64>, target: BridgeTargetArgs },
    /// Request cooperative cancellation of a bridge job
    Cancel { job_id: Option<u64>, target: BridgeTargetArgs },
    /// Download and setup Ghidra automatically
    Setup(SetupArgs),
    /// Rename a symbol (shortcut for `symbol rename`)
    Rename(RenameArgs),
}

impl CommandMeta for Commands {
    open spec fn project_of(&self) -> Option<Seq<char>> {
        match self {
            Commands::Query(a) => a.project_of(),
            Commands::Program(a) => a.project_of(),
            Commands::Function(a) => a.project_of(),
            Commands::Strings(a) => a.project_of(),
            Commands::Symbol(a) => a.project_of(),
            Commands::Memory(a) => a.project_of(),
            Commands::XRef(a) => a.project_of(),
            Commands::Type(a) => a.project_of(),
            Commands::Tag(a) => a.project_of(),
            Commands::Comment(a) => a.project_of(),
            Commands::Find(a) => a.project_of(),
            Commands::Graph(a) => a.project_of(),
            Commands::Decompile(a) => a.project_of(),
            Commands::Disasm(a) => a.project_of(),
            Commands::DecompileMulti(a) => a.project_of(),
            Commands::Raw(a) => a.project_of(),
            Commands::Diff(a) => a.project_of(),
            Commands::Dump(a) => a.project_of(),
            Commands::Patch(a) => a.project_of(),
            Commands::Script(a) => a.project_of(),
            Commands::Batch(a) => a.project_of(),
            Commands::Summary(a) => a.project_of(),
            Commands::Stats(a) => a.project_of(),
            Commands::Import(a) => a.project_of(),
            Commands::Analyze(a) => a.project_of(),
            Commands::Rename(a) => a.project_of(),
            _ => None,
        }
    }

    open spec fn program_of(&self) -> Option<Seq<char>> {
        match self {
            Commands::Query(a) => a.program_of(),
            Commands::Program(a) => a.program_of(),
            Commands::Function(a) => a.program_of(),
            Commands::Strings(a) => a.program_of(),
            Commands::Symbol(a) => a.program_of(),
            Commands::Memory(a) => a.program_of(),
            Commands::XRef(a) => a.program_of(),
            Commands::Type(a) => a.program_of(),
            Commands::Tag(a) => a.program_of(),
            Commands::Comment(a) => a.program_of(),
            Commands::Find(a) => a.program_of(),
            Commands::Graph(a) => a.program_of(),
            Commands::Decompile(a) => a.program_of(),
            Commands::Disasm(a) => a.program_of(),
            Commands::DecompileMulti(a) => a.program_of(),
            Commands::Raw(a) => a.program_of(),
            Commands::Diff(a) => a.program_of(),
            Commands::Dump(a) => a.program_of(),
            Commands::Patch(a) => a.program_of(),
            Commands::Script(a) => a.program_of(),
            Commands::Batch(a) => a.program_of(),
            Commands::Summary(a) => a.program_of(),
            Commands::Stats(a) => a.program_of(),
            Commands::Import(a) => a.program_of(),
            Commands::Analyze(a) => a.program_of(),
            Commands::Rename(a) => a.program_of(),
            _ => None,
        }
    }

    open spec fn options_of(&self) -> Option<QueryOptions> {
        match self {
            Commands::Query(a) => a.options_of(),
            Commands::Program(a) => a.options_of(),
            Commands::Function(a) => a.options_of(),
            Commands::Strings(a) => a.options_of(),
            Commands::Symbol(a) => a.options_of(),
            Commands::Memory(a) => a.options_of(),
            Commands::XRef(a) => a.options_of(),
            Commands::Type(a) => a.options_of(),
            Commands::Tag(a) => a.options_of(),
            Commands::Comment(a) => a.options_of(),
            Commands::Find(a) => a.options_of(),
            Commands::Graph(a) => a.options_of(),
            Commands::Decompile(a) => a.options_of(),
            Commands::Disasm(a) => a.options_of(),
            Commands::DecompileMulti(a) => a.options_of(),
            Commands::Raw(a) => a.options_of(),
            Commands::Diff(a) => a.options_of(),
            Commands::Dump(a) => a.options_of(),
            Commands::Patch(a) => a.options_of(),
            Commands::Script(a) => a.options_of(),
            Commands::Batch(a) => a.options_of(),
            Commands::Summary(a) => a.options_of(),
            Commands::Stats(a) => a.options_of(),
            Commands::Import(a) => a.options_of(),
            Commands::Analyze(a) => a.options_of(),
            Commands::Rename(a) => a.options_of(),
            _ => None,
        }
    }

    /// The bridge groups: analysis, queries, mutations, scripts and
    /// program management; project, config, setup and the bridge's own
    /// lifecycle commands run without it.
    open spec fn bridge_of(&self) -> bool {
        ||| self is Query
        ||| self is Program
        ||| self is Function
        ||| self is Strings
        ||| self is Symbol
        ||| self is Memory
        ||| self is XRef
        ||| self is Type
        ||| self is Tag
        ||| self is Comment
        ||| self is Find
        ||| self is Graph
        ||| self is Decompile
        ||| self is Disasm
        ||| self is DecompileMulti
        ||| self is Raw
        ||| self is Diff
        ||| self is Dump
        ||| self is Patch
        ||| self is Script
        ||| self is Batch
        ||| self is Summary
        ||| self is Stats
        ||| self is Import
        ||| self is Analyze
        ||| self is Rename
    }

    fn project(&self) -> (r: Option<&str>) {
        match self {
            Commands::Query(a) => a.project(),
            Commands::Program(a) => a.project(),
            Commands::Function(a) => a.project(),
            Commands::Strings(a) => a.project(),
            Commands::Symbol(a) => a.project(),
            Commands::Memory(a) => a.project(),
            Commands::XRef(a) => a.project(),
            Commands::Type(a) => a.project(),
            Commands::Tag(a) => a.project(),
            Commands::Comment(a) => a.project(),
            Commands::Find(a) => a.project(),
            Commands::Graph(a) => a.project(),
            Commands::Decompile(a) => a.project(),
            Commands::Disasm(a) => a.project(),
            Commands::DecompileMulti(a) => a.project(),
            Commands::Raw(a) => a.project(),
            Commands::Diff(a) => a.project(),
            Commands::Dump(a) => a.project(),
            Commands::Patch(a) => a.project(),
            Commands::Script(a) => a.project(),
            Commands::Batch(a) => a.project(),
            Commands::Summary(a) => a.project(),
            Commands::Stats(a) => a.project(),
            Commands::Import(a) => a.project(),
            Commands::Analyze(a) => a.project(),
            Commands::Rename(a) => a.project(),
            _ => None,
        }
    }

    fn program(&self) -> (r: Option<&str>) {
        match self {
            Commands::Query(a) => a.program(),
            Commands::Program(a) => a.program(),
            Commands::Function(a) => a.program(),
            Commands::Strings(a) => a.program(),
            Commands::Symbol(a) => a.program(),
            Commands::Memory(a) => a.program(),
            Commands::XRef(a) => a.program(),
            Commands::Type(a) => a.program(),
            Commands::Tag(a) => a.program(),
            Commands::Comment(a) => a.program(),
            Commands::Find(a) => a.program(),
            Commands::Graph(a) => a.program(),
            Commands::Decompile(a) => a.program(),
            Commands::Disasm(a) => a.program(),
            Commands::DecompileMulti(a) => a.program(),
            Commands::Raw(a) => a.program(),
            Commands::Diff(a) => a.program(),
            Commands::Dump(a) => a.program(),
            Commands::Patch(a) => a.program(),
            Commands::Script(a) => a.program(),
            Commands::Batch(a) => a.program(),
            Commands::Summary(a) => a.program(),
            Commands::Stats(a) => a.program(),
            Commands::Import(a) => a.program(),
            Commands::Analyze(a) => a.program(),
            Commands::Rename(a) => a.program(),
            _ => None,
        }
    }

    fn query_options(&self) -> (r: Option<QueryOptions>) {
        match self {
            Commands::Query(a) => a.query_options(),
            Commands::Program(a) => a.query_options(),
            Commands::Function(a) => a.query_options(),
            Commands::Strings(a) => a.query_options(),
            Commands::Symbol(a) => a.query_options(),
            Commands::Memory(a) => a.query_options(),
            Commands::XRef(a) => a.query_options(),
            Commands::Type(a) => a.query_options(),
            Commands::Tag(a) => a.query_options(),
            Commands::Comment(a) => a.query_options(),
            Commands::Find(a) => a.query_options(),
            Commands::Graph(a) => a.query_options(),
            Commands::Decompile(a) => a.query_options(),
            Commands::Disasm(a) => a.query_options(),
            Commands::DecompileMulti(a) => a.query_options(),
            Commands::Raw(a) => a.query_options(),
            Commands::Diff(a) => a.query_options(),
            Commands::Dump(a) => a.query_options(),
            Commands::Patch(a) => a.query_options(),
            Commands::Script(a) => a.query_options(),
            Commands::Batch(a) => a.query_options(),
            Commands::Summary(a) => a.query_options(),
            Commands::Stats(a) => a.query_options(),
            Commands::Import(a) => a.query_options(),
            Commands::Analyze(a) => a.query_options(),
            Commands::Rename(a) => a.query_options(),
            _ => None,
        }
    }

    fn requires_bridge(&self) -> (r: bool) {
        match self {
            Commands::Query(_) => true,
            Commands::Project(_) => false,
            Commands::Program(_) => true,
            Commands::Function(_) => true,
            Commands::Strings(_) => true,
            Commands::Symbol(_) => true,
            Commands::Memory(_) => true,
            Commands::XRef(_) => true,
            Commands::Type(_) => true,
            Commands::Tag(_) => true,
            Commands::Comment(_) => true,
            Commands::Find(_) => true,
            Commands::Graph(_) => true,
            Commands::Decompile(_) => true,
            Commands::Disasm(_) => true,
            Commands::DecompileMulti(_) => true,
            Commands::Raw(_) => true,
            Commands::Diff(_) => true,
            Commands::Dump(_) => true,
            Commands::Patch(_) => true,
            Commands::Script(_) => true,
            Commands::Batch(_) => true,
            Commands::Config(_) => false,
            Commands::SetDefault(_) => false,
            Commands::Summary(_) => true,
            Commands::Stats(_) => true,
            Commands::Version => false,
            Commands::Doctor => false,
            Commands::Init => false,
            Commands::Import(_) => true,
            Commands::Analyze(_) => true,
            Commands::Start(_) => false,
            Commands::Stop(_) => false,
            Commands::Restart(_) => false,
            Commands::Status(_) => false,
            Commands::Ping(_) => false,
            Commands::Jobs { .. } => false,
            Commands::Cancel { .. } => false,
            Commands::Setup(_) => false,
            Commands::Rename(_) => true,
        }
    }
}

} // verus!
