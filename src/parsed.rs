use vstd::prelude::*;

verus! {

/// A span of lines and bytes in a source file.
#[derive(Debug, Clone, Copy, PartialEq, Eq, Structural)]
pub struct Range {
    pub start_line: usize,
    pub end_line: usize,
    pub start_byte: usize,
    pub end_byte: usize,
}

#[derive(Debug, Clone, Copy, PartialEq, Eq, Structural)]
pub enum SymbolType {
    File,
    Module,
    Namespace,
    Package,
    Class,
    Method,
    Property,
    Field,
    Constructor,
    Enum,
    Interface,
    Function,
    Variable,
    Constant,
    String,
    Number,
    Boolean,
    Array,
    Object,
    Key,
    Null,
    EnumMember,
    Struct,
    Event,
    Operator,
    TypeParameter,
    /// A UI component.
    Component,
    /// A React hook.
    Hook,
}

pub struct Parameter {
    pub name: String,
    pub type_annotation: Option<String>,
    pub default_value: Option<String>,
    pub is_optional: bool,
}

#[derive(Debug, Clone, Copy, PartialEq, Eq, Structural, Default)]
pub enum AccessModifier {
    #[default]
    Public,
    Private,
    Protected,
    Internal,
}

pub struct Import {
    pub source: String,
    pub names: Vec<ImportName>,
    pub range: Range,
}

pub struct ImportName {
    pub name: String,
    pub alias: Option<String>,
    pub is_default: bool,
    pub is_namespace: bool,
    pub is_type: bool,
}

pub struct Export {
    pub name: String,
    pub alias: Option<String>,
    pub is_default: bool,
    pub is_type: bool,
    pub range: Range,
}

pub struct DesignToken {
    pub token_type: DesignTokenType,
    pub name: String,
    pub value: String,
    /// Where it was found (a class name, a style prop, ...).
    pub context: String,
    pub range: Range,
}

#[derive(Debug, Clone, Copy, PartialEq, Eq, Structural)]
pub enum DesignTokenType {
    Color,
    Spacing,
    Typography,
    BorderRadius,
    Shadow,
    TailwindClass,
    CSSVariable,
    FontFamily,
    FontSize,
    FontWeight,
    ZIndex,
    Breakpoint,
    Animation,
    Transition,
    Opacity,
}

pub struct JSDoc {
    pub description: String,
    pub params: Vec<JSDocParam>,
    pub returns: Option<String>,
    pub examples: Vec<String>,
    pub deprecated: Option<String>,
    pub see: Vec<String>,
}

pub struct JSDocParam {
    pub name: String,
    pub type_info: Option<String>,
    pub description: Option<String>,
}

pub struct PropDefinition {
    pub name: String,
    pub type_annotation: Option<String>,
    pub is_required: bool,
    pub default_value: Option<String>,
    pub description: Option<String>,
    pub validation: Option<String>,
}

pub struct TypeDefinition {
    pub name: String,
    pub kind: TypeKind,
    pub definition: String,
    pub properties: Vec<TypeProperty>,
    pub generic_params: Vec<String>,
    pub range: Range,
}

#[derive(Debug, Clone, Copy, PartialEq, Eq, Structural)]
pub enum TypeKind {
    Interface,
    TypeAlias,
    Enum,
    Union,
    Intersection,
}

pub struct TypeProperty {
    pub name: String,
    pub type_annotation: String,
    pub is_optional: bool,
    pub description: Option<String>,
}

pub struct Constant {
    pub name: String,
    pub value: String,
    pub type_annotation: Option<String>,
    pub category: ConstantCategory,
    pub range: Range,
}

#[derive(Debug, Clone, Copy, PartialEq, Eq, Structural)]
pub enum ConstantCategory {
    Config,
    APIEndpoint,
    ErrorMessage,
    DefaultValue,
    Other,
}

pub struct ValidationSchema {
    pub name: String,
    pub schema_type: SchemaType,
    pub definition: String,
    pub fields: Vec<SchemaField>,
    pub range: Range,
}

pub enum SchemaType {
    Zod,
    Yup,
    JoiCustom,
    Other(String),
}

pub struct SchemaField {
    pub name: String,
    pub validation_rules: Vec<String>,
    pub is_required: bool,
    pub default_value: Option<String>,
    pub type_annotation: Option<String>,
    pub is_optional: bool,
    pub validators: Vec<String>,
    pub description: Option<String>,
}

} // verus!
