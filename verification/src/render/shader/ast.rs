//! GLSL syntax, as the shader module system reads it.
//!
//! These types follow the abstract syntax of the `glsl` crate. Everything the module system
//! inspects (qualifiers, types, array specifiers, struct fields, declarations, function
//! prototypes) is held as plain values; the parts it only carries along (array size
//! expressions, initializers, layout qualifiers, function bodies and preprocessor directives)
//! keep the `glsl` crate's own types.
//!
//! Each type has a view (`@`) into a purely mathematical mirror, in which strings are `Seq<char>`
//! and vectors are `Seq`s of views. Contracts are stated over those views.

use vstd::prelude::*;

pub use glsl::syntax::{CompoundStatement, Expr, Initializer, LayoutQualifier, Preprocessor};

verus! {

#[verifier::external_type_specification]
#[verifier::external_body]
pub struct ExExpr(glsl::syntax::Expr);

#[verifier::external_type_specification]
#[verifier::external_body]
pub struct ExInitializer(glsl::syntax::Initializer);

#[verifier::external_type_specification]
#[verifier::external_body]
pub struct ExLayoutQualifier(glsl::syntax::LayoutQualifier);

#[verifier::external_type_specification]
#[verifier::external_body]
pub struct ExCompoundStatement(glsl::syntax::CompoundStatement);

#[verifier::external_type_specification]
#[verifier::external_body]
pub struct ExPreprocessor(glsl::syntax::Preprocessor);

/// Calls `<glsl::syntax::Expr as Clone>::clone`, a derived clone: the copy is the same value
/// as the original.
#[verifier::external_body]
fn clone_expr(e: &Expr) -> (res: Expr)
    ensures
        res == *e,
{
    e.clone()
}

/// Dimensionality of an array.
#[derive(Debug, PartialEq)]
pub enum ArraySpecifier {
    Unsized,
    ExplicitlySized(Box<Expr>),
}

fn clone_array_specifier(a: &ArraySpecifier) -> (res: ArraySpecifier)
    ensures
        res == *a,
{
    match a {
        ArraySpecifier::Unsized => ArraySpecifier::Unsized,
        ArraySpecifier::ExplicitlySized(e) => ArraySpecifier::ExplicitlySized(
            Box::new(clone_expr(e)),
        ),
    }
}

/// Calls `<glsl::syntax::Initializer as Clone>::clone`, a derived clone: the copy is the same
/// value as the original.
#[verifier::external_body]
fn clone_initializer(a: &Initializer) -> (res: Initializer)
    ensures
        res == *a,
{
    a.clone()
}

/// Calls `<glsl::syntax::LayoutQualifier as Clone>::clone`, a derived clone: the copy is the
/// same value as the original.
#[verifier::external_body]
fn clone_layout_qualifier(a: &LayoutQualifier) -> (res: LayoutQualifier)
    ensures
        res == *a,
{
    a.clone()
}

/// Calls `<glsl::syntax::CompoundStatement as Clone>::clone`, a derived clone: the copy is the
/// same value as the original.
#[verifier::external_body]
fn clone_compound_statement(a: &CompoundStatement) -> (res: CompoundStatement)
    ensures
        res == *a,
{
    a.clone()
}

/// Calls `<glsl::syntax::Preprocessor as Clone>::clone`, a derived clone: the copy is the same
/// value as the original.
#[verifier::external_body]
fn clone_preprocessor(a: &Preprocessor) -> (res: Preprocessor)
    ensures
        res == *a,
{
    a.clone()
}

/// Copy an array specifier.
pub fn clone_array_spec(a: &ArraySpecifier) -> (res: ArraySpecifier)
    ensures
        res == *a,
{
    clone_array_specifier(a)
}

fn clone_opt_array_specifier(a: &Option<ArraySpecifier>) -> (res: Option<ArraySpecifier>)
    ensures
        res == *a,
{
    match a {
        Some(x) => Some(clone_array_specifier(x)),
        None => None,
    }
}

fn clone_opt_initializer(a: &Option<Initializer>) -> (res: Option<Initializer>)
    ensures
        res == *a,
{
    match a {
        Some(x) => Some(clone_initializer(x)),
        None => None,
    }
}

/// Clone a string; the copy has the same characters.
pub fn clone_string(s: &String) -> (res: String)
    ensures
        res@ == s@,
{
    s.clone()
}

/// A generic identifier.
#[derive(Debug, PartialEq)]
pub struct Identifier(pub String);

/// Any type name.
#[derive(Debug, PartialEq)]
pub struct TypeName(pub String);

impl View for Identifier {
    type V = Seq<char>;

    open spec fn view(&self) -> Seq<char> {
        self.0@
    }
}

impl View for TypeName {
    type V = Seq<char>;

    open spec fn view(&self) -> Seq<char> {
        self.0@
    }
}

impl Clone for Identifier {
    fn clone(&self) -> (res: Self)
        ensures
            res@ == self@,
    {
        Identifier(clone_string(&self.0))
    }
}

impl Clone for TypeName {
    fn clone(&self) -> (res: Self)
        ensures
            res@ == self@,
    {
        TypeName(clone_string(&self.0))
    }
}

pub open spec fn opt_name_view(n: Option<Identifier>) -> Option<Seq<char>> {
    match n {
        Some(i) => Some(i@),
        None => None,
    }
}

pub open spec fn opt_type_name_view(n: Option<TypeName>) -> Option<Seq<char>> {
    match n {
        Some(i) => Some(i@),
        None => None,
    }
}

fn clone_opt_identifier(a: &Option<Identifier>) -> (res: Option<Identifier>)
    ensures
        opt_name_view(res) == opt_name_view(*a),
{
    match a {
        Some(x) => Some(x.clone()),
        None => None,
    }
}

fn clone_opt_type_name(a: &Option<TypeName>) -> (res: Option<TypeName>)
    ensures
        opt_type_name_view(res) == opt_type_name_view(*a),
{
    match a {
        Some(x) => Some(x.clone()),
        None => None,
    }
}

/// Transparent (non-opaque, non-user-defined) GLSL types.
#[derive(Clone, Copy, Debug, PartialEq, Eq, Structural)]
pub enum BasicType {
    Void,
    Bool,
    Int,
    UInt,
    Float,
    Double,
    Vec2,
    Vec3,
    Vec4,
    DVec2,
    DVec3,
    DVec4,
    BVec2,
    BVec3,
    BVec4,
    IVec2,
    IVec3,
    IVec4,
    UVec2,
    UVec3,
    UVec4,
    Mat2,
    Mat3,
    Mat4,
    Mat23,
    Mat24,
    Mat32,
    Mat34,
    Mat42,
    Mat43,
    DMat2,
    DMat3,
    DMat4,
    DMat23,
    DMat24,
    DMat32,
    DMat34,
    DMat42,
    DMat43,
}

/// Sampler, image and atomic counter types.
#[derive(Clone, Copy, Debug, PartialEq, Eq, Structural)]
pub enum OpaqueType {
    Sampler1D,
    Image1D,
    Sampler2D,
    Image2D,
    Sampler3D,
    Image3D,
    SamplerCube,
    ImageCube,
    Sampler2DRect,
    Image2DRect,
    Sampler1DArray,
    Image1DArray,
    Sampler2DArray,
    Image2DArray,
    SamplerBuffer,
    ImageBuffer,
    Sampler2DMS,
    Image2DMS,
    Sampler2DMSArray,
    Image2DMSArray,
    SamplerCubeArray,
    ImageCubeArray,
    Sampler1DShadow,
    Sampler2DShadow,
    Sampler2DRectShadow,
    Sampler1DArrayShadow,
    Sampler2DArrayShadow,
    SamplerCubeShadow,
    SamplerCubeArrayShadow,
    ISampler1D,
    IImage1D,
    ISampler2D,
    IImage2D,
    ISampler3D,
    IImage3D,
    ISamplerCube,
    IImageCube,
    ISampler2DRect,
    IImage2DRect,
    ISampler1DArray,
    IImage1DArray,
    ISampler2DArray,
    IImage2DArray,
    ISamplerBuffer,
    IImageBuffer,
    ISampler2DMS,
    IImage2DMS,
    ISampler2DMSArray,
    IImage2DMSArray,
    ISamplerCubeArray,
    IImageCubeArray,
    AtomicUInt,
    USampler1D,
    UImage1D,
    USampler2D,
    UImage2D,
    USampler3D,
    UImage3D,
    USamplerCube,
    UImageCube,
    USampler2DRect,
    UImage2DRect,
    USampler1DArray,
    UImage1DArray,
    USampler2DArray,
    UImage2DArray,
    USamplerBuffer,
    UImageBuffer,
    USampler2DMS,
    UImage2DMS,
    USampler2DMSArray,
    UImage2DMSArray,
    USamplerCubeArray,
    UImageCubeArray,
}

/// Precision qualifier.
#[derive(Clone, Copy, Debug, PartialEq, Eq, Structural)]
pub enum PrecisionQualifier {
    High,
    Medium,
    Low,
}

/// Interpolation qualifier.
#[derive(Clone, Copy, Debug, PartialEq, Eq, Structural)]
pub enum InterpolationQualifier {
    Smooth,
    Flat,
    NoPerspective,
}

/// Storage qualifier.
#[derive(Debug, PartialEq)]
pub enum StorageQualifier {
    Const,
    InOut,
    In,
    Out,
    Centroid,
    Patch,
    Sample,
    Uniform,
    Attribute,
    Varying,
    Buffer,
    Shared,
    Coherent,
    Volatile,
    Restrict,
    ReadOnly,
    WriteOnly,
    Subroutine(Vec<TypeName>),
}

/// Type qualifier spec.
#[derive(Debug, PartialEq)]
pub enum TypeQualifierSpec {
    Storage(StorageQualifier),
    Layout(LayoutQualifier),
    Precision(PrecisionQualifier),
    Interpolation(InterpolationQualifier),
    Invariant,
    Precise,
}

/// Type qualifier: a non-empty list of qualifier specs.
#[derive(Debug, PartialEq)]
pub struct TypeQualifier {
    pub qualifiers: Vec<TypeQualifierSpec>,
}

/// Type specifier (non-array).
#[derive(Debug, PartialEq)]
pub enum TypeSpecifierNonArray {
    /// A transparent type.
    Basic(BasicType),
    /// An inline struct definition.
    Struct(StructSpecifier),
    /// A user-defined type, by name.
    TypeName(TypeName),
    /// A sampler, image or atomic counter type.
    Opaque(OpaqueType),
}

/// Type specifier.
#[derive(Debug, PartialEq)]
pub struct TypeSpecifier {
    pub ty: TypeSpecifierNonArray,
    pub array_specifier: Option<ArraySpecifier>,
}

/// Struct specifier. Used to create new, user-defined types.
#[derive(Debug, PartialEq)]
pub struct StructSpecifier {
    pub name: Option<TypeName>,
    pub fields: Vec<StructFieldSpecifier>,
}

/// Struct field specifier. Used to add fields to struct specifiers.
#[derive(Debug, PartialEq)]
pub struct StructFieldSpecifier {
    pub qualifier: Option<TypeQualifier>,
    pub ty: TypeSpecifier,
    /// Several identifiers of the same type.
    pub identifiers: Vec<ArrayedIdentifier>,
}

/// An identifier with an optional array specifier.
#[derive(Debug, PartialEq)]
pub struct ArrayedIdentifier {
    pub ident: Identifier,
    pub array_spec: Option<ArraySpecifier>,
}

/// Fully specified type.
#[derive(Debug, PartialEq)]
pub struct FullySpecifiedType {
    pub qualifier: Option<TypeQualifier>,
    pub ty: TypeSpecifier,
}

/// Single declaration.
#[derive(Debug, PartialEq)]
pub struct SingleDeclaration {
    pub ty: FullySpecifiedType,
    pub name: Option<Identifier>,
    pub array_specifier: Option<ArraySpecifier>,
    pub initializer: Option<Initializer>,
}

/// A single declaration with implicit, already-defined type.
#[derive(Debug, PartialEq)]
pub struct SingleDeclarationNoType {
    pub ident: ArrayedIdentifier,
    pub initializer: Option<Initializer>,
}

/// Init declarator list.
#[derive(Debug, PartialEq)]
pub struct InitDeclaratorList {
    pub head: SingleDeclaration,
    pub tail: Vec<SingleDeclarationNoType>,
}

/// A general purpose block, containing fields and possibly a list of declared identifiers.
/// Semantic is given with the storage qualifier.
#[derive(Debug, PartialEq)]
pub struct InterfaceBlock {
    pub qualifier: TypeQualifier,
    pub name: Identifier,
    pub fields: Vec<StructFieldSpecifier>,
    pub identifier: Option<ArrayedIdentifier>,
}

/// A declaration.
#[derive(Debug, PartialEq)]
pub enum Declaration {
    FunctionPrototype(FunctionPrototype),
    InitDeclaratorList(InitDeclaratorList),
    Precision(PrecisionQualifier, TypeSpecifier),
    Block(InterfaceBlock),
    Global(TypeQualifier, Vec<Identifier>),
}

/// Function parameter declarator.
#[derive(Debug, PartialEq)]
pub struct FunctionParameterDeclarator {
    pub ty: TypeSpecifier,
    pub ident: ArrayedIdentifier,
}

/// Function parameter declaration.
#[derive(Debug, PartialEq)]
pub enum FunctionParameterDeclaration {
    Named(Option<TypeQualifier>, FunctionParameterDeclarator),
    Unnamed(Option<TypeQualifier>, TypeSpecifier),
}

/// Function prototype.
#[derive(Debug, PartialEq)]
pub struct FunctionPrototype {
    pub ty: FullySpecifiedType,
    pub name: Identifier,
    pub parameters: Vec<FunctionParameterDeclaration>,
}

/// Function definition.
#[derive(Debug, PartialEq)]
pub struct FunctionDefinition {
    pub prototype: FunctionPrototype,
    pub statement: CompoundStatement,
}

/// External declaration.
#[derive(Debug, PartialEq)]
pub enum ExternalDeclaration {
    Preprocessor(Preprocessor),
    FunctionDefinition(FunctionDefinition),
    Declaration(Declaration),
}

// ------------------------------------------------------------------------------------------------
// Mathematical mirror of the syntax.

pub enum SpecStorageQualifier {
    Const,
    InOut,
    In,
    Out,
    Centroid,
    Patch,
    Sample,
    Uniform,
    Attribute,
    Varying,
    Buffer,
    Shared,
    Coherent,
    Volatile,
    Restrict,
    ReadOnly,
    WriteOnly,
    Subroutine(Seq<Seq<char>>),
}

pub enum SpecTypeQualifierSpec {
    Storage(SpecStorageQualifier),
    Layout(LayoutQualifier),
    Precision(PrecisionQualifier),
    Interpolation(InterpolationQualifier),
    Invariant,
    Precise,
}

pub enum SpecTypeSpecifierNonArray {
    Basic(BasicType),
    Struct(SpecStructSpecifier),
    TypeName(Seq<char>),
    Opaque(OpaqueType),
}

pub struct SpecTypeSpecifier {
    pub ty: SpecTypeSpecifierNonArray,
    pub array_specifier: Option<ArraySpecifier>,
}

pub struct SpecStructSpecifier {
    pub name: Option<Seq<char>>,
    pub fields: Seq<SpecStructFieldSpecifier>,
}

pub struct SpecStructFieldSpecifier {
    pub qualifier: Option<Seq<SpecTypeQualifierSpec>>,
    pub ty: SpecTypeSpecifier,
    pub identifiers: Seq<SpecArrayedIdentifier>,
}

pub struct SpecArrayedIdentifier {
    pub ident: Seq<char>,
    pub array_spec: Option<ArraySpecifier>,
}

pub struct SpecFullySpecifiedType {
    pub qualifier: Option<Seq<SpecTypeQualifierSpec>>,
    pub ty: SpecTypeSpecifier,
}

pub struct SpecSingleDeclaration {
    pub ty: SpecFullySpecifiedType,
    pub name: Option<Seq<char>>,
    pub array_specifier: Option<ArraySpecifier>,
    pub initializer: Option<Initializer>,
}

pub struct SpecSingleDeclarationNoType {
    pub ident: SpecArrayedIdentifier,
    pub initializer: Option<Initializer>,
}

pub struct SpecInitDeclaratorList {
    pub head: SpecSingleDeclaration,
    pub tail: Seq<SpecSingleDeclarationNoType>,
}

pub struct SpecInterfaceBlock {
    pub qualifier: Seq<SpecTypeQualifierSpec>,
    pub name: Seq<char>,
    pub fields: Seq<SpecStructFieldSpecifier>,
    pub identifier: Option<SpecArrayedIdentifier>,
}

pub enum SpecDeclaration {
    FunctionPrototype(SpecFunctionPrototype),
    InitDeclaratorList(SpecInitDeclaratorList),
    Precision(PrecisionQualifier, SpecTypeSpecifier),
    Block(SpecInterfaceBlock),
    Global(Seq<SpecTypeQualifierSpec>, Seq<Seq<char>>),
}

pub struct SpecFunctionParameterDeclarator {
    pub ty: SpecTypeSpecifier,
    pub ident: SpecArrayedIdentifier,
}

pub enum SpecFunctionParameterDeclaration {
    Named(Option<Seq<SpecTypeQualifierSpec>>, SpecFunctionParameterDeclarator),
    Unnamed(Option<Seq<SpecTypeQualifierSpec>>, SpecTypeSpecifier),
}

pub struct SpecFunctionPrototype {
    pub ty: SpecFullySpecifiedType,
    pub name: Seq<char>,
    pub parameters: Seq<SpecFunctionParameterDeclaration>,
}

pub struct SpecFunctionDefinition {
    pub prototype: SpecFunctionPrototype,
    pub statement: CompoundStatement,
}

pub enum SpecExternalDeclaration {
    Preprocessor(Preprocessor),
    FunctionDefinition(SpecFunctionDefinition),
    Declaration(SpecDeclaration),
}

// ------------------------------------------------------------------------------------------------
// Views.

pub open spec fn type_names_view(s: Seq<TypeName>) -> Seq<Seq<char>> {
    s.map_values(|n: TypeName| n@)
}

impl View for StorageQualifier {
    type V = SpecStorageQualifier;

    open spec fn view(&self) -> SpecStorageQualifier {
        match self {
            StorageQualifier::Const => SpecStorageQualifier::Const,
            StorageQualifier::InOut => SpecStorageQualifier::InOut,
            StorageQualifier::In => SpecStorageQualifier::In,
            StorageQualifier::Out => SpecStorageQualifier::Out,
            StorageQualifier::Centroid => SpecStorageQualifier::Centroid,
            StorageQualifier::Patch => SpecStorageQualifier::Patch,
            StorageQualifier::Sample => SpecStorageQualifier::Sample,
            StorageQualifier::Uniform => SpecStorageQualifier::Uniform,
            StorageQualifier::Attribute => SpecStorageQualifier::Attribute,
            StorageQualifier::Varying => SpecStorageQualifier::Varying,
            StorageQualifier::Buffer => SpecStorageQualifier::Buffer,
            StorageQualifier::Shared => SpecStorageQualifier::Shared,
            StorageQualifier::Coherent => SpecStorageQualifier::Coherent,
            StorageQualifier::Volatile => SpecStorageQualifier::Volatile,
            StorageQualifier::Restrict => SpecStorageQualifier::Restrict,
            StorageQualifier::ReadOnly => SpecStorageQualifier::ReadOnly,
            StorageQualifier::WriteOnly => SpecStorageQualifier::WriteOnly,
            StorageQualifier::Subroutine(v) => SpecStorageQualifier::Subroutine(
                type_names_view(v@),
            ),
        }
    }
}

impl View for TypeQualifierSpec {
    type V = SpecTypeQualifierSpec;

    open spec fn view(&self) -> SpecTypeQualifierSpec {
        match self {
            TypeQualifierSpec::Storage(s) => SpecTypeQualifierSpec::Storage(s@),
            TypeQualifierSpec::Layout(l) => SpecTypeQualifierSpec::Layout(*l),
            TypeQualifierSpec::Precision(p) => SpecTypeQualifierSpec::Precision(*p),
            TypeQualifierSpec::Interpolation(i) => SpecTypeQualifierSpec::Interpolation(*i),
            TypeQualifierSpec::Invariant => SpecTypeQualifierSpec::Invariant,
            TypeQualifierSpec::Precise => SpecTypeQualifierSpec::Precise,
        }
    }
}

impl View for TypeQualifier {
    type V = Seq<SpecTypeQualifierSpec>;

    open spec fn view(&self) -> Seq<SpecTypeQualifierSpec> {
        self.qualifiers@.map_values(|q: TypeQualifierSpec| q@)
    }
}

pub open spec fn opt_qualifier_view(q: Option<TypeQualifier>) -> Option<Seq<SpecTypeQualifierSpec>> {
    match q {
        Some(q) => Some(q@),
        None => None,
    }
}

pub open spec fn view_tsna(t: TypeSpecifierNonArray) -> SpecTypeSpecifierNonArray
    decreases t,
{
    match t {
        TypeSpecifierNonArray::Basic(b) => SpecTypeSpecifierNonArray::Basic(b),
        TypeSpecifierNonArray::Struct(s) => SpecTypeSpecifierNonArray::Struct(view_struct(s)),
        TypeSpecifierNonArray::TypeName(n) => SpecTypeSpecifierNonArray::TypeName(n@),
        TypeSpecifierNonArray::Opaque(o) => SpecTypeSpecifierNonArray::Opaque(o),
    }
}

pub open spec fn view_ts(t: TypeSpecifier) -> SpecTypeSpecifier
    decreases t,
{
    SpecTypeSpecifier { ty: view_tsna(t.ty), array_specifier: t.array_specifier }
}

pub open spec fn view_struct(s: StructSpecifier) -> SpecStructSpecifier
    decreases s,
{
    proof {
        assert(decreases_to!(s.fields => s.fields@));
    }
    SpecStructSpecifier { name: opt_type_name_view(s.name), fields: view_fields(s.fields@) }
}

pub open spec fn view_fields(s: Seq<StructFieldSpecifier>) -> Seq<SpecStructFieldSpecifier>
    decreases s,
{
    if s.len() == 0 {
        Seq::empty()
    } else {
        view_fields(s.subrange(0, s.len() - 1)).push(view_field(s[s.len() - 1]))
    }
}

pub open spec fn view_field(f: StructFieldSpecifier) -> SpecStructFieldSpecifier
    decreases f,
{
    SpecStructFieldSpecifier {
        qualifier: opt_qualifier_view(f.qualifier),
        ty: view_ts(f.ty),
        identifiers: f.identifiers@.map_values(|a: ArrayedIdentifier| a@),
    }
}

impl View for TypeSpecifierNonArray {
    type V = SpecTypeSpecifierNonArray;

    open spec fn view(&self) -> SpecTypeSpecifierNonArray {
        view_tsna(*self)
    }
}

impl View for TypeSpecifier {
    type V = SpecTypeSpecifier;

    open spec fn view(&self) -> SpecTypeSpecifier {
        view_ts(*self)
    }
}

impl View for StructSpecifier {
    type V = SpecStructSpecifier;

    open spec fn view(&self) -> SpecStructSpecifier {
        view_struct(*self)
    }
}

impl View for StructFieldSpecifier {
    type V = SpecStructFieldSpecifier;

    open spec fn view(&self) -> SpecStructFieldSpecifier {
        view_field(*self)
    }
}

impl View for ArrayedIdentifier {
    type V = SpecArrayedIdentifier;

    open spec fn view(&self) -> SpecArrayedIdentifier {
        SpecArrayedIdentifier { ident: self.ident@, array_spec: self.array_spec }
    }
}

impl View for FullySpecifiedType {
    type V = SpecFullySpecifiedType;

    open spec fn view(&self) -> SpecFullySpecifiedType {
        SpecFullySpecifiedType { qualifier: opt_qualifier_view(self.qualifier), ty: self.ty@ }
    }
}

impl View for SingleDeclaration {
    type V = SpecSingleDeclaration;

    open spec fn view(&self) -> SpecSingleDeclaration {
        SpecSingleDeclaration {
            ty: self.ty@,
            name: opt_name_view(self.name),
            array_specifier: self.array_specifier,
            initializer: self.initializer,
        }
    }
}

impl View for SingleDeclarationNoType {
    type V = SpecSingleDeclarationNoType;

    open spec fn view(&self) -> SpecSingleDeclarationNoType {
        SpecSingleDeclarationNoType { ident: self.ident@, initializer: self.initializer }
    }
}

impl View for InitDeclaratorList {
    type V = SpecInitDeclaratorList;

    open spec fn view(&self) -> SpecInitDeclaratorList {
        SpecInitDeclaratorList {
            head: self.head@,
            tail: self.tail@.map_values(|d: SingleDeclarationNoType| d@),
        }
    }
}

impl View for Declaration {
    type V = SpecDeclaration;

    open spec fn view(&self) -> SpecDeclaration {
        match self {
            Declaration::FunctionPrototype(p) => SpecDeclaration::FunctionPrototype(p@),
            Declaration::InitDeclaratorList(l) => SpecDeclaration::InitDeclaratorList(l@),
            Declaration::Precision(p, t) => SpecDeclaration::Precision(*p, t@),
            Declaration::Block(b) => SpecDeclaration::Block(b@),
            Declaration::Global(q, ids) => SpecDeclaration::Global(
                q@,
                ids@.map_values(|i: Identifier| i@),
            ),
        }
    }
}

pub open spec fn opt_arrayed_view(a: Option<ArrayedIdentifier>) -> Option<SpecArrayedIdentifier> {
    match a {
        Some(a) => Some(a@),
        None => None,
    }
}

impl View for InterfaceBlock {
    type V = SpecInterfaceBlock;

    open spec fn view(&self) -> SpecInterfaceBlock {
        SpecInterfaceBlock {
            qualifier: self.qualifier@,
            name: self.name@,
            fields: view_fields(self.fields@),
            identifier: opt_arrayed_view(self.identifier),
        }
    }
}

impl View for FunctionParameterDeclarator {
    type V = SpecFunctionParameterDeclarator;

    open spec fn view(&self) -> SpecFunctionParameterDeclarator {
        SpecFunctionParameterDeclarator { ty: self.ty@, ident: self.ident@ }
    }
}

impl View for FunctionParameterDeclaration {
    type V = SpecFunctionParameterDeclaration;

    open spec fn view(&self) -> SpecFunctionParameterDeclaration {
        match self {
            FunctionParameterDeclaration::Named(q, d) => SpecFunctionParameterDeclaration::Named(
                opt_qualifier_view(*q),
                d@,
            ),
            FunctionParameterDeclaration::Unnamed(q, t) => SpecFunctionParameterDeclaration::Unnamed(
                opt_qualifier_view(*q),
                t@,
            ),
        }
    }
}

impl View for FunctionPrototype {
    type V = SpecFunctionPrototype;

    open spec fn view(&self) -> SpecFunctionPrototype {
        SpecFunctionPrototype {
            ty: self.ty@,
            name: self.name@,
            parameters: self.parameters@.map_values(|p: FunctionParameterDeclaration| p@),
        }
    }
}

impl View for FunctionDefinition {
    type V = SpecFunctionDefinition;

    open spec fn view(&self) -> SpecFunctionDefinition {
        SpecFunctionDefinition { prototype: self.prototype@, statement: self.statement }
    }
}

impl View for ExternalDeclaration {
    type V = SpecExternalDeclaration;

    open spec fn view(&self) -> SpecExternalDeclaration {
        match self {
            ExternalDeclaration::Preprocessor(p) => SpecExternalDeclaration::Preprocessor(*p),
            ExternalDeclaration::FunctionDefinition(f) => SpecExternalDeclaration::FunctionDefinition(
                f@,
            ),
            ExternalDeclaration::Declaration(d) => SpecExternalDeclaration::Declaration(d@),
        }
    }
}


// ------------------------------------------------------------------------------------------------
// Copies.

/// Syntax values that can be copied into an equal value.
pub trait SyntaxClone: View + Sized {
    fn clone_syntax(&self) -> (res: Self)
        ensures
            res@ == self@,
    ;
}

/// Copy a vector of syntax values, element by element.
pub fn clone_vec<T: SyntaxClone>(v: &Vec<T>) -> (res: Vec<T>)
    ensures
        res@.len() == v@.len(),
        forall|i: int| 0 <= i < v@.len() ==> #[trigger] res@[i]@ == v@[i]@,
        res@.map_values(|x: T| x@) == v@.map_values(|x: T| x@),
{
    let mut res: Vec<T> = Vec::new();
    let mut i: usize = 0;
    while i < v.len()
        invariant
            i <= v@.len(),
            res@.len() == i,
            forall|j: int| 0 <= j < i ==> #[trigger] res@[j]@ == v@[j]@,
        decreases v@.len() - i,
    {
        res.push(v[i].clone_syntax());
        i = i + 1;
    }
    assert(res@.map_values(|x: T| x@) =~= v@.map_values(|x: T| x@));
    res
}

impl SyntaxClone for Identifier {
    fn clone_syntax(&self) -> (res: Self) {
        self.clone()
    }
}

impl SyntaxClone for TypeName {
    fn clone_syntax(&self) -> (res: Self) {
        self.clone()
    }
}

impl SyntaxClone for StorageQualifier {
    fn clone_syntax(&self) -> (res: Self) {
        match self {
            StorageQualifier::Const => StorageQualifier::Const,
            StorageQualifier::InOut => StorageQualifier::InOut,
            StorageQualifier::In => StorageQualifier::In,
            StorageQualifier::Out => StorageQualifier::Out,
            StorageQualifier::Centroid => StorageQualifier::Centroid,
            StorageQualifier::Patch => StorageQualifier::Patch,
            StorageQualifier::Sample => StorageQualifier::Sample,
            StorageQualifier::Uniform => StorageQualifier::Uniform,
            StorageQualifier::Attribute => StorageQualifier::Attribute,
            StorageQualifier::Varying => StorageQualifier::Varying,
            StorageQualifier::Buffer => StorageQualifier::Buffer,
            StorageQualifier::Shared => StorageQualifier::Shared,
            StorageQualifier::Coherent => StorageQualifier::Coherent,
            StorageQualifier::Volatile => StorageQualifier::Volatile,
            StorageQualifier::Restrict => StorageQualifier::Restrict,
            StorageQualifier::ReadOnly => StorageQualifier::ReadOnly,
            StorageQualifier::WriteOnly => StorageQualifier::WriteOnly,
            StorageQualifier::Subroutine(v) => {
                let c = clone_vec(v);
                StorageQualifier::Subroutine(c)
            },
        }
    }
}

impl SyntaxClone for TypeQualifierSpec {
    fn clone_syntax(&self) -> (res: Self) {
        match self {
            TypeQualifierSpec::Storage(s) => TypeQualifierSpec::Storage(s.clone_syntax()),
            TypeQualifierSpec::Layout(l) => TypeQualifierSpec::Layout(clone_layout_qualifier(l)),
            TypeQualifierSpec::Precision(p) => TypeQualifierSpec::Precision(*p),
            TypeQualifierSpec::Interpolation(i) => TypeQualifierSpec::Interpolation(*i),
            TypeQualifierSpec::Invariant => TypeQualifierSpec::Invariant,
            TypeQualifierSpec::Precise => TypeQualifierSpec::Precise,
        }
    }
}

impl SyntaxClone for TypeQualifier {
    fn clone_syntax(&self) -> (res: Self) {
        TypeQualifier { qualifiers: clone_vec(&self.qualifiers) }
    }
}

/// Copy an optional qualifier.
pub fn clone_opt_qualifier(q: &Option<TypeQualifier>) -> (res: Option<TypeQualifier>)
    ensures
        opt_qualifier_view(res) == opt_qualifier_view(*q),
{
    match q {
        Some(q) => Some(q.clone_syntax()),
        None => None,
    }
}

/// The view of a sequence of struct fields is the sequence of their views.
pub proof fn lemma_view_fields(s: Seq<StructFieldSpecifier>)
    ensures
        view_fields(s) == s.map_values(|f: StructFieldSpecifier| f@),
    decreases s.len(),
{
    if s.len() > 0 {
        lemma_view_fields(s.subrange(0, s.len() - 1));
        assert(s.map_values(|f: StructFieldSpecifier| f@) =~= s.subrange(0, s.len() - 1).map_values(
            |f: StructFieldSpecifier| f@,
        ).push(s[s.len() - 1]@));
    } else {
        assert(s.map_values(|f: StructFieldSpecifier| f@) =~= Seq::<SpecStructFieldSpecifier>::empty());
    }
}

fn clone_tsna(t: &TypeSpecifierNonArray) -> (res: TypeSpecifierNonArray)
    ensures
        res@ == t@,
    decreases t,
{
    match t {
        TypeSpecifierNonArray::Basic(b) => TypeSpecifierNonArray::Basic(*b),
        TypeSpecifierNonArray::Struct(s) => TypeSpecifierNonArray::Struct(clone_struct(s)),
        TypeSpecifierNonArray::TypeName(n) => TypeSpecifierNonArray::TypeName(n.clone()),
        TypeSpecifierNonArray::Opaque(o) => TypeSpecifierNonArray::Opaque(*o),
    }
}

fn clone_ts(t: &TypeSpecifier) -> (res: TypeSpecifier)
    ensures
        res@ == t@,
    decreases t,
{
    TypeSpecifier {
        ty: clone_tsna(&t.ty),
        array_specifier: clone_opt_array_specifier(&t.array_specifier),
    }
}

fn clone_struct(s: &StructSpecifier) -> (res: StructSpecifier)
    ensures
        res@ == s@,
    decreases s,
{
    let fields = clone_fields(&s.fields);
    let res = StructSpecifier { name: clone_opt_type_name(&s.name), fields };
    proof {
        lemma_view_fields(res.fields@);
        lemma_view_fields(s.fields@);
    }
    res
}

fn clone_fields(v: &Vec<StructFieldSpecifier>) -> (res: Vec<StructFieldSpecifier>)
    ensures
        res@.len() == v@.len(),
        forall|i: int| 0 <= i < v@.len() ==> #[trigger] res@[i]@ == v@[i]@,
        res@.map_values(|f: StructFieldSpecifier| f@) == v@.map_values(|f: StructFieldSpecifier| f@),
    decreases v,
{
    let mut res: Vec<StructFieldSpecifier> = Vec::new();
    let mut i: usize = 0;
    while i < v.len()
        invariant
            i <= v@.len(),
            res@.len() == i,
            forall|j: int| 0 <= j < i ==> #[trigger] res@[j]@ == v@[j]@,
        decreases v@.len() - i,
    {
        proof {
            assert(decreases_to!(v => v@[i as int]));
        }
        res.push(clone_field(&v[i]));
        i = i + 1;
    }
    assert(res@.map_values(|f: StructFieldSpecifier| f@) =~= v@.map_values(
        |f: StructFieldSpecifier| f@,
    ));
    res
}

fn clone_field(f: &StructFieldSpecifier) -> (res: StructFieldSpecifier)
    ensures
        res@ == f@,
    decreases f,
{
    let res = StructFieldSpecifier {
        qualifier: clone_opt_qualifier(&f.qualifier),
        ty: clone_ts(&f.ty),
        identifiers: clone_vec(&f.identifiers),
    };
    res
}

impl SyntaxClone for TypeSpecifierNonArray {
    fn clone_syntax(&self) -> (res: Self) {
        clone_tsna(self)
    }
}

impl SyntaxClone for TypeSpecifier {
    fn clone_syntax(&self) -> (res: Self) {
        clone_ts(self)
    }
}

impl SyntaxClone for StructSpecifier {
    fn clone_syntax(&self) -> (res: Self) {
        clone_struct(self)
    }
}

impl SyntaxClone for StructFieldSpecifier {
    fn clone_syntax(&self) -> (res: Self) {
        clone_field(self)
    }
}

impl SyntaxClone for ArrayedIdentifier {
    fn clone_syntax(&self) -> (res: Self) {
        ArrayedIdentifier {
            ident: self.ident.clone(),
            array_spec: clone_opt_array_specifier(&self.array_spec),
        }
    }
}

impl SyntaxClone for FullySpecifiedType {
    fn clone_syntax(&self) -> (res: Self) {
        FullySpecifiedType { qualifier: clone_opt_qualifier(&self.qualifier), ty: clone_ts(&self.ty) }
    }
}

impl SyntaxClone for SingleDeclaration {
    fn clone_syntax(&self) -> (res: Self) {
        SingleDeclaration {
            ty: self.ty.clone_syntax(),
            name: clone_opt_identifier(&self.name),
            array_specifier: clone_opt_array_specifier(&self.array_specifier),
            initializer: clone_opt_initializer(&self.initializer),
        }
    }
}

impl SyntaxClone for SingleDeclarationNoType {
    fn clone_syntax(&self) -> (res: Self) {
        SingleDeclarationNoType {
            ident: self.ident.clone_syntax(),
            initializer: clone_opt_initializer(&self.initializer),
        }
    }
}

impl SyntaxClone for InitDeclaratorList {
    fn clone_syntax(&self) -> (res: Self) {
        InitDeclaratorList { head: self.head.clone_syntax(), tail: clone_vec(&self.tail) }
    }
}

impl SyntaxClone for InterfaceBlock {
    fn clone_syntax(&self) -> (res: Self) {
        let fields = clone_fields(&self.fields);
        let ident = match &self.identifier {
            Some(a) => Some(a.clone_syntax()),
            None => None,
        };
        let res = InterfaceBlock {
            qualifier: self.qualifier.clone_syntax(),
            name: self.name.clone(),
            fields,
            identifier: ident,
        };
        proof {
            lemma_view_fields(res.fields@);
            lemma_view_fields(self.fields@);
        }
        res
    }
}

impl SyntaxClone for FunctionParameterDeclarator {
    fn clone_syntax(&self) -> (res: Self) {
        FunctionParameterDeclarator { ty: clone_ts(&self.ty), ident: self.ident.clone_syntax() }
    }
}

impl SyntaxClone for FunctionParameterDeclaration {
    fn clone_syntax(&self) -> (res: Self) {
        match self {
            FunctionParameterDeclaration::Named(q, d) => FunctionParameterDeclaration::Named(
                clone_opt_qualifier(q),
                d.clone_syntax(),
            ),
            FunctionParameterDeclaration::Unnamed(q, t) => FunctionParameterDeclaration::Unnamed(
                clone_opt_qualifier(q),
                clone_ts(t),
            ),
        }
    }
}

impl SyntaxClone for FunctionPrototype {
    fn clone_syntax(&self) -> (res: Self) {
        FunctionPrototype {
            ty: self.ty.clone_syntax(),
            name: self.name.clone(),
            parameters: clone_vec(&self.parameters),
        }
    }
}

impl SyntaxClone for FunctionDefinition {
    fn clone_syntax(&self) -> (res: Self) {
        FunctionDefinition {
            prototype: self.prototype.clone_syntax(),
            statement: clone_compound_statement(&self.statement),
        }
    }
}

impl SyntaxClone for Declaration {
    fn clone_syntax(&self) -> (res: Self) {
        match self {
            Declaration::FunctionPrototype(p) => Declaration::FunctionPrototype(p.clone_syntax()),
            Declaration::InitDeclaratorList(l) => Declaration::InitDeclaratorList(l.clone_syntax()),
            Declaration::Precision(p, t) => Declaration::Precision(*p, clone_ts(t)),
            Declaration::Block(b) => Declaration::Block(b.clone_syntax()),
            Declaration::Global(q, ids) => Declaration::Global(q.clone_syntax(), clone_vec(ids)),
        }
    }
}

impl SyntaxClone for ExternalDeclaration {
    fn clone_syntax(&self) -> (res: Self) {
        match self {
            ExternalDeclaration::Preprocessor(p) => ExternalDeclaration::Preprocessor(
                clone_preprocessor(p),
            ),
            ExternalDeclaration::FunctionDefinition(f) => ExternalDeclaration::FunctionDefinition(
                f.clone_syntax(),
            ),
            ExternalDeclaration::Declaration(d) => ExternalDeclaration::Declaration(d.clone_syntax()),
        }
    }
}

} // verus!
