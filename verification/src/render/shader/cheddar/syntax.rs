//! Syntax of the Cheddar language.
//!
//! For now, most of the language is an EDSL describing an augmented GLSL with a few keywords.
//!
//! This module also exports some useful functions to cope with the syntax types. Those that
//! Cheddar shares with the shading language are re-exported from there.

use std::path::{Path, PathBuf};
use vstd::prelude::*;
use vstd::string::StringExecFns;

pub use crate::render::shader::lang::syntax::{
    arg_fully_spec_ty, field_single_decl, field_to_single_decl, find_struct, find_struct_named,
    fn_arg_as_fully_spec_ty, input_qualifier, is_fn_arg_named,
    is_named, output_qualifier, qualifier_out_to_in, remove_unused_args_fn, single_ext_decl,
    single_to_external_declaration, singles_to_external_declarations, type_name_of,
    without_first_field, without_unused_args, ModuleName, ModulePath,
};

use crate::render::shader::ast::{
    ArraySpecifier, ExternalDeclaration, FullySpecifiedType, FunctionDefinition,
    SingleDeclaration, SpecExternalDeclaration, SpecFullySpecifiedType, SpecFunctionDefinition,
    SpecSingleDeclaration, SpecStructFieldSpecifier, SpecStructSpecifier, SpecTypeQualifierSpec,
    SpecTypeSpecifier, SpecTypeSpecifierNonArray, StructFieldSpecifier, StructSpecifier,
    SyntaxClone, TypeName, TypeQualifier, TypeSpecifier, TypeSpecifierNonArray, clone_string,
    clone_vec, opt_qualifier_view,
};
use crate::render::shader::lang::syntax::drop_first_field;
use crate::render::shader::module::join_with;
use crate::resource::join_path;

verus! {

/// GLSL code: a list of external declarations.
pub type GLSL = Vec<ExternalDeclaration>;

/// A symbol, living in a module.
pub type ModuleSymbol = String;

/// Expected number of arguments.
pub type ExpectedNumberOfArgs = usize;

/// Found number of arguments.
pub type FoundNumberOfArgs = usize;

/// A module.
///
/// A module has a list of imports and a list of GLSL extern declaration.
#[derive(Debug, PartialEq)]
pub struct Module {
    /// List of imports for this module.
    pub imports: Vec<ImportList>,
    /// The GLSL body of the module.
    pub glsl: GLSL,
}

/// A non-empty import list.
///
/// It consists of a module path, like `Foo.Bar.Zoo`, and a list of symbols to load from that
/// path, as in `rick, marty, doggo`.
#[derive(Debug, PartialEq)]
pub struct ImportList {
    /// The module path to load symbols from.
    pub module: ModulePath,
    /// List of symbols to import.
    pub list: Vec<ModuleSymbol>,
}

pub struct SpecImportList {
    pub module: Seq<Seq<char>>,
    pub list: Seq<Seq<char>>,
}

pub struct SpecModule {
    pub imports: Seq<SpecImportList>,
    pub glsl: Seq<SpecExternalDeclaration>,
}

impl View for ImportList {
    type V = SpecImportList;

    open spec fn view(&self) -> SpecImportList {
        SpecImportList { module: self.module@, list: self.list@.map_values(|s: String| s@) }
    }
}

impl View for Module {
    type V = SpecModule;

    open spec fn view(&self) -> SpecModule {
        SpecModule {
            imports: self.imports@.map_values(|i: ImportList| i@),
            glsl: self.glsl@.map_values(|e: ExternalDeclaration| e@),
        }
    }
}

impl SyntaxClone for ImportList {
    fn clone_syntax(&self) -> (res: Self) {
        let mut list: Vec<String> = Vec::new();
        let mut i: usize = 0;
        while i < self.list.len()
            invariant
                i <= self.list@.len(),
                list@.len() == i,
                forall|j: int| 0 <= j < i ==> #[trigger] list@[j]@ == self.list@[j]@,
            decreases self.list@.len() - i,
        {
            list.push(clone_string(&self.list[i]));
            i = i + 1;
        }
        let res = ImportList { module: self.module.clone_syntax(), list };
        assert(res@.list =~= self@.list);
        res
    }
}

impl SyntaxClone for Module {
    fn clone_syntax(&self) -> (res: Self) {
        Module { imports: clone_vec(&self.imports), glsl: clone_vec(&self.glsl) }
    }
}

/// Where on disk, relative to the root of the modules, the module an import list reads from
/// lives: its path joined by slashes, with the `.chdr` extension.
pub open spec fn import_rel_path(il: SpecImportList) -> Seq<char> {
    join_with(il.module, seq!['/']) + ".chdr"@
}

impl ImportList {
    /// The path of this import, relative to the root of the modules.
    pub fn rel_path(&self) -> (res: String)
        ensures
            res@ == import_rel_path(self@),
    {
        let mut s = String::new();
        let mut i: usize = 0;
        proof {
            reveal_strlit("/");
        }
        while i < self.module.path.len()
            invariant
                i <= self.module.path@.len(),
                s@ == join_with(self.module@.take(i as int), seq!['/']),
                "/"@ == seq!['/'],
            decreases self.module.path@.len() - i,
        {
            assert(self.module@.take(i + 1).drop_last() =~= self.module@.take(i as int));
            if i > 0 {
                s.append("/");
            }
            s.append(self.module.path[i].as_str());
            i = i + 1;
        }
        assert(self.module@.take(self.module.path@.len() as int) =~= self.module@);
        s.append(".chdr");
        s
    }

    /// Generate a [PathBuf] that represents this import on disk: `root` joined with
    /// [`ImportList::rel_path`].
    pub fn to_path(&self, root: &Path) -> PathBuf {
        let rel = self.rel_path();
        join_path(root, rel.as_str())
    }
}

// ------------------------------------------------------------------------------------------------
// Conversion errors.

/// GLSL conversion error.
///
/// Such an errors can happen when a module is ill-formed.
#[derive(Debug, PartialEq)]
pub enum GLSLConversionError {
    /// No vertex shader was found. A vertex shader is required in order to build a shading
    /// pipeline.
    NoVertexShader,
    /// No fragment shader was found. A fragment shader is required in order to build a shading
    /// pipeline.
    NoFragmentShader,
    /// The output must not have a qualifier.
    OutputHasMainQualifier,
    /// The returned value must not be a struct.
    ReturnTypeMustBeAStruct(TypeSpecifier),
    /// The first field has the wrong type.
    WrongOutputFirstField(StructFieldSpecifier),
    /// The field of a type used as output cannot be a struct.
    ///
    /// This variant also gives the index of the field.
    OutputFieldCannotBeStruct(usize, StructSpecifier),
    /// The field of a type used as output cannot be a type name.
    ///
    /// This variant also gives the index of the field.
    OutputFieldCannotBeTypeName(usize, TypeName),
    /// The field of a type used as output cannot have several identifiers (only one).
    ///
    /// This variant also gives the index of the field.
    OutputFieldCannotHaveSeveralIdentifiers(usize, StructFieldSpecifier),
    /// The input type is unknown.
    UnknownInputType(TypeName),
    /// Wrong number of arguments.
    WrongNumberOfArgs(ExpectedNumberOfArgs, FoundNumberOfArgs),
    /// The type is not a required type name.
    NotTypeName,
    /// The geometry input is wrong.
    WrongGeometryInput,
    /// The geometry input’s dimension is wrong.
    WrongGeometryInputDim(usize),
    /// The geometry output layout is wrong.
    WrongGeometryOutputLayout(Option<TypeQualifier>),
}

pub enum SpecGLSLConversionError {
    NoVertexShader,
    NoFragmentShader,
    OutputHasMainQualifier,
    ReturnTypeMustBeAStruct(SpecTypeSpecifier),
    WrongOutputFirstField(SpecStructFieldSpecifier),
    OutputFieldCannotBeStruct(int, SpecStructSpecifier),
    OutputFieldCannotBeTypeName(int, Seq<char>),
    OutputFieldCannotHaveSeveralIdentifiers(int, SpecStructFieldSpecifier),
    UnknownInputType(Seq<char>),
    WrongNumberOfArgs(int, int),
    NotTypeName,
    WrongGeometryInput,
    WrongGeometryInputDim(int),
    WrongGeometryOutputLayout(Option<Seq<SpecTypeQualifierSpec>>),
}

impl View for GLSLConversionError {
    type V = SpecGLSLConversionError;

    open spec fn view(&self) -> SpecGLSLConversionError {
        match self {
            GLSLConversionError::NoVertexShader => SpecGLSLConversionError::NoVertexShader,
            GLSLConversionError::NoFragmentShader => SpecGLSLConversionError::NoFragmentShader,
            GLSLConversionError::OutputHasMainQualifier =>
                SpecGLSLConversionError::OutputHasMainQualifier,
            GLSLConversionError::ReturnTypeMustBeAStruct(t) =>
                SpecGLSLConversionError::ReturnTypeMustBeAStruct(t@),
            GLSLConversionError::WrongOutputFirstField(f) =>
                SpecGLSLConversionError::WrongOutputFirstField(f@),
            GLSLConversionError::OutputFieldCannotBeStruct(i, s) =>
                SpecGLSLConversionError::OutputFieldCannotBeStruct(*i as int, s@),
            GLSLConversionError::OutputFieldCannotBeTypeName(i, t) =>
                SpecGLSLConversionError::OutputFieldCannotBeTypeName(*i as int, t@),
            GLSLConversionError::OutputFieldCannotHaveSeveralIdentifiers(i, f) =>
                SpecGLSLConversionError::OutputFieldCannotHaveSeveralIdentifiers(*i as int, f@),
            GLSLConversionError::UnknownInputType(t) =>
                SpecGLSLConversionError::UnknownInputType(t@),
            GLSLConversionError::WrongNumberOfArgs(e, f) =>
                SpecGLSLConversionError::WrongNumberOfArgs(*e as int, *f as int),
            GLSLConversionError::NotTypeName => SpecGLSLConversionError::NotTypeName,
            GLSLConversionError::WrongGeometryInput => SpecGLSLConversionError::WrongGeometryInput,
            GLSLConversionError::WrongGeometryInputDim(d) =>
                SpecGLSLConversionError::WrongGeometryInputDim(*d as int),
            GLSLConversionError::WrongGeometryOutputLayout(q) =>
                SpecGLSLConversionError::WrongGeometryOutputLayout(opt_qualifier_view(*q)),
        }
    }
}

/// The human-readable description of an error.
pub open spec fn description_text(e: SpecGLSLConversionError) -> Seq<char> {
    match e {
        SpecGLSLConversionError::NoVertexShader => "no vertex shader"@,
        SpecGLSLConversionError::NoFragmentShader => "no fragment shader"@,
        SpecGLSLConversionError::OutputHasMainQualifier => "output has main qualifier(s)"@,
        SpecGLSLConversionError::ReturnTypeMustBeAStruct(_) => "return type is not a struct"@,
        SpecGLSLConversionError::WrongOutputFirstField(_) =>
            "first field’s type is forbidden as output"@,
        SpecGLSLConversionError::OutputFieldCannotBeStruct(..) =>
            "output field cannot be a struct"@,
        SpecGLSLConversionError::OutputFieldCannotBeTypeName(..) =>
            "output field cannot be a type name"@,
        SpecGLSLConversionError::OutputFieldCannotHaveSeveralIdentifiers(..) =>
            "output field cannot have several identifiers"@,
        SpecGLSLConversionError::UnknownInputType(_) => "unknown input type"@,
        SpecGLSLConversionError::WrongNumberOfArgs(..) => "wrong number of arguments"@,
        SpecGLSLConversionError::NotTypeName => "not a type name"@,
        SpecGLSLConversionError::WrongGeometryInput => "wrong geometry input"@,
        SpecGLSLConversionError::WrongGeometryInputDim(_) => "wrong geometry input’s dimension"@,
        SpecGLSLConversionError::WrongGeometryOutputLayout(_) => "wrong geometry output layout"@,
    }
}

impl GLSLConversionError {
    /// A short description of the error; it is also what the error displays as.
    pub fn description(&self) -> (res: &'static str)
        ensures
            res@ == description_text(self@),
    {
        match self {
            GLSLConversionError::NoVertexShader => "no vertex shader",
            GLSLConversionError::NoFragmentShader => "no fragment shader",
            GLSLConversionError::OutputHasMainQualifier => "output has main qualifier(s)",
            GLSLConversionError::ReturnTypeMustBeAStruct(_) => "return type is not a struct",
            GLSLConversionError::WrongOutputFirstField(_) =>
                "first field’s type is forbidden as output",
            GLSLConversionError::OutputFieldCannotBeStruct(..) => "output field cannot be a struct",
            GLSLConversionError::OutputFieldCannotBeTypeName(..) =>
                "output field cannot be a type name",
            GLSLConversionError::OutputFieldCannotHaveSeveralIdentifiers(..) =>
                "output field cannot have several identifiers",
            GLSLConversionError::UnknownInputType(_) => "unknown input type",
            GLSLConversionError::WrongNumberOfArgs(..) => "wrong number of arguments",
            GLSLConversionError::NotTypeName => "not a type name",
            GLSLConversionError::WrongGeometryInput => "wrong geometry input",
            GLSLConversionError::WrongGeometryInputDim(_) => "wrong geometry input’s dimension",
            GLSLConversionError::WrongGeometryOutputLayout(_) => "wrong geometry output layout",
        }
    }
}

// ------------------------------------------------------------------------------------------------
// Declarations.

/// The input declaration dual to the output declaration `o`: every `out` becomes `in`, and the
/// type is made an unsized array if `has_array`, or loses its array specifier otherwise.
pub open spec fn input_of_output(o: SpecSingleDeclaration, has_array: bool) -> SpecSingleDeclaration {
    SpecSingleDeclaration {
        ty: SpecFullySpecifiedType {
            qualifier: input_qualifier(o.ty.qualifier),
            ty: SpecTypeSpecifier {
                ty: o.ty.ty.ty,
                array_specifier: if has_array {
                    Some(ArraySpecifier::Unsized)
                } else {
                    None
                },
            },
        },
        name: o.name,
        array_specifier: o.array_specifier,
        initializer: o.initializer,
    }
}

/// Replace an output declaration by its input declaration dual.
///
/// Useful when an input interface must match an output one.
pub fn input_from_output(output: SingleDeclaration, has_array: bool) -> (res: SingleDeclaration)
    ensures
        res@ == input_of_output(output@, has_array),
{
    let qualifier = match &output.ty.qualifier {
        Some(q) => Some(qualifier_out_to_in(q)),
        None => None,
    };
    let ty = TypeSpecifier {
        ty: output.ty.ty.ty,
        array_specifier: if has_array {
            Some(ArraySpecifier::Unsized)
        } else {
            None
        },
    };
    SingleDeclaration {
        ty: FullySpecifiedType { qualifier, ty },
        name: output.name,
        array_specifier: output.array_specifier,
        initializer: output.initializer,
    }
}

/// Replace outputs by inputs.
pub fn inputs_from_outputs(outputs: &[SingleDeclaration], has_array: bool) -> (res: Vec<
    SingleDeclaration,
>)
    ensures
        res@.map_values(|d: SingleDeclaration| d@) == outputs@.map_values(
            |o: SingleDeclaration| input_of_output(o@, has_array),
        ),
{
    let mut res: Vec<SingleDeclaration> = Vec::new();
    let mut i: usize = 0;
    while i < outputs.len()
        invariant
            i <= outputs@.len(),
            res@.len() == i,
            forall|j: int|
                0 <= j < i ==> #[trigger] res@[j]@ == input_of_output(outputs@[j]@, has_array),
        decreases outputs@.len() - i,
    {
        res.push(input_from_output(outputs[i].clone_syntax(), has_array));
        i = i + 1;
    }
    assert(res@.map_values(|d: SingleDeclaration| d@) =~= outputs@.map_values(
        |o: SingleDeclaration| input_of_output(o@, has_array),
    ));
    res
}

/// The output declarations of struct fields, or the first field (counted from 1) that cannot be
/// an output.
pub open spec fn fields_single_decls(fields: Seq<SpecStructFieldSpecifier>, prefix: Seq<char>) -> Result<
    Seq<SpecSingleDeclaration>,
    SpecGLSLConversionError,
>
    decreases fields.len(),
{
    if fields.len() == 0 {
        Ok(Seq::empty())
    } else {
        match fields_single_decls(fields.drop_last(), prefix) {
            Err(e) => Err(e),
            Ok(v) => {
                let n = fields.len() as int;
                let f = fields.last();
                match f.ty.ty {
                    SpecTypeSpecifierNonArray::Struct(s) => Err(
                        SpecGLSLConversionError::OutputFieldCannotBeStruct(n, s),
                    ),
                    SpecTypeSpecifierNonArray::TypeName(t) => Err(
                        SpecGLSLConversionError::OutputFieldCannotBeTypeName(n, t),
                    ),
                    _ => if f.identifiers.len() > 1 {
                        Err(SpecGLSLConversionError::OutputFieldCannotHaveSeveralIdentifiers(n, f))
                    } else {
                        Ok(v.push(field_single_decl(f, prefix)))
                    },
                }
            },
        }
    }
}

proof fn lemma_fields_single_decls_error(
    fields: Seq<SpecStructFieldSpecifier>,
    prefix: Seq<char>,
    n: int,
)
    requires
        0 <= n <= fields.len(),
        fields_single_decls(fields.take(n), prefix) is Err,
    ensures
        fields_single_decls(fields, prefix) == fields_single_decls(fields.take(n), prefix),
    decreases fields.len() - n,
{
    if n < fields.len() {
        assert(fields.take(n + 1).drop_last() =~= fields.take(n));
        lemma_fields_single_decls_error(fields, prefix, n + 1);
    } else {
        assert(fields.take(n) =~= fields);
    }
}

/// Every field that the conversion reaches and takes as an output (no error before it, neither
/// a struct nor a type name) has at least one identifier.
pub open spec fn reached_fields_named(fields: Seq<SpecStructFieldSpecifier>, prefix: Seq<char>) -> bool {
    forall|i: int|
        0 <= i < fields.len() && #[trigger] fields_single_decls(fields.take(i), prefix) is Ok
            && !(fields[i].ty.ty is Struct) && !(fields[i].ty.ty is TypeName)
            ==> fields[i].identifiers.len() > 0
}

/// Map a struct’s fields to single declarations.
///
/// Typically suitable for generating outputs from a struct fields.
pub fn fields_to_single_decls(fields: &[StructFieldSpecifier], prefix: &str) -> (res: Result<
    Vec<SingleDeclaration>,
    GLSLConversionError,
>)
    requires
        reached_fields_named(fields@.map_values(|f: StructFieldSpecifier| f@), prefix@),
    ensures
        match res {
            Ok(v) => fields_single_decls(
                fields@.map_values(|f: StructFieldSpecifier| f@),
                prefix@,
            ) == Ok::<Seq<SpecSingleDeclaration>, SpecGLSLConversionError>(
                v@.map_values(|d: SingleDeclaration| d@),
            ),
            Err(e) => fields_single_decls(
                fields@.map_values(|f: StructFieldSpecifier| f@),
                prefix@,
            ) == Err::<Seq<SpecSingleDeclaration>, SpecGLSLConversionError>(e@),
        },
{
    let ghost fv = fields@.map_values(|f: StructFieldSpecifier| f@);
    let mut outputs: Vec<SingleDeclaration> = Vec::new();
    let mut i: usize = 0;
    assert(fv.take(0) =~= Seq::<SpecStructFieldSpecifier>::empty());
    assert(outputs@.map_values(|d: SingleDeclaration| d@) =~= Seq::<SpecSingleDeclaration>::empty());
    while i < fields.len()
        invariant
            i <= fields@.len(),
            fv == fields@.map_values(|f: StructFieldSpecifier| f@),
            reached_fields_named(fv, prefix@),
            fields_single_decls(fv.take(i as int), prefix@) == Ok::<
                Seq<SpecSingleDeclaration>,
                SpecGLSLConversionError,
            >(outputs@.map_values(|d: SingleDeclaration| d@)),
        decreases fields@.len() - i,
    {
        let field = &fields[i];
        assert(fv.take(i + 1).drop_last() =~= fv.take(i as int));
        assert(fv.take(i + 1).last() == field@);
        assert(fv[i as int] == field@);
        match &field.ty.ty {
            TypeSpecifierNonArray::Struct(s) => {
                proof {
                    lemma_fields_single_decls_error(fv, prefix@, i + 1);
                }
                return Err(GLSLConversionError::OutputFieldCannotBeStruct(i + 1, s.clone_syntax()));
            },
            TypeSpecifierNonArray::TypeName(t) => {
                proof {
                    lemma_fields_single_decls_error(fv, prefix@, i + 1);
                }
                return Err(GLSLConversionError::OutputFieldCannotBeTypeName(i + 1, t.clone()));
            },
            _ => {},
        }
        if field.identifiers.len() > 1 {
            proof {
                lemma_fields_single_decls_error(fv, prefix@, i + 1);
            }
            return Err(
                GLSLConversionError::OutputFieldCannotHaveSeveralIdentifiers(
                    i + 1,
                    field.clone_syntax(),
                ),
            );
        }
        let d = field_to_single_decl(field, prefix);
        let ghost prev = outputs@;
        outputs.push(d);
        assert(outputs@.map_values(|d: SingleDeclaration| d@) =~= prev.map_values(
            |d: SingleDeclaration| d@,
        ).push(field_single_decl(field@, prefix@)));
        i = i + 1;
    }
    assert(fv.take(fields@.len() as int) =~= fv);
    Ok(outputs)
}

/// Drop the first field of a struct.
pub fn drop_1st_field(s: &StructSpecifier) -> (res: StructSpecifier)
    ensures
        res@ == without_first_field(s@),
{
    drop_first_field(s)
}

// ------------------------------------------------------------------------------------------------
// Function signatures.

/// The type name of a fully specified type, or the error of a type that is none.
pub open spec fn ty_name_of(fst: SpecFullySpecifiedType) -> Result<Seq<char>, SpecGLSLConversionError> {
    match type_name_of(fst) {
        Some(n) => Ok(n),
        None => Err(SpecGLSLConversionError::NotTypeName),
    }
}

/// Extract the type name of a fully specified type. If the type is not a typename, fail with
/// [`GLSLConversionError::NotTypeName`].
pub fn get_ty_name_from_fully_spec_ty(fst: &FullySpecifiedType) -> (res: Result<
    TypeName,
    GLSLConversionError,
>)
    ensures
        match res {
            Ok(n) => ty_name_of(fst@) == Ok::<Seq<char>, SpecGLSLConversionError>(n@),
            Err(e) => ty_name_of(fst@) == Err::<Seq<char>, SpecGLSLConversionError>(e@),
        },
{
    match &fst.ty.ty {
        TypeSpecifierNonArray::TypeName(n) => Ok(n.clone()),
        _ => Err(GLSLConversionError::NotTypeName),
    }
}

/// The type name of the argument of a unary function.
pub open spec fn fn1_input_ty_name(f: SpecFunctionDefinition) -> Result<
    Seq<char>,
    SpecGLSLConversionError,
> {
    let params = f.prototype.parameters;
    if params.len() == 1 {
        ty_name_of(arg_fully_spec_ty(params[0]))
    } else {
        Err(SpecGLSLConversionError::WrongNumberOfArgs(1, params.len() as int))
    }
}

/// Get the type name of the argument of a unary function. If the argument is not unary, fail
/// with the approriate error.
pub fn get_fn1_input_ty_name(f: &FunctionDefinition) -> (res: Result<TypeName, GLSLConversionError>)
    ensures
        match res {
            Ok(n) => fn1_input_ty_name(f@) == Ok::<Seq<char>, SpecGLSLConversionError>(n@),
            Err(e) => fn1_input_ty_name(f@) == Err::<Seq<char>, SpecGLSLConversionError>(e@),
        },
{
    let params = &f.prototype.parameters;
    if params.len() == 1 {
        assert(f@.prototype.parameters[0] == params@[0]@);
        let fst = fn_arg_as_fully_spec_ty(&params[0]);
        get_ty_name_from_fully_spec_ty(&fst)
    } else {
        Err(GLSLConversionError::WrongNumberOfArgs(1, params.len()))
    }
}

/// The struct that a type specifier names, among `structs`.
pub open spec fn struct_of_ty_spec(ty: SpecTypeSpecifier, structs: Seq<SpecStructSpecifier>) -> Result<
    SpecStructSpecifier,
    SpecGLSLConversionError,
> {
    match ty.ty {
        SpecTypeSpecifierNonArray::TypeName(n) => match find_struct(structs, n) {
            Some(s) => Ok(s),
            None => Err(SpecGLSLConversionError::ReturnTypeMustBeAStruct(ty)),
        },
        _ => Err(SpecGLSLConversionError::ReturnTypeMustBeAStruct(ty)),
    }
}

/// Get the struct definition associated with a type specifier.
pub fn struct_from_ty_spec(ty_spec: &TypeSpecifier, structs: &[StructSpecifier]) -> (res: Result<
    StructSpecifier,
    GLSLConversionError,
>)
    ensures
        match res {
            Ok(s) => struct_of_ty_spec(ty_spec@, structs@.map_values(|s: StructSpecifier| s@))
                == Ok::<SpecStructSpecifier, SpecGLSLConversionError>(s@),
            Err(e) => struct_of_ty_spec(ty_spec@, structs@.map_values(|s: StructSpecifier| s@))
                == Err::<SpecStructSpecifier, SpecGLSLConversionError>(e@),
        },
{
    match &ty_spec.ty {
        TypeSpecifierNonArray::TypeName(name) => match find_struct_named(structs, name) {
            Some(s) => Ok(s),
            None => Err(GLSLConversionError::ReturnTypeMustBeAStruct(ty_spec.clone_syntax())),
        },
        _ => Err(GLSLConversionError::ReturnTypeMustBeAStruct(ty_spec.clone_syntax())),
    }
}

/// Get the return type of a function by looking up its definition in the provided slice.
pub fn get_fn_ret_ty(f: &FunctionDefinition, structs: &[StructSpecifier]) -> (res: Result<
    StructSpecifier,
    GLSLConversionError,
>)
    ensures
        match res {
            Ok(s) => struct_of_ty_spec(
                f@.prototype.ty.ty,
                structs@.map_values(|s: StructSpecifier| s@),
            ) == Ok::<SpecStructSpecifier, SpecGLSLConversionError>(s@),
            Err(e) => struct_of_ty_spec(
                f@.prototype.ty.ty,
                structs@.map_values(|s: StructSpecifier| s@),
            ) == Err::<SpecStructSpecifier, SpecGLSLConversionError>(e@),
        },
{
    struct_from_ty_spec(&f.prototype.ty.ty, structs)
}

} // verus!
