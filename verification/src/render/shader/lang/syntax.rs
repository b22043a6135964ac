//! Syntax of the shading language: GLSL plus module imports.

use vstd::prelude::*;

use vstd::string::StringExecFns;

use crate::render::shader::ast::{
    clone_opt_qualifier, clone_string, clone_vec, Declaration, ExternalDeclaration,
    FullySpecifiedType, FunctionDefinition, FunctionParameterDeclaration, FunctionPrototype,
    Identifier, InitDeclaratorList, SingleDeclaration, SingleDeclarationNoType,
    SpecDeclaration, SpecExternalDeclaration, SpecFullySpecifiedType,
    SpecFunctionParameterDeclaration, SpecInitDeclaratorList, SpecFunctionDefinition,
    SpecFunctionPrototype, SpecSingleDeclaration,
    SpecSingleDeclarationNoType, SpecStorageQualifier, SpecStructFieldSpecifier,
    SpecStructSpecifier, SpecTypeQualifierSpec, SpecTypeSpecifier, SpecTypeSpecifierNonArray,
    StorageQualifier, StructFieldSpecifier, StructSpecifier, SyntaxClone, TypeName,
    TypeQualifier, TypeQualifierSpec, TypeSpecifier, TypeSpecifierNonArray, clone_array_spec,
    lemma_view_fields,
};

verus! {

/// Name of a module.
pub type ModuleName = String;

/// A module path is a list of module(s), representing a hierarchy.
#[derive(Debug, PartialEq)]
pub struct ModulePath {
    pub path: Vec<ModuleName>,
}

/// A non-empty import list.
#[derive(Debug, PartialEq)]
pub struct ImportList {
    pub module: ModulePath,
    pub list: Vec<ModulePath>,
}

/// A module: its imports and its GLSL body.
#[derive(Debug, PartialEq)]
pub struct Module {
    pub imports: Vec<ImportList>,
    pub glsl: Vec<ExternalDeclaration>,
}

pub struct SpecImportList {
    pub module: Seq<Seq<char>>,
    pub list: Seq<Seq<Seq<char>>>,
}

pub struct SpecModule {
    pub imports: Seq<SpecImportList>,
    pub glsl: Seq<SpecExternalDeclaration>,
}

impl View for ModulePath {
    type V = Seq<Seq<char>>;

    open spec fn view(&self) -> Seq<Seq<char>> {
        self.path@.map_values(|n: String| n@)
    }
}

impl View for ImportList {
    type V = SpecImportList;

    open spec fn view(&self) -> SpecImportList {
        SpecImportList { module: self.module@, list: self.list@.map_values(|p: ModulePath| p@) }
    }
}

impl View for Module {
    type V = SpecModule;

    open spec fn view(&self) -> SpecModule {
        SpecModule {
            imports: self.imports@.map_values(|i: ImportList| i@),
            glsl: self.glsl@.map_values(|e: ExternalDeclaration| e@),
        }
    }
}

impl SyntaxClone for ModulePath {
    fn clone_syntax(&self) -> (res: Self) {
        let mut path: Vec<String> = Vec::new();
        let mut i: usize = 0;
        while i < self.path.len()
            invariant
                i <= self.path@.len(),
                path@.len() == i,
                forall|j: int| 0 <= j < i ==> #[trigger] path@[j]@ == self.path@[j]@,
            decreases self.path@.len() - i,
        {
            path.push(clone_string(&self.path[i]));
            i = i + 1;
        }
        let res = ModulePath { path };
        assert(res@ =~= self@);
        res
    }
}

impl SyntaxClone for ImportList {
    fn clone_syntax(&self) -> (res: Self) {
        ImportList { module: self.module.clone_syntax(), list: clone_vec(&self.list) }
    }
}

impl SyntaxClone for Module {
    fn clone_syntax(&self) -> (res: Self) {
        Module { imports: clone_vec(&self.imports), glsl: clone_vec(&self.glsl) }
    }
}


// ------------------------------------------------------------------------------------------------
// Conversion errors.

/// Expected number of arguments.
pub type ExpectedNumberOfArgs = usize;

/// Found number of arguments.
pub type FoundNumberOfArgs = usize;

/// GLSL conversion error.
///
/// Such an errors can happen when a module is ill-formed.
#[derive(Debug, PartialEq)]
pub enum GLSLConversionError {
    NoVertexShader,
    NoFragmentShader,
    OutputHasMainQualifier,
    ReturnTypeMustBeAStruct(TypeSpecifier),
    WrongOutputFirstField(StructFieldSpecifier),
    OutputFieldCannotBeStruct(usize, StructSpecifier),
    OutputFieldCannotBeTypeName(usize, TypeName),
    OutputFieldCannotHaveSeveralIdentifiers(usize, StructFieldSpecifier),
    UnknownInputType(TypeName),
    WrongNumberOfArgs(ExpectedNumberOfArgs, FoundNumberOfArgs),
    NotTypeName,
    WrongGeometryOutputLayout,
}

pub enum SpecGLSLConversionError {
    NoVertexShader,
    NoFragmentShader,
    OutputHasMainQualifier,
    ReturnTypeMustBeAStruct(SpecTypeSpecifier),
    WrongOutputFirstField(SpecStructFieldSpecifier),
    OutputFieldCannotBeStruct(int, SpecStructSpecifier),
    OutputFieldCannotBeTypeName(int, Seq<char>),
    OutputFieldCannotHaveSeveralIdentifiers(int, SpecStructFieldSpecifier),
    UnknownInputType(Seq<char>),
    WrongNumberOfArgs(int, int),
    NotTypeName,
    WrongGeometryOutputLayout,
}

impl View for GLSLConversionError {
    type V = SpecGLSLConversionError;

    open spec fn view(&self) -> SpecGLSLConversionError {
        match self {
            GLSLConversionError::NoVertexShader => SpecGLSLConversionError::NoVertexShader,
            GLSLConversionError::NoFragmentShader => SpecGLSLConversionError::NoFragmentShader,
            GLSLConversionError::OutputHasMainQualifier =>
                SpecGLSLConversionError::OutputHasMainQualifier,
            GLSLConversionError::ReturnTypeMustBeAStruct(t) =>
                SpecGLSLConversionError::ReturnTypeMustBeAStruct(t@),
            GLSLConversionError::WrongOutputFirstField(f) =>
                SpecGLSLConversionError::WrongOutputFirstField(f@),
            GLSLConversionError::OutputFieldCannotBeStruct(i, s) =>
                SpecGLSLConversionError::OutputFieldCannotBeStruct(*i as int, s@),
            GLSLConversionError::OutputFieldCannotBeTypeName(i, t) =>
                SpecGLSLConversionError::OutputFieldCannotBeTypeName(*i as int, t@),
            GLSLConversionError::OutputFieldCannotHaveSeveralIdentifiers(i, f) =>
                SpecGLSLConversionError::OutputFieldCannotHaveSeveralIdentifiers(*i as int, f@),
            GLSLConversionError::UnknownInputType(t) =>
                SpecGLSLConversionError::UnknownInputType(t@),
            GLSLConversionError::WrongNumberOfArgs(e, f) =>
                SpecGLSLConversionError::WrongNumberOfArgs(*e as int, *f as int),
            GLSLConversionError::NotTypeName => SpecGLSLConversionError::NotTypeName,
            GLSLConversionError::WrongGeometryOutputLayout =>
                SpecGLSLConversionError::WrongGeometryOutputLayout,
        }
    }
}

// ------------------------------------------------------------------------------------------------
// Declarations.

/// A single declaration, as an external declaration.
pub open spec fn single_ext_decl(sd: SpecSingleDeclaration) -> SpecExternalDeclaration {
    SpecExternalDeclaration::Declaration(
        SpecDeclaration::InitDeclaratorList(
            SpecInitDeclaratorList { head: sd, tail: Seq::empty() },
        ),
    )
}

/// Turn a `SingleDeclaration` into an `ExternalDeclaration`.
pub fn single_to_external_declaration(sd: SingleDeclaration) -> (res: ExternalDeclaration)
    ensures
        res@ == single_ext_decl(sd@),
{
    let tail: Vec<SingleDeclarationNoType> = Vec::new();
    assert(tail@.map_values(|d: SingleDeclarationNoType| d@) =~= Seq::<
        SpecSingleDeclarationNoType,
    >::empty());
    ExternalDeclaration::Declaration(
        Declaration::InitDeclaratorList(InitDeclaratorList { head: sd, tail }),
    )
}

/// Turn each single declaration into an external declaration, in order.
pub fn singles_to_external_declarations(sds: &[SingleDeclaration]) -> (res: Vec<
    ExternalDeclaration,
>)
    ensures
        res@.map_values(|e: ExternalDeclaration| e@) == sds@.map_values(
            |sd: SingleDeclaration| single_ext_decl(sd@),
        ),
{
    let mut res: Vec<ExternalDeclaration> = Vec::new();
    let mut i: usize = 0;
    while i < sds.len()
        invariant
            i <= sds@.len(),
            res@.len() == i,
            forall|j: int| 0 <= j < i ==> #[trigger] res@[j]@ == single_ext_decl(sds@[j]@),
        decreases sds@.len() - i,
    {
        res.push(single_to_external_declaration(sds[i].clone_syntax()));
        i = i + 1;
    }
    assert(res@.map_values(|e: ExternalDeclaration| e@) =~= sds@.map_values(
        |sd: SingleDeclaration| single_ext_decl(sd@),
    ));
    res
}

/// A struct with its first field dropped (no field if it had none).
pub open spec fn without_first_field(s: SpecStructSpecifier) -> SpecStructSpecifier {
    SpecStructSpecifier {
        name: s.name,
        fields: if s.fields.len() == 0 {
            s.fields
        } else {
            s.fields.skip(1)
        },
    }
}

/// Drop the first field of a struct.
pub fn drop_first_field(s: &StructSpecifier) -> (res: StructSpecifier)
    ensures
        res@ == without_first_field(s@),
{
    proof {
        lemma_view_fields(s.fields@);
    }
    let mut fields: Vec<StructFieldSpecifier> = Vec::new();
    let mut i: usize = 1;
    while i < s.fields.len()
        invariant
            1 <= i,
            i <= s.fields@.len() || i == 1,
            fields@.len() == i - 1,
            forall|j: int| 0 <= j < fields@.len() ==> #[trigger] fields@[j]@ == s.fields@[j + 1]@,
        decreases s.fields@.len() - i,
    {
        fields.push(s.fields[i].clone_syntax());
        i = i + 1;
    }
    let name = match &s.name {
        Some(n) => Some(n.clone()),
        None => None,
    };
    let res = StructSpecifier { name, fields };
    proof {
        lemma_view_fields(res.fields@);
        assert(s@.fields == s.fields@.map_values(|f: StructFieldSpecifier| f@));
        assert(res@.fields == res.fields@.map_values(|f: StructFieldSpecifier| f@));
        if s.fields@.len() > 0 {
            assert(res@.fields.len() == without_first_field(s@).fields.len());
            assert forall|j: int| 0 <= j < res@.fields.len() implies res@.fields[j]
                == without_first_field(s@).fields[j] by {
                assert(res@.fields[j] == res.fields@[j]@);
                assert(s@.fields[j + 1] == s.fields@[j + 1]@);
            }
            assert(res@.fields =~= without_first_field(s@).fields);
        } else {
            assert(res.fields@.len() == 0);
            assert(res@.fields =~= without_first_field(s@).fields);
        }
    }
    res
}

/// Turn a storage qualifier `out` into `in`; any other qualifier is kept.
pub open spec fn out_to_in(q: SpecTypeQualifierSpec) -> SpecTypeQualifierSpec {
    match q {
        SpecTypeQualifierSpec::Storage(SpecStorageQualifier::Out) => SpecTypeQualifierSpec::Storage(
            SpecStorageQualifier::In,
        ),
        _ => q,
    }
}

/// The qualifier of the input dual to an output with qualifier `q`.
pub open spec fn input_qualifier(q: Option<Seq<SpecTypeQualifierSpec>>) -> Option<
    Seq<SpecTypeQualifierSpec>,
> {
    match q {
        Some(qs) => Some(qs.map_values(|s: SpecTypeQualifierSpec| out_to_in(s))),
        None => None,
    }
}

/// The input declaration dual to the output declaration `o`: every `out` becomes `in`.
pub open spec fn input_of_output(o: SpecSingleDeclaration) -> SpecSingleDeclaration {
    SpecSingleDeclaration {
        ty: SpecFullySpecifiedType { qualifier: input_qualifier(o.ty.qualifier), ty: o.ty.ty },
        name: o.name,
        array_specifier: o.array_specifier,
        initializer: o.initializer,
    }
}

/// Turn every `out` storage qualifier of `q` into `in`.
pub fn qualifier_out_to_in(q: &TypeQualifier) -> (res: TypeQualifier)
    ensures
        res@ == q@.map_values(|s: SpecTypeQualifierSpec| out_to_in(s)),
{
    let mut qualifiers: Vec<TypeQualifierSpec> = Vec::new();
    let mut i: usize = 0;
    while i < q.qualifiers.len()
        invariant
            i <= q.qualifiers@.len(),
            qualifiers@.len() == i,
            forall|j: int|
                0 <= j < i ==> #[trigger] qualifiers@[j]@ == out_to_in(q.qualifiers@[j]@),
        decreases q.qualifiers@.len() - i,
    {
        let qs = match &q.qualifiers[i] {
            TypeQualifierSpec::Storage(StorageQualifier::Out) => TypeQualifierSpec::Storage(
                StorageQualifier::In,
            ),
            other => other.clone_syntax(),
        };
        qualifiers.push(qs);
        i = i + 1;
    }
    let res = TypeQualifier { qualifiers };
    assert(res@ =~= q@.map_values(|s: SpecTypeQualifierSpec| out_to_in(s)));
    res
}

/// Replace an output declaration by its input declaration dual.
///
/// Useful when an input interface must match an output one.
pub fn input_from_output(output: SingleDeclaration) -> (res: SingleDeclaration)
    ensures
        res@ == input_of_output(output@),
{
    let qualifier = match &output.ty.qualifier {
        Some(q) => Some(qualifier_out_to_in(q)),
        None => None,
    };
    SingleDeclaration {
        ty: FullySpecifiedType { qualifier, ty: output.ty.ty },
        name: output.name,
        array_specifier: output.array_specifier,
        initializer: output.initializer,
    }
}

/// Replace outputs by inputs.
pub fn inputs_from_outputs(outputs: &[SingleDeclaration]) -> (res: Vec<SingleDeclaration>)
    ensures
        res@.map_values(|d: SingleDeclaration| d@) == outputs@.map_values(
            |o: SingleDeclaration| input_of_output(o@),
        ),
{
    let mut res: Vec<SingleDeclaration> = Vec::new();
    let mut i: usize = 0;
    while i < outputs.len()
        invariant
            i <= outputs@.len(),
            res@.len() == i,
            forall|j: int| 0 <= j < i ==> #[trigger] res@[j]@ == input_of_output(outputs@[j]@),
        decreases outputs@.len() - i,
    {
        res.push(input_from_output(outputs[i].clone_syntax()));
        i = i + 1;
    }
    assert(res@.map_values(|d: SingleDeclaration| d@) =~= outputs@.map_values(
        |o: SingleDeclaration| input_of_output(o@),
    ));
    res
}

/// The qualifier of the output made from a field qualified by `q`: `q`, then `out`.
pub open spec fn output_qualifier(q: Option<Seq<SpecTypeQualifierSpec>>) -> Seq<
    SpecTypeQualifierSpec,
> {
    let out = SpecTypeQualifierSpec::Storage(SpecStorageQualifier::Out);
    match q {
        Some(qs) => qs.push(out),
        None => seq![out],
    }
}

/// The output declaration of a struct field: its first identifier, prefixed with `prefix`.
pub open spec fn field_single_decl(f: SpecStructFieldSpecifier, prefix: Seq<char>) -> SpecSingleDeclaration {
    SpecSingleDeclaration {
        ty: SpecFullySpecifiedType { qualifier: Some(output_qualifier(f.qualifier)), ty: f.ty },
        name: Some(prefix + f.identifiers[0].ident),
        array_specifier: f.identifiers[0].array_spec,
        initializer: None,
    }
}

/// Map a struct field to a single declaration.
///
/// Typically suitable for generating an output from a struct field.
pub fn field_to_single_decl(field: &StructFieldSpecifier, prefix: &str) -> (res: SingleDeclaration)
    requires
        field@.identifiers.len() > 0,
    ensures
        res@ == field_single_decl(field@, prefix@),
{
    let out = TypeQualifierSpec::Storage(StorageQualifier::Out);
    let qualifier = match &field.qualifier {
        Some(qual) => {
            let mut q = qual.clone_syntax();
            q.qualifiers.push(out);
            assert(q@ =~= qual@.push(SpecTypeQualifierSpec::Storage(SpecStorageQualifier::Out)));
            q
        },
        None => {
            let q = TypeQualifier { qualifiers: vec![out] };
            assert(q@ =~= seq![SpecTypeQualifierSpec::Storage(SpecStorageQualifier::Out)]);
            q
        },
    };
    let fsty = FullySpecifiedType { qualifier: Some(qualifier), ty: field.ty.clone_syntax() };
    let first = &field.identifiers[0];
    assert(field@.identifiers[0] == first@);
    let mut name = String::from_str(prefix);
    name.append(first.ident.0.as_str());
    SingleDeclaration {
        ty: fsty,
        name: Some(Identifier(name)),
        array_specifier: match &first.array_spec {
            Some(a) => Some(clone_array_spec(a)),
            None => None,
        },
        initializer: None,
    }
}

/// Every field that the conversion reaches and takes as an output (no error before it, neither
/// a struct nor a type name) has at least one identifier.
pub open spec fn reached_fields_named(fields: Seq<SpecStructFieldSpecifier>, prefix: Seq<char>) -> bool {
    forall|i: int|
        0 <= i < fields.len() && #[trigger] fields_single_decls(fields.take(i), prefix) is Ok
            && !(fields[i].ty.ty is Struct) && !(fields[i].ty.ty is TypeName)
            ==> fields[i].identifiers.len() > 0
}

/// The output declarations of struct fields, or the first field (counted from 1) that cannot be
/// an output.
pub open spec fn fields_single_decls(fields: Seq<SpecStructFieldSpecifier>, prefix: Seq<char>) -> Result<
    Seq<SpecSingleDeclaration>,
    SpecGLSLConversionError,
>
    decreases fields.len(),
{
    if fields.len() == 0 {
        Ok(Seq::empty())
    } else {
        match fields_single_decls(fields.drop_last(), prefix) {
            Err(e) => Err(e),
            Ok(v) => {
                let n = fields.len() as int;
                let f = fields.last();
                match f.ty.ty {
                    SpecTypeSpecifierNonArray::Struct(s) => Err(
                        SpecGLSLConversionError::OutputFieldCannotBeStruct(n, s),
                    ),
                    SpecTypeSpecifierNonArray::TypeName(t) => Err(
                        SpecGLSLConversionError::OutputFieldCannotBeTypeName(n, t),
                    ),
                    _ => if f.identifiers.len() > 1 {
                        Err(SpecGLSLConversionError::OutputFieldCannotHaveSeveralIdentifiers(n, f))
                    } else {
                        Ok(v.push(field_single_decl(f, prefix)))
                    },
                }
            },
        }
    }
}

proof fn lemma_fields_single_decls_error(
    fields: Seq<SpecStructFieldSpecifier>,
    prefix: Seq<char>,
    n: int,
)
    requires
        0 <= n <= fields.len(),
        fields_single_decls(fields.take(n), prefix) is Err,
    ensures
        fields_single_decls(fields, prefix) == fields_single_decls(fields.take(n), prefix),
    decreases fields.len() - n,
{
    if n < fields.len() {
        assert(fields.take(n + 1).drop_last() =~= fields.take(n));
        lemma_fields_single_decls_error(fields, prefix, n + 1);
    } else {
        assert(fields.take(n) =~= fields);
    }
}

/// Map a struct’s fields to single declarations.
///
/// Typically suitable for generating outputs from a struct fields.
pub fn fields_to_single_decls(fields: &[StructFieldSpecifier], prefix: &str) -> (res: Result<
    Vec<SingleDeclaration>,
    GLSLConversionError,
>)
    requires
        reached_fields_named(fields@.map_values(|f: StructFieldSpecifier| f@), prefix@),
    ensures
        match res {
            Ok(v) => fields_single_decls(
                fields@.map_values(|f: StructFieldSpecifier| f@),
                prefix@,
            ) == Ok::<Seq<SpecSingleDeclaration>, SpecGLSLConversionError>(
                v@.map_values(|d: SingleDeclaration| d@),
            ),
            Err(e) => fields_single_decls(
                fields@.map_values(|f: StructFieldSpecifier| f@),
                prefix@,
            ) == Err::<Seq<SpecSingleDeclaration>, SpecGLSLConversionError>(e@),
        },
{
    let ghost fv = fields@.map_values(|f: StructFieldSpecifier| f@);
    let mut outputs: Vec<SingleDeclaration> = Vec::new();
    let mut i: usize = 0;
    assert(fv.take(0) =~= Seq::<SpecStructFieldSpecifier>::empty());
    assert(outputs@.map_values(|d: SingleDeclaration| d@) =~= Seq::<SpecSingleDeclaration>::empty());
    while i < fields.len()
        invariant
            i <= fields@.len(),
            fv == fields@.map_values(|f: StructFieldSpecifier| f@),
            reached_fields_named(fv, prefix@),
            fields_single_decls(fv.take(i as int), prefix@) == Ok::<
                Seq<SpecSingleDeclaration>,
                SpecGLSLConversionError,
            >(outputs@.map_values(|d: SingleDeclaration| d@)),
        decreases fields@.len() - i,
    {
        let field = &fields[i];
        assert(fv.take(i + 1).drop_last() =~= fv.take(i as int));
        assert(fv.take(i + 1).last() == field@);
        assert(fv[i as int] == field@);
        match &field.ty.ty {
            TypeSpecifierNonArray::Struct(s) => {
                proof {
                    lemma_fields_single_decls_error(fv, prefix@, i + 1);
                }
                return Err(GLSLConversionError::OutputFieldCannotBeStruct(i + 1, s.clone_syntax()));
            },
            TypeSpecifierNonArray::TypeName(t) => {
                proof {
                    lemma_fields_single_decls_error(fv, prefix@, i + 1);
                }
                return Err(GLSLConversionError::OutputFieldCannotBeTypeName(i + 1, t.clone()));
            },
            _ => {},
        }
        if field.identifiers.len() > 1 {
            proof {
                lemma_fields_single_decls_error(fv, prefix@, i + 1);
            }
            return Err(
                GLSLConversionError::OutputFieldCannotHaveSeveralIdentifiers(
                    i + 1,
                    field.clone_syntax(),
                ),
            );
        }
        let d = field_to_single_decl(field, prefix);
        let ghost prev = outputs@;
        outputs.push(d);
        assert(outputs@.map_values(|d: SingleDeclaration| d@) =~= prev.map_values(
            |d: SingleDeclaration| d@,
        ).push(field_single_decl(field@, prefix@)));
        i = i + 1;
    }
    assert(fv.take(fields@.len() as int) =~= fv);
    Ok(outputs)
}

// ------------------------------------------------------------------------------------------------
// Function signatures.

/// Whether a function parameter has a name.
pub open spec fn is_named(p: SpecFunctionParameterDeclaration) -> bool {
    p is Named
}

/// Whether a function argument is named.
pub fn is_fn_arg_named(arg: &FunctionParameterDeclaration) -> (res: bool)
    ensures
        res == is_named(arg@),
{
    match arg {
        FunctionParameterDeclaration::Named(..) => true,
        FunctionParameterDeclaration::Unnamed(..) => false,
    }
}

/// A function definition with its unnamed parameters removed.
pub open spec fn without_unused_args(f: SpecFunctionDefinition) -> SpecFunctionDefinition {
    SpecFunctionDefinition {
        prototype: SpecFunctionPrototype {
            ty: f.prototype.ty,
            name: f.prototype.name,
            parameters: f.prototype.parameters.filter(|p: SpecFunctionParameterDeclaration| is_named(p)),
        },
        statement: f.statement,
    }
}

/// Filter out a function definition by removing its unused (unnamed) arguments.
pub fn remove_unused_args_fn(f: &FunctionDefinition) -> (res: FunctionDefinition)
    ensures
        res@ == without_unused_args(f@),
{
    let ghost pv = f.prototype.parameters@.map_values(|p: FunctionParameterDeclaration| p@);
    let ghost pred = |p: SpecFunctionParameterDeclaration| is_named(p);
    let mut parameters: Vec<FunctionParameterDeclaration> = Vec::new();
    let mut i: usize = 0;
    assert(pv.take(0) =~= Seq::<SpecFunctionParameterDeclaration>::empty());
    assert(parameters@.map_values(|p: FunctionParameterDeclaration| p@) =~= Seq::<
        SpecFunctionParameterDeclaration,
    >::empty());
    while i < f.prototype.parameters.len()
        invariant
            i <= f.prototype.parameters@.len(),
            pv == f.prototype.parameters@.map_values(|p: FunctionParameterDeclaration| p@),
            pred == (|p: SpecFunctionParameterDeclaration| is_named(p)),
            parameters@.map_values(|p: FunctionParameterDeclaration| p@) == pv.take(i as int).filter(
                pred,
            ),
        decreases f.prototype.parameters@.len() - i,
    {
        let arg = &f.prototype.parameters[i];
        assert(pv.take(i + 1).drop_last() =~= pv.take(i as int));
        assert(pv.take(i + 1).last() == arg@);
        let ghost prev = parameters@;
        assert(pv.take(i + 1) =~= pv.take(i as int).push(arg@));
        proof {
            pv.take(i as int).lemma_filter_push(arg@, pred);
        }
        assert(pv.take(i + 1).filter(pred) == (if pred(arg@) {
            pv.take(i as int).filter(pred).push(arg@)
        } else {
            pv.take(i as int).filter(pred)
        }));
        if is_fn_arg_named(arg) {
            parameters.push(arg.clone_syntax());
            assert(parameters@.map_values(|p: FunctionParameterDeclaration| p@) =~= prev.map_values(
                |p: FunctionParameterDeclaration| p@,
            ).push(arg@));
        }
        i = i + 1;
    }
    assert(pv.take(f.prototype.parameters@.len() as int) =~= pv);
    let mut res = f.clone_syntax();
    res.prototype.parameters = parameters;
    res
}

/// The fully specified type of a function parameter.
pub open spec fn arg_fully_spec_ty(p: SpecFunctionParameterDeclaration) -> SpecFullySpecifiedType {
    match p {
        SpecFunctionParameterDeclaration::Named(q, d) => SpecFullySpecifiedType {
            qualifier: q,
            ty: d.ty,
        },
        SpecFunctionParameterDeclaration::Unnamed(q, t) => SpecFullySpecifiedType {
            qualifier: q,
            ty: t,
        },
    }
}

/// Get the fully specified type of a function’s argument.
pub fn fn_arg_as_fully_spec_ty(arg: &FunctionParameterDeclaration) -> (res: FullySpecifiedType)
    ensures
        res@ == arg_fully_spec_ty(arg@),
{
    match arg {
        FunctionParameterDeclaration::Named(qualifier, d) => FullySpecifiedType {
            qualifier: clone_opt_qualifier(qualifier),
            ty: d.ty.clone_syntax(),
        },
        FunctionParameterDeclaration::Unnamed(qualifier, ty) => FullySpecifiedType {
            qualifier: clone_opt_qualifier(qualifier),
            ty: ty.clone_syntax(),
        },
    }
}

/// The type name of a fully specified type, if its type is a type name.
pub open spec fn type_name_of(fst: SpecFullySpecifiedType) -> Option<Seq<char>> {
    match fst.ty.ty {
        SpecTypeSpecifierNonArray::TypeName(n) => Some(n),
        _ => None,
    }
}

/// Extract the type name of a fully specified type. If the type is not a typename, nothing is
/// returned.
pub fn get_ty_name_from_full_spec_ty(fst: &FullySpecifiedType) -> (res: Option<TypeName>)
    ensures
        match res {
            Some(n) => type_name_of(fst@) == Some(n@),
            None => type_name_of(fst@) is None,
        },
{
    match &fst.ty.ty {
        TypeSpecifierNonArray::TypeName(n) => Some(n.clone()),
        _ => None,
    }
}

/// The type name of the argument of a unary function.
pub open spec fn fn1_input_ty_name(f: SpecFunctionDefinition) -> Result<
    Seq<char>,
    SpecGLSLConversionError,
> {
    let params = f.prototype.parameters;
    if params.len() == 1 {
        match type_name_of(arg_fully_spec_ty(params[0])) {
            Some(n) => Ok(n),
            None => Err(SpecGLSLConversionError::NotTypeName),
        }
    } else {
        Err(SpecGLSLConversionError::WrongNumberOfArgs(1, params.len() as int))
    }
}

/// Get the type name of the argument of a unary function. If the argument is not unary, fail
/// with the approriate error.
pub fn get_fn1_input_ty_name(f: &FunctionDefinition) -> (res: Result<TypeName, GLSLConversionError>)
    ensures
        match res {
            Ok(n) => fn1_input_ty_name(f@) == Ok::<Seq<char>, SpecGLSLConversionError>(n@),
            Err(e) => fn1_input_ty_name(f@) == Err::<Seq<char>, SpecGLSLConversionError>(e@),
        },
{
    let params = &f.prototype.parameters;
    if params.len() == 1 {
        assert(f@.prototype.parameters[0] == params@[0]@);
        let fst = fn_arg_as_fully_spec_ty(&params[0]);
        match get_ty_name_from_full_spec_ty(&fst) {
            Some(n) => Ok(n),
            None => Err(GLSLConversionError::NotTypeName),
        }
    } else {
        Err(GLSLConversionError::WrongNumberOfArgs(1, params.len()))
    }
}

/// The first struct of `structs` named `name`.
pub open spec fn find_struct(structs: Seq<SpecStructSpecifier>, name: Seq<char>) -> Option<
    SpecStructSpecifier,
>
    decreases structs.len(),
{
    if structs.len() == 0 {
        None
    } else if structs[0].name == Some(name) {
        Some(structs[0])
    } else {
        find_struct(structs.drop_first(), name)
    }
}

/// The struct that a type specifier names, among `structs`.
pub open spec fn struct_of_ty_spec(ty: SpecTypeSpecifier, structs: Seq<SpecStructSpecifier>) -> Result<
    SpecStructSpecifier,
    SpecGLSLConversionError,
> {
    match ty.ty {
        SpecTypeSpecifierNonArray::TypeName(n) => match find_struct(structs, n) {
            Some(s) => Ok(s),
            None => Err(SpecGLSLConversionError::ReturnTypeMustBeAStruct(ty)),
        },
        _ => Err(SpecGLSLConversionError::ReturnTypeMustBeAStruct(ty)),
    }
}

/// Find the first struct of `structs` named `name`.
pub fn find_struct_named(structs: &[StructSpecifier], name: &TypeName) -> (res: Option<
    StructSpecifier,
>)
    ensures
        match res {
            Some(s) => find_struct(structs@.map_values(|s: StructSpecifier| s@), name@) == Some(
                s@,
            ),
            None => find_struct(structs@.map_values(|s: StructSpecifier| s@), name@) is None,
        },
{
    let ghost sv = structs@.map_values(|s: StructSpecifier| s@);
    let mut i: usize = 0;
    assert(sv.skip(0) =~= sv);
    while i < structs.len()
        invariant
            i <= structs@.len(),
            sv == structs@.map_values(|s: StructSpecifier| s@),
            find_struct(sv, name@) == find_struct(sv.skip(i as int), name@),
        decreases structs@.len() - i,
    {
        assert(sv.skip(i as int)[0] == structs@[i as int]@);
        let found = match &structs[i].name {
            Some(n) => n.0 == name.0,
            None => false,
        };
        if found {
            return Some(structs[i].clone_syntax());
        }
        assert(sv.skip(i as int).drop_first() =~= sv.skip(i + 1));
        i = i + 1;
    }
    None
}

/// Get the return type of a function by looking up its definition in the provided slice.
pub fn get_fn_ret_ty(f: &FunctionDefinition, structs: &[StructSpecifier]) -> (res: Result<
    StructSpecifier,
    GLSLConversionError,
>)
    ensures
        match res {
            Ok(s) => struct_of_ty_spec(
                f@.prototype.ty.ty,
                structs@.map_values(|s: StructSpecifier| s@),
            ) == Ok::<SpecStructSpecifier, SpecGLSLConversionError>(s@),
            Err(e) => struct_of_ty_spec(
                f@.prototype.ty.ty,
                structs@.map_values(|s: StructSpecifier| s@),
            ) == Err::<SpecStructSpecifier, SpecGLSLConversionError>(e@),
        },
{
    let ty = &f.prototype.ty.ty;
    match &ty.ty {
        TypeSpecifierNonArray::TypeName(name) => match find_struct_named(structs, name) {
            Some(s) => Ok(s),
            None => Err(GLSLConversionError::ReturnTypeMustBeAStruct(ty.clone_syntax())),
        },
        _ => Err(GLSLConversionError::ReturnTypeMustBeAStruct(ty.clone_syntax())),
    }
}

} // verus!
