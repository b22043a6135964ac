use spectra::render::shader::ast::{
    ArraySpecifier, ArrayedIdentifier, BasicType, CompoundStatement, Declaration,
    ExternalDeclaration, FullySpecifiedType, FunctionDefinition, FunctionParameterDeclaration,
    FunctionParameterDeclarator, FunctionPrototype, Identifier, InitDeclaratorList,
    SingleDeclaration, StorageQualifier, StructFieldSpecifier, StructSpecifier, TypeName,
    TypeQualifier, TypeQualifierSpec, TypeSpecifier, TypeSpecifierNonArray, InterpolationQualifier,
};
use spectra::render::shader::cheddar::syntax as cheddar;
use spectra::render::shader::lang::syntax as lang;

fn basic(b: BasicType) -> TypeSpecifier {
    TypeSpecifier { ty: TypeSpecifierNonArray::Basic(b), array_specifier: None }
}

fn named(n: &str) -> TypeSpecifier {
    TypeSpecifier { ty: TypeSpecifierNonArray::TypeName(TypeName(n.to_owned())), array_specifier: None }
}

fn quals(qs: Vec<TypeQualifierSpec>) -> Option<TypeQualifier> {
    Some(TypeQualifier { qualifiers: qs })
}

fn out_decl(ty: BasicType, name: &str) -> SingleDeclaration {
    SingleDeclaration {
        ty: FullySpecifiedType {
            qualifier: quals(vec![
                TypeQualifierSpec::Interpolation(InterpolationQualifier::Flat),
                TypeQualifierSpec::Storage(StorageQualifier::Out),
            ]),
            ty: basic(ty),
        },
        name: Some(Identifier(name.to_owned())),
        array_specifier: None,
        initializer: None,
    }
}

fn in_decl(ty: TypeSpecifier, name: &str) -> SingleDeclaration {
    SingleDeclaration {
        ty: FullySpecifiedType {
            qualifier: quals(vec![
                TypeQualifierSpec::Interpolation(InterpolationQualifier::Flat),
                TypeQualifierSpec::Storage(StorageQualifier::In),
            ]),
            ty,
        },
        name: Some(Identifier(name.to_owned())),
        array_specifier: None,
        initializer: None,
    }
}

fn field(qualifier: Option<TypeQualifier>, ty: TypeSpecifier, names: &[&str]) -> StructFieldSpecifier {
    StructFieldSpecifier {
        qualifier,
        ty,
        identifiers: names
            .iter()
            .map(|n| ArrayedIdentifier { ident: Identifier((*n).to_owned()), array_spec: None })
            .collect(),
    }
}

fn param(named_param: bool, ty: TypeSpecifier) -> FunctionParameterDeclaration {
    if named_param {
        FunctionParameterDeclaration::Named(
            None,
            FunctionParameterDeclarator {
                ty,
                ident: ArrayedIdentifier { ident: Identifier("x".to_owned()), array_spec: None },
            },
        )
    } else {
        FunctionParameterDeclaration::Unnamed(None, ty)
    }
}

fn fun(ret: TypeSpecifier, params: Vec<FunctionParameterDeclaration>) -> FunctionDefinition {
    FunctionDefinition {
        prototype: FunctionPrototype {
            ty: FullySpecifiedType { qualifier: None, ty: ret },
            name: Identifier("f".to_owned()),
            parameters: params,
        },
        statement: CompoundStatement { statement_list: Vec::new() },
    }
}

fn strukt(name: &str, fields: Vec<StructFieldSpecifier>) -> StructSpecifier {
    StructSpecifier { name: Some(TypeName(name.to_owned())), fields }
}

#[test]
fn single_declaration_as_external_declaration() {
    let d = out_decl(BasicType::Float, "x");
    let e = ExternalDeclaration::Declaration(Declaration::InitDeclaratorList(InitDeclaratorList {
        head: out_decl(BasicType::Float, "x"),
        tail: Vec::new(),
    }));
    assert_eq!(lang::single_to_external_declaration(d), e);
    let e2 = ExternalDeclaration::Declaration(Declaration::InitDeclaratorList(InitDeclaratorList {
        head: out_decl(BasicType::Vec2, "y"),
        tail: Vec::new(),
    }));
    let e3 = ExternalDeclaration::Declaration(Declaration::InitDeclaratorList(InitDeclaratorList {
        head: out_decl(BasicType::Float, "x"),
        tail: Vec::new(),
    }));
    assert_eq!(
        lang::singles_to_external_declarations(&[out_decl(BasicType::Float, "x"), out_decl(BasicType::Vec2, "y")]),
        vec![e3, e2]
    );
}

#[test]
fn lang_input_from_output_swaps_out_for_in() {
    assert_eq!(lang::input_from_output(out_decl(BasicType::Vec3, "n")), in_decl(basic(BasicType::Vec3), "n"));
    assert_eq!(
        lang::inputs_from_outputs(&[out_decl(BasicType::Vec3, "n"), out_decl(BasicType::Float, "d")]),
        vec![in_decl(basic(BasicType::Vec3), "n"), in_decl(basic(BasicType::Float), "d")]
    );
}

#[test]
fn cheddar_input_from_output_sets_the_array() {
    let unsized_vec3 = TypeSpecifier {
        ty: TypeSpecifierNonArray::Basic(BasicType::Vec3),
        array_specifier: Some(ArraySpecifier::Unsized),
    };
    assert_eq!(cheddar::input_from_output(out_decl(BasicType::Vec3, "n"), true), in_decl(unsized_vec3, "n"));
    assert_eq!(
        cheddar::inputs_from_outputs(&[out_decl(BasicType::Vec3, "n")], false),
        vec![in_decl(basic(BasicType::Vec3), "n")]
    );
}

#[test]
fn field_to_single_declaration_prefixes_and_qualifies() {
    let f = field(
        quals(vec![TypeQualifierSpec::Interpolation(InterpolationQualifier::Flat)]),
        basic(BasicType::Float),
        &["x"],
    );
    assert_eq!(lang::field_to_single_decl(&f, "v_"), out_decl(BasicType::Float, "v_x"));
    let g = field(None, basic(BasicType::Vec2), &["uv"]);
    let expected = SingleDeclaration {
        ty: FullySpecifiedType {
            qualifier: quals(vec![TypeQualifierSpec::Storage(StorageQualifier::Out)]),
            ty: basic(BasicType::Vec2),
        },
        name: Some(Identifier("uv".to_owned())),
        array_specifier: None,
        initializer: None,
    };
    assert_eq!(lang::field_to_single_decl(&g, ""), expected);
}

#[test]
fn fields_to_single_declarations_and_their_errors() {
    let flat = || quals(vec![TypeQualifierSpec::Interpolation(InterpolationQualifier::Flat)]);
    let ok = vec![field(flat(), basic(BasicType::Float), &["a"]), field(flat(), basic(BasicType::Vec2), &["b"])];
    assert_eq!(
        lang::fields_to_single_decls(&ok, "p_"),
        Ok(vec![out_decl(BasicType::Float, "p_a"), out_decl(BasicType::Vec2, "p_b")])
    );
    let with_name = vec![field(None, basic(BasicType::Float), &["a"]), field(None, named("Foo"), &["b"])];
    assert_eq!(
        lang::fields_to_single_decls(&with_name, ""),
        Err(lang::GLSLConversionError::OutputFieldCannotBeTypeName(2, TypeName("Foo".to_owned())))
    );
    let inner = || StructSpecifier { name: None, fields: vec![field(None, basic(BasicType::Float), &["z"])] };
    let with_struct = vec![field(
        None,
        TypeSpecifier { ty: TypeSpecifierNonArray::Struct(inner()), array_specifier: None },
        &["s"],
    )];
    assert_eq!(
        cheddar::fields_to_single_decls(&with_struct, ""),
        Err(cheddar::GLSLConversionError::OutputFieldCannotBeStruct(1, inner()))
    );
    let several = vec![field(None, basic(BasicType::Float), &["a", "b"])];
    assert_eq!(
        cheddar::fields_to_single_decls(&several, ""),
        Err(cheddar::GLSLConversionError::OutputFieldCannotHaveSeveralIdentifiers(
            1,
            field(None, basic(BasicType::Float), &["a", "b"])
        ))
    );
}

#[test]
fn unused_arguments_are_removed() {
    let f = fun(basic(BasicType::Void), vec![param(false, basic(BasicType::Int)), param(true, basic(BasicType::Float)), param(false, basic(BasicType::Vec2))]);
    let g = fun(basic(BasicType::Void), vec![param(true, basic(BasicType::Float))]);
    assert_eq!(lang::remove_unused_args_fn(&f), g);
    assert!(lang::is_fn_arg_named(&param(true, basic(BasicType::Int))));
    assert!(!lang::is_fn_arg_named(&param(false, basic(BasicType::Int))));
}

#[test]
fn argument_types_and_type_names() {
    let fst = lang::fn_arg_as_fully_spec_ty(&param(true, named("In")));
    assert_eq!(fst, FullySpecifiedType { qualifier: None, ty: named("In") });
    assert_eq!(lang::get_ty_name_from_full_spec_ty(&fst), Some(TypeName("In".to_owned())));
    assert_eq!(cheddar::get_ty_name_from_fully_spec_ty(&fst), Ok(TypeName("In".to_owned())));
    let b = FullySpecifiedType { qualifier: None, ty: basic(BasicType::Float) };
    assert_eq!(lang::get_ty_name_from_full_spec_ty(&b), None);
    assert_eq!(cheddar::get_ty_name_from_fully_spec_ty(&b), Err(cheddar::GLSLConversionError::NotTypeName));
}

#[test]
fn unary_function_input_type_name() {
    let f = fun(basic(BasicType::Void), vec![param(true, named("Vertex"))]);
    assert_eq!(lang::get_fn1_input_ty_name(&f), Ok(TypeName("Vertex".to_owned())));
    assert_eq!(cheddar::get_fn1_input_ty_name(&f), Ok(TypeName("Vertex".to_owned())));
    let two = fun(basic(BasicType::Void), vec![param(true, named("A")), param(true, named("B"))]);
    assert_eq!(lang::get_fn1_input_ty_name(&two), Err(lang::GLSLConversionError::WrongNumberOfArgs(1, 2)));
    assert_eq!(cheddar::get_fn1_input_ty_name(&two), Err(cheddar::GLSLConversionError::WrongNumberOfArgs(1, 2)));
    let not_name = fun(basic(BasicType::Void), vec![param(false, basic(BasicType::Float))]);
    assert_eq!(lang::get_fn1_input_ty_name(&not_name), Err(lang::GLSLConversionError::NotTypeName));
}

#[test]
fn return_type_lookup() {
    let structs = vec![
        strukt("A", vec![field(None, basic(BasicType::Float), &["a"])]),
        strukt("B", vec![field(None, basic(BasicType::Vec4), &["b"])]),
        strukt("B", vec![field(None, basic(BasicType::Int), &["shadowed"])]),
    ];
    let f = fun(named("B"), Vec::new());
    let b = strukt("B", vec![field(None, basic(BasicType::Vec4), &["b"])]);
    assert_eq!(lang::get_fn_ret_ty(&f, &structs), Ok(b));
    let b = strukt("B", vec![field(None, basic(BasicType::Vec4), &["b"])]);
    assert_eq!(cheddar::get_fn_ret_ty(&f, &structs), Ok(b));
    let missing = fun(named("C"), Vec::new());
    assert_eq!(
        lang::get_fn_ret_ty(&missing, &structs),
        Err(lang::GLSLConversionError::ReturnTypeMustBeAStruct(named("C")))
    );
    assert_eq!(
        cheddar::struct_from_ty_spec(&basic(BasicType::Float), &structs),
        Err(cheddar::GLSLConversionError::ReturnTypeMustBeAStruct(basic(BasicType::Float)))
    );
}

#[test]
fn first_field_is_dropped() {
    let s = strukt("S", vec![field(None, basic(BasicType::Vec4), &["gl_Position"]), field(None, basic(BasicType::Float), &["d"])]);
    let t = strukt("S", vec![field(None, basic(BasicType::Float), &["d"])]);
    assert_eq!(lang::drop_first_field(&s), t);
    let t = strukt("S", vec![field(None, basic(BasicType::Float), &["d"])]);
    assert_eq!(cheddar::drop_1st_field(&s), t);
    let empty = StructSpecifier { name: None, fields: Vec::new() };
    assert_eq!(lang::drop_first_field(&empty), StructSpecifier { name: None, fields: Vec::new() });
}

#[test]
fn error_descriptions() {
    assert_eq!(cheddar::GLSLConversionError::NoVertexShader.description(), "no vertex shader");
    assert_eq!(cheddar::GLSLConversionError::WrongNumberOfArgs(1, 3).description(), "wrong number of arguments");
    assert_eq!(
        cheddar::GLSLConversionError::WrongOutputFirstField(field(None, basic(BasicType::Float), &["x"])).description(),
        "first field’s type is forbidden as output"
    );
    assert_eq!(cheddar::GLSLConversionError::WrongGeometryOutputLayout(None).description(), "wrong geometry output layout");
}

#[test]
fn import_paths_on_disk() {
    let il = cheddar::ImportList {
        module: lang::ModulePath { path: vec!["Foo".to_owned(), "Bar".to_owned(), "Zoo".to_owned()] },
        list: vec!["rick".to_owned(), "marty".to_owned()],
    };
    assert_eq!(il.rel_path(), "Foo/Bar/Zoo.chdr");
    assert_eq!(
        il.to_path(std::path::Path::new("/shaders")),
        std::path::PathBuf::from("/shaders/Foo/Bar/Zoo.chdr")
    );
}

#[test]
fn fields_conversion_stops_before_an_unnamed_field() {
    let unnamed = || field(None, basic(BasicType::Float), &[]);
    let with_name = vec![field(None, named("Foo"), &["b"]), unnamed()];
    assert_eq!(
        lang::fields_to_single_decls(&with_name, ""),
        Err(lang::GLSLConversionError::OutputFieldCannotBeTypeName(1, TypeName("Foo".to_owned())))
    );
    let several = vec![field(None, basic(BasicType::Float), &["a", "b"]), unnamed()];
    assert_eq!(
        cheddar::fields_to_single_decls(&several, ""),
        Err(cheddar::GLSLConversionError::OutputFieldCannotHaveSeveralIdentifiers(
            1,
            field(None, basic(BasicType::Float), &["a", "b"])
        ))
    );
}
