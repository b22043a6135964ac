use spectra::render::shader::ast::{
    ArrayedIdentifier, BasicType, CompoundStatement, Declaration, ExternalDeclaration,
    FullySpecifiedType, FunctionDefinition, FunctionParameterDeclaration,
    FunctionParameterDeclarator, FunctionPrototype, Identifier, InitDeclaratorList,
    SingleDeclaration, SingleDeclarationNoType, StorageQualifier, StructFieldSpecifier,
    StructSpecifier, TypeQualifier, TypeQualifierSpec, TypeSpecifier, TypeSpecifierNonArray,
};
use spectra::render::shader::lang::syntax::{ImportList, Module as SyntaxModule, ModulePath};
use spectra::render::shader::module::{
    module_path_key, vertex_shader_interface, vertex_shader_output_field_to_ext_decl, DepsError,
    Module, ModuleKey, ModuleStore, VertexShaderInterfaceError,
};

fn basic(b: BasicType) -> TypeSpecifier {
    TypeSpecifier { ty: TypeSpecifierNonArray::Basic(b), array_specifier: None }
}

fn ident(s: &str) -> Identifier {
    Identifier(s.to_owned())
}

fn storage(q: StorageQualifier) -> Option<TypeQualifier> {
    Some(TypeQualifier { qualifiers: vec![TypeQualifierSpec::Storage(q)] })
}

fn import(path: &str) -> ImportList {
    ImportList {
        module: ModulePath { path: path.split('.').map(|s| s.to_owned()).collect() },
        list: Vec::new(),
    }
}

fn decl(qualifier: Option<TypeQualifier>, ty: BasicType, name: &str) -> ExternalDeclaration {
    ExternalDeclaration::Declaration(Declaration::InitDeclaratorList(InitDeclaratorList {
        head: SingleDeclaration {
            ty: FullySpecifiedType { qualifier, ty: basic(ty) },
            name: Some(ident(name)),
            array_specifier: None,
            initializer: None,
        },
        tail: Vec::new(),
    }))
}

fn module(imports: &[&str], glsl: Vec<ExternalDeclaration>) -> Module {
    Module(SyntaxModule { imports: imports.iter().map(|i| import(i)).collect(), glsl })
}

fn key(k: &str) -> ModuleKey {
    ModuleKey::new(k)
}

fn field(ty: TypeSpecifier, names: &[&str]) -> StructFieldSpecifier {
    StructFieldSpecifier {
        qualifier: None,
        ty,
        identifiers: names
            .iter()
            .map(|n| ArrayedIdentifier { ident: ident(n), array_spec: None })
            .collect(),
    }
}

fn fun(ret: FullySpecifiedType, params: Vec<FunctionParameterDeclaration>) -> FunctionDefinition {
    FunctionDefinition {
        prototype: FunctionPrototype { ty: ret, name: ident("main"), parameters: params },
        statement: CompoundStatement { statement_list: Vec::new() },
    }
}

fn named_param(ty: BasicType, name: &str) -> FunctionParameterDeclaration {
    FunctionParameterDeclaration::Named(
        storage(StorageQualifier::In),
        FunctionParameterDeclarator {
            ty: basic(ty),
            ident: ArrayedIdentifier { ident: ident(name), array_spec: None },
        },
    )
}

fn struct_ty(fields: Vec<StructFieldSpecifier>) -> FullySpecifiedType {
    FullySpecifiedType {
        qualifier: None,
        ty: TypeSpecifier {
            ty: TypeSpecifierNonArray::Struct(StructSpecifier { name: None, fields }),
            array_specifier: None,
        },
    }
}

fn gl_position() -> StructFieldSpecifier {
    field(basic(BasicType::Vec4), &["gl_Position"])
}

fn store() -> ModuleStore {
    let mut store = ModuleStore::new();
    store.insert(key("C"), module(&[], vec![decl(None, BasicType::Float, "c")]));
    store.insert(key("B"), module(&["C"], vec![decl(None, BasicType::Float, "b")]));
    store.insert(key("Cyc.X"), module(&["Cyc.Y"], Vec::new()));
    store.insert(key("Cyc.Y"), module(&["Cyc.X"], Vec::new()));
    store
}

#[test]
fn deps_come_in_dependency_order_without_duplicates() {
    let store = store();
    let a = module(&["B", "C"], vec![decl(None, BasicType::Float, "a")]);
    assert_eq!(a.deps(&store, &key("A")), Ok(vec![key("C"), key("B")]));
}

#[test]
fn deps_report_a_cycle() {
    let store = store();
    let x = store.get(&key("Cyc.X")).unwrap();
    assert_eq!(x.deps(&store, &key("Cyc.X")), Err(DepsError::Cycle(key("Cyc.Y"), key("Cyc.X"))));
}

#[test]
fn deps_report_a_missing_module() {
    let store = store();
    let a = module(&["B", "Nope.Z"], Vec::new());
    assert_eq!(a.deps(&store, &key("A")), Err(DepsError::LoadError(key("Nope.Z"))));
}

#[test]
fn gather_folds_dependencies_first() {
    let store = store();
    let a = module(&["B"], vec![decl(None, BasicType::Float, "a")]);
    let (m, deps) = a.gather(&store, &key("A")).unwrap();
    assert_eq!(deps, vec![key("C"), key("B")]);
    assert_eq!(
        m,
        module(
            &[],
            vec![
                decl(None, BasicType::Float, "c"),
                decl(None, BasicType::Float, "b"),
                decl(None, BasicType::Float, "a"),
            ]
        )
    );
}

#[test]
fn store_later_insertion_wins() {
    let mut store = ModuleStore::new();
    assert!(store.get(&key("M")).is_none());
    store.insert(key("M"), module(&[], vec![decl(None, BasicType::Int, "first")]));
    store.insert(key("M"), module(&[], vec![decl(None, BasicType::Int, "second")]));
    assert_eq!(store.get(&key("M")), Some(&module(&[], vec![decl(None, BasicType::Int, "second")])));
}

#[test]
fn uniforms_are_collected_with_their_siblings() {
    let list = ExternalDeclaration::Declaration(Declaration::InitDeclaratorList(InitDeclaratorList {
        head: SingleDeclaration {
            ty: FullySpecifiedType { qualifier: storage(StorageQualifier::Uniform), ty: basic(BasicType::Float) },
            name: Some(ident("t")),
            array_specifier: None,
            initializer: None,
        },
        tail: vec![SingleDeclarationNoType {
            ident: ArrayedIdentifier { ident: ident("u"), array_spec: None },
            initializer: None,
        }],
    }));
    let m = module(&[], vec![decl(None, BasicType::Float, "x"), list, decl(storage(StorageQualifier::Uniform), BasicType::Vec2, "res")]);
    let single = |ty: BasicType, n: &str| SingleDeclaration {
        ty: FullySpecifiedType { qualifier: storage(StorageQualifier::Uniform), ty: basic(ty) },
        name: Some(ident(n)),
        array_specifier: None,
        initializer: None,
    };
    assert_eq!(
        m.uniforms(),
        vec![single(BasicType::Float, "t"), single(BasicType::Float, "u"), single(BasicType::Vec2, "res")]
    );
}

#[test]
fn functions_are_collected_in_order() {
    let f = fun(FullySpecifiedType { qualifier: None, ty: basic(BasicType::Void) }, Vec::new());
    let m = module(
        &[],
        vec![decl(None, BasicType::Float, "x"), ExternalDeclaration::FunctionDefinition(f)],
    );
    let g = fun(FullySpecifiedType { qualifier: None, ty: basic(BasicType::Void) }, Vec::new());
    assert_eq!(m.functions(), vec![g]);
}

#[test]
fn module_keys_and_paths() {
    let p = ModulePath { path: vec!["Foo".to_owned(), "Bar".to_owned(), "Zoo".to_owned()] };
    assert_eq!(module_path_key(&p), key("Foo.Bar.Zoo"));
    assert_eq!(key("Foo.Bar").rel_path(), "Foo/Bar.spsl");
    assert_eq!(key("Foo.Bar").key_to_path(), std::path::PathBuf::from("Foo/Bar.spsl"));
    assert_eq!(key("Foo.Bar").as_str(), "Foo.Bar");
}

#[test]
fn vertex_interface_of_a_well_formed_shader() {
    let ret = struct_ty(vec![gl_position(), field(basic(BasicType::Vec3), &["color"])]);
    let f = fun(ret, vec![named_param(BasicType::Vec3, "pos")]);
    let i = vertex_shader_interface(&f).unwrap();
    assert_eq!(i.inputs(), &vec![decl(storage(StorageQualifier::In), BasicType::Vec3, "pos")]);
    assert_eq!(i.outputs(), &vec![decl(None, BasicType::Vec3, "color")]);
}

#[test]
fn vertex_interface_errors() {
    let good_ret = || struct_ty(vec![gl_position()]);
    let unnamed = fun(good_ret(), vec![FunctionParameterDeclaration::Unnamed(None, basic(BasicType::Vec3))]);
    assert_eq!(vertex_shader_interface(&unnamed), Err(VertexShaderInterfaceError::UnnamedInput));

    let mut qualified = good_ret();
    qualified.qualifier = storage(StorageQualifier::Out);
    assert_eq!(
        vertex_shader_interface(&fun(qualified, Vec::new())),
        Err(VertexShaderInterfaceError::OutputHasMainQualifier)
    );

    let not_struct = FullySpecifiedType { qualifier: None, ty: basic(BasicType::Vec4) };
    assert_eq!(
        vertex_shader_interface(&fun(not_struct, Vec::new())),
        Err(VertexShaderInterfaceError::OutputTypeMustBeAStruct(basic(BasicType::Vec4)))
    );

    let wrong_first = field(basic(BasicType::Vec3), &["gl_Position"]);
    let ret = struct_ty(vec![field(basic(BasicType::Vec3), &["gl_Position"])]);
    assert_eq!(
        vertex_shader_interface(&fun(ret, Vec::new())),
        Err(VertexShaderInterfaceError::WrongOutputFirstField(wrong_first))
    );

    let inner = TypeSpecifier {
        ty: TypeSpecifierNonArray::Struct(StructSpecifier { name: None, fields: vec![gl_position()] }),
        array_specifier: None,
    };
    let inner2 = TypeSpecifier {
        ty: TypeSpecifierNonArray::Struct(StructSpecifier { name: None, fields: vec![gl_position()] }),
        array_specifier: None,
    };
    let ret = struct_ty(vec![gl_position(), field(basic(BasicType::Float), &["a"]), field(inner, &["s"])]);
    assert_eq!(
        vertex_shader_interface(&fun(ret, Vec::new())),
        Err(VertexShaderInterfaceError::OutputFieldCannotBeStruct(1, inner2))
    );

    let ret = struct_ty(vec![gl_position(), field(basic(BasicType::Float), &["a", "b"])]);
    assert_eq!(
        vertex_shader_interface(&fun(ret, Vec::new())),
        Err(VertexShaderInterfaceError::OutputFieldCannotHaveSeveralIdentifiers(
            0,
            field(basic(BasicType::Float), &["a", "b"])
        ))
    );
}

#[test]
fn output_field_to_declaration() {
    let f = StructFieldSpecifier {
        qualifier: storage(StorageQualifier::Centroid),
        ty: basic(BasicType::Vec2),
        identifiers: vec![ArrayedIdentifier { ident: ident("uv"), array_spec: None }],
    };
    assert_eq!(
        vertex_shader_output_field_to_ext_decl(&f),
        decl(storage(StorageQualifier::Centroid), BasicType::Vec2, "uv")
    );
}

#[test]
fn vertex_interface_errors_come_before_unnamed_fields() {
    let nameless = || field(basic(BasicType::Vec4), &[]);
    let ret = struct_ty(vec![nameless()]);
    assert_eq!(
        vertex_shader_interface(&fun(ret, Vec::new())),
        Err(VertexShaderInterfaceError::WrongOutputFirstField(nameless()))
    );

    let mut qualified = struct_ty(Vec::new());
    qualified.qualifier = storage(StorageQualifier::Out);
    assert_eq!(
        vertex_shader_interface(&fun(qualified, Vec::new())),
        Err(VertexShaderInterfaceError::OutputHasMainQualifier)
    );

    let unnamed = fun(struct_ty(Vec::new()), vec![FunctionParameterDeclaration::Unnamed(None, basic(BasicType::Vec3))]);
    assert_eq!(vertex_shader_interface(&unnamed), Err(VertexShaderInterfaceError::UnnamedInput));

    let ret = struct_ty(vec![
        gl_position(),
        field(basic(BasicType::Float), &["a", "b"]),
        field(basic(BasicType::Float), &[]),
    ]);
    assert_eq!(
        vertex_shader_interface(&fun(ret, Vec::new())),
        Err(VertexShaderInterfaceError::OutputFieldCannotHaveSeveralIdentifiers(
            0,
            field(basic(BasicType::Float), &["a", "b"])
        ))
    );
}

#[test]
fn deps_report_the_import_closing_a_cycle() {
    let mut store = ModuleStore::new();
    store.insert(key("L.A"), module(&["L.B"], Vec::new()));
    store.insert(key("L.B"), module(&["L.C"], Vec::new()));
    store.insert(key("L.C"), module(&["L.A"], Vec::new()));
    store.insert(key("S"), module(&["S"], Vec::new()));
    let a = store.get(&key("L.A")).unwrap();
    assert_eq!(a.deps(&store, &key("L.A")), Err(DepsError::Cycle(key("L.C"), key("L.A"))));
    let b = store.get(&key("L.B")).unwrap();
    assert_eq!(b.deps(&store, &key("L.B")), Err(DepsError::Cycle(key("L.A"), key("L.B"))));
    let s = store.get(&key("S")).unwrap();
    assert_eq!(s.deps(&store, &key("S")), Err(DepsError::Cycle(key("S"), key("S"))));
}
