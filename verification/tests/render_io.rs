use spectra::render::input::{
    BuiltIn, FramebufferResolution, Input, InputType, InputTypes, Role, Time, Type, RF, RGBAF,
    RGBAU, RGBF, RGI, RZ,
};
use spectra::render::output::{
    glsl_type_from_output_type, output_to_struct_field, outputs_to_struct_decl, Output,
    OutputType, OutputTypes, Type as OutputKind,
};
use spectra::render::shader::ast::{
    ArrayedIdentifier, BasicType, Declaration, ExternalDeclaration, FullySpecifiedType,
    Identifier, InitDeclaratorList, SingleDeclaration, StructFieldSpecifier, StructSpecifier,
    TypeName, TypeSpecifier, TypeSpecifierNonArray,
};
use spectra::render::type_channel::TypeChan;

fn field(ty: BasicType, name: &str) -> StructFieldSpecifier {
    StructFieldSpecifier {
        qualifier: None,
        ty: TypeSpecifier { ty: TypeSpecifierNonArray::Basic(ty), array_specifier: None },
        identifiers: vec![ArrayedIdentifier { ident: Identifier(name.to_owned()), array_spec: None }],
    }
}

fn struct_decl(name: &str, fields: Vec<StructFieldSpecifier>) -> ExternalDeclaration {
    ExternalDeclaration::Declaration(Declaration::InitDeclaratorList(InitDeclaratorList {
        head: SingleDeclaration {
            ty: FullySpecifiedType {
                qualifier: None,
                ty: TypeSpecifier {
                    ty: TypeSpecifierNonArray::Struct(StructSpecifier {
                        name: Some(TypeName(name.to_owned())),
                        fields,
                    }),
                    array_specifier: None,
                },
            },
            name: None,
            array_specifier: None,
            initializer: None,
        },
        tail: Vec::new(),
    }))
}

#[test]
fn input_construction() {
    let time = Input::new::<Time, _>("t", Role::Parameter);
    let jitter = Input::new::<RGBF, _>("jitter", Role::Parameter);

    assert_eq!(&time.name, "t");
    assert_eq!(time.ty, Time::input());
    assert_eq!(time.role, Role::Parameter);
    assert_eq!(&jitter.name, "jitter");
    assert_eq!(jitter.ty, RGBF::input());
    assert_eq!(jitter.role, Role::Parameter);
}

#[test]
fn outputs_to_glsl_struct() {
    let color = Output::new::<RGBAF, _>("color");
    let depth = Output::new::<RF, _>("depth");
    let outputs = &[color, depth];

    let ed = vec![outputs_to_struct_decl("Output", outputs).unwrap()];
    let expected = vec![struct_decl(
        "Output",
        vec![field(BasicType::Vec4, "color"), field(BasicType::Float, "depth")],
    )];

    assert_eq!(ed, expected);
}

#[test]
fn no_output_gives_no_struct() {
    assert_eq!(outputs_to_struct_decl("Output", &[]), None);
}

#[test]
fn input_types_of_markers() {
    assert_eq!(Time::input(), Type::BuiltIn(BuiltIn::Time));
    assert_eq!(FramebufferResolution::input(), Type::BuiltIn(BuiltIn::FramebufferResolution));
    assert_eq!(RF::input(), Type::Float(TypeChan::One));
    assert_eq!(RGI::input(), Type::Int(TypeChan::Two));
    assert_eq!(RGBAU::input(), Type::UInt(TypeChan::Four));
    assert_eq!(RZ::input(), Type::Bool(TypeChan::One));
}

#[test]
fn input_types_of_tuples() {
    assert_eq!(<RF as InputTypes>::ty(), vec![Type::Float(TypeChan::One)]);
    assert_eq!(
        <(Time, RGBF, RZ) as InputTypes>::ty(),
        vec![
            Type::BuiltIn(BuiltIn::Time),
            Type::Float(TypeChan::Three),
            Type::Bool(TypeChan::One),
        ]
    );
}

#[test]
fn output_types_of_markers_and_tuples() {
    assert_eq!(RGBAF::output(), OutputKind::Float(TypeChan::Four));
    assert_eq!(RGI::output(), OutputKind::Int(TypeChan::Two));
    assert_eq!(
        <(RGBAF, RF) as OutputTypes>::ty(),
        vec![OutputKind::Float(TypeChan::Four), OutputKind::Float(TypeChan::One)]
    );
}

#[test]
fn output_glsl_types() {
    let cases = [
        (OutputKind::Int(TypeChan::One), BasicType::Int),
        (OutputKind::Int(TypeChan::Four), BasicType::IVec4),
        (OutputKind::UInt(TypeChan::One), BasicType::UInt),
        (OutputKind::UInt(TypeChan::Three), BasicType::UVec3),
        (OutputKind::Float(TypeChan::One), BasicType::Float),
        (OutputKind::Float(TypeChan::Two), BasicType::Vec2),
        (OutputKind::Bool(TypeChan::One), BasicType::Bool),
        (OutputKind::Bool(TypeChan::Four), BasicType::BVec4),
    ];
    for (ty, basic) in cases.iter() {
        assert_eq!(
            glsl_type_from_output_type(ty),
            TypeSpecifier { ty: TypeSpecifierNonArray::Basic(*basic), array_specifier: None }
        );
    }
}

#[test]
fn output_struct_field() {
    let o = Output::new::<RGBF, _>(String::from("normal"));
    assert_eq!(output_to_struct_field(&o), field(BasicType::Vec3, "normal"));
}

#[test]
fn type_channel_counts() {
    assert_eq!(TypeChan::One.count(), 1);
    assert_eq!(TypeChan::Four.count(), 4);
    assert_eq!(TypeChan::from_count(3), Some(TypeChan::Three));
    assert_eq!(TypeChan::from_count(0), None);
    assert_eq!(TypeChan::from_count(5), None);
    for c in [TypeChan::One, TypeChan::Two, TypeChan::Three, TypeChan::Four].iter() {
        assert_eq!(TypeChan::from_count(c.count()), Some(*c));
    }
}
