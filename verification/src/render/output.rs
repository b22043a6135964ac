//! Render output types and related functions.

use vstd::prelude::*;
use vstd::string::StringExecFns;

use crate::render::input::{
    IntoName, RF, RGBAF, RGBAI, RGBAU, RGBAZ, RGBF, RGBI, RGBU, RGBZ, RGF, RGI, RGU, RGZ, RI, RU,
    RZ,
};
use crate::render::shader::ast::{
    ArrayedIdentifier, BasicType, ExternalDeclaration, FullySpecifiedType, Identifier,
    SingleDeclaration, SpecArrayedIdentifier, SpecExternalDeclaration, SpecFullySpecifiedType,
    SpecSingleDeclaration, SpecStructFieldSpecifier, SpecStructSpecifier, SpecTypeSpecifier,
    SpecTypeSpecifierNonArray, StructFieldSpecifier, StructSpecifier, TypeName, TypeSpecifier,
    TypeSpecifierNonArray, clone_string, lemma_view_fields,
};
use crate::render::shader::lang::syntax::{single_ext_decl, single_to_external_declaration};
use crate::render::type_channel::TypeChan;

verus! {

/// Output types.
#[derive(Clone, Copy, Debug, Hash, PartialEq, Eq, Structural)]
pub enum Type {
    Int(TypeChan),
    UInt(TypeChan),
    Float(TypeChan),
    Bool(TypeChan),
}

/// Associate an output type to a given type.
pub trait OutputType {
    /// The output type associated to this type.
    spec fn spec_output() -> Type;

    /// The output type associated to this type.
    fn output() -> (res: Type)
        ensures
            res == Self::spec_output(),
    ;
}

/// Render outputs.
pub trait OutputTypes {
    /// The types of the outputs, in order.
    spec fn spec_ty() -> Seq<Type>;

    /// Get the types of the output.
    fn ty() -> (res: Vec<Type>)
        ensures
            res@ == Self::spec_ty(),
    ;
}

impl<A: OutputType> OutputTypes for A {
    open spec fn spec_ty() -> Seq<Type> {
        seq![A::spec_output()]
    }

    fn ty() -> (res: Vec<Type>) {
        vec![A::output()]
    }
}

impl<A: OutputType, B: OutputType> OutputTypes for (A, B) {
    open spec fn spec_ty() -> Seq<Type> {
        seq![A::spec_output(), B::spec_output()]
    }

    fn ty() -> (res: Vec<Type>) {
        vec![A::output(), B::output()]
    }
}

impl<A: OutputType, B: OutputType, C: OutputType> OutputTypes for (A, B, C) {
    open spec fn spec_ty() -> Seq<Type> {
        seq![A::spec_output(), B::spec_output(), C::spec_output()]
    }

    fn ty() -> (res: Vec<Type>) {
        vec![A::output(), B::output(), C::output()]
    }
}

impl<A: OutputType, B: OutputType, C: OutputType, D: OutputType> OutputTypes for (A, B, C, D) {
    open spec fn spec_ty() -> Seq<Type> {
        seq![A::spec_output(), B::spec_output(), C::spec_output(), D::spec_output()]
    }

    fn ty() -> (res: Vec<Type>) {
        vec![A::output(), B::output(), C::output(), D::output()]
    }
}

impl<A: OutputType, B: OutputType, C: OutputType, D: OutputType, E: OutputType> OutputTypes for (A, B, C, D, E) {
    open spec fn spec_ty() -> Seq<Type> {
        seq![A::spec_output(), B::spec_output(), C::spec_output(), D::spec_output(), E::spec_output()]
    }

    fn ty() -> (res: Vec<Type>) {
        vec![A::output(), B::output(), C::output(), D::output(), E::output()]
    }
}

impl<A: OutputType, B: OutputType, C: OutputType, D: OutputType, E: OutputType, F: OutputType> OutputTypes for (A, B, C, D, E, F) {
    open spec fn spec_ty() -> Seq<Type> {
        seq![A::spec_output(), B::spec_output(), C::spec_output(), D::spec_output(), E::spec_output(), F::spec_output()]
    }

    fn ty() -> (res: Vec<Type>) {
        vec![A::output(), B::output(), C::output(), D::output(), E::output(), F::output()]
    }
}

impl<A: OutputType, B: OutputType, C: OutputType, D: OutputType, E: OutputType, F: OutputType, G: OutputType> OutputTypes for (A, B, C, D, E, F, G) {
    open spec fn spec_ty() -> Seq<Type> {
        seq![A::spec_output(), B::spec_output(), C::spec_output(), D::spec_output(), E::spec_output(), F::spec_output(), G::spec_output()]
    }

    fn ty() -> (res: Vec<Type>) {
        vec![A::output(), B::output(), C::output(), D::output(), E::output(), F::output(), G::output()]
    }
}

impl<A: OutputType, B: OutputType, C: OutputType, D: OutputType, E: OutputType, F: OutputType, G: OutputType, H: OutputType> OutputTypes for (A, B, C, D, E, F, G, H) {
    open spec fn spec_ty() -> Seq<Type> {
        seq![A::spec_output(), B::spec_output(), C::spec_output(), D::spec_output(), E::spec_output(), F::spec_output(), G::spec_output(), H::spec_output()]
    }

    fn ty() -> (res: Vec<Type>) {
        vec![A::output(), B::output(), C::output(), D::output(), E::output(), F::output(), G::output(), H::output()]
    }
}

impl<A: OutputType, B: OutputType, C: OutputType, D: OutputType, E: OutputType, F: OutputType, G: OutputType, H: OutputType, I: OutputType> OutputTypes for (A, B, C, D, E, F, G, H, I) {
    open spec fn spec_ty() -> Seq<Type> {
        seq![A::spec_output(), B::spec_output(), C::spec_output(), D::spec_output(), E::spec_output(), F::spec_output(), G::spec_output(), H::spec_output(), I::spec_output()]
    }

    fn ty() -> (res: Vec<Type>) {
        vec![A::output(), B::output(), C::output(), D::output(), E::output(), F::output(), G::output(), H::output(), I::output()]
    }
}

impl<A: OutputType, B: OutputType, C: OutputType, D: OutputType, E: OutputType, F: OutputType, G: OutputType, H: OutputType, I: OutputType, J: OutputType> OutputTypes for (A, B, C, D, E, F, G, H, I, J) {
    open spec fn spec_ty() -> Seq<Type> {
        seq![A::spec_output(), B::spec_output(), C::spec_output(), D::spec_output(), E::spec_output(), F::spec_output(), G::spec_output(), H::spec_output(), I::spec_output(), J::spec_output()]
    }

    fn ty() -> (res: Vec<Type>) {
        vec![A::output(), B::output(), C::output(), D::output(), E::output(), F::output(), G::output(), H::output(), I::output(), J::output()]
    }
}

impl<A: OutputType, B: OutputType, C: OutputType, D: OutputType, E: OutputType, F: OutputType, G: OutputType, H: OutputType, I: OutputType, J: OutputType, K: OutputType> OutputTypes for (A, B, C, D, E, F, G, H, I, J, K) {
    open spec fn spec_ty() -> Seq<Type> {
        seq![A::spec_output(), B::spec_output(), C::spec_output(), D::spec_output(), E::spec_output(), F::spec_output(), G::spec_output(), H::spec_output(), I::spec_output(), J::spec_output(), K::spec_output()]
    }

    fn ty() -> (res: Vec<Type>) {
        vec![A::output(), B::output(), C::output(), D::output(), E::output(), F::output(), G::output(), H::output(), I::output(), J::output(), K::output()]
    }
}

impl<A: OutputType, B: OutputType, C: OutputType, D: OutputType, E: OutputType, F: OutputType, G: OutputType, H: OutputType, I: OutputType, J: OutputType, K: OutputType, L: OutputType> OutputTypes for (A, B, C, D, E, F, G, H, I, J, K, L) {
    open spec fn spec_ty() -> Seq<Type> {
        seq![A::spec_output(), B::spec_output(), C::spec_output(), D::spec_output(), E::spec_output(), F::spec_output(), G::spec_output(), H::spec_output(), I::spec_output(), J::spec_output(), K::spec_output(), L::spec_output()]
    }

    fn ty() -> (res: Vec<Type>) {
        vec![A::output(), B::output(), C::output(), D::output(), E::output(), F::output(), G::output(), H::output(), I::output(), J::output(), K::output(), L::output()]
    }
}

impl OutputType for RI {
    open spec fn spec_output() -> Type {
        Type::Int(TypeChan::One)
    }

    fn output() -> (res: Type) {
        Type::Int(TypeChan::One)
    }
}

impl OutputType for RGI {
    open spec fn spec_output() -> Type {
        Type::Int(TypeChan::Two)
    }

    fn output() -> (res: Type) {
        Type::Int(TypeChan::Two)
    }
}

impl OutputType for RGBI {
    open spec fn spec_output() -> Type {
        Type::Int(TypeChan::Three)
    }

    fn output() -> (res: Type) {
        Type::Int(TypeChan::Three)
    }
}

impl OutputType for RGBAI {
    open spec fn spec_output() -> Type {
        Type::Int(TypeChan::Four)
    }

    fn output() -> (res: Type) {
        Type::Int(TypeChan::Four)
    }
}

impl OutputType for RU {
    open spec fn spec_output() -> Type {
        Type::UInt(TypeChan::One)
    }

    fn output() -> (res: Type) {
        Type::UInt(TypeChan::One)
    }
}

impl OutputType for RGU {
    open spec fn spec_output() -> Type {
        Type::UInt(TypeChan::Two)
    }

    fn output() -> (res: Type) {
        Type::UInt(TypeChan::Two)
    }
}

impl OutputType for RGBU {
    open spec fn spec_output() -> Type {
        Type::UInt(TypeChan::Three)
    }

    fn output() -> (res: Type) {
        Type::UInt(TypeChan::Three)
    }
}

impl OutputType for RGBAU {
    open spec fn spec_output() -> Type {
        Type::UInt(TypeChan::Four)
    }

    fn output() -> (res: Type) {
        Type::UInt(TypeChan::Four)
    }
}

impl OutputType for RF {
    open spec fn spec_output() -> Type {
        Type::Float(TypeChan::One)
    }

    fn output() -> (res: Type) {
        Type::Float(TypeChan::One)
    }
}

impl OutputType for RGF {
    open spec fn spec_output() -> Type {
        Type::Float(TypeChan::Two)
    }

    fn output() -> (res: Type) {
        Type::Float(TypeChan::Two)
    }
}

impl OutputType for RGBF {
    open spec fn spec_output() -> Type {
        Type::Float(TypeChan::Three)
    }

    fn output() -> (res: Type) {
        Type::Float(TypeChan::Three)
    }
}

impl OutputType for RGBAF {
    open spec fn spec_output() -> Type {
        Type::Float(TypeChan::Four)
    }

    fn output() -> (res: Type) {
        Type::Float(TypeChan::Four)
    }
}

impl OutputType for RZ {
    open spec fn spec_output() -> Type {
        Type::Bool(TypeChan::One)
    }

    fn output() -> (res: Type) {
        Type::Bool(TypeChan::One)
    }
}

impl OutputType for RGZ {
    open spec fn spec_output() -> Type {
        Type::Bool(TypeChan::Two)
    }

    fn output() -> (res: Type) {
        Type::Bool(TypeChan::Two)
    }
}

impl OutputType for RGBZ {
    open spec fn spec_output() -> Type {
        Type::Bool(TypeChan::Three)
    }

    fn output() -> (res: Type) {
        Type::Bool(TypeChan::Three)
    }
}

impl OutputType for RGBAZ {
    open spec fn spec_output() -> Type {
        Type::Bool(TypeChan::Four)
    }

    fn output() -> (res: Type) {
        Type::Bool(TypeChan::Four)
    }
}

/// An output.
#[derive(Debug, PartialEq)]
pub struct Output {
    /// Name of the output.
    pub name: String,
    /// Type of the output.
    pub ty: Type,
}

impl Output {
    /// Create a new output.
    pub fn new<T: OutputType, N: IntoName>(name: N) -> (res: Self)
        ensures
            res.name@ == name.name_view(),
            res.ty == T::spec_output(),
    {
        Output { name: name.into_name(), ty: T::output() }
    }
}

/// The GLSL type of an output type: a scalar or a vector of the same kind and number of
/// channels.
pub open spec fn basic_type_of(ty: Type) -> BasicType {
    match ty {
        Type::Int(TypeChan::One) => BasicType::Int,
        Type::Int(TypeChan::Two) => BasicType::IVec2,
        Type::Int(TypeChan::Three) => BasicType::IVec3,
        Type::Int(TypeChan::Four) => BasicType::IVec4,
        Type::UInt(TypeChan::One) => BasicType::UInt,
        Type::UInt(TypeChan::Two) => BasicType::UVec2,
        Type::UInt(TypeChan::Three) => BasicType::UVec3,
        Type::UInt(TypeChan::Four) => BasicType::UVec4,
        Type::Float(TypeChan::One) => BasicType::Float,
        Type::Float(TypeChan::Two) => BasicType::Vec2,
        Type::Float(TypeChan::Three) => BasicType::Vec3,
        Type::Float(TypeChan::Four) => BasicType::Vec4,
        Type::Bool(TypeChan::One) => BasicType::Bool,
        Type::Bool(TypeChan::Two) => BasicType::BVec2,
        Type::Bool(TypeChan::Three) => BasicType::BVec3,
        Type::Bool(TypeChan::Four) => BasicType::BVec4,
    }
}

/// The GLSL type specifier of an output type (not an array).
pub open spec fn glsl_type_of(ty: Type) -> SpecTypeSpecifier {
    SpecTypeSpecifier { ty: SpecTypeSpecifierNonArray::Basic(basic_type_of(ty)), array_specifier: None }
}

/// The number of components of a scalar or vector GLSL type; zero for the other types.
pub open spec fn basic_components(b: BasicType) -> nat {
    match b {
        BasicType::Bool | BasicType::Int | BasicType::UInt | BasicType::Float | BasicType::Double => 1,
        BasicType::BVec2 | BasicType::IVec2 | BasicType::UVec2 | BasicType::Vec2 | BasicType::DVec2 => 2,
        BasicType::BVec3 | BasicType::IVec3 | BasicType::UVec3 | BasicType::Vec3 | BasicType::DVec3 => 3,
        BasicType::BVec4 | BasicType::IVec4 | BasicType::UVec4 | BasicType::Vec4 | BasicType::DVec4 => 4,
        _ => 0,
    }
}

/// Whether a GLSL type is a signed integer scalar or vector.
pub open spec fn holds_ints(b: BasicType) -> bool {
    b is Int || b is IVec2 || b is IVec3 || b is IVec4
}

/// Whether a GLSL type is an unsigned integer scalar or vector.
pub open spec fn holds_uints(b: BasicType) -> bool {
    b is UInt || b is UVec2 || b is UVec3 || b is UVec4
}

/// Whether a GLSL type is a single-precision float scalar or vector.
pub open spec fn holds_floats(b: BasicType) -> bool {
    b is Float || b is Vec2 || b is Vec3 || b is Vec4
}

/// Whether a GLSL type is a boolean scalar or vector.
pub open spec fn holds_bools(b: BasicType) -> bool {
    b is Bool || b is BVec2 || b is BVec3 || b is BVec4
}

/// The GLSL type of an output type is a plain (not array) scalar or vector that keeps both its
/// kind (integers, unsigned integers, floats or booleans) and its number of channels.
pub proof fn lemma_glsl_type_keeps_kind_and_channels(ty: Type)
    ensures
        glsl_type_of(ty).array_specifier is None,
        glsl_type_of(ty).ty matches SpecTypeSpecifierNonArray::Basic(b) && {
            &&& basic_components(b) == match ty {
                Type::Int(c) | Type::UInt(c) | Type::Float(c) | Type::Bool(c) => c.spec_count() as nat,
            }
            &&& holds_ints(b) <==> ty is Int
            &&& holds_uints(b) <==> ty is UInt
            &&& holds_floats(b) <==> ty is Float
            &&& holds_bools(b) <==> ty is Bool
        },
{
}

/// Generate a GLSL type from a given output type.
pub fn glsl_type_from_output_type(ty: &Type) -> (res: TypeSpecifier)
    ensures
        res@ == glsl_type_of(*ty),
{
    let ty_nonarray = match *ty {
        Type::Int(TypeChan::One) => BasicType::Int,
        Type::Int(TypeChan::Two) => BasicType::IVec2,
        Type::Int(TypeChan::Three) => BasicType::IVec3,
        Type::Int(TypeChan::Four) => BasicType::IVec4,
        Type::UInt(TypeChan::One) => BasicType::UInt,
        Type::UInt(TypeChan::Two) => BasicType::UVec2,
        Type::UInt(TypeChan::Three) => BasicType::UVec3,
        Type::UInt(TypeChan::Four) => BasicType::UVec4,
        Type::Float(TypeChan::One) => BasicType::Float,
        Type::Float(TypeChan::Two) => BasicType::Vec2,
        Type::Float(TypeChan::Three) => BasicType::Vec3,
        Type::Float(TypeChan::Four) => BasicType::Vec4,
        Type::Bool(TypeChan::One) => BasicType::Bool,
        Type::Bool(TypeChan::Two) => BasicType::BVec2,
        Type::Bool(TypeChan::Three) => BasicType::BVec3,
        Type::Bool(TypeChan::Four) => BasicType::BVec4,
    };
    TypeSpecifier { ty: TypeSpecifierNonArray::Basic(ty_nonarray), array_specifier: None }
}

/// The struct field of an output: its name, with the GLSL type of its type.
pub open spec fn output_field(o: Output) -> SpecStructFieldSpecifier {
    SpecStructFieldSpecifier {
        qualifier: None,
        ty: glsl_type_of(o.ty),
        identifiers: seq![SpecArrayedIdentifier { ident: o.name@, array_spec: None }],
    }
}

/// Generate a struct field from an ouput.
pub fn output_to_struct_field(output: &Output) -> (res: StructFieldSpecifier)
    ensures
        res@ == output_field(*output),
{
    let ident = ArrayedIdentifier { ident: Identifier(clone_string(&output.name)), array_spec: None };
    let res = StructFieldSpecifier {
        qualifier: None,
        ty: glsl_type_from_output_type(&output.ty),
        identifiers: vec![ident],
    };
    assert(res@.identifiers =~= output_field(*output).identifiers);
    res
}

/// The declaration of a struct named `name` with one field per output, in order; none if there
/// is no output, as GLSL forbids empty structs.
pub open spec fn outputs_struct_decl(name: Seq<char>, outputs: Seq<Output>) -> Option<
    SpecExternalDeclaration,
> {
    if outputs.len() == 0 {
        None
    } else {
        Some(
            single_ext_decl(
                SpecSingleDeclaration {
                    ty: SpecFullySpecifiedType {
                        qualifier: None,
                        ty: SpecTypeSpecifier {
                            ty: SpecTypeSpecifierNonArray::Struct(
                                SpecStructSpecifier {
                                    name: Some(name),
                                    fields: outputs.map_values(|o: Output| output_field(o)),
                                },
                            ),
                            array_specifier: None,
                        },
                    },
                    name: None,
                    array_specifier: None,
                    initializer: None,
                },
            ),
        )
    }
}

/// Generate a GLSL structure given a list of outputs.
pub fn outputs_to_struct_decl(name: &str, outputs: &[Output]) -> (res: Option<ExternalDeclaration>)
    ensures
        match res {
            Some(d) => outputs_struct_decl(name@, outputs@) == Some(d@),
            None => outputs_struct_decl(name@, outputs@) is None,
        },
{
    if outputs.len() == 0 {
        return None;
    }
    let mut fields: Vec<StructFieldSpecifier> = Vec::new();
    let mut i: usize = 0;
    while i < outputs.len()
        invariant
            i <= outputs@.len(),
            fields@.len() == i,
            forall|j: int| 0 <= j < i ==> #[trigger] fields@[j]@ == output_field(outputs@[j]),
        decreases outputs@.len() - i,
    {
        fields.push(output_to_struct_field(&outputs[i]));
        i = i + 1;
    }
    let s = StructSpecifier { name: Some(TypeName(String::from_str(name))), fields };
    proof {
        lemma_view_fields(s.fields@);
        assert(s@.fields =~= outputs@.map_values(|o: Output| output_field(o)));
    }
    let sd = SingleDeclaration {
        ty: FullySpecifiedType {
            qualifier: None,
            ty: TypeSpecifier { ty: TypeSpecifierNonArray::Struct(s), array_specifier: None },
        },
        name: None,
        array_specifier: None,
        initializer: None,
    };
    Some(single_to_external_declaration(sd))
}

/// The output type of each marker is the one its name tells: `R`, `RG`, `RGB` and `RGBA` have
/// one to four channels, of integers (`I`), unsigned integers (`U`), floats (`F`) or booleans
/// (`Z`).
pub proof fn lemma_output_type_table()
    ensures
        RI::spec_output() == Type::Int(TypeChan::One),
        RGI::spec_output() == Type::Int(TypeChan::Two),
        RGBI::spec_output() == Type::Int(TypeChan::Three),
        RGBAI::spec_output() == Type::Int(TypeChan::Four),
        RU::spec_output() == Type::UInt(TypeChan::One),
        RGU::spec_output() == Type::UInt(TypeChan::Two),
        RGBU::spec_output() == Type::UInt(TypeChan::Three),
        RGBAU::spec_output() == Type::UInt(TypeChan::Four),
        RF::spec_output() == Type::Float(TypeChan::One),
        RGF::spec_output() == Type::Float(TypeChan::Two),
        RGBF::spec_output() == Type::Float(TypeChan::Three),
        RGBAF::spec_output() == Type::Float(TypeChan::Four),
        RZ::spec_output() == Type::Bool(TypeChan::One),
        RGZ::spec_output() == Type::Bool(TypeChan::Two),
        RGBZ::spec_output() == Type::Bool(TypeChan::Three),
        RGBAZ::spec_output() == Type::Bool(TypeChan::Four),
{
}

} // verus!
