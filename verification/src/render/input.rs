//! Render input types and related functions.

use vstd::prelude::*;
use vstd::string::StringExecFns;

use crate::render::type_channel::TypeChan;

verus! {

/// Input type.
///
/// The `BuiltIn` variant doesn’t have a [`TypeChan`] because its type is completely implicit
/// (semantics typing). Instead, it has a [`BuiltIn`] object that drives the semantic.
#[derive(Clone, Copy, Debug, Hash, PartialEq, Eq, Structural)]
pub enum Type {
    Int(TypeChan),
    UInt(TypeChan),
    Float(TypeChan),
    Bool(TypeChan),
    BuiltIn(BuiltIn),
}

/// Role of an input. It can either be a functional input, like a vertex’s attribute, or a
/// constant parameter.
///
/// This is not really important when writing a shader code but becomes important when writing
/// the render pipeline.
#[derive(Clone, Copy, Debug, Hash, PartialEq, Eq, Structural)]
pub enum Role {
    Pipeline,
    Parameter,
}

/// Built-ins.
#[derive(Clone, Copy, Debug, Hash, PartialEq, Eq, Structural)]
pub enum BuiltIn {
    Time,
    FramebufferResolution,
}

/// Associate an input type to a given type.
pub trait InputType {
    /// The input type associated to this type.
    spec fn spec_input() -> Type;

    /// The input type associated to this type.
    fn input() -> (res: Type)
        ensures
            res == Self::spec_input(),
    ;
}

/// Render inputs.
pub trait InputTypes {
    /// The types of the inputs, in order.
    spec fn spec_ty() -> Seq<Type>;

    /// Get the types of the input.
    fn ty() -> (res: Vec<Type>)
        ensures
            res@ == Self::spec_ty(),
    ;
}

impl<A: InputType> InputTypes for A {
    open spec fn spec_ty() -> Seq<Type> {
        seq![A::spec_input()]
    }

    fn ty() -> (res: Vec<Type>) {
        vec![A::input()]
    }
}

impl<A: InputType, B: InputType> InputTypes for (A, B) {
    open spec fn spec_ty() -> Seq<Type> {
        seq![A::spec_input(), B::spec_input()]
    }

    fn ty() -> (res: Vec<Type>) {
        vec![A::input(), B::input()]
    }
}

impl<A: InputType, B: InputType, C: InputType> InputTypes for (A, B, C) {
    open spec fn spec_ty() -> Seq<Type> {
        seq![A::spec_input(), B::spec_input(), C::spec_input()]
    }

    fn ty() -> (res: Vec<Type>) {
        vec![A::input(), B::input(), C::input()]
    }
}

impl<A: InputType, B: InputType, C: InputType, D: InputType> InputTypes for (A, B, C, D) {
    open spec fn spec_ty() -> Seq<Type> {
        seq![A::spec_input(), B::spec_input(), C::spec_input(), D::spec_input()]
    }

    fn ty() -> (res: Vec<Type>) {
        vec![A::input(), B::input(), C::input(), D::input()]
    }
}

impl<A: InputType, B: InputType, C: InputType, D: InputType, E: InputType> InputTypes for (A, B, C, D, E) {
    open spec fn spec_ty() -> Seq<Type> {
        seq![A::spec_input(), B::spec_input(), C::spec_input(), D::spec_input(), E::spec_input()]
    }

    fn ty() -> (res: Vec<Type>) {
        vec![A::input(), B::input(), C::input(), D::input(), E::input()]
    }
}

impl<A: InputType, B: InputType, C: InputType, D: InputType, E: InputType, F: InputType> InputTypes for (A, B, C, D, E, F) {
    open spec fn spec_ty() -> Seq<Type> {
        seq![A::spec_input(), B::spec_input(), C::spec_input(), D::spec_input(), E::spec_input(), F::spec_input()]
    }

    fn ty() -> (res: Vec<Type>) {
        vec![A::input(), B::input(), C::input(), D::input(), E::input(), F::input()]
    }
}

impl<A: InputType, B: InputType, C: InputType, D: InputType, E: InputType, F: InputType, G: InputType> InputTypes for (A, B, C, D, E, F, G) {
    open spec fn spec_ty() -> Seq<Type> {
        seq![A::spec_input(), B::spec_input(), C::spec_input(), D::spec_input(), E::spec_input(), F::spec_input(), G::spec_input()]
    }

    fn ty() -> (res: Vec<Type>) {
        vec![A::input(), B::input(), C::input(), D::input(), E::input(), F::input(), G::input()]
    }
}

impl<A: InputType, B: InputType, C: InputType, D: InputType, E: InputType, F: InputType, G: InputType, H: InputType> InputTypes for (A, B, C, D, E, F, G, H) {
    open spec fn spec_ty() -> Seq<Type> {
        seq![A::spec_input(), B::spec_input(), C::spec_input(), D::spec_input(), E::spec_input(), F::spec_input(), G::spec_input(), H::spec_input()]
    }

    fn ty() -> (res: Vec<Type>) {
        vec![A::input(), B::input(), C::input(), D::input(), E::input(), F::input(), G::input(), H::input()]
    }
}

impl<A: InputType, B: InputType, C: InputType, D: InputType, E: InputType, F: InputType, G: InputType, H: InputType, I: InputType> InputTypes for (A, B, C, D, E, F, G, H, I) {
    open spec fn spec_ty() -> Seq<Type> {
        seq![A::spec_input(), B::spec_input(), C::spec_input(), D::spec_input(), E::spec_input(), F::spec_input(), G::spec_input(), H::spec_input(), I::spec_input()]
    }

    fn ty() -> (res: Vec<Type>) {
        vec![A::input(), B::input(), C::input(), D::input(), E::input(), F::input(), G::input(), H::input(), I::input()]
    }
}

impl<A: InputType, B: InputType, C: InputType, D: InputType, E: InputType, F: InputType, G: InputType, H: InputType, I: InputType, J: InputType> InputTypes for (A, B, C, D, E, F, G, H, I, J) {
    open spec fn spec_ty() -> Seq<Type> {
        seq![A::spec_input(), B::spec_input(), C::spec_input(), D::spec_input(), E::spec_input(), F::spec_input(), G::spec_input(), H::spec_input(), I::spec_input(), J::spec_input()]
    }

    fn ty() -> (res: Vec<Type>) {
        vec![A::input(), B::input(), C::input(), D::input(), E::input(), F::input(), G::input(), H::input(), I::input(), J::input()]
    }
}

impl<A: InputType, B: InputType, C: InputType, D: InputType, E: InputType, F: InputType, G: InputType, H: InputType, I: InputType, J: InputType, K: InputType> InputTypes for (A, B, C, D, E, F, G, H, I, J, K) {
    open spec fn spec_ty() -> Seq<Type> {
        seq![A::spec_input(), B::spec_input(), C::spec_input(), D::spec_input(), E::spec_input(), F::spec_input(), G::spec_input(), H::spec_input(), I::spec_input(), J::spec_input(), K::spec_input()]
    }

    fn ty() -> (res: Vec<Type>) {
        vec![A::input(), B::input(), C::input(), D::input(), E::input(), F::input(), G::input(), H::input(), I::input(), J::input(), K::input()]
    }
}

impl<A: InputType, B: InputType, C: InputType, D: InputType, E: InputType, F: InputType, G: InputType, H: InputType, I: InputType, J: InputType, K: InputType, L: InputType> InputTypes for (A, B, C, D, E, F, G, H, I, J, K, L) {
    open spec fn spec_ty() -> Seq<Type> {
        seq![A::spec_input(), B::spec_input(), C::spec_input(), D::spec_input(), E::spec_input(), F::spec_input(), G::spec_input(), H::spec_input(), I::spec_input(), J::spec_input(), K::spec_input(), L::spec_input()]
    }

    fn ty() -> (res: Vec<Type>) {
        vec![A::input(), B::input(), C::input(), D::input(), E::input(), F::input(), G::input(), H::input(), I::input(), J::input(), K::input(), L::input()]
    }
}

/// The time built-in.
#[derive(Clone, Copy, Debug, Hash, PartialEq, Eq, Structural)]
pub struct Time;

impl InputType for Time {
    open spec fn spec_input() -> Type {
        Type::BuiltIn(BuiltIn::Time)
    }

    fn input() -> (res: Type) {
        Type::BuiltIn(BuiltIn::Time)
    }
}

/// The framebuffer resolution built-in.
#[derive(Clone, Copy, Debug, Hash, PartialEq, Eq, Structural)]
pub struct FramebufferResolution;

impl InputType for FramebufferResolution {
    open spec fn spec_input() -> Type {
        Type::BuiltIn(BuiltIn::FramebufferResolution)
    }

    fn input() -> (res: Type) {
        Type::BuiltIn(BuiltIn::FramebufferResolution)
    }
}

/// One-dimensional integral input a.k.a. red channel.
#[derive(Clone, Copy, Debug, Hash, PartialEq, Eq, Structural)]
pub struct RI;

impl InputType for RI {
    open spec fn spec_input() -> Type {
        Type::Int(TypeChan::One)
    }

    fn input() -> (res: Type) {
        Type::Int(TypeChan::One)
    }
}

/// Two dimensional integral input a.k.a. red-green channels.
#[derive(Clone, Copy, Debug, Hash, PartialEq, Eq, Structural)]
pub struct RGI;

impl InputType for RGI {
    open spec fn spec_input() -> Type {
        Type::Int(TypeChan::Two)
    }

    fn input() -> (res: Type) {
        Type::Int(TypeChan::Two)
    }
}

/// Three dimensional integral input a.k.a. red-green-blue channels.
#[derive(Clone, Copy, Debug, Hash, PartialEq, Eq, Structural)]
pub struct RGBI;

impl InputType for RGBI {
    open spec fn spec_input() -> Type {
        Type::Int(TypeChan::Three)
    }

    fn input() -> (res: Type) {
        Type::Int(TypeChan::Three)
    }
}

/// Four dimensional integral input a.k.a. red-green-blue-alpha channels.
#[derive(Clone, Copy, Debug, Hash, PartialEq, Eq, Structural)]
pub struct RGBAI;

impl InputType for RGBAI {
    open spec fn spec_input() -> Type {
        Type::Int(TypeChan::Four)
    }

    fn input() -> (res: Type) {
        Type::Int(TypeChan::Four)
    }
}

/// One-dimensional unsigned integral input a.k.a. red channel.
#[derive(Clone, Copy, Debug, Hash, PartialEq, Eq, Structural)]
pub struct RU;

impl InputType for RU {
    open spec fn spec_input() -> Type {
        Type::UInt(TypeChan::One)
    }

    fn input() -> (res: Type) {
        Type::UInt(TypeChan::One)
    }
}

/// Two dimensional unsigned integral input a.k.a. red-green channels.
#[derive(Clone, Copy, Debug, Hash, PartialEq, Eq, Structural)]
pub struct RGU;

impl InputType for RGU {
    open spec fn spec_input() -> Type {
        Type::UInt(TypeChan::Two)
    }

    fn input() -> (res: Type) {
        Type::UInt(TypeChan::Two)
    }
}

/// Three dimensional unsigned integral input a.k.a. red-green-blue channels.
#[derive(Clone, Copy, Debug, Hash, PartialEq, Eq, Structural)]
pub struct RGBU;

impl InputType for RGBU {
    open spec fn spec_input() -> Type {
        Type::UInt(TypeChan::Three)
    }

    fn input() -> (res: Type) {
        Type::UInt(TypeChan::Three)
    }
}

/// Four dimensional unsigned integral input a.k.a. red-green-blue-alpha channels.
#[derive(Clone, Copy, Debug, Hash, PartialEq, Eq, Structural)]
pub struct RGBAU;

impl InputType for RGBAU {
    open spec fn spec_input() -> Type {
        Type::UInt(TypeChan::Four)
    }

    fn input() -> (res: Type) {
        Type::UInt(TypeChan::Four)
    }
}

/// One-dimensional floating input a.k.a. red channel.
#[derive(Clone, Copy, Debug, Hash, PartialEq, Eq, Structural)]
pub struct RF;

impl InputType for RF {
    open spec fn spec_input() -> Type {
        Type::Float(TypeChan::One)
    }

    fn input() -> (res: Type) {
        Type::Float(TypeChan::One)
    }
}

/// Two dimensional floating input a.k.a. red-green channels.
#[derive(Clone, Copy, Debug, Hash, PartialEq, Eq, Structural)]
pub struct RGF;

impl InputType for RGF {
    open spec fn spec_input() -> Type {
        Type::Float(TypeChan::Two)
    }

    fn input() -> (res: Type) {
        Type::Float(TypeChan::Two)
    }
}

/// Three dimensional floating input a.k.a. red-green-blue channels.
#[derive(Clone, Copy, Debug, Hash, PartialEq, Eq, Structural)]
pub struct RGBF;

impl InputType for RGBF {
    open spec fn spec_input() -> Type {
        Type::Float(TypeChan::Three)
    }

    fn input() -> (res: Type) {
        Type::Float(TypeChan::Three)
    }
}

/// Four dimensional floating input a.k.a. red-green-blue-alpha channels.
#[derive(Clone, Copy, Debug, Hash, PartialEq, Eq, Structural)]
pub struct RGBAF;

impl InputType for RGBAF {
    open spec fn spec_input() -> Type {
        Type::Float(TypeChan::Four)
    }

    fn input() -> (res: Type) {
        Type::Float(TypeChan::Four)
    }
}

/// One-dimensional boolean input a.k.a. red channel.
#[derive(Clone, Copy, Debug, Hash, PartialEq, Eq, Structural)]
pub struct RZ;

impl InputType for RZ {
    open spec fn spec_input() -> Type {
        Type::Bool(TypeChan::One)
    }

    fn input() -> (res: Type) {
        Type::Bool(TypeChan::One)
    }
}

/// Two dimensional boolean input a.k.a. red-green channels.
#[derive(Clone, Copy, Debug, Hash, PartialEq, Eq, Structural)]
pub struct RGZ;

impl InputType for RGZ {
    open spec fn spec_input() -> Type {
        Type::Bool(TypeChan::Two)
    }

    fn input() -> (res: Type) {
        Type::Bool(TypeChan::Two)
    }
}

/// Three dimensional boolean input a.k.a. red-green-blue channels.
#[derive(Clone, Copy, Debug, Hash, PartialEq, Eq, Structural)]
pub struct RGBZ;

impl InputType for RGBZ {
    open spec fn spec_input() -> Type {
        Type::Bool(TypeChan::Three)
    }

    fn input() -> (res: Type) {
        Type::Bool(TypeChan::Three)
    }
}

/// Four dimensional boolean input a.k.a. red-green-blue-alpha channels.
#[derive(Clone, Copy, Debug, Hash, PartialEq, Eq, Structural)]
pub struct RGBAZ;

impl InputType for RGBAZ {
    open spec fn spec_input() -> Type {
        Type::Bool(TypeChan::Four)
    }

    fn input() -> (res: Type) {
        Type::Bool(TypeChan::Four)
    }
}

/// Something that a name can be made of.
pub trait IntoName {
    /// The characters of the name.
    spec fn name_view(&self) -> Seq<char>;

    /// Make the name.
    fn into_name(self) -> (res: String)
        ensures
            res@ == self.name_view(),
    ;
}

impl<'a> IntoName for &'a str {
    open spec fn name_view(&self) -> Seq<char> {
        self@
    }

    fn into_name(self) -> (res: String) {
        String::from_str(self)
    }
}

impl IntoName for String {
    open spec fn name_view(&self) -> Seq<char> {
        self@
    }

    fn into_name(self) -> (res: String) {
        self
    }
}

/// An input.
#[derive(Debug, PartialEq)]
pub struct Input {
    /// Name of the input.
    pub name: String,
    /// Type of the input.
    pub ty: Type,
    /// Role of the input.
    ///
    /// The role gives information about how the input should be used (part of a pipeline object
    /// or a constant parameter).
    pub role: Role,
}

impl Input {
    /// Create a new input.
    pub fn new<T: InputType, N: IntoName>(name: N, role: Role) -> (res: Self)
        ensures
            res.name@ == name.name_view(),
            res.ty == T::spec_input(),
            res.role == role,
    {
        Input { name: name.into_name(), ty: T::input(), role }
    }
}

/// The type of each marker is the one its name tells: `R`, `RG`, `RGB` and `RGBA` have one to four
/// channels, of integers (`I`), unsigned integers (`U`), floats (`F`) or booleans (`Z`); `Time`
/// and `FramebufferResolution` are the built-ins of the same names.
pub proof fn lemma_input_type_table()
    ensures
        RI::spec_input() == Type::Int(TypeChan::One),
        RGI::spec_input() == Type::Int(TypeChan::Two),
        RGBI::spec_input() == Type::Int(TypeChan::Three),
        RGBAI::spec_input() == Type::Int(TypeChan::Four),
        RU::spec_input() == Type::UInt(TypeChan::One),
        RGU::spec_input() == Type::UInt(TypeChan::Two),
        RGBU::spec_input() == Type::UInt(TypeChan::Three),
        RGBAU::spec_input() == Type::UInt(TypeChan::Four),
        RF::spec_input() == Type::Float(TypeChan::One),
        RGF::spec_input() == Type::Float(TypeChan::Two),
        RGBF::spec_input() == Type::Float(TypeChan::Three),
        RGBAF::spec_input() == Type::Float(TypeChan::Four),
        RZ::spec_input() == Type::Bool(TypeChan::One),
        RGZ::spec_input() == Type::Bool(TypeChan::Two),
        RGBZ::spec_input() == Type::Bool(TypeChan::Three),
        RGBAZ::spec_input() == Type::Bool(TypeChan::Four),
        Time::spec_input() == Type::BuiltIn(BuiltIn::Time),
        FramebufferResolution::spec_input() == Type::BuiltIn(BuiltIn::FramebufferResolution),
{
}

} // verus!
