//! What can be wrong with an annotated service.
//!
//! Every error ends the compilation of the item it is found in. An error that
//! carries an index points at the offending attribute, parameter or item, so
//! that a caller can report it at that place.

use vstd::prelude::*;

verus! {

/// A rule on the shape of a service method.
#[derive(Debug, PartialEq, Eq, Clone, Copy, Structural)]
pub enum ShapeRule {
    /// The method is marked `default`.
    DefaultMethod,
    /// The method takes no `self`.
    MissingReceiver,
    /// The method takes `self` with a type written out.
    TypedReceiver,
    /// The method takes `self` by value.
    ValueReceiver,
    /// The method is not `async`.
    NotAsync,
    /// The method is `unsafe`.
    Unsafe,
    /// The method names a foreign calling convention.
    ForeignAbi,
    /// The method is variadic.
    Variadic,
    /// The method has generic parameters.
    Generic,
}

/// A rule on the shape of a service `impl` block.
#[derive(Debug, PartialEq, Eq, Clone, Copy, Structural)]
pub enum ImplRule {
    /// The block is marked `default`.
    DefaultImpl,
    /// The block has generic parameters.
    Generic,
    /// The block declares an associated type.
    AssociatedType,
}

/// Why no code is generated.
#[derive(Debug, PartialEq, Eq, Clone, Copy, Structural)]
pub enum CompileError {
    /// No attribute of the method names a verb and a path.
    MissingRouteAttribute,
    /// A second route attribute, at this index among the method's attributes.
    MultipleRouteAttributes { attribute: usize },
    /// The method breaks a rule on its shape.
    UnsupportedMethodShape(ShapeRule),
    /// A second parameter that no placeholder names, at this index among the
    /// method's parameters after the receiver.
    AmbiguousPayload { parameter: usize },
    /// The service attribute does not name a client type.
    MissingClientTypeArgument,
    /// The `impl` block breaks a rule on its shape.
    UnsupportedImplShape(ImplRule),
    /// The path template could not be scanned for placeholders.
    TemplateScan,
    /// No field of the client struct is marked as the client.
    MissingClientField,
    /// The client is a unit struct.
    UnitStruct,
    /// The client is an enum or a union.
    NotAStruct,
}

/// An error in a service, with the place it was found at: the index of the
/// offending item of the `impl` block, or none where the error is in the
/// block's header or in the service attribute.
#[derive(Debug, PartialEq, Eq, Clone, Copy, Structural)]
pub struct ServiceError {
    pub item: Option<usize>,
    pub error: CompileError,
}

impl ShapeRule {
    pub open spec fn text(self) -> Seq<char> {
        match self {
            ShapeRule::DefaultMethod => "Default methods are not currently supported by phalanx."@,
            ShapeRule::MissingReceiver => "Phalanx methods must have a &self parameter."@,
            ShapeRule::TypedReceiver => "Self receivers with a specified type, such as self: Box<Self>, are not supported by phalanx."@,
            ShapeRule::ValueReceiver => "Phalanx methods must take self by reference."@,
            ShapeRule::NotAsync => "Phalanx methods must be async."@,
            ShapeRule::Unsafe => "Unsafe methods are not supported by phalanx."@,
            ShapeRule::ForeignAbi => "ABI methods are not supported by phalanx."@,
            ShapeRule::Variadic => "Variadic methods are not supported by phalanx."@,
            ShapeRule::Generic => "Generic methods are not supported by phalanx."@,
        }
    }

    /// The rule in words, for a diagnostic.
    pub fn message(&self) -> (s: &'static str)
        ensures
            s@ == self.text(),
    {
        match self {
            ShapeRule::DefaultMethod => "Default methods are not currently supported by phalanx.",
            ShapeRule::MissingReceiver => "Phalanx methods must have a &self parameter.",
            ShapeRule::TypedReceiver => "Self receivers with a specified type, such as self: Box<Self>, are not supported by phalanx.",
            ShapeRule::ValueReceiver => "Phalanx methods must take self by reference.",
            ShapeRule::NotAsync => "Phalanx methods must be async.",
            ShapeRule::Unsafe => "Unsafe methods are not supported by phalanx.",
            ShapeRule::ForeignAbi => "ABI methods are not supported by phalanx.",
            ShapeRule::Variadic => "Variadic methods are not supported by phalanx.",
            ShapeRule::Generic => "Generic methods are not supported by phalanx.",
        }
    }
}

impl ImplRule {
    pub open spec fn text(self) -> Seq<char> {
        match self {
            ImplRule::DefaultImpl => "Default impls are not currently supported by phalanx_server."@,
            ImplRule::Generic => "Generics are not supported by phalanx_server."@,
            ImplRule::AssociatedType => "Associated Types are not currently supported by phalanx_server."@,
        }
    }

    /// The rule in words, for a diagnostic.
    pub fn message(&self) -> (s: &'static str)
        ensures
            s@ == self.text(),
    {
        match self {
            ImplRule::DefaultImpl => "Default impls are not currently supported by phalanx_server.",
            ImplRule::Generic => "Generics are not supported by phalanx_server.",
            ImplRule::AssociatedType => "Associated Types are not currently supported by phalanx_server.",
        }
    }
}

impl CompileError {
    pub open spec fn text(self) -> Seq<char> {
        match self {
            CompileError::MissingRouteAttribute => "Missing route attribute"@,
            CompileError::MultipleRouteAttributes { .. } => "Multiple route attributes is not supported"@,
            CompileError::UnsupportedMethodShape(rule) => rule.text(),
            CompileError::AmbiguousPayload { .. } => "Multiple unmatched path args"@,
            CompileError::MissingClientTypeArgument => "phalanx requires a client type, i.e. `#[phalanx(MyClient)]`"@,
            CompileError::UnsupportedImplShape(rule) => rule.text(),
            CompileError::TemplateScan => "The route's path could not be scanned for placeholders"@,
            CompileError::MissingClientField => "Missing a `#[client]` attribute on the client field"@,
            CompileError::UnitStruct => "PhalanxClient cannot be derived on unit structs"@,
            CompileError::NotAStruct => "PhalanxClient can only be derived on structs"@,
        }
    }

    /// The error in words, for a diagnostic.
    pub fn message(&self) -> (s: &'static str)
        ensures
            s@ == self.text(),
    {
        match self {
            CompileError::MissingRouteAttribute => "Missing route attribute",
            CompileError::MultipleRouteAttributes { .. } => "Multiple route attributes is not supported",
            CompileError::UnsupportedMethodShape(rule) => rule.message(),
            CompileError::AmbiguousPayload { .. } => "Multiple unmatched path args",
            CompileError::MissingClientTypeArgument => "phalanx requires a client type, i.e. `#[phalanx(MyClient)]`",
            CompileError::UnsupportedImplShape(rule) => rule.message(),
            CompileError::TemplateScan => "The route's path could not be scanned for placeholders",
            CompileError::MissingClientField => "Missing a `#[client]` attribute on the client field",
            CompileError::UnitStruct => "PhalanxClient cannot be derived on unit structs",
            CompileError::NotAStruct => "PhalanxClient can only be derived on structs",
        }
    }
}

} // verus!
