//! The annotated input, as plain values.
//!
//! A service is written as an `impl` block whose methods carry a verb
//! attribute. What the route compiler reads of such a block is held here as
//! strings, flags and counts; how the block was spelled beyond that plays no
//! part in any decision.

use vstd::prelude::*;
use crate::text::views;

verus! {

/// A string literal: the token as written, quotes included, and the text it
/// denotes.
#[derive(Debug, PartialEq, Eq)]
pub struct LitStr {
    pub token: String,
    pub value: String,
}

pub struct LitStrView {
    pub token: Seq<char>,
    pub value: Seq<char>,
}

impl View for LitStr {
    type V = LitStrView;

    open spec fn view(&self) -> LitStrView {
        LitStrView { token: self.token@, value: self.value@ }
    }
}

impl Clone for LitStr {
    fn clone(&self) -> (r: Self)
        ensures
            r@ == self@,
    {
        LitStr { token: self.token.clone(), value: self.value.clone() }
    }
}

/// One attribute of a method or field.
///
/// `path` holds the segments of the attribute's name; a leading `::` counts as
/// an empty first segment. `lit` is present exactly
/// when the attribute's argument list is a single string literal. `tokens` is
/// the whole attribute as written.
#[derive(Debug, PartialEq, Eq)]
pub struct Attribute {
    pub path: Vec<String>,
    pub lit: Option<LitStr>,
    pub tokens: String,
}

pub struct AttributeView {
    pub path: Seq<Seq<char>>,
    pub lit: Option<LitStrView>,
    pub tokens: Seq<char>,
}

impl View for Attribute {
    type V = AttributeView;

    open spec fn view(&self) -> AttributeView {
        AttributeView {
            path: views(self.path@),
            lit: match self.lit {
                Some(lit) => Some(lit@),
                None => None,
            },
            tokens: self.tokens@,
        }
    }
}

/// A typed parameter of a method: its name and its type as written.
#[derive(Debug, PartialEq, Eq)]
pub struct Parameter {
    pub name: String,
    pub ty: String,
}

pub struct ParameterView {
    pub name: Seq<char>,
    pub ty: Seq<char>,
}

impl View for Parameter {
    type V = ParameterView;

    open spec fn view(&self) -> ParameterView {
        ParameterView { name: self.name@, ty: self.ty@ }
    }
}

impl Clone for Parameter {
    fn clone(&self) -> (r: Self)
        ensures
            r@ == self@,
    {
        Parameter { name: self.name.clone(), ty: self.ty.clone() }
    }
}

/// The views of a sequence of parameters, one for one.
pub open spec fn parameter_views(parameters: Seq<Parameter>) -> Seq<ParameterView> {
    parameters.map_values(|p: Parameter| p@)
}

/// The views of a sequence of attributes, one for one.
pub open spec fn attribute_views(attributes: Seq<Attribute>) -> Seq<AttributeView> {
    attributes.map_values(|a: Attribute| a@)
}

/// How a method takes `self`.
#[derive(Debug, PartialEq, Eq, Clone, Copy, Structural)]
pub enum Receiver {
    /// The method has no `self` parameter.
    Absent,
    /// `&self` or `&mut self`.
    Reference,
    /// `self`, taken by value.
    Value,
    /// `self` with a type written out, such as `self: Box<Self>`.
    Typed,
}

/// One method of a service `impl` block.
///
/// `inputs` holds the parameters after the receiver. `generics` counts the
/// method's generic parameters. `output` is the return type as written, absent
/// where the method returns nothing.
#[derive(Debug, PartialEq, Eq)]
pub struct Method {
    pub attrs: Vec<Attribute>,
    pub defaultness: bool,
    pub receiver: Receiver,
    pub asyncness: bool,
    pub unsafety: bool,
    pub abi: bool,
    pub variadic: bool,
    pub generics: usize,
    pub ident: String,
    pub inputs: Vec<Parameter>,
    pub output: Option<String>,
}

pub struct MethodView {
    pub attrs: Seq<AttributeView>,
    pub defaultness: bool,
    pub receiver: Receiver,
    pub asyncness: bool,
    pub unsafety: bool,
    pub abi: bool,
    pub variadic: bool,
    pub generics: nat,
    pub ident: Seq<char>,
    pub inputs: Seq<ParameterView>,
    pub output: Option<Seq<char>>,
}

impl View for Method {
    type V = MethodView;

    open spec fn view(&self) -> MethodView {
        MethodView {
            attrs: attribute_views(self.attrs@),
            defaultness: self.defaultness,
            receiver: self.receiver,
            asyncness: self.asyncness,
            unsafety: self.unsafety,
            abi: self.abi,
            variadic: self.variadic,
            generics: self.generics as nat,
            ident: self.ident@,
            inputs: parameter_views(self.inputs@),
            output: match self.output {
                Some(ty) => Some(ty@),
                None => None,
            },
        }
    }
}

/// One item of an `impl` block.
#[derive(Debug, PartialEq, Eq)]
pub enum ImplItem {
    Method(Method),
    /// An associated type.
    Type,
    /// Any other item: a constant, a macro call.
    Other,
}

pub enum ImplItemView {
    Method(MethodView),
    Type,
    Other,
}

impl View for ImplItem {
    type V = ImplItemView;

    open spec fn view(&self) -> ImplItemView {
        match self {
            ImplItem::Method(m) => ImplItemView::Method(m@),
            ImplItem::Type => ImplItemView::Type,
            ImplItem::Other => ImplItemView::Other,
        }
    }
}

/// The views of a sequence of items, one for one.
pub open spec fn item_views(items: Seq<ImplItem>) -> Seq<ImplItemView> {
    items.map_values(|i: ImplItem| i@)
}

/// A service `impl` block.
///
/// `generics` counts the block's generic parameters, `self_ty` is the service
/// type as written and `tokens` the whole block as written.
#[derive(Debug, PartialEq, Eq)]
pub struct ItemImpl {
    pub defaultness: bool,
    pub generics: usize,
    pub self_ty: String,
    pub items: Vec<ImplItem>,
    pub tokens: String,
}

pub struct ItemImplView {
    pub defaultness: bool,
    pub generics: nat,
    pub self_ty: Seq<char>,
    pub items: Seq<ImplItemView>,
    pub tokens: Seq<char>,
}

impl View for ItemImpl {
    type V = ItemImplView;

    open spec fn view(&self) -> ItemImplView {
        ItemImplView {
            defaultness: self.defaultness,
            generics: self.generics as nat,
            self_ty: self.self_ty@,
            items: item_views(self.items@),
            tokens: self.tokens@,
        }
    }
}

/// A field of a struct: its attributes and, where it has one, its name.
#[derive(Debug, PartialEq, Eq)]
pub struct Field {
    pub attrs: Vec<Attribute>,
    pub ident: Option<String>,
}

pub struct FieldView {
    pub attrs: Seq<AttributeView>,
    pub ident: Option<Seq<char>>,
}

impl View for Field {
    type V = FieldView;

    open spec fn view(&self) -> FieldView {
        FieldView {
            attrs: attribute_views(self.attrs@),
            ident: match self.ident {
                Some(name) => Some(name@),
                None => None,
            },
        }
    }
}

/// The views of a sequence of fields, one for one.
pub open spec fn field_views(fields: Seq<Field>) -> Seq<FieldView> {
    fields.map_values(|f: Field| f@)
}

/// The fields of a struct.
#[derive(Debug, PartialEq, Eq)]
pub enum Fields {
    Named(Vec<Field>),
    Unnamed(Vec<Field>),
    Unit,
}

pub enum FieldsView {
    Named(Seq<FieldView>),
    Unnamed(Seq<FieldView>),
    Unit,
}

impl View for Fields {
    type V = FieldsView;

    open spec fn view(&self) -> FieldsView {
        match self {
            Fields::Named(fields) => FieldsView::Named(field_views(fields@)),
            Fields::Unnamed(fields) => FieldsView::Unnamed(field_views(fields@)),
            Fields::Unit => FieldsView::Unit,
        }
    }
}

/// What a derive is applied to.
#[derive(Debug, PartialEq, Eq)]
pub enum Data {
    Struct(Fields),
    Enum,
    Union,
}

pub enum DataView {
    Struct(FieldsView),
    Enum,
    Union,
}

impl View for Data {
    type V = DataView;

    open spec fn view(&self) -> DataView {
        match self {
            Data::Struct(fields) => DataView::Struct(fields@),
            Data::Enum => DataView::Enum,
            Data::Union => DataView::Union,
        }
    }
}

/// The input of a derive: the type's name and its shape.
#[derive(Debug, PartialEq, Eq)]
pub struct DeriveInput {
    pub ident: String,
    pub data: Data,
}

pub struct DeriveInputView {
    pub ident: Seq<char>,
    pub data: DataView,
}

impl View for DeriveInput {
    type V = DeriveInputView;

    open spec fn view(&self) -> DeriveInputView {
        DeriveInputView { ident: self.ident@, data: self.data@ }
    }
}

} // verus!
