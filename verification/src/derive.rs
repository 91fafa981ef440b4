//! The client trait of a struct that holds a client.
//!
//! A struct that is to carry the generated stubs marks one of its fields with
//! the attribute `client`. From that mark comes an implementation of the
//! trait through which the stubs reach the client.

use vstd::prelude::*;
use crate::error::CompileError;
use crate::route::positions;
use crate::syntax::{
    AttributeView, Data, DataView, DeriveInput, DeriveInputView, Field, FieldView, Fields,
    FieldsView, field_views,
};
use crate::text::{decimal, decimal_text, same_text};

verus! {

/// Whether an attribute is the mark of the client field: its name is the one
/// word `client`.
pub open spec fn is_client_mark(attr: AttributeView) -> bool {
    attr.path == seq!["client"@]
}

/// Whether a field carries the mark.
pub open spec fn is_marked(field: FieldView) -> bool {
    exists|i: int| 0 <= i < field.attrs.len() && is_client_mark(#[trigger] field.attrs[i])
}

/// The position of the client field: the last field that carries the mark.
pub open spec fn client_position(fields: Seq<FieldView>) -> Option<int> {
    let marked = positions(fields.map_values(|f: FieldView| is_marked(f)));
    if marked.len() == 0 {
        None
    } else {
        Some(marked.last())
    }
}

/// How the client is reached from `self`: by the field's name in a struct
/// with named fields, by its position in a tuple struct.
pub open spec fn client_accessor(data: DataView) -> Result<Seq<char>, CompileError> {
    match data {
        DataView::Struct(FieldsView::Named(fields)) => match client_position(fields) {
            Some(at) => match fields[at].ident {
                Some(name) => Ok(name),
                None => Err(CompileError::MissingClientField),
            },
            None => Err(CompileError::MissingClientField),
        },
        DataView::Struct(FieldsView::Unnamed(fields)) => match client_position(fields) {
            Some(at) => Ok(decimal(at as nat)),
            None => Err(CompileError::MissingClientField),
        },
        DataView::Struct(FieldsView::Unit) => Err(CompileError::UnitStruct),
        DataView::Enum => Err(CompileError::NotAStruct),
        DataView::Union => Err(CompileError::NotAStruct),
    }
}

/// The implementation of the client trait for the type `ident`.
pub open spec fn client_impl(ident: Seq<char>, accessor: Seq<char>) -> Seq<char> {
    "impl phalanx::client::PhalanxClient for "@ + ident + " {\n"@
        + "    fn client(&self) -> &phalanx::client::Client {\n"@ + "        &self."@ + accessor
        + "\n    }\n}\n"@
}

/// What the derive gives for an input: the implementation, or why there is
/// none.
pub open spec fn derived(input: DeriveInputView) -> Result<Seq<char>, CompileError> {
    match client_accessor(input.data) {
        Ok(accessor) => Ok(client_impl(input.ident, accessor)),
        Err(e) => Err(e),
    }
}

/// The view of generated code or an error.
pub open spec fn code_result(r: Result<String, CompileError>) -> Result<Seq<char>, CompileError> {
    match r {
        Ok(code) => Ok(code@),
        Err(e) => Err(e),
    }
}

fn carries_mark(field: &Field) -> (r: bool)
    ensures
        r == is_marked(field@),
{
    let mut i: usize = 0;
    while i < field.attrs.len()
        invariant
            i <= field.attrs.len(),
            forall|j: int| 0 <= j < i ==> !is_client_mark(#[trigger] field@.attrs[j]),
        decreases field.attrs.len() - i,
    {
        let attr = &field.attrs[i];
        assert(field@.attrs[i as int] == attr@);
        if attr.path.len() == 1 && same_text(attr.path[0].as_str(), "client") {
            assert(attr@.path =~= seq!["client"@]);
            return true;
        }
        assert(!is_client_mark(attr@)) by {
            if attr@.path == seq!["client"@] {
                assert(attr@.path.len() == 1);
                assert(attr@.path[0] == "client"@);
            }
        }
        i += 1;
    }
    false
}

fn find_client(fields: &Vec<Field>) -> (r: Option<usize>)
    ensures
        match r {
            Some(at) => at < fields.len() && client_position(field_views(fields@)) == Some(
                at as int,
            ),
            None => client_position(field_views(fields@)) is None,
        },
{
    let ghost all = field_views(fields@);
    let ghost flags = all.map_values(|f: FieldView| is_marked(f));
    let mut found: Option<usize> = None;
    let mut i: usize = 0;
    assert(flags.take(0) =~= Seq::<bool>::empty());
    while i < fields.len()
        invariant
            i <= fields.len(),
            all == field_views(fields@),
            flags == all.map_values(|f: FieldView| is_marked(f)),
            match found {
                Some(at) => at < i && positions(flags.take(i as int)).len() > 0 && positions(
                    flags.take(i as int),
                ).last() == at,
                None => positions(flags.take(i as int)).len() == 0,
            },
        decreases fields.len() - i,
    {
        proof {
            assert(flags.take(i + 1).drop_last() =~= flags.take(i as int));
            assert(flags.take(i + 1).last() == is_marked(fields@[i as int]@));
        }
        if carries_mark(&fields[i]) {
            found = Some(i);
        }
        i += 1;
    }
    assert(flags.take(i as int) =~= flags);
    found
}

fn accessor_of(data: &Data) -> (r: Result<String, CompileError>)
    ensures
        code_result(r) == client_accessor(data@),
{
    match data {
        Data::Struct(Fields::Named(fields)) => match find_client(fields) {
            Some(at) => match &fields[at].ident {
                Some(name) => Ok(name.clone()),
                None => Err(CompileError::MissingClientField),
            },
            None => Err(CompileError::MissingClientField),
        },
        Data::Struct(Fields::Unnamed(fields)) => match find_client(fields) {
            Some(at) => Ok(decimal_text(at)),
            None => Err(CompileError::MissingClientField),
        },
        Data::Struct(Fields::Unit) => Err(CompileError::UnitStruct),
        Data::Enum => Err(CompileError::NotAStruct),
        Data::Union => Err(CompileError::NotAStruct),
    }
}

/// Derives the client trait: the struct's client is the last field marked
/// `client`. A struct without such a field, a unit struct, an enum and a
/// union are errors.
pub fn derive_serialize_inner(input: DeriveInput) -> (r: Result<String, CompileError>)
    ensures
        code_result(r) == derived(input@),
{
    match accessor_of(&input.data) {
        Err(e) => Err(e),
        Ok(accessor) => {
            let mut code = String::new();
            code.append("impl phalanx::client::PhalanxClient for ");
            code.append(input.ident.as_str());
            code.append(" {\n");
            code.append("    fn client(&self) -> &phalanx::client::Client {\n");
            code.append("        &self.");
            code.append(accessor.as_str());
            code.append("\n    }\n}\n");
            assert(code@ =~= client_impl(input@.ident, accessor@));
            Ok(code)
        },
    }
}

} // verus!
