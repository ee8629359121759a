//! From what a definition shows to the descriptors that the generator works
//! on.
use vstd::prelude::*;
use vstd::string::StringExecFns;
use crate::descriptor::{field_models, FieldDescriptor, FieldModel, StructDescriptor, StructModel};
use crate::syntax::{
    read_definition, text_of, written, Definition, DefinitionModel, FieldSyntax, FieldSyntaxModel,
};

verus! {

/// The name that every field without an identifier is given.
pub const UNNAMED_FIELD: &'static str = "_0";

/// The type that stands in for every type that is not one bare identifier.
pub const FALLBACK_TYPE: &'static str = "String";

/// The name a field is addressed by: its identifier, or [`UNNAMED_FIELD`].
pub open spec fn resolved_name(ident: Option<Seq<char>>) -> Seq<char> {
    match ident {
        Some(text) => text,
        None => UNNAMED_FIELD@,
    }
}

/// The type written for a field: its bare identifier, or [`FALLBACK_TYPE`].
pub open spec fn resolved_type(type_ident: Option<Seq<char>>) -> Seq<char> {
    match type_ident {
        Some(text) => text,
        None => FALLBACK_TYPE@,
    }
}

/// The descriptor of the field that shows `field` and stands at `position`.
pub open spec fn described_field(field: FieldSyntaxModel, position: nat) -> FieldModel {
    FieldModel {
        name: resolved_name(field.ident),
        ty: resolved_type(field.type_ident),
        position,
    }
}

/// The description of a definition: its name and, for a struct, its fields in
/// declaration order. A definition that is not a struct has no fields.
pub open spec fn described(def: DefinitionModel) -> StructModel {
    StructModel {
        target_name: def.name,
        struct_shaped: def.fields is Some,
        fields: match def.fields {
            Some(fields) => Seq::new(fields.len(), |i: int| described_field(fields[i], i as nat)),
            None => Seq::empty(),
        },
    }
}

/// The description of a parsed definition.
pub open spec fn extracted(input: syn::DeriveInput) -> StructModel {
    described(written(input))
}

/// Resolves the name of a field.
pub fn field_name(ident: &Option<String>) -> (name: String)
    ensures
        name@ == resolved_name(text_of(*ident)),
{
    match ident {
        Some(text) => text.clone(),
        None => String::from_str(UNNAMED_FIELD),
    }
}

/// Resolves the type of a field.
pub fn field_type(type_ident: &Option<String>) -> (ty: String)
    ensures
        ty@ == resolved_type(text_of(*type_ident)),
{
    match type_ident {
        Some(text) => text.clone(),
        None => String::from_str(FALLBACK_TYPE),
    }
}

/// Describes the field that stands at `position`.
pub fn describe_field(field: &FieldSyntax, position: usize) -> (desc: FieldDescriptor)
    ensures
        desc@ == described_field(field@, position as nat),
{
    FieldDescriptor {
        name: field_name(&field.ident),
        ty: field_type(&field.type_ident),
        position,
    }
}

/// Describes a definition.
pub fn describe(def: &Definition) -> (desc: StructDescriptor)
    ensures
        desc@ == described(def@),
        desc@.wf(),
{
    let mut fields: Vec<FieldDescriptor> = Vec::new();
    let struct_shaped = match &def.fields {
        Some(written) => {
            let mut i: usize = 0;
            while i < written.len()
                invariant
                    i <= written.len(),
                    fields@.len() == i,
                    forall|k: int|
                        0 <= k < i ==> (#[trigger] fields@[k])@ == described_field(
                            written@[k]@,
                            k as nat,
                        ),
                decreases written.len() - i,
            {
                fields.push(describe_field(&written[i], i));
                i += 1;
            }
            assert(field_models(fields@) =~= described(def@).fields);
            true
        },
        None => {
            assert(field_models(fields@) =~= described(def@).fields);
            false
        },
    };
    StructDescriptor { target_name: def.name.clone(), struct_shaped, fields }
}

/// Describes a parsed definition.
pub fn extract(input: &syn::DeriveInput) -> (desc: StructDescriptor)
    ensures
        desc@ == extracted(*input),
        desc@.wf(),
{
    describe(&read_definition(input))
}

/// A struct of N fields is described by N fields in the same order. A field
/// keeps its identifier and, where its type is one identifier, that too, as
/// they are written; a field without an identifier is named
/// [`UNNAMED_FIELD`], and any other type is written as [`FALLBACK_TYPE`].
pub proof fn lemma_fields_as_written(def: DefinitionModel)
    requires
        def.fields is Some,
    ensures
        described(def).struct_shaped,
        described(def).fields.len() == def.fields.unwrap().len(),
        forall|i: int|
            #![trigger described(def).fields[i]]
            0 <= i < described(def).fields.len() ==> {
                let written = def.fields.unwrap()[i];
                let field = described(def).fields[i];
                &&& field.position == i
                &&& field.name == match written.ident {
                    Some(name) => name,
                    None => UNNAMED_FIELD@,
                }
                &&& field.ty == match written.type_ident {
                    Some(ty) => ty,
                    None => FALLBACK_TYPE@,
                }
            },
{
}

/// A definition that is not a struct is described without fields.
pub proof fn lemma_no_fields_without_struct(def: DefinitionModel)
    requires
        def.fields is None,
    ensures
        !described(def).struct_shaped,
        described(def).fields.len() == 0,
{
}

} // verus!
