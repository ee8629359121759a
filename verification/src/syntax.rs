//! What this crate reads from a definition parsed by `syn`.
//!
//! A `syn::DeriveInput` and a `syn::Field` are opaque to the verifier. Four
//! functions at the end of this file hand out, as plain values, the four
//! things that the generator reads from them. Their contracts are not
//! proved: each says only that the value handed out is the one that the spec
//! function of the same purpose names, so that reading a definition twice
//! gives the same text. [`read_definition`] gathers the four into a
//! [`Definition`], which holds nothing but text.
use vstd::prelude::*;

verus! {

/// A definition as `syn` parsed it. Nothing inside it is visible here.
#[verifier::external_type_specification]
#[verifier::external_body]
pub struct ExDeriveInput(syn::DeriveInput);

/// A field of a struct as `syn` parsed it. Nothing inside it is visible here.
#[verifier::external_type_specification]
#[verifier::external_body]
pub struct ExField(syn::Field);

/// What is read of one field: its identifier, where it has one, and its
/// type, where that is written as one identifier.
pub struct FieldSyntax {
    pub ident: Option<String>,
    pub type_ident: Option<String>,
}

/// The mathematical value of a [`FieldSyntax`].
pub struct FieldSyntaxModel {
    pub ident: Option<Seq<char>>,
    pub type_ident: Option<Seq<char>>,
}

impl View for FieldSyntax {
    type V = FieldSyntaxModel;

    open spec fn view(&self) -> FieldSyntaxModel {
        FieldSyntaxModel { ident: text_of(self.ident), type_ident: text_of(self.type_ident) }
    }
}

/// What is read of a definition: its name and, where it is a struct, its
/// fields in declaration order.
pub struct Definition {
    pub name: String,
    pub fields: Option<Vec<FieldSyntax>>,
}

/// The mathematical value of a [`Definition`].
pub struct DefinitionModel {
    pub name: Seq<char>,
    pub fields: Option<Seq<FieldSyntaxModel>>,
}

/// The values of a run of fields, in the same order.
pub open spec fn field_syntax_models(fields: Seq<FieldSyntax>) -> Seq<FieldSyntaxModel> {
    Seq::new(fields.len(), |i: int| fields[i]@)
}

impl View for Definition {
    type V = DefinitionModel;

    open spec fn view(&self) -> DefinitionModel {
        DefinitionModel {
            name: self.name@,
            fields: match self.fields {
                Some(fields) => Some(field_syntax_models(fields@)),
                None => None,
            },
        }
    }
}

/// The identifier that a definition declares, as text.
pub uninterp spec fn declared_name(input: syn::DeriveInput) -> Seq<char>;

/// The fields of a definition in declaration order, where it is a struct.
pub uninterp spec fn declared_fields(input: syn::DeriveInput) -> Option<Seq<syn::Field>>;

/// The identifier of a field as text, where the field has one.
pub uninterp spec fn field_ident(field: syn::Field) -> Option<Seq<char>>;

/// The type of a field as text, where it is written as one identifier.
pub uninterp spec fn field_type_ident(field: syn::Field) -> Option<Seq<char>>;

/// The text of an optional string.
pub open spec fn text_of(s: Option<String>) -> Option<Seq<char>> {
    match s {
        Some(s) => Some(s@),
        None => None,
    }
}

/// What one parsed field shows.
pub open spec fn written_field(field: syn::Field) -> FieldSyntaxModel {
    FieldSyntaxModel { ident: field_ident(field), type_ident: field_type_ident(field) }
}

/// What a parsed definition shows.
pub open spec fn written(input: syn::DeriveInput) -> DefinitionModel {
    DefinitionModel {
        name: declared_name(input),
        fields: match declared_fields(input) {
            Some(fields) => Some(Seq::new(fields.len(), |i: int| written_field(fields[i]))),
            None => None,
        },
    }
}

/// Reads a parsed definition into plain values.
pub fn read_definition(input: &syn::DeriveInput) -> (def: Definition)
    ensures
        def@ == written(*input),
{
    let name = read_declared_name(input);
    let fields = match read_declared_fields(input) {
        Some(declared) => {
            let mut fields: Vec<FieldSyntax> = Vec::new();
            let mut i: usize = 0;
            while i < declared.len()
                invariant
                    i <= declared.len(),
                    fields@.len() == i,
                    forall|k: int|
                        0 <= k < i ==> (#[trigger] fields@[k])@ == written_field(*declared@[k]),
                decreases declared.len() - i,
            {
                let field = declared[i];
                fields.push(
                    FieldSyntax {
                        ident: read_field_ident(field),
                        type_ident: read_field_type_ident(field),
                    },
                );
                i += 1;
            }
            assert(field_syntax_models(fields@) =~= written(*input).fields.unwrap());
            Some(fields)
        },
        None => None,
    };
    Definition { name, fields }
}

/// Formats the field `ident` of `syn::DeriveInput` with `Ident::to_string`.
/// The result is named [`declared_name`].
#[verifier::external_body]
fn read_declared_name(input: &syn::DeriveInput) -> (name: String)
    ensures
        name@ == declared_name(*input),
{
    input.ident.to_string()
}

/// Tells the three variants of `syn::Data` apart and, for a struct, walks
/// `Fields::iter`, which yields the named or unnamed fields in declaration
/// order and nothing for a unit struct. An enum and a union give `None`.
/// The result is named [`declared_fields`].
#[verifier::external_body]
fn read_declared_fields<'a>(input: &'a syn::DeriveInput) -> (fields: Option<Vec<&'a syn::Field>>)
    ensures
        match fields {
            Some(v) => declared_fields(*input) == Some(Seq::new(v@.len(), |i: int| *v@[i])),
            None => declared_fields(*input) is None,
        },
{
    match &input.data {
        syn::Data::Struct(s) => Some(s.fields.iter().collect()),
        syn::Data::Enum(_) => None,
        syn::Data::Union(_) => None,
    }
}

/// Formats the field `ident` of `syn::Field` with `Ident::to_string`, where
/// the field has an identifier. The result is named [`field_ident`].
#[verifier::external_body]
fn read_field_ident(field: &syn::Field) -> (ident: Option<String>)
    ensures
        text_of(ident) == field_ident(*field),
{
    field.ident.as_ref().map(|i| i.to_string())
}

/// Calls `Path::get_ident` on the path of a field whose type is a
/// `syn::Type::Path`, and formats the identifier that comes back. `get_ident`
/// returns one only for a path of a single segment without leading colons
/// and without arguments. Any other type gives `None`. The result is named
/// [`field_type_ident`].
#[verifier::external_body]
fn read_field_type_ident(field: &syn::Field) -> (ident: Option<String>)
    ensures
        text_of(ident) == field_type_ident(*field),
{
    match &field.ty {
        syn::Type::Path(p) => p.path.get_ident().map(|i| i.to_string()),
        _ => None,
    }
}

} // verus!
