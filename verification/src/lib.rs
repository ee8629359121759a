//! Generates the source of a builder for a struct definition.
//!
//! For a struct `Point { x: i64, y: i64 }` the source declares a struct
//! `PointBuilder` with one optional slot per field, a setter per field that
//! fills its slot and hands the builder back, a method `build` that makes the
//! `Point` or fails on the first absent slot, and a function
//! `Point::builder()` that gives a builder with every slot absent.
//!
//! The work runs in four steps, each a module of its own:
//!
//! * [`extract`] describes the target and its fields ([`descriptor`]) from
//!   what a definition shows,
//! * [`fragments`] writes, for each field, the four pieces of text that the
//!   builder needs,
//! * [`assemble`] joins the pieces and sets them into the two declarations,
//! * [`emit`] runs one generation and puts the declarations into one block
//!   of text.
//!
//! Every step states in its contract the exact text that it returns.
//! [`syntax`] reads a definition that `syn` parsed; what it takes from `syn`
//! is believed, not proved. [`model`] states what the emitted builder is
//! written to do.
use vstd::prelude::*;

pub mod descriptor;
pub mod syntax;
pub mod extract;
pub mod fragments;
pub mod assemble;
pub mod emit;
pub mod model;

use crate::descriptor::{FieldModel, StructModel};
use crate::emit::{artifact_of, emit, emitted, generate};
use crate::extract::{described, extract, extracted};
use crate::fragments::{assignment_text, initializer_text, setter_text, slot_text};
use crate::syntax::DefinitionModel;

verus! {

/// The source of the builder of a target.
pub open spec fn builder_source(desc: StructModel) -> Seq<char> {
    emitted(artifact_of(desc))
}

/// Writes the source of the builder of a parsed definition: the `impl` that
/// gives the target its `builder()` function, then the builder itself.
pub fn derive_answer_fn(input: &syn::DeriveInput) -> (text: String)
    ensures
        text@ == builder_source(extracted(*input)),
{
    let desc = extract(input);
    let artifact = generate(&desc);
    emit(&artifact)
}

/// A struct of N fields that all have an identifier and a type written as
/// one identifier gets N slots, N setters, N initializers and N assignments.
/// The pieces at place `i` are those of the field at place `i`, under the
/// identifier and the type that the definition shows there.
pub proof fn lemma_named_fields_one_piece_each(def: DefinitionModel)
    requires
        def.fields matches Some(fields) && forall|i: int|
            0 <= i < fields.len() ==> (#[trigger] fields[i]).ident is Some
                && fields[i].type_ident is Some,
    ensures
        ({
            let shown = def.fields.unwrap();
            let artifact = artifact_of(described(def));
            &&& artifact.fragments.slots.len() == shown.len()
            &&& artifact.fragments.setters.len() == shown.len()
            &&& artifact.fragments.initializers.len() == shown.len()
            &&& artifact.fragments.assignments.len() == shown.len()
            &&& forall|i: int|
                0 <= i < shown.len() ==> {
                    let field = FieldModel {
                        name: (#[trigger] shown[i]).ident.unwrap(),
                        ty: shown[i].type_ident.unwrap(),
                        position: i as nat,
                    };
                    &&& artifact.fragments.slots[i] == slot_text(field)
                    &&& artifact.fragments.setters[i] == setter_text(artifact.builder_name, field)
                    &&& artifact.fragments.initializers[i] == initializer_text(field)
                    &&& artifact.fragments.assignments[i] == assignment_text(field)
                }
        }),
{
}

} // verus!
