//! One generation from a descriptor to the text that is handed back.
use vstd::prelude::*;
use vstd::string::StringExecFns;
use crate::assemble::{
    build_method, build_text, builder_declaration, builder_name, builder_name_of, builder_text,
    factory_declaration, factory_text, BUILDER_SUFFIX,
};
use crate::descriptor::{StructDescriptor, StructModel};
use crate::fragments::{
    assignment_text, fragments_of, initializer_text, setter_text, slot_text, synthesize, Fragments,
    FragmentsModel,
};

verus! {

/// What stands between the two declarations.
pub const DECLARATION_SEPARATOR: &'static str = "\n";

/// All that one generation yields.
pub struct GeneratedArtifact {
    pub target_name: String,
    pub builder_name: String,
    pub fragments: Fragments,
    pub target_impl: String,
    pub builder_impl: String,
}

/// The mathematical value of a [`GeneratedArtifact`].
pub struct ArtifactModel {
    pub target_name: Seq<char>,
    pub builder_name: Seq<char>,
    pub fragments: FragmentsModel,
    pub target_impl: Seq<char>,
    pub builder_impl: Seq<char>,
}

impl View for GeneratedArtifact {
    type V = ArtifactModel;

    open spec fn view(&self) -> ArtifactModel {
        ArtifactModel {
            target_name: self.target_name@,
            builder_name: self.builder_name@,
            fragments: self.fragments@,
            target_impl: self.target_impl@,
            builder_impl: self.builder_impl@,
        }
    }
}

impl ArtifactModel {
    /// The builder is named after the target, and the four sets are of one
    /// length: one piece per field in each.
    pub open spec fn wf(self) -> bool {
        &&& self.builder_name == self.target_name + BUILDER_SUFFIX@
        &&& self.fragments.setters.len() == self.fragments.slots.len()
        &&& self.fragments.initializers.len() == self.fragments.slots.len()
        &&& self.fragments.assignments.len() == self.fragments.slots.len()
    }
}

/// The method that ends the building, which only the builder of a struct
/// has: for any other target the text is empty.
pub open spec fn terminal_text(desc: StructModel, fragments: FragmentsModel) -> Seq<char> {
    if desc.struct_shaped {
        build_text(desc.target_name, fragments)
    } else {
        Seq::empty()
    }
}

/// The artifact of a target: the names, the pieces of its fields, and the two
/// declarations made of them.
pub open spec fn artifact_of(desc: StructModel) -> ArtifactModel {
    let builder = builder_name_of(desc.target_name);
    let fragments = fragments_of(builder, desc.fields);
    ArtifactModel {
        target_name: desc.target_name,
        builder_name: builder,
        fragments,
        target_impl: factory_text(desc.target_name, builder, fragments),
        builder_impl: builder_text(builder, fragments, terminal_text(desc, fragments)),
    }
}

/// The text of an artifact: the `impl` of the target, then the builder.
pub open spec fn emitted(artifact: ArtifactModel) -> Seq<char> {
    artifact.target_impl + DECLARATION_SEPARATOR@ + artifact.builder_impl
}

/// Generates the builder of a target.
pub fn generate(desc: &StructDescriptor) -> (artifact: GeneratedArtifact)
    ensures
        artifact@ == artifact_of(desc@),
        artifact@.wf(),
{
    let target_name = desc.target_name.clone();
    let builder_name = builder_name(target_name.as_str());
    let fragments = synthesize(builder_name.clone(), desc);
    let target_impl = factory_declaration(target_name.as_str(), builder_name.as_str(), &fragments);
    let build = if desc.struct_shaped {
        build_method(target_name.clone(), &fragments)
    } else {
        String::new()
    };
    let builder_impl = builder_declaration(builder_name.as_str(), &fragments, build.as_str());
    GeneratedArtifact { target_name, builder_name, fragments, target_impl, builder_impl }
}

/// Writes an artifact out as one block of text.
pub fn emit(artifact: &GeneratedArtifact) -> (text: String)
    ensures
        text@ == emitted(artifact@),
{
    let mut text = artifact.target_impl.clone();
    text.append(DECLARATION_SEPARATOR);
    text.append(artifact.builder_impl.as_str());
    text
}

/// The name of the builder is the name of the target followed by
/// [`BUILDER_SUFFIX`], whatever the target.
pub proof fn lemma_builder_name(desc: StructModel)
    ensures
        artifact_of(desc).target_name == desc.target_name,
        artifact_of(desc).builder_name == desc.target_name + BUILDER_SUFFIX@,
        artifact_of(desc).wf(),
{
}

/// A target of N fields gets N slots, N setters, N initializers and N
/// assignments, and the piece at place `i` of each set is the piece of the
/// field at place `i`: every field has one piece in each set, and no set
/// holds a piece of anything else.
pub proof fn lemma_one_piece_per_field(desc: StructModel)
    ensures
        artifact_of(desc).fragments.slots.len() == desc.fields.len(),
        artifact_of(desc).fragments.setters.len() == desc.fields.len(),
        artifact_of(desc).fragments.initializers.len() == desc.fields.len(),
        artifact_of(desc).fragments.assignments.len() == desc.fields.len(),
        forall|i: int|
            0 <= i < desc.fields.len() ==> {
                &&& (#[trigger] artifact_of(desc).fragments.slots[i]) == slot_text(desc.fields[i])
                &&& artifact_of(desc).fragments.setters[i] == setter_text(
                    artifact_of(desc).builder_name,
                    desc.fields[i],
                )
                &&& artifact_of(desc).fragments.initializers[i] == initializer_text(
                    desc.fields[i],
                )
                &&& artifact_of(desc).fragments.assignments[i] == assignment_text(desc.fields[i])
            },
{
}

} // verus!
