//! Descriptions of a struct and of its fields, free of any syntax tree.
use vstd::prelude::*;

verus! {

/// One field of the target struct: the name it is addressed by, the name of
/// its type as it is written into the builder, and its place in the
/// declaration.
pub struct FieldDescriptor {
    pub name: String,
    pub ty: String,
    pub position: usize,
}

/// The mathematical value of a [`FieldDescriptor`].
pub struct FieldModel {
    pub name: Seq<char>,
    pub ty: Seq<char>,
    pub position: nat,
}

impl View for FieldDescriptor {
    type V = FieldModel;

    open spec fn view(&self) -> FieldModel {
        FieldModel { name: self.name@, ty: self.ty@, position: self.position as nat }
    }
}

/// The target of a builder: its name, whether it is a struct, and its fields
/// in declaration order. A target that is not a struct has no fields.
pub struct StructDescriptor {
    pub target_name: String,
    pub struct_shaped: bool,
    pub fields: Vec<FieldDescriptor>,
}

/// The mathematical value of a [`StructDescriptor`].
pub struct StructModel {
    pub target_name: Seq<char>,
    pub struct_shaped: bool,
    pub fields: Seq<FieldModel>,
}

/// The values of a run of field descriptors, in the same order.
pub open spec fn field_models(fields: Seq<FieldDescriptor>) -> Seq<FieldModel> {
    Seq::new(fields.len(), |i: int| fields[i]@)
}

impl View for StructDescriptor {
    type V = StructModel;

    open spec fn view(&self) -> StructModel {
        StructModel {
            target_name: self.target_name@,
            struct_shaped: self.struct_shaped,
            fields: field_models(self.fields@),
        }
    }
}

impl StructModel {
    /// Only a struct has fields, and every field records the place at which
    /// it stands.
    pub open spec fn wf(self) -> bool {
        &&& !self.struct_shaped ==> self.fields.len() == 0
        &&& forall|i: int| 0 <= i < self.fields.len() ==> (#[trigger] self.fields[i]).position == i
    }
}

} // verus!
