//! The four pieces of text that each field contributes to a builder.
//!
//! For a field `x` of type `T` and a builder `B` the pieces are
//!
//! * the slot `x: Option<T>`,
//! * the setter `pub fn x(mut self, value: T) -> B`, which fills the slot and
//!   hands the builder back,
//! * the initializer `x: None`,
//! * the assignment `x : self.x.expect("x is required")`.
use vstd::prelude::*;
use vstd::string::StringExecFns;
use crate::descriptor::{FieldDescriptor, FieldModel, StructDescriptor};

verus! {

/// Between the name of a slot and its type.
pub const SLOT_OPEN: &'static str = ": Option<";

/// After the type of a slot.
pub const SLOT_CLOSE: &'static str = ">";

/// Before the name of a setter.
pub const SETTER_OPEN: &'static str = "\n        pub fn ";

/// Between the name of a setter and the type of its value.
pub const SETTER_VALUE: &'static str = "(mut self, value: ";

/// Between the type of the value and the name of the builder.
pub const SETTER_RETURNS: &'static str = ") -> ";

/// Between the head of a setter and the slot that it fills.
pub const SETTER_TARGET: &'static str = " {\n            self.";

/// After the slot that a setter fills.
pub const SETTER_CLOSE: &'static str = " = Some(value);\n            self\n        }\n    ";

/// After the name of a slot that starts out absent.
pub const INITIALIZER_ABSENT: &'static str = ": None";

/// Between the field that is assigned and the slot it is taken from.
pub const ASSIGNMENT_SOURCE: &'static str = " : self.";

/// Between the slot and the message for the case that it is absent.
pub const ASSIGNMENT_EXPECT: &'static str = ".expect(\"";

/// What the message adds to the name of the field.
pub const REQUIRED: &'static str = " is required";

/// After the message.
pub const ASSIGNMENT_CLOSE: &'static str = "\")";

/// The slot of a field: its name and its type wrapped in `Option`.
pub open spec fn slot_text(field: FieldModel) -> Seq<char> {
    field.name + SLOT_OPEN@ + field.ty + SLOT_CLOSE@
}

/// The setter of a field in the builder named `builder`.
pub open spec fn setter_text(builder: Seq<char>, field: FieldModel) -> Seq<char> {
    SETTER_OPEN@ + field.name + SETTER_VALUE@ + field.ty + SETTER_RETURNS@ + builder
        + SETTER_TARGET@ + field.name + SETTER_CLOSE@
}

/// The initializer of a field: its slot starts out absent.
pub open spec fn initializer_text(field: FieldModel) -> Seq<char> {
    field.name + INITIALIZER_ABSENT@
}

/// What building reports when the slot of a field is still absent.
pub open spec fn required_message(field: FieldModel) -> Seq<char> {
    field.name + REQUIRED@
}

/// The assignment of a field: the value in its slot, or a failure with the
/// field's [`required_message`].
pub open spec fn assignment_text(field: FieldModel) -> Seq<char> {
    field.name + ASSIGNMENT_SOURCE@ + field.name + ASSIGNMENT_EXPECT@ + required_message(field)
        + ASSIGNMENT_CLOSE@
}

/// Writes the slot of a field.
pub fn to_option(f: &FieldDescriptor) -> (text: String)
    ensures
        text@ == slot_text(f@),
{
    let mut text = f.name.clone();
    text.append(SLOT_OPEN);
    text.append(f.ty.as_str());
    text.append(SLOT_CLOSE);
    text
}

/// Writes the setter of a field.
pub fn to_setter(builder: String, f: &FieldDescriptor) -> (text: String)
    ensures
        text@ == setter_text(builder@, f@),
{
    let mut text = String::from_str(SETTER_OPEN);
    text.append(f.name.as_str());
    text.append(SETTER_VALUE);
    text.append(f.ty.as_str());
    text.append(SETTER_RETURNS);
    text.append(builder.as_str());
    text.append(SETTER_TARGET);
    text.append(f.name.as_str());
    text.append(SETTER_CLOSE);
    text
}

/// Writes the initializer of a field.
pub fn to_initializer(f: &FieldDescriptor) -> (text: String)
    ensures
        text@ == initializer_text(f@),
{
    let mut text = f.name.clone();
    text.append(INITIALIZER_ABSENT);
    text
}

/// Writes the assignment of a field.
pub fn to_assignment(f: &FieldDescriptor) -> (text: String)
    ensures
        text@ == assignment_text(f@),
{
    let mut text = f.name.clone();
    text.append(ASSIGNMENT_SOURCE);
    text.append(f.name.as_str());
    text.append(ASSIGNMENT_EXPECT);
    text.append(f.name.as_str());
    text.append(REQUIRED);
    text.append(ASSIGNMENT_CLOSE);
    text
}

/// The pieces of all fields of a struct, set by set, in declaration order.
pub struct Fragments {
    pub slots: Vec<String>,
    pub setters: Vec<String>,
    pub initializers: Vec<String>,
    pub assignments: Vec<String>,
}

/// The mathematical value of [`Fragments`].
pub struct FragmentsModel {
    pub slots: Seq<Seq<char>>,
    pub setters: Seq<Seq<char>>,
    pub initializers: Seq<Seq<char>>,
    pub assignments: Seq<Seq<char>>,
}

/// The texts of a run of strings, in the same order.
pub open spec fn texts(strings: Seq<String>) -> Seq<Seq<char>> {
    Seq::new(strings.len(), |i: int| strings[i]@)
}

impl View for Fragments {
    type V = FragmentsModel;

    open spec fn view(&self) -> FragmentsModel {
        FragmentsModel {
            slots: texts(self.slots@),
            setters: texts(self.setters@),
            initializers: texts(self.initializers@),
            assignments: texts(self.assignments@),
        }
    }
}

/// The pieces of the given fields for the builder named `builder`: the piece
/// at place `i` of each set is that of field `i`.
pub open spec fn fragments_of(builder: Seq<char>, fields: Seq<FieldModel>) -> FragmentsModel {
    FragmentsModel {
        slots: Seq::new(fields.len(), |i: int| slot_text(fields[i])),
        setters: Seq::new(fields.len(), |i: int| setter_text(builder, fields[i])),
        initializers: Seq::new(fields.len(), |i: int| initializer_text(fields[i])),
        assignments: Seq::new(fields.len(), |i: int| assignment_text(fields[i])),
    }
}

/// Writes the four pieces of every field of `desc`.
pub fn synthesize(builder: String, desc: &StructDescriptor) -> (fragments: Fragments)
    ensures
        fragments@ == fragments_of(builder@, desc@.fields),
{
    let mut slots: Vec<String> = Vec::new();
    let mut setters: Vec<String> = Vec::new();
    let mut initializers: Vec<String> = Vec::new();
    let mut assignments: Vec<String> = Vec::new();
    let mut i: usize = 0;
    while i < desc.fields.len()
        invariant
            i <= desc.fields.len(),
            slots@.len() == i,
            setters@.len() == i,
            initializers@.len() == i,
            assignments@.len() == i,
            forall|k: int| 0 <= k < i ==> (#[trigger] slots@[k])@ == slot_text(desc.fields@[k]@),
            forall|k: int|
                0 <= k < i ==> (#[trigger] setters@[k])@ == setter_text(
                    builder@,
                    desc.fields@[k]@,
                ),
            forall|k: int|
                0 <= k < i ==> (#[trigger] initializers@[k])@ == initializer_text(
                    desc.fields@[k]@,
                ),
            forall|k: int|
                0 <= k < i ==> (#[trigger] assignments@[k])@ == assignment_text(
                    desc.fields@[k]@,
                ),
        decreases desc.fields.len() - i,
    {
        let field = &desc.fields[i];
        slots.push(to_option(field));
        setters.push(to_setter(builder.clone(), field));
        initializers.push(to_initializer(field));
        assignments.push(to_assignment(field));
        i += 1;
    }
    let fragments = Fragments { slots, setters, initializers, assignments };
    proof {
        let expected = fragments_of(builder@, desc@.fields);
        assert(fragments@.slots =~= expected.slots);
        assert(fragments@.setters =~= expected.setters);
        assert(fragments@.initializers =~= expected.initializers);
        assert(fragments@.assignments =~= expected.assignments);
    }
    fragments
}

} // verus!
