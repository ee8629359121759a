//! From the pieces of the fields to the two declarations.
//!
//! The pieces of one set are joined into a group: slots, initializers and
//! assignments as the items of a list, setters as methods that follow one
//! another. The groups are then set into the declaration of the builder and
//! into the `impl` that gives the target struct its `builder()` function.
use vstd::prelude::*;
use vstd::string::StringExecFns;
use crate::fragments::{texts, Fragments, FragmentsModel};

verus! {

/// What stands between two items of a list.
pub const LIST_SEPARATOR: &'static str = ",\n";

/// What stands between two methods.
pub const METHOD_SEPARATOR: &'static str = "\n";

/// What the name of a builder adds to the name of its target.
pub const BUILDER_SUFFIX: &'static str = "Builder";

/// Before the name of the target that `build` returns.
pub const BUILD_OPEN: &'static str = "\n        pub fn build(mut self) -> ";

/// Between the head of `build` and the name of the target that it makes.
pub const BUILD_BODY: &'static str = " {\n            ";

/// Between the name of the target and its assignments.
pub const BUILD_FIELDS: &'static str = " {\n                ";

/// After the assignments.
pub const BUILD_CLOSE: &'static str = "\n            }\n        }\n    ";

/// Before the name of the builder in its declaration.
pub const STRUCT_OPEN: &'static str = "\n        pub struct ";

/// Between the name of the builder and its slots.
pub const STRUCT_FIELDS: &'static str = " {\n            ";

/// Between the slots and the name of the builder in the head of its `impl`.
pub const STRUCT_CLOSE: &'static str = "\n        }\n\n        impl ";

/// Between the head of the `impl` and the setters.
pub const METHODS_OPEN: &'static str = " {\n            ";

/// Between the setters and the method that ends the building.
pub const METHODS_BUILD: &'static str = "\n            ";

/// After the method that ends the building.
pub const METHODS_CLOSE: &'static str = "\n        }";

/// Before the name of the target in the head of its `impl`.
pub const FACTORY_OPEN: &'static str = "\n        impl ";

/// Between the name of the target and the type that `builder()` returns.
pub const FACTORY_RETURNS: &'static str = " {\n            pub fn builder() -> ";

/// Between the head of `builder()` and the name of the builder that it makes.
pub const FACTORY_BODY: &'static str = " {\n                ";

/// Between the name of the builder and its initializers.
pub const FACTORY_FIELDS: &'static str = " {\n                    ";

/// After the initializers.
pub const FACTORY_CLOSE: &'static str = "\n                }\n            }\n        }\n    ";

/// The parts in order, with the separator between each two neighbours.
pub open spec fn joined(parts: Seq<Seq<char>>, separator: Seq<char>) -> Seq<char>
    decreases parts.len(),
{
    if parts.len() == 0 {
        Seq::empty()
    } else if parts.len() == 1 {
        parts[0]
    } else {
        joined(parts.drop_last(), separator) + separator + parts.last()
    }
}

/// Joins the parts with the separator.
pub fn join(parts: &Vec<String>, separator: &str) -> (text: String)
    ensures
        text@ == joined(texts(parts@), separator@),
{
    let mut text = String::new();
    let mut i: usize = 0;
    while i < parts.len()
        invariant
            i <= parts.len(),
            text@ == joined(texts(parts@).take(i as int), separator@),
        decreases parts.len() - i,
    {
        proof {
            let before = texts(parts@).take(i as int);
            let after = texts(parts@).take(i + 1);
            assert(after.drop_last() =~= before);
            assert(after.last() == parts@[i as int]@);
        }
        if i > 0 {
            text.append(separator);
        }
        text.append(parts[i].as_str());
        i += 1;
    }
    assert(texts(parts@).take(parts@.len() as int) =~= texts(parts@));
    text
}

/// The slots as the fields of the builder.
pub open spec fn slot_list(fragments: FragmentsModel) -> Seq<char> {
    joined(fragments.slots, LIST_SEPARATOR@)
}

/// The setters as the methods of the builder.
pub open spec fn setter_methods(fragments: FragmentsModel) -> Seq<char> {
    joined(fragments.setters, METHOD_SEPARATOR@)
}

/// The initializers as the fields of a fresh builder.
pub open spec fn initializer_list(fragments: FragmentsModel) -> Seq<char> {
    joined(fragments.initializers, LIST_SEPARATOR@)
}

/// The assignments as the fields of the target.
pub open spec fn assignment_list(fragments: FragmentsModel) -> Seq<char> {
    joined(fragments.assignments, LIST_SEPARATOR@)
}

/// The method that ends the building: it takes the builder and gives the
/// target, each field from its assignment.
pub open spec fn build_text(target: Seq<char>, fragments: FragmentsModel) -> Seq<char> {
    BUILD_OPEN@ + target + BUILD_BODY@ + target + BUILD_FIELDS@ + assignment_list(fragments)
        + BUILD_CLOSE@
}

/// Writes the method that ends the building.
pub fn build_method(target: String, fragments: &Fragments) -> (text: String)
    ensures
        text@ == build_text(target@, fragments@),
{
    let assignments = join(&fragments.assignments, LIST_SEPARATOR);
    let mut text = String::from_str(BUILD_OPEN);
    text.append(target.as_str());
    text.append(BUILD_BODY);
    text.append(target.as_str());
    text.append(BUILD_FIELDS);
    text.append(assignments.as_str());
    text.append(BUILD_CLOSE);
    text
}

/// Writes the fields of a fresh builder.
pub fn builder_initializer(fragments: &Fragments) -> (text: String)
    ensures
        text@ == initializer_list(fragments@),
{
    join(&fragments.initializers, LIST_SEPARATOR)
}

/// Writes the fields of the builder.
pub fn builder_attributes(fragments: &Fragments) -> (text: String)
    ensures
        text@ == slot_list(fragments@),
{
    join(&fragments.slots, LIST_SEPARATOR)
}

/// Writes the setters of the builder.
pub fn builder_setters(fragments: &Fragments) -> (text: String)
    ensures
        text@ == setter_methods(fragments@),
{
    join(&fragments.setters, METHOD_SEPARATOR)
}

/// The name of the builder of the struct named `target`.
pub open spec fn builder_name_of(target: Seq<char>) -> Seq<char> {
    target + BUILDER_SUFFIX@
}

/// Names the builder of a struct.
pub fn builder_name(target: &str) -> (name: String)
    ensures
        name@ == builder_name_of(target@),
{
    let mut name = String::from_str(target);
    name.append(BUILDER_SUFFIX);
    name
}

/// The declaration of the builder: the struct that holds the slots, and the
/// `impl` with the setters and, after them, the text `build`.
pub open spec fn builder_text(
    builder: Seq<char>,
    fragments: FragmentsModel,
    build: Seq<char>,
) -> Seq<char> {
    STRUCT_OPEN@ + builder + STRUCT_FIELDS@ + slot_list(fragments) + STRUCT_CLOSE@ + builder
        + METHODS_OPEN@ + setter_methods(fragments) + METHODS_BUILD@ + build + METHODS_CLOSE@
}

/// The `impl` of the target with the function `builder()`, which gives a
/// builder whose slots are all absent.
pub open spec fn factory_text(
    target: Seq<char>,
    builder: Seq<char>,
    fragments: FragmentsModel,
) -> Seq<char> {
    FACTORY_OPEN@ + target + FACTORY_RETURNS@ + builder + FACTORY_BODY@ + builder
        + FACTORY_FIELDS@ + initializer_list(fragments) + FACTORY_CLOSE@
}

/// Writes the declaration of the builder.
pub fn builder_declaration(builder: &str, fragments: &Fragments, build: &str) -> (text: String)
    ensures
        text@ == builder_text(builder@, fragments@, build@),
{
    let attributes = builder_attributes(fragments);
    let setters = builder_setters(fragments);
    let mut text = String::from_str(STRUCT_OPEN);
    text.append(builder);
    text.append(STRUCT_FIELDS);
    text.append(attributes.as_str());
    text.append(STRUCT_CLOSE);
    text.append(builder);
    text.append(METHODS_OPEN);
    text.append(setters.as_str());
    text.append(METHODS_BUILD);
    text.append(build);
    text.append(METHODS_CLOSE);
    text
}

/// Writes the `impl` of the target.
pub fn factory_declaration(target: &str, builder: &str, fragments: &Fragments) -> (text: String)
    ensures
        text@ == factory_text(target@, builder@, fragments@),
{
    let initializer = builder_initializer(fragments);
    let mut text = String::from_str(FACTORY_OPEN);
    text.append(target);
    text.append(FACTORY_RETURNS);
    text.append(builder);
    text.append(FACTORY_BODY);
    text.append(builder);
    text.append(FACTORY_FIELDS);
    text.append(initializer.as_str());
    text.append(FACTORY_CLOSE);
    text
}

} // verus!
