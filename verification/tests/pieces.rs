//! The pieces of a field, the groups of pieces and the declarations.
use builder_derive::assemble::{
    build_method, builder_attributes, builder_declaration, builder_initializer, builder_name,
    builder_setters, factory_declaration, join, BUILDER_SUFFIX, LIST_SEPARATOR, METHOD_SEPARATOR,
};
use builder_derive::descriptor::{FieldDescriptor, StructDescriptor};
use builder_derive::emit::{emit, generate, GeneratedArtifact};
use builder_derive::fragments::{
    synthesize, to_assignment, to_initializer, to_option, to_setter, Fragments,
};

fn field(name: &str, ty: &str, position: usize) -> FieldDescriptor {
    FieldDescriptor { name: name.to_string(), ty: ty.to_string(), position }
}

fn strings(items: &[&str]) -> Vec<String> {
    items.iter().map(|s| s.to_string()).collect()
}

fn target(name: &str, fields: Vec<FieldDescriptor>) -> StructDescriptor {
    StructDescriptor { target_name: name.to_string(), struct_shaped: true, fields }
}

fn user() -> StructDescriptor {
    target("User", vec![field("id", "u64", 0), field("name", "String", 1), field("admin", "bool", 2)])
}

fn pieces(slots: &[&str], setters: &[&str], initializers: &[&str], assignments: &[&str]) -> Fragments {
    Fragments {
        slots: strings(slots),
        setters: strings(setters),
        initializers: strings(initializers),
        assignments: strings(assignments),
    }
}

#[test]
fn slot_wraps_the_type_in_option() {
    assert_eq!(to_option(&field("x", "i64", 0)), "x: Option<i64>");
    assert_eq!(to_option(&field("_0", "String", 3)), "_0: Option<String>");
}

#[test]
fn setter_fills_the_slot_and_returns_the_builder() {
    assert_eq!(
        to_setter("PointBuilder".to_string(), &field("x", "i64", 0)),
        "\n        pub fn x(mut self, value: i64) -> PointBuilder {\n            self.x = Some(value);\n            self\n        }\n    "
    );
}

#[test]
fn initializer_starts_absent() {
    assert_eq!(to_initializer(&field("x", "i64", 0)), "x: None");
}

#[test]
fn assignment_expects_the_slot_with_the_message_of_the_field() {
    assert_eq!(to_assignment(&field("x", "i64", 0)), "x : self.x.expect(\"x is required\")");
    assert_eq!(
        to_assignment(&field("name", "String", 1)),
        "name : self.name.expect(\"name is required\")"
    );
}

#[test]
fn pieces_do_not_depend_on_the_position() {
    assert_eq!(to_option(&field("x", "i64", 0)), to_option(&field("x", "i64", 9)));
    assert_eq!(to_assignment(&field("x", "i64", 0)), to_assignment(&field("x", "i64", 9)));
}

#[test]
fn synthesize_gives_one_piece_per_field_in_each_set() {
    let desc = user();
    let fragments = synthesize("UserBuilder".to_string(), &desc);
    assert_eq!(fragments.slots.len(), 3);
    assert_eq!(fragments.setters.len(), 3);
    assert_eq!(fragments.initializers.len(), 3);
    assert_eq!(fragments.assignments.len(), 3);
    for (i, f) in desc.fields.iter().enumerate() {
        assert_eq!(fragments.slots[i], to_option(f));
        assert_eq!(fragments.setters[i], to_setter("UserBuilder".to_string(), f));
        assert_eq!(fragments.initializers[i], to_initializer(f));
        assert_eq!(fragments.assignments[i], to_assignment(f));
    }
    assert_eq!(fragments.slots, strings(&["id: Option<u64>", "name: Option<String>", "admin: Option<bool>"]));
}

#[test]
fn synthesize_of_no_fields_is_four_empty_sets() {
    let fragments = synthesize("UnitBuilder".to_string(), &target("Unit", vec![]));
    assert!(fragments.slots.is_empty());
    assert!(fragments.setters.is_empty());
    assert!(fragments.initializers.is_empty());
    assert!(fragments.assignments.is_empty());
}

#[test]
fn separators_are_fixed() {
    assert_eq!(LIST_SEPARATOR, ",\n");
    assert_eq!(METHOD_SEPARATOR, "\n");
    assert_eq!(BUILDER_SUFFIX, "Builder");
}

#[test]
fn join_puts_the_separator_between_neighbours_only() {
    assert_eq!(join(&strings(&[]), ",\n"), "");
    assert_eq!(join(&strings(&["a"]), ",\n"), "a");
    assert_eq!(join(&strings(&["a", "b"]), ",\n"), "a,\nb");
    assert_eq!(join(&strings(&["a", "b", "c"]), "--"), "a--b--c");
    assert_eq!(join(&strings(&["", ""]), ";"), ";");
    assert_eq!(join(&strings(&["a", "b"]), ""), "ab");
}

#[test]
fn groups_join_their_own_set() {
    let fragments = pieces(&["s1", "s2"], &["m1", "m2"], &["i1", "i2"], &["a1", "a2"]);
    assert_eq!(builder_attributes(&fragments), "s1,\ns2");
    assert_eq!(builder_setters(&fragments), "m1\nm2");
    assert_eq!(builder_initializer(&fragments), "i1,\ni2");
}

#[test]
fn build_method_lists_the_assignments_in_the_target() {
    let fragments = pieces(&[], &[], &[], &["a1", "a2"]);
    assert_eq!(
        build_method("Point".to_string(), &fragments),
        "\n        pub fn build(mut self) -> Point {\n            Point {\n                a1,\na2\n            }\n        }\n    "
    );
}

#[test]
fn build_method_of_no_fields() {
    let fragments = pieces(&[], &[], &[], &[]);
    assert_eq!(
        build_method("Unit".to_string(), &fragments),
        "\n        pub fn build(mut self) -> Unit {\n            Unit {\n                \n            }\n        }\n    "
    );
}

#[test]
fn builder_name_appends_the_suffix() {
    assert_eq!(builder_name("Point"), "PointBuilder");
    assert_eq!(builder_name(""), "Builder");
    assert_eq!(builder_name("PointBuilder"), "PointBuilderBuilder");
}

#[test]
fn builder_declaration_is_the_struct_and_its_impl() {
    let fragments = pieces(&["s1", "s2"], &["m1", "m2"], &["i1"], &["a1"]);
    assert_eq!(
        builder_declaration("PB", &fragments, "BUILD"),
        "\n        pub struct PB {\n            s1,\ns2\n        }\n\n        impl PB {\n            m1\nm2\n            BUILD\n        }"
    );
}

#[test]
fn factory_declaration_is_the_impl_of_the_target() {
    let fragments = pieces(&["s1"], &["m1"], &["i1", "i2"], &["a1"]);
    assert_eq!(
        factory_declaration("P", "PB", &fragments),
        "\n        impl P {\n            pub fn builder() -> PB {\n                PB {\n                    i1,\ni2\n                }\n            }\n        }\n    "
    );
}

#[test]
fn emit_puts_the_target_first_and_one_newline_between() {
    let artifact = GeneratedArtifact {
        target_name: "P".to_string(),
        builder_name: "PB".to_string(),
        fragments: pieces(&[], &[], &[], &[]),
        target_impl: "TARGET".to_string(),
        builder_impl: "BUILDER".to_string(),
    };
    assert_eq!(emit(&artifact), "TARGET\nBUILDER");
}

#[test]
fn generate_names_the_builder_after_the_target() {
    for name in ["Point", "User", "a", ""] {
        let artifact = generate(&target(name, vec![field("x", "u8", 0)]));
        assert_eq!(artifact.target_name, name);
        assert_eq!(artifact.builder_name, format!("{}Builder", name));
    }
}

#[test]
fn generate_counts_one_piece_per_field() {
    for n in 0..5 {
        let fields: Vec<FieldDescriptor> =
            (0..n).map(|i| field(&format!("f{}", i), "u8", i)).collect();
        let artifact = generate(&target("T", fields));
        assert_eq!(artifact.fragments.slots.len(), n);
        assert_eq!(artifact.fragments.setters.len(), n);
        assert_eq!(artifact.fragments.initializers.len(), n);
        assert_eq!(artifact.fragments.assignments.len(), n);
        for i in 0..n {
            let name = format!("f{}", i);
            let holds = |set: &Vec<String>| set.iter().filter(|t| t.contains(&name)).count();
            assert_eq!(holds(&artifact.fragments.slots), 1);
            assert_eq!(holds(&artifact.fragments.setters), 1);
            assert_eq!(holds(&artifact.fragments.initializers), 1);
            assert_eq!(holds(&artifact.fragments.assignments), 1);
        }
    }
}

#[test]
fn generate_of_a_unit_struct_has_a_build_method() {
    let artifact = generate(&target("Unit", vec![]));
    assert_eq!(
        artifact.builder_impl,
        "\n        pub struct UnitBuilder {\n            \n        }\n\n        impl UnitBuilder {\n            \n            \n        pub fn build(mut self) -> Unit {\n            Unit {\n                \n            }\n        }\n    \n        }"
    );
    assert_eq!(
        artifact.target_impl,
        "\n        impl Unit {\n            pub fn builder() -> UnitBuilder {\n                UnitBuilder {\n                    \n                }\n            }\n        }\n    "
    );
}

#[test]
fn generate_of_what_is_no_struct_has_no_build_method() {
    let shape = StructDescriptor {
        target_name: "Shape".to_string(),
        struct_shaped: false,
        fields: vec![],
    };
    let artifact = generate(&shape);
    assert_eq!(
        artifact.builder_impl,
        "\n        pub struct ShapeBuilder {\n            \n        }\n\n        impl ShapeBuilder {\n            \n            \n        }"
    );
    assert_eq!(
        artifact.target_impl,
        "\n        impl Shape {\n            pub fn builder() -> ShapeBuilder {\n                ShapeBuilder {\n                    \n                }\n            }\n        }\n    "
    );
    assert!(syn::parse_file(&emit(&artifact)).is_ok());
}
