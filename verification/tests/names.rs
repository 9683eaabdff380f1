use enum_traits::decl::{EnumDecl, VariantDecl, VariantShape};
use enum_traits::emit::{
    emit_from_variant_name, emit_is_variant_fns, emit_tag, emit_variant_name,
};
use enum_traits::eval::{eval_from_variant_name, eval_is_variant, eval_tag, eval_variant_name};
use enum_traits::capability::{Capability, DeriveError};

fn nm_unit(name: &str) -> VariantDecl {
    VariantDecl { name: name.to_string(), shape: VariantShape::Unit, discriminant: None }
}

fn nm_tuple(name: &str) -> VariantDecl {
    VariantDecl { name: name.to_string(), shape: VariantShape::Tuple, discriminant: None }
}

fn nm_struct(name: &str) -> VariantDecl {
    VariantDecl { name: name.to_string(), shape: VariantShape::Struct, discriminant: None }
}

fn nm_decl(name: &str, variants: Vec<VariantDecl>) -> EnumDecl {
    EnumDecl {
        name: name.to_string(),
        vis: String::new(),
        generics: vec![],
        where_clause: String::new(),
        attrs: vec![],
        variants,
    }
}

fn nm_fields() -> EnumDecl {
    nm_decl(
        "Fields",
        vec![
            nm_tuple("VariantA"),
            nm_tuple("VariantB"),
            nm_tuple("VariantC"),
            nm_struct("VariantD"),
            nm_struct("VariantE"),
            nm_unit("VariantF"),
        ],
    )
}

#[test]
fn test_variant_name() {
    let d = nm_decl(
        "Enum",
        vec![nm_unit("Dog"), nm_tuple("Cat"), nm_struct("Robot")],
    );
    let f = emit_variant_name(&d);
    assert_eq!(Some("Dog".to_string()), eval_variant_name(&f, &"Dog".to_string()));
    assert_eq!(Some("Cat".to_string()), eval_variant_name(&f, &"Cat".to_string()));
    assert_eq!(
        Some("Robot".to_string()),
        eval_variant_name(&f, &"Robot".to_string())
    );
}

#[test]
fn test_from_variant_name() {
    let d = nm_fields();
    let f = emit_from_variant_name(&d);
    // Only unit variants take part in the inverse mapping.
    assert_eq!(None, eval_from_variant_name(&f, &"VariantA".to_string()));
    assert_eq!(None, eval_from_variant_name(&f, &"VariantB".to_string()));
    assert_eq!(None, eval_from_variant_name(&f, &"VariantC".to_string()));
    assert_eq!(None, eval_from_variant_name(&f, &"VariantD".to_string()));
    assert_eq!(None, eval_from_variant_name(&f, &"VariantE".to_string()));
    assert_eq!(
        Some("VariantF".to_string()),
        eval_from_variant_name(&f, &"VariantF".to_string())
    );

    let nofields = nm_decl(
        "NoFields",
        vec![
            nm_unit("A"),
            nm_unit("B"),
            nm_unit("C"),
            nm_unit("D"),
            nm_unit("E"),
            nm_unit("F"),
        ],
    );
    let g = emit_from_variant_name(&nofields);
    for n in ["A", "B", "C", "D", "E", "F"] {
        assert_eq!(Some(n.to_string()), eval_from_variant_name(&g, &n.to_string()));
    }
}

#[test]
fn from_variant_name_rejects_unknown_strings() {
    let d = nm_fields();
    let f = emit_from_variant_name(&d);
    assert_eq!(None, eval_from_variant_name(&f, &"Nothing".to_string()));
    assert_eq!(None, eval_from_variant_name(&f, &String::new()));
}

#[test]
fn test_tag() {
    let d = nm_fields();
    let f = emit_tag(&d);
    assert_eq!("FieldsTag", f.tag_enum_name);
    assert_eq!(
        vec![
            "VariantA".to_string(),
            "VariantB".to_string(),
            "VariantC".to_string(),
            "VariantD".to_string(),
            "VariantE".to_string(),
            "VariantF".to_string(),
        ],
        f.variants
    );
    for n in ["VariantA", "VariantB", "VariantC", "VariantD", "VariantE", "VariantF"] {
        assert_eq!(Some(n.to_string()), eval_tag(&f, &n.to_string()));
    }
}

#[test]
fn test_isvariantfns() {
    let d = nm_fields();
    let f = emit_is_variant_fns(&d);
    let names = ["VariantA", "VariantB", "VariantC", "VariantD", "VariantE", "VariantF"];
    for (held, held_name) in names.iter().enumerate() {
        for (asked, _) in names.iter().enumerate() {
            let expected = held == asked;
            assert_eq!(expected, eval_is_variant(&f, asked, &held_name.to_string()));
        }
    }
}

#[test]
fn predicate_names_follow_the_lowercase_convention() {
    let d = nm_decl(
        "Enum",
        vec![nm_unit("Dog"), nm_tuple("Cat"), nm_struct("Robot")],
    );
    let f = emit_is_variant_fns(&d);
    assert_eq!("is_dog", f.fns[0].fn_name);
    assert_eq!("is_cat", f.fns[1].fn_name);
    assert_eq!("is_robot", f.fns[2].fn_name);

    let mixed = nm_decl("E", vec![nm_unit("HTTPState2x")]);
    let g = emit_is_variant_fns(&mixed);
    assert_eq!("is_httpstate2x", g.fns[0].fn_name);
}

#[test]
fn diagnostics_name_the_capability_and_the_requirement() {

    assert_eq!(
        "`derive(EnumFromIndex)` may only be applied to enum items with no fields",
        DeriveError::NoFields(Capability::FromIndex).message()
    );
    assert_eq!(
        "`derive(EnumEnds)` may only be applied to non-empty enums",
        DeriveError::EmptyEnum(Capability::Ends).message()
    );
    assert_eq!(
        "`derive(EnumIter)` may only be applied to enum items with no fields",
        DeriveError::NoFields(Capability::Iter).message()
    );
    assert_eq!(
        "`derive(Enum*)` may only be applied to enum items",
        DeriveError::NotAnEnum.message()
    );
}
