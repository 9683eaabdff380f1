use enum_traits::decl::{discriminant_value, Attr, EnumDecl, VariantDecl, VariantShape};
use enum_traits::emit::emit_discriminant;
use enum_traits::eval::eval_from_discriminant;
use enum_traits::fragment::DiscriminantArm;
use enum_traits::width::type_from_repr_attr;

fn dc_unit(name: &str) -> VariantDecl {
    VariantDecl { name: name.to_string(), shape: VariantShape::Unit, discriminant: None }
}

fn dc_unit_disc(name: &str, d: u64) -> VariantDecl {
    VariantDecl { name: name.to_string(), shape: VariantShape::Unit, discriminant: Some(d) }
}

fn dc_decl(name: &str, variants: Vec<VariantDecl>) -> EnumDecl {
    EnumDecl {
        name: name.to_string(),
        vis: String::new(),
        generics: vec![],
        where_clause: String::new(),
        attrs: vec![],
        variants,
    }
}

#[test]
fn test_discriminants() {
    let discriminants = dc_decl(
        "Discriminants",
        vec![
            dc_unit_disc("A", 1),
            dc_unit_disc("B", 2),
            dc_unit_disc("C", 4),
            dc_unit_disc("D", 8),
            dc_unit_disc("E", 16),
            dc_unit_disc("F", 33),
        ],
    );
    let f = emit_discriminant(&discriminants);
    assert_eq!(None, eval_from_discriminant(&discriminants, &f, 0));
    assert_eq!(Some("A".to_string()), eval_from_discriminant(&discriminants, &f, 1));
    assert_eq!(Some("B".to_string()), eval_from_discriminant(&discriminants, &f, 2));
    assert_eq!(None, eval_from_discriminant(&discriminants, &f, 3));
    assert_eq!(Some("C".to_string()), eval_from_discriminant(&discriminants, &f, 4));
    assert_eq!(Some("D".to_string()), eval_from_discriminant(&discriminants, &f, 8));
    assert_eq!(Some("E".to_string()), eval_from_discriminant(&discriminants, &f, 16));
    assert_eq!(None, eval_from_discriminant(&discriminants, &f, 32));
    assert_eq!(Some("F".to_string()), eval_from_discriminant(&discriminants, &f, 33));

    // Some explicit, some implicit discriminants; the host language fills
    // the gaps with one more than the predecessor.
    let mut some_discriminants = dc_decl(
        "SomeDiscriminants",
        vec![
            dc_unit_disc("A", 1),
            dc_unit("B"),
            dc_unit_disc("C", 4),
            dc_unit("D"),
            dc_unit_disc("E", 16),
            dc_unit("F"),
        ],
    );
    some_discriminants.attrs = vec![Attr {
        name: "repr".to_string(),
        args: vec!["u32".to_string()],
    }];
    let g = emit_discriminant(&some_discriminants);
    assert_eq!("u32", g.ty);
    let names = ["A", "B", "C", "D", "E", "F"];
    let values = [1u64, 2, 4, 5, 16, 17];
    for (i, n) in names.iter().enumerate() {
        assert_eq!(values[i], discriminant_value(&some_discriminants, i));
        assert_eq!(
            Some(n.to_string()),
            eval_from_discriminant(&some_discriminants, &g, values[i])
        );
    }

    // Without any explicit discriminant the values are the indices.
    let nofields = dc_decl(
        "NoFields",
        vec![
            dc_unit("A"),
            dc_unit("B"),
            dc_unit("C"),
            dc_unit("D"),
            dc_unit("E"),
            dc_unit("F"),
        ],
    );
    let h = emit_discriminant(&nofields);
    assert_eq!("usize", h.ty);
    for (i, n) in names.iter().enumerate() {
        assert_eq!(i as u64, discriminant_value(&nofields, i));
        assert_eq!(
            Some(n.to_string()),
            eval_from_discriminant(&nofields, &h, i as u64)
        );
    }
}

#[test]
fn mixed_enums_keep_only_explicit_arms() {

    let d = dc_decl(
        "Mixed",
        vec![
            dc_unit_disc("A", 7),
            VariantDecl {
                name: "B".to_string(),
                shape: VariantShape::Tuple,
                discriminant: None,
            },
            dc_unit("C"),
        ],
    );
    let f = emit_discriminant(&d);
    // One arm: the explicit literal; the tuple variant and the plain unit
    // variant of a mixed enum are excluded.
    assert_eq!(1, f.arms.len());
    match &f.arms[0] {
        DiscriminantArm::Literal { value, variant } => {
            assert_eq!(7, *value);
            assert_eq!("A", variant);
        },
        DiscriminantArm::Implicit { .. } => panic!("expected a literal arm"),
    }
    assert_eq!(Some("A".to_string()), eval_from_discriminant(&d, &f, 7));
    assert_eq!(None, eval_from_discriminant(&d, &f, 2));
}

#[test]
fn repr_attribute_selects_the_discriminant_type() {

    let c_only = vec![Attr { name: "repr".to_string(), args: vec!["C".to_string()] }];
    assert_eq!(None, type_from_repr_attr(&c_only));

    let c_then_u8 = vec![
        Attr { name: "repr".to_string(), args: vec!["C".to_string()] },
        Attr { name: "repr".to_string(), args: vec!["u8".to_string()] },
    ];
    assert_eq!(Some("u8".to_string()), type_from_repr_attr(&c_then_u8));

    let other_attr = vec![Attr { name: "derive".to_string(), args: vec!["Debug".to_string()] }];
    assert_eq!(None, type_from_repr_attr(&other_attr));

    let empty_repr = vec![Attr { name: "repr".to_string(), args: vec![] }];
    assert_eq!(None, type_from_repr_attr(&empty_repr));
}
