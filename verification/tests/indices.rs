use enum_traits::decl::{EnumDecl, GenericParam, VariantDecl, VariantShape};
use enum_traits::emit::{
    emit_ends, emit_from_index, emit_index, emit_iter, emit_iterator, emit_len, emit_to_index,
};
use enum_traits::eval::{eval_from_index, eval_iter_next, eval_iterator_next, eval_to_index};
use enum_traits::decl::Attr;
use enum_traits::capability::{Capability, DeriveError};
use enum_traits::width::{minimum_type_from_value, IntWidth};

fn iv_unit(name: &str) -> VariantDecl {
    VariantDecl { name: name.to_string(), shape: VariantShape::Unit, discriminant: None }
}

fn iv_unit_disc(name: &str, d: u64) -> VariantDecl {
    VariantDecl { name: name.to_string(), shape: VariantShape::Unit, discriminant: Some(d) }
}

fn iv_tuple(name: &str) -> VariantDecl {
    VariantDecl { name: name.to_string(), shape: VariantShape::Tuple, discriminant: None }
}

fn iv_struct(name: &str) -> VariantDecl {
    VariantDecl { name: name.to_string(), shape: VariantShape::Struct, discriminant: None }
}

fn iv_decl(name: &str, variants: Vec<VariantDecl>) -> EnumDecl {
    EnumDecl {
        name: name.to_string(),
        vis: String::new(),
        generics: vec![],
        where_clause: String::new(),
        attrs: vec![],
        variants,
    }
}

/// A declaration mixing tuple, struct and unit shapes.
fn iv_fields() -> EnumDecl {
    let mut d = iv_decl(
        "Fields",
        vec![
            iv_tuple("VariantA"),
            iv_tuple("VariantB"),
            iv_tuple("VariantC"),
            iv_struct("VariantD"),
            iv_struct("VariantE"),
            iv_unit("VariantF"),
        ],
    );
    d.generics = vec![
        GenericParam { decl: "'t".to_string(), name: "'t".to_string() },
        GenericParam { decl: "T: 't".to_string(), name: "T".to_string() },
    ];
    d
}

fn iv_nofields() -> EnumDecl {
    iv_decl(
        "NoFields",
        vec![
            iv_unit("A"),
            iv_unit("B"),
            iv_unit("C"),
            iv_unit("D"),
            iv_unit("E"),
            iv_unit("F"),
        ],
    )
}

fn iv_index_of(d: &EnumDecl, variant: &str) -> Option<u64> {
    let f = emit_to_index(d);
    eval_to_index(&f, &variant.to_string())
}

#[test]
fn test_fields_index() {
    let d = iv_fields();
    assert_eq!(Some(0), iv_index_of(&d, "VariantA"));
    assert_eq!(Some(1), iv_index_of(&d, "VariantB"));
    assert_eq!(Some(2), iv_index_of(&d, "VariantC"));
    assert_eq!(Some(3), iv_index_of(&d, "VariantD"));
    assert_eq!(Some(4), iv_index_of(&d, "VariantE"));
    assert_eq!(Some(5), iv_index_of(&d, "VariantF"));
}

#[test]
fn test_fields_into_index() {
    // The by-value form is generated from the same arm table.
    let d = iv_fields();
    assert_eq!(Some(0), iv_index_of(&d, "VariantA"));
    assert_eq!(Some(1), iv_index_of(&d, "VariantB"));
    assert_eq!(Some(2), iv_index_of(&d, "VariantC"));
    assert_eq!(Some(3), iv_index_of(&d, "VariantD"));
    assert_eq!(Some(4), iv_index_of(&d, "VariantE"));
    assert_eq!(Some(5), iv_index_of(&d, "VariantF"));
}

#[test]
fn test_nofields_from_index() {
    let d = iv_nofields();
    let f = emit_from_index(&d).unwrap();
    assert_eq!(Some("A".to_string()), eval_from_index(&f, 0));
    assert_eq!(Some("B".to_string()), eval_from_index(&f, 1));
    assert_eq!(Some("C".to_string()), eval_from_index(&f, 2));
    assert_eq!(Some("D".to_string()), eval_from_index(&f, 3));
    assert_eq!(Some("E".to_string()), eval_from_index(&f, 4));
    assert_eq!(Some("F".to_string()), eval_from_index(&f, 5));
}

#[test]
fn test_nofields_index() {
    // The index type of a six-variant enum without a representation
    // attribute is the narrowest width.
    let d = iv_nofields();
    assert_eq!("u8", emit_index(&d).ty);
    assert_eq!(Some(4), iv_index_of(&d, "E"));
}

#[test]
fn test_len() {
    assert_eq!(6, emit_len(&iv_fields()).len);
    assert_eq!(6, emit_len(&iv_nofields()).len);
    let discs = iv_decl(
        "Discriminants",
        vec![
            iv_unit_disc("A", 1),
            iv_unit_disc("B", 2),
            iv_unit_disc("C", 4),
            iv_unit_disc("D", 8),
            iv_unit_disc("E", 16),
            iv_unit_disc("F", 33),
        ],
    );
    assert_eq!(6, emit_len(&discs).len);

    assert_eq!(0, emit_len(&iv_decl("T", vec![])).len);
    assert_eq!(1, emit_len(&iv_decl("T", vec![iv_unit("A")])).len);
    assert_eq!(
        3,
        emit_len(&iv_decl("T", vec![iv_unit("A"), iv_unit("B"), iv_unit("C")])).len
    );
    let letters7 = ["A", "B", "C", "D", "E", "F", "G"];
    assert_eq!(
        7,
        emit_len(&iv_decl("T", letters7.iter().map(|n| iv_unit(n)).collect())).len
    );
    let letters8 = ["A", "B", "C", "D", "E", "F", "G", "H"];
    assert_eq!(
        8,
        emit_len(&iv_decl("T", letters8.iter().map(|n| iv_unit(n)).collect())).len
    );
    let letters25 = [
        "A", "B", "C", "D", "E", "F", "G", "H", "I", "J", "K", "L", "M", "N", "O", "P", "Q", "R",
        "S", "T", "U", "V", "X", "Y", "Z",
    ];
    assert_eq!(
        25,
        emit_len(&iv_decl("T", letters25.iter().map(|n| iv_unit(n)).collect())).len
    );

    // Mixed shapes count the same.
    assert_eq!(1, emit_len(&iv_decl("T", vec![iv_tuple("A")])).len);
    assert_eq!(
        3,
        emit_len(&iv_decl("T", vec![iv_tuple("A"), iv_unit("B"), iv_struct("C")])).len
    );
    let mut mixed7 = vec![iv_tuple("A"), iv_unit("B"), iv_struct("C")];
    for n in ["D", "E", "F", "G"] {
        mixed7.push(iv_unit(n));
    }
    assert_eq!(7, emit_len(&iv_decl("T", mixed7.clone())).len);
    mixed7.push(iv_unit("H"));
    assert_eq!(8, emit_len(&iv_decl("T", mixed7.clone())).len);
    for n in [
        "I", "J", "K", "L", "M", "N", "O", "P", "Q", "R", "S", "T", "U", "V", "X", "Y", "Z",
    ] {
        mixed7.push(iv_unit(n));
    }
    assert_eq!(25, emit_len(&iv_decl("T", mixed7)).len);
}

#[test]
fn test_ends() {
    let one = iv_decl("T", vec![iv_unit("A")]);
    let f = emit_ends(&one).unwrap();
    assert_eq!("A", f.first);
    assert_eq!("A", f.last);

    let three = iv_decl("T", vec![iv_unit("A"), iv_unit("B"), iv_unit("C")]);
    let f = emit_ends(&three).unwrap();
    assert_eq!("A", f.first);
    assert_eq!("C", f.last);

    let letters7 = ["A", "B", "C", "D", "E", "F", "G"];
    let f = emit_ends(&iv_decl("T", letters7.iter().map(|n| iv_unit(n)).collect())).unwrap();
    assert_eq!("A", f.first);
    assert_eq!("G", f.last);

    let letters8 = ["A", "B", "C", "D", "E", "F", "G", "H"];
    let f = emit_ends(&iv_decl("T", letters8.iter().map(|n| iv_unit(n)).collect())).unwrap();
    assert_eq!("A", f.first);
    assert_eq!("H", f.last);

    let letters25 = [
        "A", "B", "C", "D", "E", "F", "G", "H", "I", "J", "K", "L", "M", "N", "O", "P", "Q", "R",
        "S", "T", "U", "V", "X", "Y", "Z",
    ];
    let f = emit_ends(&iv_decl("T", letters25.iter().map(|n| iv_unit(n)).collect())).unwrap();
    assert_eq!("A", f.first);
    assert_eq!("Z", f.last);
}

#[test]
fn f1() {
    let mut d = iv_decl(
        "Enum",
        vec![
            iv_tuple("VariantA"),
            iv_tuple("VariantB"),
            iv_tuple("VariantC"),
            iv_struct("VariantD"),
            iv_struct("VariantE"),
            iv_unit("VariantF"),
        ],
    );
    d.generics = vec![
        GenericParam { decl: "'t".to_string(), name: "'t".to_string() },
        GenericParam { decl: "T: 't".to_string(), name: "T".to_string() },
    ];
    assert_eq!(Some(1), iv_index_of(&d, "VariantB"));
    assert_eq!(6, emit_len(&d).len);
}

#[test]
fn f2() {
    let d = iv_decl(
        "Enum",
        vec![
            iv_unit_disc("VariantA", 10),
            iv_unit_disc("VariantB", 20),
            iv_unit_disc("VariantC", 30),
        ],
    );

    // From the index assignment.
    assert_eq!(Some(1), iv_index_of(&d, "VariantB"));

    // From the length.
    assert_eq!(3, emit_len(&d).len);

    // From the reconstruction by index.
    let fi = emit_from_index(&d).unwrap();
    assert_eq!(Some("VariantB".to_string()), eval_from_index(&fi, 1));

    // From the reconstruction by discriminant.
    let fd = enum_traits::emit::emit_discriminant(&d);
    assert_eq!(
        Some("VariantB".to_string()),
        enum_traits::eval::eval_from_discriminant(&d, &fd, 20)
    );

    // From the endpoints.
    let fe = emit_ends(&d).unwrap();
    assert_eq!("VariantA", fe.first);
    assert_eq!("VariantC", fe.last);

    // From the wrapper iterator: the unset state yields the first variant.
    let fit = emit_iter(&d).unwrap();
    assert_eq!(Some("VariantA".to_string()), eval_iter_next(&fit, None));

    // From the self-mutating iteration: the first variant yields the second.
    let fsm = emit_iterator(&d).unwrap();
    assert_eq!(
        Some("VariantB".to_string()),
        eval_iterator_next(&fsm, &"VariantA".to_string())
    );
}

#[test]
fn test_index() {

    let empty = iv_decl("Enum_u8_1", vec![]);
    assert_eq!("u8", emit_index(&empty).ty);

    let one = iv_decl("Enum_u8_2", vec![iv_unit("A000")]);
    assert_eq!("u8", emit_index(&one).ty);

    let v256: Vec<VariantDecl> = (0..256).map(|i| iv_unit(&format!("A{:03}", i))).collect();
    assert_eq!("u8", emit_index(&iv_decl("Enum_u8_3", v256)).ty);

    let mut one_repr = iv_decl("Enum_u8_4", vec![iv_unit("A000")]);
    one_repr.attrs = vec![Attr { name: "repr".to_string(), args: vec!["u8".to_string()] }];
    assert_eq!("u8", emit_index(&one_repr).ty);

    let v257: Vec<VariantDecl> = (0..257).map(|i| iv_unit(&format!("A{:03}", i))).collect();
    assert_eq!("u16", emit_index(&iv_decl("Enum_u16_1", v257)).ty);

    // A single variant with discriminant 256 needs sixteen bits to hold the
    // greatest value the index type must represent.
    let disc256 = iv_decl("Enum_u16_2", vec![iv_unit_disc("A", 256)]);
    assert_eq!("u16", emit_index(&disc256).ty);

    let mut one_repr16 = iv_decl("Enum_u16_3", vec![iv_unit("A000")]);
    one_repr16.attrs = vec![Attr { name: "repr".to_string(), args: vec!["u16".to_string()] }];
    assert_eq!("u16", emit_index(&one_repr16).ty);
}

#[test]
fn from_index_out_of_range_is_absent() {
    let d = iv_nofields();
    let f = emit_from_index(&d).unwrap();
    assert_eq!(None, eval_from_index(&f, 6));
    assert_eq!(None, eval_from_index(&f, 1000));
}

#[test]
fn from_index_requires_unit_variants() {

    let d = iv_fields();
    assert_eq!(
        Err(DeriveError::NoFields(Capability::FromIndex)),
        emit_from_index(&d).map(|_| ())
    );
}

#[test]
fn ends_requires_a_variant() {

    let d = iv_decl("T", vec![]);
    assert_eq!(
        Err(DeriveError::EmptyEnum(Capability::Ends)),
        emit_ends(&d).map(|_| ())
    );
}

#[test]
fn minimum_widths() {

    assert_eq!(IntWidth::W8, minimum_type_from_value(0));
    assert_eq!(IntWidth::W8, minimum_type_from_value(255));
    assert_eq!(IntWidth::W16, minimum_type_from_value(256));
    assert_eq!(IntWidth::W16, minimum_type_from_value(65535));
    assert_eq!(IntWidth::W32, minimum_type_from_value(65536));
    assert_eq!(IntWidth::W32, minimum_type_from_value(4294967295));
    assert_eq!(IntWidth::W64, minimum_type_from_value(4294967296));
    assert_eq!("u8", IntWidth::W8.ident());
    assert_eq!("usize", IntWidth::WSize.ident());
}
