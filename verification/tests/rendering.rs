use enum_traits::decl::{EnumDecl, GenericParam, VariantDecl, VariantShape};
use enum_traits::derive::{
    derive_EnumEnds, derive_EnumFromIndex, derive_EnumFromVariantName, derive_EnumIndex,
    derive_EnumIsVariantFns, derive_EnumIter, derive_EnumIterator, derive_EnumLen, derive_EnumTag,
    derive_EnumToIndex, derive_EnumVariantName,
};
use enum_traits::derive::derive_EnumDiscriminant;
use enum_traits::derive::derive_EnumBitPattern;

fn rd_unit(name: &str) -> VariantDecl {
    VariantDecl { name: name.to_string(), shape: VariantShape::Unit, discriminant: None }
}

fn rd_tuple(name: &str) -> VariantDecl {
    VariantDecl { name: name.to_string(), shape: VariantShape::Tuple, discriminant: None }
}

fn rd_decl(name: &str, variants: Vec<VariantDecl>) -> EnumDecl {
    EnumDecl {
        name: name.to_string(),
        vis: String::new(),
        generics: vec![],
        where_clause: String::new(),
        attrs: vec![],
        variants,
    }
}

#[test]
fn renders_len_impl() {
    let d = rd_decl("Animal", vec![rd_unit("Dog"), rd_unit("Cat"), rd_unit("Robot")]);
    assert_eq!(
        "impl ::enum_traits::Len for Animal {\n    const LEN: usize = 3;\n}\n",
        derive_EnumLen(&d)
    );
}

#[test]
fn renders_len_impl_with_generics() {
    let mut d = rd_decl("Holder", vec![rd_tuple("One"), rd_unit("None2")]);
    d.generics = vec![
        GenericParam { decl: "'t".to_string(), name: "'t".to_string() },
        GenericParam { decl: "T: 't".to_string(), name: "T".to_string() },
    ];
    assert_eq!(
        "impl<'t, T: 't> ::enum_traits::Len for Holder<'t, T> {\n    const LEN: usize = 2;\n}\n",
        derive_EnumLen(&d)
    );
}

#[test]
fn renders_ends_impl() {
    let d = rd_decl("Animal", vec![rd_unit("Dog"), rd_unit("Cat"), rd_unit("Robot")]);
    assert_eq!(
        "impl ::enum_traits::Ends for Animal {\n    fn first() -> Self {\n        Animal::Dog\n    }\n\n    fn last() -> Self {\n        Animal::Robot\n    }\n}\n",
        derive_EnumEnds(&d).unwrap()
    );
}

#[test]
fn renders_to_index_impl() {
    let d = rd_decl("Animal", vec![rd_unit("Dog"), rd_tuple("Cat")]);
    let expected = "impl ::enum_traits::ToIndex for Animal {\n    fn into_index(self) -> <Self as Index>::Type {\n        match self {\n            Animal::Dog => 0,\n            Animal::Cat(..) => 1,\n        }\n    }\n\n    fn index(&self) -> <Self as Index>::Type {\n        match self {\n            &Animal::Dog => 0,\n            &Animal::Cat(..) => 1,\n        }\n    }\n}\n";
    assert_eq!(expected, derive_EnumToIndex(&d));
}

#[test]
fn renders_from_index_impl() {
    let d = rd_decl("Animal", vec![rd_unit("Dog"), rd_unit("Cat")]);
    let expected = "impl ::enum_traits::FromIndex for Animal {\n    fn from_index(index: <Self as Index>::Type) -> Option<Self> {\n        Some(match index {\n            0 => Animal::Dog,\n            1 => Animal::Cat,\n            _ => return None,\n        })\n    }\n}\n";
    assert_eq!(expected, derive_EnumFromIndex(&d).unwrap());
}

#[test]
fn renders_index_impl() {
    let d = rd_decl("Animal", vec![rd_unit("Dog")]);
    assert_eq!(
        "impl ::enum_traits::Index for Animal {\n    type Type = u8;\n}\n",
        derive_EnumIndex(&d)
    );
}

#[test]
fn renders_variant_name_impl() {
    let d = rd_decl("Animal", vec![rd_unit("Dog"), rd_tuple("Cat")]);
    let expected = "impl ::enum_traits::VariantName for Animal {\n    fn variant_name(&self) -> &'static str {\n        match self {\n            &Animal::Dog => \"Dog\",\n            &Animal::Cat(..) => \"Cat\",\n        }\n    }\n}\n";
    assert_eq!(expected, derive_EnumVariantName(&d));
}

#[test]
fn renders_from_variant_name_impl() {
    let d = rd_decl("Animal", vec![rd_unit("Dog"), rd_tuple("Cat")]);
    let expected = "impl ::std::str::FromStr for Animal {\n    type Err = ();\n\n    fn from_str(s: &str) -> Result<Self, Self::Err> {\n        Ok(match s {\n            \"Dog\" => Animal::Dog,\n            _ => return Err(()),\n        })\n    }\n}\n";
    assert_eq!(expected, derive_EnumFromVariantName(&d));
}

#[test]
fn renders_tag_items() {
    let mut d = rd_decl("Animal", vec![rd_unit("Dog"), rd_tuple("Cat")]);
    d.vis = "pub".to_string();
    let expected = "#[derive(Copy, Clone, Debug, PartialEq, Eq, Hash)]\npub enum AnimalTag {\n    Dog,\n    Cat,\n}\n\nimpl ::enum_traits::Tag for Animal {\n    type Enum = AnimalTag;\n\n    fn tag(&self) -> Self::Enum {\n        match self {\n            &Animal::Dog => AnimalTag::Dog,\n            &Animal::Cat(..) => AnimalTag::Cat,\n        }\n    }\n}\n";
    assert_eq!(expected, derive_EnumTag(&d));
}

#[test]
fn renders_is_variant_fns() {
    let d = rd_decl("Animal", vec![rd_unit("Dog"), rd_tuple("Cat")]);
    let expected = "impl Animal {\n    pub fn is_dog(&self) -> bool {\n        if let &Animal::Dog = self { true } else { false }\n    }\n    pub fn is_cat(&self) -> bool {\n        if let &Animal::Cat(..) = self { true } else { false }\n    }\n}\n";
    assert_eq!(expected, derive_EnumIsVariantFns(&d));
}

#[test]
fn renders_iter_items() {
    let d = rd_decl("Pair", vec![rd_unit("L"), rd_unit("R")]);
    let text = derive_EnumIter(&d).unwrap();
    assert!(text.starts_with("struct PairIter(pub Option<Pair>);\n\n"));
    assert!(text.contains("impl ::enum_traits::Iterable for Pair {\n    type Iter = PairIter;\n"));
    assert!(text.contains("impl ::std::default::Default for PairIter {\n"));
    assert!(text.contains(
        "            &Some(Pair::L) => {\n                self.0 = Some(Pair::R);\n                Pair::R\n            },\n"
    ));
    assert!(text.contains("impl ::std::iter::DoubleEndedIterator for PairIter {\n"));
    assert!(text.contains(
        "            &Some(Pair::R) => {\n                self.0 = Some(Pair::L);\n                Pair::L\n            },\n"
    ));
    assert!(text.contains("impl ::std::iter::ExactSizeIterator for PairIter {\n"));
    assert!(text.ends_with("}\n"));
}

#[test]
fn renders_iterator_items() {
    let d = rd_decl("Pair", vec![rd_unit("L"), rd_unit("R")]);
    let text = derive_EnumIterator(&d).unwrap();
    assert!(text.starts_with("impl ::std::iter::Iterator for Pair {\n    type Item = Self;\n"));
    assert!(text.contains(
        "            &mut Pair::L => {\n                *self = Pair::R;\n                Pair::R\n            },\n"
    ));
    assert!(text.contains("    fn last(self) -> Option<Self::Item> {\n        Some(Pair::R)\n    }\n"));
    assert!(text.contains("impl ::std::iter::ExactSizeIterator for Pair {\n"));
}

#[test]
fn renders_discriminant_impl() {

    let d = rd_decl(
        "Mask",
        vec![
            VariantDecl {
                name: "On".to_string(),
                shape: VariantShape::Unit,
                discriminant: Some(1),
            },
            rd_unit("Off"),
        ],
    );
    let expected = "impl ::enum_traits::Discriminant for Mask {\n    type Type = usize;\n\n    fn from_discriminant(discriminant: <Self as Discriminant>::Type) -> Option<Self> {\n        Some(match discriminant {\n            1 => Mask::On,\n            n if n == Mask::Off as Self::Type => Mask::Off,\n            _ => return None,\n        })\n    }\n}\n";
    assert_eq!(expected, derive_EnumDiscriminant(&d));
}

#[test]
fn renders_bit_pattern_impl() {

    let d = rd_decl("Pair", vec![rd_unit("L"), rd_unit("R")]);
    let expected = "impl ::enum_traits::BitPattern for Pair {\n    type ByteArray = [u8; 1];\n\n    fn bit_pattern(self) -> Self::ByteArray {\n        match self {\n            Pair::L => [1],\n            Pair::R => [2],\n        }\n    }\n\n    fn bit_pattern_rev(self) -> Self::ByteArray {\n        match self {\n            Pair::L => [128],\n            Pair::R => [64],\n        }\n    }\n}\n";
    assert_eq!(expected, derive_EnumBitPattern(&d).unwrap());
}

#[test]
fn decimal_rendering_is_exact() {
    let d = rd_decl(
        "Big",
        (0..1000)
            .map(|i| rd_unit(&format!("V{:04}", i)))
            .collect(),
    );
    let text = derive_EnumLen(&d);
    assert_eq!(
        "impl ::enum_traits::Len for Big {\n    const LEN: usize = 1000;\n}\n",
        text
    );
}
