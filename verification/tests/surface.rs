use enum_traits::capability::{Capability, DeriveError};
use enum_traits::decl::{EnumDecl, VariantDecl, VariantShape};
use enum_traits::derive::{derive_batch, derive_capability};
use enum_traits::emit::{emit_from_index, emit_to_index, emit_variant_name};
use enum_traits::eval::{eval_from_index, eval_to_index, eval_variant_name};
use enum_traits::traits::{Ends, FromIndex, Index, Iterable, Len, Tag, ToIndex, VariantName};

fn sf_unit(name: &str) -> VariantDecl {
    VariantDecl { name: name.to_string(), shape: VariantShape::Unit, discriminant: None }
}

fn sf_decl(name: &str, variants: Vec<VariantDecl>) -> EnumDecl {
    EnumDecl {
        name: name.to_string(),
        vis: String::new(),
        generics: vec![],
        where_clause: String::new(),
        attrs: vec![],
        variants,
    }
}

// A hand-written set of implementations, exactly as the engine generates
// them for this declaration.
#[derive(Debug, PartialEq, Eq, Clone, Copy)]
enum Animal {
    Dog,
    Cat,
    Robot,
}

impl Index for Animal {
    type Type = u8;
}

impl ToIndex for Animal {
    fn into_index(self) -> u8 {
        match self {
            Animal::Dog => 0,
            Animal::Cat => 1,
            Animal::Robot => 2,
        }
    }

    fn index(&self) -> u8 {
        match self {
            &Animal::Dog => 0,
            &Animal::Cat => 1,
            &Animal::Robot => 2,
        }
    }
}

impl FromIndex for Animal {
    fn from_index(index: u8) -> Option<Self> {
        Some(match index {
            0 => Animal::Dog,
            1 => Animal::Cat,
            2 => Animal::Robot,
            _ => return None,
        })
    }
}

impl Len for Animal {
    fn len() -> usize {
        3
    }
}

impl Ends for Animal {
    fn first() -> Self {
        Animal::Dog
    }

    fn last() -> Self {
        Animal::Robot
    }
}

impl VariantName for Animal {
    fn variant_name(&self) -> &'static str {
        match self {
            &Animal::Dog => "Dog",
            &Animal::Cat => "Cat",
            &Animal::Robot => "Robot",
        }
    }
}

#[derive(Debug, PartialEq, Eq)]
enum AnimalTag {
    Dog,
    Cat,
    Robot,
}

impl Tag for Animal {
    type Enum = AnimalTag;

    fn tag(&self) -> AnimalTag {
        match self {
            &Animal::Dog => AnimalTag::Dog,
            &Animal::Cat => AnimalTag::Cat,
            &Animal::Robot => AnimalTag::Robot,
        }
    }
}

struct AnimalIter(pub Option<Animal>);

impl Iterable for Animal {
    type Iter = AnimalIter;

    fn variants() -> AnimalIter {
        AnimalIter(None)
    }
}

impl Iterator for AnimalIter {
    type Item = Animal;

    fn next(&mut self) -> Option<Animal> {
        Some(match &self.0 {
            &None => {
                self.0 = Some(Animal::Dog);
                Animal::Dog
            },
            &Some(Animal::Dog) => {
                self.0 = Some(Animal::Cat);
                Animal::Cat
            },
            &Some(Animal::Cat) => {
                self.0 = Some(Animal::Robot);
                Animal::Robot
            },
            _ => return None,
        })
    }
}

fn animal_decl() -> EnumDecl {
    sf_decl("Animal", vec![sf_unit("Dog"), sf_unit("Cat"), sf_unit("Robot")])
}

#[test]
fn handwritten_impls_agree_with_the_engine() {
    let d = animal_decl();
    let ti = emit_to_index(&d);
    let fi = emit_from_index(&d).unwrap();
    let vn = emit_variant_name(&d);

    for animal in [Animal::Dog, Animal::Cat, Animal::Robot] {
        let name = animal.variant_name().to_string();
        assert_eq!(Some(animal.index() as u64), eval_to_index(&ti, &name));
        assert_eq!(Some(animal.into_index() as u64), eval_to_index(&ti, &name));
        assert_eq!(Some(name.clone()), eval_variant_name(&vn, &name));
        let back = eval_from_index(&fi, animal.index() as u64);
        assert_eq!(Some(name), back);
        assert_eq!(Some(animal), Animal::from_index(animal.index()));
    }
    assert_eq!(3, Animal::len());
    assert_eq!(Animal::Dog, Animal::first());
    assert_eq!(Animal::Robot, Animal::last());
    assert_eq!(AnimalTag::Cat, Animal::Cat.tag());

    let collected: Vec<Animal> = Animal::variants().collect();
    assert_eq!(vec![Animal::Dog, Animal::Cat, Animal::Robot], collected);
}

#[test]
fn derive_capability_dispatches() {
    let d = animal_decl();
    assert_eq!(
        Ok("impl ::enum_traits::Len for Animal {\n    const LEN: usize = 3;\n}\n".to_string()),
        derive_capability(&d, Capability::Len)
    );
    assert_eq!(
        Ok("impl ::enum_traits::Index for Animal {\n    type Type = u8;\n}\n".to_string()),
        derive_capability(&d, Capability::Index)
    );

    let mut mixed = animal_decl();
    mixed.variants[1].shape = VariantShape::Tuple;
    assert_eq!(
        Err(DeriveError::NoFields(Capability::FromIndex)),
        derive_capability(&mixed, Capability::FromIndex)
    );
}

#[test]
fn derive_batch_concatenates_fragments() {
    let d = animal_decl();
    let text = derive_batch(&d, &vec![Capability::Index, Capability::Len]).unwrap();
    assert_eq!(
        "impl ::enum_traits::Index for Animal {\n    type Type = u8;\n}\n\nimpl ::enum_traits::Len for Animal {\n    const LEN: usize = 3;\n}\n\n",
        text
    );
}

#[test]
fn derive_batch_stops_at_the_first_violation() {
    let mut mixed = animal_decl();
    mixed.variants[2].shape = VariantShape::Struct;
    // The length derivation succeeds; the reconstruction is the first to
    // fail, before the iterator forms are reached.
    assert_eq!(
        Err(DeriveError::NoFields(Capability::FromIndex)),
        derive_batch(
            &mixed,
            &vec![
                Capability::Len,
                Capability::FromIndex,
                Capability::Iter,
                Capability::Tag,
            ],
        )
    );
    // An empty enum fails the wrapper iterator with the emptiness
    // requirement instead.
    let empty = sf_decl("T", vec![]);
    assert_eq!(
        Err(DeriveError::EmptyEnum(Capability::Iter)),
        derive_batch(&empty, &vec![Capability::Len, Capability::Iter])
    );
}
