use enum_traits::decl::{EnumDecl, VariantDecl, VariantShape};
use enum_traits::emit::{emit_iter, emit_iterator};
use enum_traits::eval::{eval_iter_len, eval_iter_next, eval_iter_next_back, eval_iterator_len, eval_iterator_next};
use enum_traits::fragment::{IterFragment, IteratorFragment};
use enum_traits::laws::{iter_collect, iter_collect_back, iterator_collect};
use enum_traits::capability::{Capability, DeriveError};

fn it_unit(name: &str) -> VariantDecl {
    VariantDecl { name: name.to_string(), shape: VariantShape::Unit, discriminant: None }
}

fn it_decl(name: &str, names: &[&str]) -> EnumDecl {
    EnumDecl {
        name: name.to_string(),
        vis: String::new(),
        generics: vec![],
        where_clause: String::new(),
        attrs: vec![],
        variants: names.iter().map(|n| it_unit(n)).collect(),
    }
}

fn it_next(f: &IteratorFragment, cur: &str) -> Option<String> {
    eval_iterator_next(f, &cur.to_string())
}

fn it_len(f: &IteratorFragment, cur: &str) -> usize {
    eval_iterator_len(f, &cur.to_string())
}

fn wrap_next(f: &IterFragment, state: Option<&str>) -> Option<String> {
    let owned = state.map(|s| s.to_string());
    eval_iter_next(f, owned.as_ref())
}

fn wrap_len(f: &IterFragment, state: Option<&str>) -> usize {
    let owned = state.map(|s| s.to_string());
    eval_iter_len(f, owned.as_ref())
}

#[test]
fn test_iterator() {
    {
        let d = it_decl("T", &["A"]);
        let f = emit_iterator(&d).unwrap();
        // `first()` holds variant A; nothing is left to visit.
        assert_eq!(0, it_len(&f, "A"));
        assert_eq!(None, it_next(&f, "A"));
        assert_eq!(Some("A".to_string()), f.last);
    }
    {
        let d = it_decl("T", &["A", "B", "C"]);
        let f = emit_iterator(&d).unwrap();
        assert_eq!(2, it_len(&f, "A"));
        assert_eq!(Some("B".to_string()), it_next(&f, "A"));
        assert_eq!(1, it_len(&f, "B"));
        assert_eq!(Some("C".to_string()), it_next(&f, "B"));
        assert_eq!(0, it_len(&f, "C"));
        assert_eq!(None, it_next(&f, "C"));
        assert_eq!(0, it_len(&f, "C"));
        // The generated count computes the same value as the length.
        assert_eq!(0, it_len(&f, "C"));
    }
    {
        let d = it_decl("T", &["A", "B", "C", "D", "E", "F", "G"]);
        let f = emit_iterator(&d).unwrap();
        let mut cur = "A".to_string();
        for expected in ["B", "C", "D", "E", "F", "G"] {
            let y = eval_iterator_next(&f, &cur).unwrap();
            assert_eq!(expected, y);
            cur = y;
        }
        assert_eq!(None, eval_iterator_next(&f, &cur));
    }
    {
        let d = it_decl("T", &["A", "B", "C", "D", "E", "F", "G", "H"]);
        let f = emit_iterator(&d).unwrap();
        let mut cur = "A".to_string();
        for expected in ["B", "C", "D", "E", "F", "G", "H"] {
            let y = eval_iterator_next(&f, &cur).unwrap();
            assert_eq!(expected, y);
            cur = y;
        }
        assert_eq!(None, eval_iterator_next(&f, &cur));
    }
    {
        let names = [
            "A", "B", "C", "D", "E", "F", "G", "H", "I", "J", "K", "L", "M", "N", "O", "P", "Q",
            "R", "S", "T", "U", "V", "X", "Y", "Z",
        ];
        let d = it_decl("T", &names);
        let f = emit_iterator(&d).unwrap();
        let mut cur = "A".to_string();
        for expected in &names[1..] {
            let y = eval_iterator_next(&f, &cur).unwrap();
            assert_eq!(*expected, y);
            cur = y;
        }
        assert_eq!(None, eval_iterator_next(&f, &cur));
    }
}

#[test]
fn test_iter() {
    {
        let d = it_decl("T", &["A"]);
        let f = emit_iter(&d).unwrap();
        assert_eq!(1, wrap_len(&f, None));
        assert_eq!(Some("A".to_string()), wrap_next(&f, None));
        assert_eq!(0, wrap_len(&f, Some("A")));
        assert_eq!(None, wrap_next(&f, Some("A")));
        assert_eq!("A", f.last);
    }
    {
        let d = it_decl("T", &["A", "B", "C"]);
        let f = emit_iter(&d).unwrap();
        assert_eq!(3, wrap_len(&f, None));
        assert_eq!(Some("A".to_string()), wrap_next(&f, None));
        assert_eq!(2, wrap_len(&f, Some("A")));
        assert_eq!(Some("B".to_string()), wrap_next(&f, Some("A")));
        assert_eq!(1, wrap_len(&f, Some("B")));
        assert_eq!(Some("C".to_string()), wrap_next(&f, Some("B")));
        assert_eq!(0, wrap_len(&f, Some("C")));
        assert_eq!(None, wrap_next(&f, Some("C")));
        assert_eq!(0, wrap_len(&f, Some("C")));
    }
    for names in [
        vec!["A", "B", "C", "D", "E", "F", "G"],
        vec!["A", "B", "C", "D", "E", "F", "G", "H"],
        vec![
            "A", "B", "C", "D", "E", "F", "G", "H", "I", "J", "K", "L", "M", "N", "O", "P", "Q",
            "R", "S", "T", "U", "V", "X", "Y", "Z",
        ],
    ] {
        let d = it_decl("T", &names);
        let f = emit_iter(&d).unwrap();
        let mut state: Option<String> = None;
        for expected in &names {
            let y = eval_iter_next(&f, state.as_ref()).unwrap();
            assert_eq!(*expected, y);
            state = Some(y);
        }
        assert_eq!(None, eval_iter_next(&f, state.as_ref()));
    }
}

#[test]
fn iteration_visits_all_in_order() {
    let names = ["North", "East", "South", "West"];
    let d = it_decl("Compass", &names);
    let f = emit_iter(&d).unwrap();
    let visited = iter_collect(&d, &f);
    assert_eq!(
        names.iter().map(|n| n.to_string()).collect::<Vec<_>>(),
        visited
    );

    let g = emit_iterator(&d).unwrap();
    let visited2 = iterator_collect(&d, &g);
    assert_eq!(
        names.iter().map(|n| n.to_string()).collect::<Vec<_>>(),
        visited2
    );
}

#[test]
fn reverse_iteration_visits_all_in_reverse_order() {
    let names = ["North", "East", "South", "West"];
    let d = it_decl("Compass", &names);
    let f = emit_iter(&d).unwrap();
    let visited = iter_collect_back(&d, &f);
    assert_eq!(
        vec![
            "West".to_string(),
            "South".to_string(),
            "East".to_string(),
            "North".to_string(),
        ],
        visited
    );
    // Stepping backwards from the unset state starts at the last variant.
    assert_eq!(Some("West".to_string()), eval_iter_next_back(&f, None));
    assert_eq!(
        Some("North".to_string()),
        eval_iter_next_back(&f, Some(&"East".to_string()))
    );
    assert_eq!(None, eval_iter_next_back(&f, Some(&"North".to_string())));
}

#[test]
fn iterator_on_empty_enum_is_accepted() {

    let d = it_decl("T", &[]);
    let f = emit_iterator(&d).unwrap();
    assert_eq!(0, f.len);
    assert_eq!(None, f.last);

    // The wrapper form instead requires a variant.
    assert_eq!(
        Err(DeriveError::EmptyEnum(Capability::Iter)),
        emit_iter(&d).map(|_| ())
    );
}

#[test]
fn iter_requires_unit_variants() {

    let mut d = it_decl("T", &["A", "B"]);
    d.variants[1].shape = VariantShape::Tuple;
    assert_eq!(
        Err(DeriveError::NoFields(Capability::Iter)),
        emit_iter(&d).map(|_| ())
    );
    assert_eq!(
        Err(DeriveError::NoFields(Capability::Iterator)),
        emit_iterator(&d).map(|_| ())
    );
}
