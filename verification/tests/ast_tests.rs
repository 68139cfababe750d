use henrylang::ast::{str_debug_string, truncate_template_types, NameAndType, Type, TypeAnnotation, VarType};

fn ann(name: &str, children: Vec<TypeAnnotation>) -> TypeAnnotation {
    TypeAnnotation::new(name.to_string(), children)
}

fn point() -> Type {
    Type::Object("Point".to_string(), vec![("x".to_string(), Type::Int), ("y".to_string(), Type::Float)])
}

#[test]
fn debug_string_matches_derived_debug() {
    let types = vec![
        Type::Int,
        Type::Arr(Box::new(Type::Str)),
        Type::Func(vec![Type::Int, Type::Bool], Box::new(Type::Maybe(Box::new(Type::Float)))),
        Type::Iter(Box::new(Type::Int)),
        Type::TypeDef(vec![Type::Int], Box::new(point())),
        point(),
    ];
    for t in types.iter() {
        assert_eq!(t.debug_string(), format!("{:?}", t));
    }
    assert_eq!(
        Type::Func(vec![Type::Int], Box::new(Type::Bool)).debug_string(),
        "Func([Int], Bool)"
    );
    assert_eq!(point().debug_string(), "Object(\"Point\", [(\"x\", Int), (\"y\", Float)])");
}

#[test]
fn list_debug_strings() {
    // the items as `Debug` writes them, without the brackets
    assert_eq!(Type::list_debug_string(&vec![]), "");
    assert_eq!(Type::list_debug_string(&vec![Type::Int, Type::Str]), "Int, Str");
    assert_eq!(
        Type::fields_debug_string(&vec![("a".to_string(), Type::Bool), ("b".to_string(), Type::Int)]),
        "(\"a\", Bool), (\"b\", Int)"
    );
}

#[test]
fn string_debug_escapes_quotes_and_controls() {
    let s = "a\"b\\c\nd\te\r\0";
    assert_eq!(str_debug_string(s), format!("{:?}", s));
    assert_eq!(str_debug_string("plain é"), "\"plain é\"");
}

#[test]
fn equality_of_types_is_structural() {
    assert!(point().equals(&point()));
    assert!(!Type::Int.equals(&Type::Float));
    assert!(!Type::Arr(Box::new(Type::Int)).equals(&Type::Iter(Box::new(Type::Int))));
    assert!(Type::list_equals(&vec![Type::Int, Type::Str], &vec![Type::Int, Type::Str]));
    assert!(!Type::list_equals(&vec![Type::Int], &vec![Type::Int, Type::Int]));
    let other = Type::Object("Point".to_string(), vec![("x".to_string(), Type::Int), ("z".to_string(), Type::Float)]);
    assert!(!point().equals(&other));
}

#[test]
fn copies_are_equal() {
    let t = Type::Func(vec![point(), Type::Str], Box::new(Type::Arr(Box::new(Type::Int))));
    assert!(t.copy().equals(&t));
    assert_eq!(t.copy().debug_string(), t.debug_string());
    let ts = vec![Type::Int, point()];
    assert!(Type::list_equals(&Type::copy_list(&ts), &ts));
}

#[test]
fn heap_types() {
    assert!(!Type::Int.is_heap());
    assert!(!Type::Float.is_heap());
    assert!(!Type::Bool.is_heap());
    assert!(Type::Str.is_heap());
    assert!(point().is_heap());
}

#[test]
fn template_types_are_cut_off() {
    assert_eq!(truncate_template_types(&"print[Int]".to_string()), "print");
    assert_eq!(truncate_template_types(&"pow[Int, Int]".to_string()), "pow");
    assert_eq!(truncate_template_types(&"plain".to_string()), "plain");
    assert_eq!(truncate_template_types(&"[x]".to_string()), "");
}

#[test]
fn base_type_annotations() {
    let scope: Vec<VarType> = vec![];
    assert!(ann("Int", vec![]).get_type(&scope).unwrap().equals(&Type::Int));
    assert!(ann("Float", vec![]).get_type(&scope).unwrap().equals(&Type::Float));
    assert!(ann("Str", vec![]).get_type(&scope).unwrap().equals(&Type::Str));
    assert!(ann("Bool", vec![]).get_type(&scope).unwrap().equals(&Type::Bool));
}

#[test]
fn compound_type_annotations() {
    let scope: Vec<VarType> = vec![];
    let f = ann("Func", vec![ann("Int", vec![]), ann("Str", vec![]), ann("Bool", vec![])]);
    assert_eq!(f.get_type(&scope).unwrap().debug_string(), "Func([Int, Str], Bool)");
    let a = ann("Arr", vec![ann("Iter", vec![ann("Int", vec![])])]);
    assert_eq!(a.get_type(&scope).unwrap().debug_string(), "Arr(Iter(Int))");
    let m = ann("Maybe", vec![ann("Float", vec![])]);
    assert_eq!(m.get_type(&scope).unwrap().debug_string(), "Maybe(Float)");
}

#[test]
fn type_annotation_errors() {
    let scope: Vec<VarType> = vec![];
    let arr = ann("Arr", vec![ann("Int", vec![]), ann("Str", vec![])]);
    assert_eq!(arr.get_type(&scope).unwrap_err(), "Array must be annotated with exactly one type, but got [Int, Str]");
    let iter = ann("Iter", vec![ann("Int", vec![]), ann("Int", vec![])]);
    assert_eq!(iter.get_type(&scope).unwrap_err(), "Iterator must be annotated with exactly one type, but got [Int, Int]");
    let maybe = ann("Maybe", vec![ann("Bool", vec![]), ann("Bool", vec![])]);
    assert_eq!(maybe.get_type(&scope).unwrap_err(), "Maybe must be annotated with exactly one type, but got [Bool, Bool]");
    let unknown = ann("Set", vec![ann("Int", vec![])]);
    assert_eq!(unknown.get_type(&scope).unwrap_err(), "Unknown type annotation: Set");
    let missing = ann("Point", vec![]);
    assert_eq!(missing.get_type(&scope).unwrap_err(), "Could not find definition for variable Point");
    let inner = ann("Arr", vec![ann("Nope", vec![])]);
    assert_eq!(inner.get_type(&scope).unwrap_err(), "Could not find definition for variable Nope");
}

#[test]
fn named_types_resolve_to_their_definitions() {
    let scope = vec![
        VarType::new("Point".to_string(), Type::TypeDef(vec![Type::Int, Type::Float], Box::new(point()))),
        VarType::new("n".to_string(), Type::Int),
    ];
    let t = ann("Point", vec![]).get_type(&scope).unwrap();
    assert!(t.equals(&point()));
    let arr = ann("Arr", vec![ann("Point", vec![])]).get_type(&scope).unwrap();
    assert!(arr.equals(&Type::Arr(Box::new(point()))));
    assert_eq!(
        ann("n", vec![]).get_type(&scope).unwrap_err(),
        "When resolving type, expected an Object definition, but got Int"
    );
}

#[test]
fn innermost_definition_wins() {
    let scope = vec![
        VarType::new("Point".to_string(), Type::TypeDef(vec![], Box::new(point()))),
        VarType::new("Point".to_string(), Type::Str),
    ];
    assert_eq!(
        ann("Point", vec![]).get_type(&scope).unwrap_err(),
        "When resolving type, expected an Object definition, but got Str"
    );
}

#[test]
fn name_and_type_gives_the_annotated_type() {
    let scope: Vec<VarType> = vec![];
    let n = NameAndType::new("xs".to_string(), ann("Arr", vec![ann("Int", vec![])]));
    assert_eq!(n.get_type(&scope).unwrap().debug_string(), "Arr(Int)");
}
