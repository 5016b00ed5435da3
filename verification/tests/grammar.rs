use wallet_core::codegen::grammar::{
    read_until, skip_separators, Continuum, ContinuumNext, EitherOr, GEof, GMarker, GParamItemWithMarker,
    GParamItemWithoutMarker, GParamName, GSeparator, GSeparatorItem, GStruct, GType, ParseTree,
};
use wallet_core::codegen::reader::{GrammarError, Reader};

fn things<T: Clone>(items: &Continuum<T>) -> Vec<T> {
    let mut out = vec![];
    let mut cur = items;
    loop {
        match cur {
            Continuum::Thing(thing) => {
                out.push(thing.clone());
                return out;
            }
            Continuum::Next(next) => {
                out.push(next.thing.clone());
                cur = &next.next;
            }
        }
    }
}

#[test]
fn test_reader_read_amt() {
    let reader = Reader::new("héllo");
    let (text, after) = reader.read_amt(2);
    assert_eq!(text, Some("hé".to_string()));
    assert_eq!(after.pos, 2);
    assert_eq!(after.remaining(), 3);
    let (text, after) = after.read_amt(3);
    assert_eq!(text, Some("llo".to_string()));
    assert_eq!(after.pos, 5);
    let (text, same) = after.read_amt(1);
    assert_eq!(text, None);
    assert_eq!(same.pos, 5);
    let (text, same) = reader.read_amt(0);
    assert_eq!(text, None);
    assert_eq!(same.pos, 0);
    let (text, same) = reader.read_amt(6);
    assert_eq!(text, None);
    assert_eq!(same.pos, 0);
    assert_eq!(reader.at(5).map(|r| r.pos), Some(5));
    assert!(reader.at(6).is_none());
}

#[test]
fn test_derive_eof() {
    let res = GEof::derive(Reader::new("")).unwrap();
    assert_eq!(res.derived, GEof);
    assert_eq!(res.branch.pos, 0);
    assert_eq!(GEof::derive(Reader::new("a")).unwrap_err(), GrammarError::Todo);
    let end = Reader::new("a").at(1).unwrap();
    assert_eq!(GEof::derive(end).unwrap().branch.pos, 1);
}

#[test]
fn test_derive_separator_item() {
    for (text, expected) in [
        (" ", GSeparatorItem::Space),
        ("\n", GSeparatorItem::Newline),
        ("\t", GSeparatorItem::Tab),
        ("  ", GSeparatorItem::Space),
    ] {
        let res = GSeparatorItem::derive(Reader::new(text)).unwrap();
        assert_eq!(res.derived, expected);
        assert_eq!(res.branch.pos, 1);
    }
    assert!(GSeparatorItem::derive(Reader::new("")).is_err());
    assert!(GSeparatorItem::derive(Reader::new("a ")).is_err());
    assert!(GSeparatorItem::derive(Reader::new("\r")).is_err());
}

#[test]
fn test_derive_separators() {
    let res = GSeparator::derive(Reader::new(" \n\t x")).unwrap();
    assert_eq!(
        things(&res.derived),
        vec![
            GSeparatorItem::Space,
            GSeparatorItem::Newline,
            GSeparatorItem::Tab,
            GSeparatorItem::Space
        ]
    );
    assert_eq!(res.branch.pos, 4);
    let res = GSeparator::derive(Reader::new(" ")).unwrap();
    assert_eq!(res.derived, Continuum::Thing(GSeparatorItem::Space));
    assert_eq!(res.branch.pos, 1);
    assert!(GSeparator::derive(Reader::new("x ")).is_err());
    assert!(GSeparator::derive(Reader::new("")).is_err());
}

#[test]
fn test_derive_continuum_without_progress() {
    // The end of the text is derived without reading: it is derived once.
    let res = Continuum::<GEof>::derive(Reader::new("")).unwrap();
    assert_eq!(res.derived, Continuum::Thing(GEof));
    assert_eq!(res.branch.pos, 0);
    assert!(Continuum::<GEof>::derive(Reader::new("a")).is_err());
}

#[test]
fn test_continuum_add() {
    let one = Continuum::Thing(1u8);
    let two = one.add(2);
    assert_eq!(
        two,
        Continuum::Next(ContinuumNext { thing: 1, next: Box::new(Continuum::Thing(2)) })
    );
    let three = two.add(3);
    assert_eq!(things(&three), vec![1, 2, 3]);
    assert_eq!(things(&three.add(4).add(5)), vec![1, 2, 3, 4, 5]);
}

#[test]
fn test_derive_either_or() {
    let res = EitherOr::<GSeparator, GEof>::derive(Reader::new("  a")).unwrap();
    assert!(matches!(res.derived, EitherOr::Either(_)));
    assert_eq!(res.branch.pos, 2);
    let res = EitherOr::<GSeparator, GEof>::derive(Reader::new("")).unwrap();
    assert!(matches!(res.derived, EitherOr::Or(GEof)));
    assert_eq!(res.branch.pos, 0);
    assert!(EitherOr::<GSeparator, GEof>::derive(Reader::new("a")).is_err());
    // The first tree is tried first.
    let res = EitherOr::<GEof, GEof>::derive(Reader::new("")).unwrap();
    assert!(matches!(res.derived, EitherOr::Either(GEof)));
}

#[test]
fn test_read_until() {
    let (text, staged) = read_until::<GSeparator>(Reader::new("abc def")).unwrap();
    assert_eq!(text, "abc");
    assert_eq!(staged.pos, 3);
    let (text, staged) = read_until::<GSeparator>(Reader::new(" abc")).unwrap();
    assert_eq!(text, "");
    assert_eq!(staged.pos, 0);
    assert!(read_until::<GSeparator>(Reader::new("abc")).is_err());
    let (text, staged) = read_until::<EitherOr<GSeparator, GEof>>(Reader::new("abc")).unwrap();
    assert_eq!(text, "abc");
    assert_eq!(staged.pos, 3);
    let (text, staged) = read_until::<GEof>(Reader::new("a b")).unwrap();
    assert_eq!(text, "a b");
    assert_eq!(staged.pos, 3);
    let from_two = Reader::new("abc def").at(2).unwrap();
    let (text, staged) = read_until::<GSeparator>(from_two).unwrap();
    assert_eq!(text, "c");
    assert_eq!(staged.pos, 3);
}

#[test]
fn test_derive_type() {
    for (text, expected, end) in [
        ("bool", GType::Bool, 4),
        ("char", GType::Char, 4),
        ("int", GType::Int, 3),
        ("int name", GType::Int, 3),
        ("bool\tname", GType::Bool, 4),
    ] {
        let res = GType::derive(Reader::new(text)).unwrap();
        assert_eq!(res.derived, expected);
        assert_eq!(res.branch.pos, end);
    }
}

#[test]
fn test_derive_type_unknown() {
    assert_eq!(GType::derive(Reader::new("float")).unwrap_err(), GrammarError::Todo);
    assert!(GType::derive(Reader::new("")).is_err());
    assert!(GType::derive(Reader::new(" int")).is_err());
    assert!(GType::derive(Reader::new("Int")).is_err());
    assert!(GType::derive(Reader::new("integer")).is_err());
    assert!(GType::derive(Reader::new("MyStruct")).is_err());
    assert!(GStruct::derive(Reader::new("MyStruct")).is_err());
}

#[test]
fn test_derive_param_name() {
    let res = GParamName::derive(Reader::new("my_var rest")).unwrap();
    assert_eq!(res.derived, GParamName("my_var".to_string()));
    assert_eq!(res.branch.pos, 6);
    let res = GParamName::derive(Reader::new("my_var")).unwrap();
    assert_eq!(res.derived, GParamName::from("my_var".to_string()));
    assert_eq!(res.branch.pos, 6);
    let res = GParamName::derive(Reader::new("")).unwrap();
    assert_eq!(res.derived, GParamName(String::new()));
    assert_eq!(res.branch.pos, 0);
}

#[test]
fn test_derive_marker() {
    let res = GMarker::derive(Reader::new("* name")).unwrap();
    assert_eq!(res.derived, GMarker("*".to_string()));
    assert_eq!(res.branch.pos, 1);
    assert_eq!(GMarker::from("*".to_string()), GMarker("*".to_string()));
    assert!(GMarker::derive(Reader::new("*")).is_err());
    assert!(GMarker::derive(Reader::new("")).is_err());
}

#[test]
fn test_skip_separators() {
    assert_eq!(skip_separators(Reader::new("  \tx")).pos, 3);
    assert_eq!(skip_separators(Reader::new("x  ")).pos, 0);
    assert_eq!(skip_separators(Reader::new("")).pos, 0);
}

#[test]
fn test_derive_param_with_marker() {
    let res = GParamItemWithMarker::derive(Reader::new("int * my_var")).unwrap();
    assert_eq!(
        res.derived,
        GParamItemWithMarker {
            ty: GType::Int,
            marker: GMarker("*".to_string()),
            name: GParamName("my_var".to_string()),
        }
    );
    assert_eq!(res.branch.pos, 12);

    let res = GParamItemWithMarker::derive(Reader::new("bool\t_Nonnull \n flag more")).unwrap();
    assert_eq!(
        res.derived,
        GParamItemWithMarker {
            ty: GType::Bool,
            marker: GMarker("_Nonnull".to_string()),
            name: GParamName("flag".to_string()),
        }
    );
    assert_eq!(res.branch.pos, 20);
}

#[test]
fn test_derive_param_with_marker_errors() {
    // No type.
    assert!(GParamItemWithMarker::derive(Reader::new("foo * my_var")).is_err());
    // No separator after what would be the marker.
    assert!(GParamItemWithMarker::derive(Reader::new("int my_var")).is_err());
    assert!(GParamItemWithMarker::derive(Reader::new("int")).is_err());
    assert!(GParamItemWithMarker::derive(Reader::new("")).is_err());
}

#[test]
fn test_derive_param_without_marker() {
    let res = GParamItemWithoutMarker::derive(Reader::new("int my_var")).unwrap();
    assert_eq!(
        res.derived,
        GParamItemWithoutMarker { ty: GType::Int, name: GParamName("my_var".to_string()) }
    );
    assert_eq!(res.branch.pos, 10);

    let res = GParamItemWithoutMarker::derive(Reader::new("char  c, int d")).unwrap();
    assert_eq!(
        res.derived,
        GParamItemWithoutMarker { ty: GType::Char, name: GParamName("c,".to_string()) }
    );
    assert_eq!(res.branch.pos, 8);

    // A type at the end of the text has the empty name.
    let res = GParamItemWithoutMarker::derive(Reader::new("int")).unwrap();
    assert_eq!(res.derived.name, GParamName(String::new()));
    assert_eq!(res.branch.pos, 3);
    assert!(GParamItemWithoutMarker::derive(Reader::new("foo my_var")).is_err());
}
