use tblgen::error::{Error, HostType, InitKind, TableGenError};
use tblgen::init::{
    DagArg, DagInit, FromInit, ListInit, Payload, RecTyKind, StringInit, TypedInit,
};
use tblgen::error::SourceLocation;
use tblgen::record::Record;

fn text(s: &str) -> StringInit {
    StringInit::new(s.as_bytes().to_vec())
}

fn bare(from: InitKind, to: HostType) -> Error {
    Error {
        kind: TableGenError::InvalidConversion { from, to },
        location: None,
    }
}

fn op(id: u64, name: &str) -> Record {
    Record::new(
        id,
        text(name),
        false,
        Vec::new(),
        Vec::new(),
        SourceLocation { buffer: 1, offset: 0 },
    )
}

#[test]
fn every_value_has_one_tag() {
    assert_eq!(TypedInit::Unset.kind(), InitKind::Unset);
    assert_eq!(TypedInit::Bit(true).kind(), InitKind::Bit);
    assert_eq!(TypedInit::Bits(vec![true]).kind(), InitKind::Bits);
    assert_eq!(TypedInit::Int(0).kind(), InitKind::Int);
    assert_eq!(TypedInit::String(text("s")).kind(), InitKind::String);
    assert_eq!(TypedInit::Code(text("c")).kind(), InitKind::Code);
    assert_eq!(
        TypedInit::List(ListInit::new(Vec::new())).kind(),
        InitKind::List
    );
    assert_eq!(
        TypedInit::Dag(DagInit::new(op(1, "add"), Vec::new())).kind(),
        InitKind::Dag
    );
    assert_eq!(TypedInit::Def(op(1, "D")).kind(), InitKind::Def);
}

#[test]
fn conversions_succeed_only_for_their_variant() {
    assert_eq!(TypedInit::Bit(false).as_bit(), Ok(false));
    assert_eq!(
        TypedInit::Int(1).as_bit(),
        Err(bare(InitKind::Int, HostType::Bool))
    );
    assert_eq!(
        TypedInit::Bits(vec![true, true, false]).as_bits(),
        Ok(vec![true, true, false])
    );
    assert_eq!(TypedInit::Bits(Vec::new()).as_bits(), Ok(Vec::new()));
    assert_eq!(
        TypedInit::Bit(true).as_bits(),
        Err(bare(InitKind::Bit, HostType::BoolVec))
    );
    assert_eq!(TypedInit::Int(i64::MIN).as_int(), Ok(i64::MIN));
    assert_eq!(TypedInit::Int(i64::MAX).as_int(), Ok(i64::MAX));
    assert_eq!(
        TypedInit::Unset.as_int(),
        Err(bare(InitKind::Unset, HostType::Int))
    );
    assert_eq!(TypedInit::String(text("a")).as_str(), Ok("a"));
    assert_eq!(TypedInit::Code(text("b")).as_str(), Ok("b"));
    assert_eq!(
        TypedInit::String(text("a")).as_string(),
        Ok(String::from("a"))
    );
    assert_eq!(
        TypedInit::Bits(Vec::new()).as_str(),
        Err(bare(InitKind::Bits, HostType::Str))
    );
    assert_eq!(
        TypedInit::Def(op(1, "D")).as_string(),
        Err(bare(InitKind::Def, HostType::String))
    );
    assert_eq!(TypedInit::Def(op(4, "D")).as_def(), Ok(&op(4, "D")));
    assert_eq!(
        TypedInit::Code(text("b")).as_def(),
        Err(bare(InitKind::Code, HostType::Record))
    );
    assert_eq!(
        TypedInit::List(ListInit::new(vec![TypedInit::Int(1)])).as_list(),
        Ok(&ListInit::new(vec![TypedInit::Int(1)]))
    );
    assert_eq!(
        TypedInit::Int(1).as_list(),
        Err(bare(InitKind::Int, HostType::List))
    );
    assert_eq!(
        TypedInit::List(ListInit::new(Vec::new())).as_dag(),
        Err(bare(InitKind::List, HostType::Dag))
    );
}

#[test]
fn string_init_checks_encoding_when_read() {
    assert_eq!(text("").to_str(), Ok(""));
    assert_eq!(text("naïve").to_str(), Ok("naïve"));
    assert_eq!(
        StringInit::new(vec![0x80]).to_str(),
        Err(Error {
            kind: TableGenError::InvalidEncoding,
            location: None,
        })
    );
    assert!(text("abc").eq_str("abc"));
    assert!(!text("abc").eq_str("abd"));
    assert!(!text("abc").eq_str("ab"));
    assert!(!StringInit::new(vec![0x80]).eq_str("a"));
}

#[test]
fn list_converts_every_element_in_order() {
    let list = ListInit::new(vec![
        TypedInit::Int(3),
        TypedInit::Int(1),
        TypedInit::Int(2),
    ]);
    assert_eq!(list.len(), 3);
    assert!(!list.is_empty());
    assert_eq!(list.get(1), Some(&TypedInit::Int(1)));
    assert_eq!(list.get(3), None);
    assert_eq!(list.convert::<i64>(), Ok(vec![3, 1, 2]));
    let empty = ListInit::new(Vec::new());
    assert!(empty.is_empty());
    assert_eq!(empty.convert::<i64>(), Ok(Vec::new()));
    assert_eq!(empty.convert::<bool>(), Ok(Vec::new()));
    assert_eq!(empty.convert::<String>(), Ok(Vec::new()));
    let bits = ListInit::new(vec![TypedInit::Bit(true), TypedInit::Bit(false)]);
    assert_eq!(bits.convert::<bool>(), Ok(vec![true, false]));
    let words = ListInit::new(vec![
        TypedInit::String(text("a")),
        TypedInit::Code(text("b")),
    ]);
    assert_eq!(
        words.convert::<String>(),
        Ok(vec![String::from("a"), String::from("b")])
    );
}

#[test]
fn list_fails_on_first_element_that_does_not_convert() {
    let list = ListInit::new(vec![
        TypedInit::Int(3),
        TypedInit::Bit(true),
        TypedInit::String(text("x")),
    ]);
    assert_eq!(list.convert::<i64>(), Err(bare(InitKind::Bit, HostType::Int)));
    assert_eq!(list.convert::<bool>(), Err(bare(InitKind::Int, HostType::Bool)));
    assert_eq!(
        list.convert::<String>(),
        Err(bare(InitKind::Int, HostType::String))
    );
    let broken = ListInit::new(vec![
        TypedInit::String(text("ok")),
        TypedInit::String(StringInit::new(vec![0xff])),
        TypedInit::Int(1),
    ]);
    assert_eq!(
        broken.convert::<String>(),
        Err(Error {
            kind: TableGenError::InvalidEncoding,
            location: None,
        })
    );
}

#[test]
fn dag_exposes_operator_and_arguments() {
    let dag = DagInit::new(
        op(5, "add"),
        vec![
            DagArg {
                value: TypedInit::Int(1),
                name: Some(String::from("lhs")),
            },
            DagArg {
                value: TypedInit::String(text("r")),
                name: None,
            },
        ],
    );
    assert_eq!(dag.operator().name(), Ok("add"));
    assert_eq!(dag.num_args(), 2);
    assert_eq!(dag.get(0), Some(&TypedInit::Int(1)));
    assert_eq!(dag.get(1), Some(&TypedInit::String(text("r"))));
    assert_eq!(dag.get(2), None);
    assert_eq!(dag.name(0), Some("lhs"));
    assert_eq!(dag.name(1), None);
    assert_eq!(dag.name(2), None);
    let held = TypedInit::Dag(dag);
    assert_eq!(held.as_dag().map(|d| d.num_args()), Ok(2));
}

#[test]
fn list_converts_to_borrowed_values() {
    let words = ListInit::new(vec![
        TypedInit::String(text("a")),
        TypedInit::Code(text("b")),
    ]);
    assert_eq!(words.convert::<&str>(), Ok(vec!["a", "b"]));
    let defs = ListInit::new(vec![TypedInit::Def(op(1, "X")), TypedInit::Def(op(2, "Y"))]);
    assert_eq!(
        defs.convert::<&Record>().map(|v| v.len()),
        Ok(2)
    );
    assert_eq!(
        defs.convert::<&Record>().map(|v| v[1].name()),
        Ok(Ok("Y"))
    );
    let nested = ListInit::new(vec![
        TypedInit::List(ListInit::new(vec![TypedInit::Int(1)])),
        TypedInit::Bits(vec![true]),
    ]);
    assert_eq!(
        nested.convert::<&ListInit>().map(|_| ()),
        Err(bare(InitKind::Bits, HostType::List))
    );
    assert_eq!(
        nested.convert::<Vec<bool>>(),
        Err(bare(InitKind::List, HostType::BoolVec))
    );
}

#[test]
fn narrowing_is_the_same_through_the_generic_form() {
    let int = TypedInit::Int(9);
    assert_eq!(<i64 as FromInit>::narrow(&int), Ok(9));
    assert_eq!(
        <bool as FromInit>::narrow(&int),
        Err(bare(InitKind::Int, HostType::Bool))
    );
    assert_eq!(
        <String as FromInit>::narrow(&int),
        Err(bare(InitKind::Int, HostType::String))
    );
    assert_eq!(
        <&str as FromInit>::narrow(&int),
        Err(bare(InitKind::Int, HostType::Str))
    );
    let code = TypedInit::Code(text("x + y"));
    assert_eq!(<&str as FromInit>::narrow(&code), Ok("x + y"));
    assert_eq!(<String as FromInit>::narrow(&code), Ok(String::from("x + y")));
    assert_eq!(
        <&DagInit as FromInit>::narrow(&code).map(|_| ()),
        Err(bare(InitKind::Code, HostType::Dag))
    );
}

#[test]
fn every_tag_classifies_to_one_variant() {
    assert_eq!(
        TypedInit::classify(RecTyKind::Bit, Payload::Bit(true)),
        TypedInit::Bit(true)
    );
    assert_eq!(
        TypedInit::classify(RecTyKind::Bits, Payload::Bits(vec![false, true])),
        TypedInit::Bits(vec![false, true])
    );
    assert_eq!(
        TypedInit::classify(RecTyKind::Int, Payload::Int(-1)),
        TypedInit::Int(-1)
    );
    assert_eq!(
        TypedInit::classify(RecTyKind::String, Payload::Text(b"s".to_vec())),
        TypedInit::String(text("s"))
    );
    assert_eq!(
        TypedInit::classify(RecTyKind::Code, Payload::Text(b"s".to_vec())),
        TypedInit::Code(text("s"))
    );
    assert_eq!(
        TypedInit::classify(RecTyKind::List, Payload::List(vec![TypedInit::Int(1)])),
        TypedInit::List(ListInit::new(vec![TypedInit::Int(1)]))
    );
    assert_eq!(
        TypedInit::classify(
            RecTyKind::Dag,
            Payload::Dag(DagInit::new(op(1, "add"), Vec::new()))
        ),
        TypedInit::Dag(DagInit::new(op(1, "add"), Vec::new()))
    );
    assert_eq!(
        TypedInit::classify(RecTyKind::Record, Payload::Def(op(3, "D"))),
        TypedInit::Def(op(3, "D"))
    );
}

#[test]
fn unreadable_or_untyped_values_classify_as_unset() {
    assert_eq!(
        TypedInit::classify(RecTyKind::Invalid, Payload::Nothing),
        TypedInit::Unset
    );
    assert_eq!(
        TypedInit::classify(RecTyKind::Invalid, Payload::Int(1)),
        TypedInit::Unset
    );
    assert_eq!(
        TypedInit::classify(RecTyKind::Int, Payload::Nothing),
        TypedInit::Unset
    );
    assert_eq!(
        TypedInit::classify(RecTyKind::Bit, Payload::Int(1)),
        TypedInit::Unset
    );
    assert_eq!(
        TypedInit::classify(RecTyKind::String, Payload::Bits(Vec::new())),
        TypedInit::Unset
    );
    assert_eq!(RecTyKind::Record.kind(), InitKind::Def);
    assert_eq!(RecTyKind::Invalid.kind(), InitKind::Unset);
    assert_eq!(RecTyKind::Code.kind(), InitKind::Code);
}
