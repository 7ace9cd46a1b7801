use tblgen::error::{Error, HostType, InitKind, SourceInfo, SourceLocation, TableGenError};

fn at(buffer: u64, offset: usize) -> SourceLocation {
    SourceLocation { buffer, offset }
}

#[test]
fn messages_of_every_kind() {
    assert_eq!(
        TableGenError::InvalidConversion {
            from: InitKind::Bits,
            to: HostType::Int
        }
        .message(),
        "invalid conversion from Bits to i64"
    );
    assert_eq!(
        TableGenError::MissingValue(String::from("size")).message(),
        "expected field size in record"
    );
    assert_eq!(
        TableGenError::InvalidEncoding.message(),
        "invalid UTF-8 string"
    );
    assert_eq!(
        TableGenError::ParseError(String::from("unexpected token")).message(),
        "unexpected token"
    );
    assert_eq!(
        TableGenError::InvalidSourceLocation.message(),
        "invalid source location"
    );
}

#[test]
fn names_of_tags_and_host_types() {
    assert_eq!(InitKind::Unset.name(), "Unset");
    assert_eq!(InitKind::Bit.name(), "Bit");
    assert_eq!(InitKind::Bits.name(), "Bits");
    assert_eq!(InitKind::Int.name(), "Int");
    assert_eq!(InitKind::String.name(), "String");
    assert_eq!(InitKind::Code.name(), "Code");
    assert_eq!(InitKind::List.name(), "List");
    assert_eq!(InitKind::Dag.name(), "Dag");
    assert_eq!(InitKind::Def.name(), "Def");
    assert_eq!(HostType::Bool.name(), "bool");
    assert_eq!(HostType::BoolVec.name(), "alloc::vec::Vec<bool>");
    assert_eq!(HostType::Int.name(), "i64");
    assert_eq!(HostType::String.name(), "alloc::string::String");
    assert_eq!(HostType::Str.name(), "&str");
    assert_eq!(HostType::Record.name(), "tblgen::record::Record");
    assert_eq!(HostType::List.name(), "tblgen::init::ListInit");
    assert_eq!(HostType::Dag.name(), "tblgen::init::DagInit");
}

#[test]
fn location_is_attached_and_overwritten() {
    let bare = Error::new(TableGenError::InvalidEncoding);
    assert_eq!(bare.location(), None);
    let inner = bare.set_location(&at(1, 7));
    assert_eq!(inner.location(), Some(at(1, 7)));
    let outer = inner.clone().set_location(&at(1, 2));
    assert_eq!(outer.location(), Some(at(1, 2)));
    assert_eq!(outer.kind, inner.kind);
    assert_eq!(outer.message(), "invalid UTF-8 string");
    let made = TableGenError::MissingValue(String::from("x")).with_location(&at(3, 4));
    assert_eq!(
        made,
        Error {
            kind: TableGenError::MissingValue(String::from("x")),
            location: Some(at(3, 4)),
        }
    );
}

#[test]
fn pointer_shows_the_line_and_a_caret_in_the_column() {
    let info = SourceInfo::new(1, String::from("first\nsecond line\nthird"));
    assert_eq!(info.resolve(Some(at(1, 0))), Ok(String::from("first\n^")));
    assert_eq!(
        info.resolve(Some(at(1, 4))),
        Ok(String::from("first\n    ^"))
    );
    // on the line break itself: still the first line
    assert_eq!(
        info.resolve(Some(at(1, 5))),
        Ok(String::from("first\n     ^"))
    );
    assert_eq!(
        info.resolve(Some(at(1, 6))),
        Ok(String::from("second line\n^"))
    );
    assert_eq!(
        info.resolve(Some(at(1, 13))),
        Ok(String::from("second line\n       ^"))
    );
    assert_eq!(
        info.resolve(Some(at(1, 18))),
        Ok(String::from("third\n^"))
    );
    // the end of the text
    assert_eq!(
        info.resolve(Some(at(1, 23))),
        Ok(String::from("third\n     ^"))
    );
}

#[test]
fn pointer_counts_characters_not_bytes() {
    let info = SourceInfo::new(1, String::from("é = ü;\nx"));
    assert_eq!(
        info.resolve(Some(at(1, 4))),
        Ok(String::from("é = ü;\n    ^"))
    );
    assert_eq!(info.resolve(Some(at(1, 7))), Ok(String::from("x\n^")));
}

#[test]
fn position_outside_the_text_does_not_resolve() {
    let info = SourceInfo::new(1, String::from("def A;"));
    assert_eq!(
        info.resolve(Some(at(1, 7))),
        Err(TableGenError::InvalidSourceLocation)
    );
    assert_eq!(
        info.resolve(Some(at(2, 0))),
        Err(TableGenError::InvalidSourceLocation)
    );
    assert_eq!(info.resolve(None), Err(TableGenError::InvalidSourceLocation));
    let empty = SourceInfo::new(1, String::new());
    assert_eq!(empty.resolve(Some(at(1, 0))), Ok(String::from("\n^")));
}

#[test]
fn rendering_always_shows_the_message() {
    let info = SourceInfo::new(1, String::from("def A {\n  int x = y;\n}\n"));
    let e = TableGenError::MissingValue(String::from("z")).with_location(&at(1, 14));
    assert_eq!(e.render(None), "expected field z in record");
    assert_eq!(
        e.render(Some(&info)),
        "error: expected field z in record\n  int x = y;\n      ^"
    );
    let elsewhere = e.clone().set_location(&at(9, 14));
    assert_eq!(
        elsewhere.render(Some(&info)),
        "expected field z in record\nfailed to print source information: invalid source location"
    );
    let nowhere = Error::new(TableGenError::ParseError(String::from("bad input")));
    assert_eq!(nowhere.render(None), "bad input");
    assert_eq!(
        nowhere.render(Some(&info)),
        "bad input\nfailed to print source information: invalid source location"
    );
}
