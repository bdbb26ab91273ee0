use tugraph::{Error, ErrorKind};

#[test]
fn test_error() {
    [
        ("Invalid parameter.", ErrorKind::InvalidParameter),
        ("Invalid Galaxy.", ErrorKind::InvalidGalaxy),
        ("Invalid GraphDB.", ErrorKind::InvalidGraphDB),
        ("Invalid transaction.", ErrorKind::InvalidTxn),
        ("Invalid iterator.", ErrorKind::InvalidIterator),
        (
            "Write transactions cannot be forked.",
            ErrorKind::InvalidFork,
        ),
        (
            "Transaction conflicts with an earlier one.",
            ErrorKind::TxnConflict,
        ),
        ("Access denied.", ErrorKind::WriteNotAllowed),
        (
            "The specified TuGraph DB does not exist.",
            ErrorKind::DBNotExist,
        ),
        ("IO Error.", ErrorKind::IOError),
        ("Unauthorized.", ErrorKind::Unauthorized),
        ("Other Unkown error.", ErrorKind::Other),
    ]
    .into_iter()
    .for_each(|(msg, kind)| {
        let e = Error::new(msg.into());
        assert_eq!(e.as_ref(), msg);
        assert_eq!(e.msg(), msg);
        assert_eq!(e.kind(), kind);
    })
}

#[test]
fn error_kind_is_an_exact_match() {
    assert_eq!(Error::new("Invalid parameter".into()).kind(), ErrorKind::Other);
    assert_eq!(Error::new("invalid parameter.".into()).kind(), ErrorKind::Other);
    assert_eq!(Error::new(" Access denied.".into()).kind(), ErrorKind::Other);
    assert_eq!(Error::new(String::new()).kind(), ErrorKind::Other);
}

#[test]
fn error_into_string_gives_the_message() {
    let e = Error::new("IO Error.".to_string());
    assert_eq!(e.clone().into_string(), "IO Error.".to_string());
    assert_eq!(e.msg(), "IO Error.");
}
