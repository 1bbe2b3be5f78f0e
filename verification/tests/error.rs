use warp::error::Error;

#[test]
fn error_size_of() {
    assert_eq!(
        ::std::mem::size_of::<Error>(),
        ::std::mem::size_of::<usize>() * 2
    );
}

#[test]
fn error_keeps_its_message() {
    let e = Error::new("connection reset");
    assert_eq!(e.message(), "connection reset");
}
