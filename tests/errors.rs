use sigar::result::{match_code, Platform, SIGAR_ENOTIMPL};
use sigar::process::kill_outcome;
use sigar::Error;

#[test]
fn posix_code_two_is_no_such_file() {
    assert_eq!(match_code(Platform::Posix, 2), Some(Error::ENOENT));
    assert_eq!(Error::new(Platform::Posix, 2, None), Error::ENOENT);
}

#[test]
fn posix_table() {
    assert_eq!(match_code(Platform::Posix, 13), Some(Error::EACCES));
    assert_eq!(match_code(Platform::Posix, 6), Some(Error::ENXIO));
    assert_eq!(match_code(Platform::Posix, SIGAR_ENOTIMPL), Some(Error::NotImplementd));
    assert_eq!(match_code(Platform::Posix, 5), None);
    assert_eq!(match_code(Platform::Posix, 0x77), None);
}

#[test]
fn windows_table() {
    assert_eq!(match_code(Platform::Windows, 2), Some(Error::ENOENT));
    assert_eq!(match_code(Platform::Windows, 5), Some(Error::EACCES));
    assert_eq!(match_code(Platform::Windows, 0x77), Some(Error::ENXIO));
    assert_eq!(match_code(Platform::Windows, 20001), Some(Error::NotImplementd));
    assert_eq!(match_code(Platform::Windows, 13), None);
    assert_eq!(match_code(Platform::Windows, 6), None);
}

#[test]
fn unknown_code_carries_native_text() {
    let e = Error::new(Platform::Posix, 40001, Some("sigar text".to_string()));
    assert_eq!(e, Error::Others("sigar text".to_string()));
    assert_eq!(e.reason(), "sigar text");
    let e = Error::new(Platform::Posix, -1, None);
    assert_eq!(e.reason(), "failed to describe error");
}

#[test]
fn known_code_ignores_native_text() {
    let e = Error::new(Platform::Posix, 13, Some("ignored".to_string()));
    assert_eq!(e, Error::EACCES);
}

#[test]
fn reasons() {
    assert_eq!(Error::NotImplementd.reason(), "not implemented on current os");
    assert_eq!(Error::ENOENT.reason(), "no such file or directory");
    assert_eq!(Error::EACCES.reason(), "permission denied");
    assert_eq!(Error::ENXIO.reason(), "no such device or address");
    assert_eq!(Error::CString("bad name".to_string()).reason(), "bad name");
    assert_eq!(Error::from_str("x y").reason(), "x y");
    assert_eq!(Error::from_string("z".to_string()), Error::Others("z".to_string()));
}

#[test]
fn equality_tells_kinds_and_texts_apart() {
    assert_ne!(Error::Others("a".to_string()), Error::Others("b".to_string()));
    assert_ne!(Error::Others("a".to_string()), Error::CString("a".to_string()));
    assert_ne!(Error::ENOENT, Error::EACCES);
}

#[test]
fn kill_outcomes() {
    assert_eq!(kill_outcome(Platform::Posix, 0, Ok(None)), Ok(()));
    assert_eq!(
        kill_outcome(Platform::Posix, 3, Ok(Some("No such process".to_string()))),
        Err(Error::Others("No such process".to_string()))
    );
    // a known code goes through the table, whatever the native text
    assert_eq!(kill_outcome(Platform::Posix, 2, Ok(Some("gone".to_string()))), Err(Error::ENOENT));
    assert_eq!(kill_outcome(Platform::Posix, 13, Ok(None)), Err(Error::EACCES));
    assert_eq!(kill_outcome(Platform::Windows, 5, Ok(None)), Err(Error::EACCES));
    assert_eq!(
        kill_outcome(Platform::Posix, 1, Ok(None)),
        Err(Error::Others("failed to describe error".to_string()))
    );
    assert_eq!(kill_outcome(Platform::Posix, 1, Err(Error::EACCES)), Err(Error::EACCES));
}
