use cadastro_clientes::error::Error;
use cadastro_clientes::error::KIND_IO;
use cadastro_clientes::error::KIND_NOT_FOUND;
use cadastro_clientes::error::KIND_STORAGE_FAULT;
use cadastro_clientes::error::KIND_UNKNOWN;

#[test]
fn each_kind_has_its_name() {
    assert_eq!(Error::DatabaseQuery { source: "x".to_string() }.kind(), "StorageFault");
    assert_eq!(
        Error::NotFound { entity: "Cliente".to_string(), id: "1".to_string() }.kind(),
        "NotFound"
    );
    assert_eq!(Error::Io { source: "x".to_string() }.kind(), "Io");
    assert_eq!(Error::Unknown("x".to_string()).kind(), "Unknown");
}

#[test]
fn kind_names_are_the_constants() {
    assert_eq!(KIND_STORAGE_FAULT, "StorageFault");
    assert_eq!(KIND_NOT_FOUND, "NotFound");
    assert_eq!(KIND_IO, "Io");
    assert_eq!(KIND_UNKNOWN, "Unknown");
}

#[test]
fn input_output_failure_keeps_its_text() {
    let failure = std::io::Error::new(std::io::ErrorKind::Other, "disk on fire");
    assert_eq!(Error::from(failure), Error::Io { source: "disk on fire".to_string() });
}

#[test]
fn input_output_failure_is_no_storage_fault() {
    let failure = std::io::Error::new(std::io::ErrorKind::NotFound, "gone");
    let e: Error = failure.into();
    assert_eq!(e.kind(), "Io");
    assert!(!e.is_storage_fault());
    assert!(!e.is_not_found());
}
