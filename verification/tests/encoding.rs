use conceptweave_relation_partition::collation_database_encoding::PostgresDatabaseEncodingObservation;
use conceptweave_relation_partition::error::ObservationError;

#[test]
fn database_encoding_accepts_backend_range() {
    assert_eq!(PostgresDatabaseEncodingObservation::new(6).unwrap().encoding(), 6);
    assert_eq!(PostgresDatabaseEncodingObservation::new(0).unwrap().encoding(), 0);
    assert_eq!(PostgresDatabaseEncodingObservation::new(34).unwrap().encoding(), 34);
}

#[test]
fn database_encoding_rejects_client_only_ids() {
    for value in [-1, 35, 41] {
        assert_eq!(
            PostgresDatabaseEncodingObservation::new(value),
            Err(ObservationError::InvalidObservationField { field: "postgres_database_encoding" })
        );
    }
}
