use zero2prod::utils::error_chain_fmt;

#[test]
fn error_without_cause() {
    assert_eq!(error_chain_fmt("boom", &vec![]), "boom\n\n");
}

#[test]
fn error_with_two_causes() {
    let causes = vec!["pool timed out".to_string(), "connection refused".to_string()];
    assert_eq!(
        error_chain_fmt("Failed to acquire Postgres connection from pool", &causes),
        "Failed to acquire Postgres connection from pool\n\n\
         Caused by:\n\tpool timed out\n\
         Caused by:\n\tconnection refused\n"
    );
}
