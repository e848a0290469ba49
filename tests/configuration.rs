use zero2prod::configuration::Environment;

#[test]
fn environment_names_are_read() {
    assert_eq!(Environment::try_from("dev".to_string()), Ok(Environment::Development));
    assert_eq!(Environment::try_from("prod".to_string()), Ok(Environment::Production));
}

#[test]
fn environment_names_ignore_case() {
    assert_eq!(Environment::try_from("DEV".to_string()), Ok(Environment::Development));
    assert_eq!(Environment::try_from("Prod".to_string()), Ok(Environment::Production));
}

#[test]
fn unknown_environment_is_rejected() {
    assert_eq!(
        Environment::try_from("Staging".to_string()),
        Err("staging is not a valid environment\nUse either `dev` or `prod`.".to_string())
    );
}

#[test]
fn environment_round_trips_through_its_name() {
    for e in [Environment::Development, Environment::Production] {
        assert_eq!(Environment::try_from(e.as_str().to_string()), Ok(e));
    }
    assert_eq!(Environment::Development.as_str(), "dev");
    assert_eq!(Environment::Production.as_str(), "prod");
}
