use card_router::configuration::environment::Environment;

#[test]
fn environments_read_their_names_in_any_case() {
    assert_eq!(Ok(Environment::Local), Environment::try_from("local".to_string()));
    assert_eq!(Ok(Environment::Prod), Environment::try_from("PROD".to_string()));
    assert_eq!(Ok(Environment::Stg), Environment::try_from("Stg".to_string()));
    assert_eq!(Ok(Environment::Test), Environment::try_from("test".to_string()));
    assert_eq!(Ok(Environment::Dev), Environment::try_from("dev".to_string()));
    assert_eq!(Ok(Environment::Int), Environment::try_from("INT".to_string()));
}

#[test]
fn unknown_environments_are_refused() {
    assert_eq!(
        Err("production is not a supported environment. Use either `local` or `production`.".to_string()),
        Environment::try_from("Production".to_string())
    );
    assert_eq!(
        Err(" is not a supported environment. Use either `local` or `production`.".to_string()),
        Environment::from_lowercase_name("")
    );
}

#[test]
fn environment_names_round_trip() {
    for env in [Environment::Test, Environment::Local, Environment::Dev, Environment::Stg, Environment::Int, Environment::Prod] {
        assert_eq!(Ok(env), Environment::from_lowercase_name(env.as_string()));
        assert_eq!(Ok(env), Environment::try_from(env.as_string().to_string()));
    }
    assert_eq!("prod", Environment::Prod.as_string());
}

#[test]
fn environment_files_follow_the_name() {
    assert_eq!(Ok(Environment::Local), Environment::selected(None));
    assert_eq!(Ok(Environment::Dev), Environment::selected(Some("DEV".to_string())));
    assert!(Environment::selected(Some("qa".to_string())).is_err());
    assert_eq!("stg.env", Environment::Stg.env_file_name());
    assert_eq!("application-prod.yaml", Environment::Prod.settings_file_name());
}
