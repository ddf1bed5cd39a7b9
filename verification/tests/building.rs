use service_kit::building::{env_file_name, Build, BuildEvent, ConfigsError, Stage};
use service_kit::configs::{Configs, Environment, SecretsManagerKind};
use service_kit::configs_builder::{AppReading, AppVars, ConfigBuilder, EnvVar};

fn reading() -> AppReading {
    AppReading {
        env: Environment::Staging,
        env_name: "staging".to_owned(),
        vars: AppVars {
            name: Some("shop".to_owned()),
            secret_key: None,
            host: None,
            port: None,
            log_level: None,
            secret_manager: None,
            multiple_message_timer: None,
        },
        secret_manager: SecretsManagerKind::Disabled,
    }
}

fn started() -> Build<u8> {
    let mut build = Build::new(ConfigBuilder::new().mqtt(), Configs::new(0));
    build.step(BuildEvent::EnvFileTried).unwrap();
    build.step(BuildEvent::AppRead(reading())).unwrap();
    build
}

#[test]
fn the_environment_names_the_file() {
    assert_eq!(env_file_name(Environment::Prod), "./.env.prod");
    assert_eq!(env_file_name(Environment::Staging), "./.env.staging");
    assert_eq!(env_file_name(Environment::Dev), "./.env.dev");
    assert_eq!(env_file_name(Environment::Local), "./.env.local");
}

#[test]
fn a_build_goes_through_its_stages() {
    let mut build = Build::new(ConfigBuilder::new().mqtt(), Configs::new(0u8));
    assert_eq!(build.stage, Stage::EnvFile);
    build.step(BuildEvent::EnvFileTried).unwrap();
    assert_eq!(build.stage, Stage::App);
    build.step(BuildEvent::AppRead(reading())).unwrap();
    assert_eq!(build.stage, Stage::Logging);
    build.step(BuildEvent::LoggingTried(true)).unwrap();
    assert_eq!(build.stage, Stage::Dynamic);
    build.cfg.dynamic = 9;
    build.step(BuildEvent::DynamicLoaded).unwrap();
    assert_eq!(build.stage, Stage::Client);
    build.step(BuildEvent::ClientTried(Ok(()))).unwrap();
    assert_eq!(build.stage, Stage::Variables);
    let vars = vec![
        EnvVar { key: "MQTT_USER".to_owned(), value: "!u".to_owned(), secret: Some("me".to_owned()) },
        EnvVar { key: "SQLITE_USER".to_owned(), value: "you".to_owned(), secret: None },
    ];
    build.step(BuildEvent::VariablesRead(vars)).unwrap();
    assert_eq!(build.stage, Stage::Done);

    assert_eq!(build.cfg.app.name, "staging-shop");
    assert_eq!(build.cfg.multiple_message_timer, 15000);
    assert_eq!(build.cfg.mqtt.user, "me");
    assert_eq!(build.cfg.sqlite.user, "");
    assert_eq!(build.cfg.dynamic, 9);
}

#[test]
fn a_build_fails_without_logging() {
    let mut build = started();
    assert_eq!(
        build.step(BuildEvent::LoggingTried(false)),
        Err(ConfigsError::InternalError {})
    );
    assert_eq!(build.stage, Stage::Logging);
}

#[test]
fn a_build_fails_without_secrets() {
    let mut build = started();
    build.step(BuildEvent::LoggingTried(true)).unwrap();
    build.step(BuildEvent::DynamicLoaded).unwrap();
    assert_eq!(
        build.step(BuildEvent::ClientTried(Err("denied".to_owned()))),
        Err(ConfigsError::SecretLoadingError("denied".to_owned()))
    );
    assert_eq!(build.stage, Stage::Client);
}

fn built(vars: &[(&str, &str)]) -> Configs<u8> {
    let mut build = started();
    build.step(BuildEvent::LoggingTried(true)).unwrap();
    build.step(BuildEvent::DynamicLoaded).unwrap();
    build.step(BuildEvent::ClientTried(Ok(()))).unwrap();
    let vars = vars
        .iter()
        .map(|(key, value)| EnvVar {
            key: key.to_string(),
            value: value.to_string(),
            secret: None,
        })
        .collect();
    build.step(BuildEvent::VariablesRead(vars)).unwrap();
    build.cfg
}

#[test]
fn order_does_not_matter_to_a_build() {
    let one = built(&[("MQTT_HOST", "h"), ("MQTT_PORT", "5"), ("SQLITE_USER", "a")]);
    let other = built(&[("PATH", "/bin"), ("MQTT_PORT", "5"), ("MQTT_HOST", "h")]);
    assert_eq!(one, other);
    assert_eq!(one.mqtt.port, 5);
}
