use service_kit::configs::{AppConfigs, Configs, Environment, SecretsManagerKind};
use service_kit::configs_builder::{
    AppReading, AppVars, ConfigBuilder, EnvVar, SecretClientPlan,
};
use service_kit::encoding::text_of_bytes;
use service_kit::settings::{Rate, Section, Setting};

fn everything() -> ConfigBuilder {
    ConfigBuilder::new()
        .mqtt()
        .rabbitmq()
        .postgres()
        .sqlite()
        .dynamodb()
        .aws()
        .metric()
        .trace()
        .health()
        .auth0()
}

fn var(key: &str, value: &str) -> EnvVar {
    EnvVar { key: key.to_owned(), value: value.to_owned(), secret: None }
}

fn no_app_vars() -> AppVars {
    AppVars {
        name: None,
        secret_key: None,
        host: None,
        port: None,
        log_level: None,
        secret_manager: None,
        multiple_message_timer: None,
    }
}

fn reading(vars: AppVars) -> AppReading {
    AppReading {
        env: Environment::Dev,
        env_name: "dev".to_owned(),
        vars,
        secret_manager: SecretsManagerKind::Disabled,
    }
}

fn app_of(vars: AppVars) -> AppConfigs {
    let mut cfg = Configs::new(());
    ConfigBuilder::new().fill_app(&mut cfg, &reading(vars));
    cfg.app
}

/// The configuration after one variable, and whether the variable was claimed.
fn filled(key: &str, value: &str, secret: Option<&str>) -> (bool, Configs<()>) {
    let mut cfg = Configs::new(());
    let claimed = everything().fill(&mut cfg, key, value, &secret.map(str::to_owned));
    (claimed, cfg)
}

#[test]
fn auth0_settings_are_filled() {
    assert_eq!(filled("AUTH0_DOMAIN", "given", None).1.auth0.domain, "given");
    assert_eq!(filled("AUTH0_DOMAIN", "!x", Some("hidden")).1.auth0.domain, "hidden");
    assert_eq!(filled("AUTH0_DOMAIN", "!x", None).1.auth0.domain, "localhost");
    assert_eq!(filled("AUTH0_AUDIENCE", "given", None).1.auth0.audience, "given");
    assert_eq!(filled("AUTH0_AUDIENCE", "!x", Some("hidden")).1.auth0.audience, "hidden");
    assert_eq!(filled("AUTH0_AUDIENCE", "!x", None).1.auth0.audience, "localhost");
    assert_eq!(filled("AUTH0_ISSUER", "given", None).1.auth0.issuer, "given");
    assert_eq!(filled("AUTH0_ISSUER", "!x", Some("hidden")).1.auth0.issuer, "hidden");
    assert_eq!(filled("AUTH0_ISSUER", "!x", None).1.auth0.issuer, "localhost");
    assert_eq!(filled("AUTH0_GRANT_TYPE", "given", None).1.auth0.grant_type, "given");
    assert_eq!(filled("AUTH0_GRANT_TYPE", "!x", Some("hidden")).1.auth0.grant_type, "hidden");
    assert_eq!(filled("AUTH0_GRANT_TYPE", "!x", None).1.auth0.grant_type, "client_credentials");
    assert_eq!(filled("AUTH0_CLIENT_ID", "given", None).1.auth0.client_id, "given");
    assert_eq!(filled("AUTH0_CLIENT_ID", "!x", Some("hidden")).1.auth0.client_id, "hidden");
    assert_eq!(filled("AUTH0_CLIENT_ID", "!x", None).1.auth0.client_id, "");
    assert_eq!(filled("AUTH0_CLIENT_SECRET", "given", None).1.auth0.client_secret, "given");
    assert_eq!(filled("AUTH0_CLIENT_SECRET", "!x", Some("hidden")).1.auth0.client_secret, "hidden");
    assert_eq!(filled("AUTH0_CLIENT_SECRET", "!x", None).1.auth0.client_secret, "");
}

#[test]
fn mqtt_settings_are_filled() {
    assert_eq!(filled("MQTT_BROKER_KIND", "given", None).1.mqtt.broker_kind, Some("given".to_owned()));
    assert_eq!(filled("MQTT_BROKER_KIND", "!x", Some("hidden")).1.mqtt.broker_kind, Some("hidden".to_owned()));
    assert_eq!(filled("MQTT_BROKER_KIND", "!x", None).1.mqtt.broker_kind, Some("SELF_HOSTED".to_owned()));
    assert_eq!(filled("MQTT_HOST", "given", None).1.mqtt.host, "given");
    assert_eq!(filled("MQTT_HOST", "!x", Some("hidden")).1.mqtt.host, "hidden");
    assert_eq!(filled("MQTT_HOST", "!x", None).1.mqtt.host, "localhost");
    assert_eq!(filled("MQTT_TRANSPORT", "given", None).1.mqtt.transport, Some("given".to_owned()));
    assert_eq!(filled("MQTT_TRANSPORT", "!x", Some("hidden")).1.mqtt.transport, Some("hidden".to_owned()));
    assert_eq!(filled("MQTT_TRANSPORT", "!x", None).1.mqtt.transport, Some("tcp".to_owned()));
    assert_eq!(filled("MQTT_PORT", "12", None).1.mqtt.port, 12);
    assert_eq!(filled("MQTT_PORT", "!x", Some("13")).1.mqtt.port, 13);
    assert_eq!(filled("MQTT_PORT", "!x", None).1.mqtt.port, 1883);
    assert_eq!(filled("MQTT_PORT", "twelve", None).1.mqtt.port, 1883);
    assert_eq!(filled("MQTT_PORT", "!x", Some("y")).1.mqtt.port, 1883);
    assert_eq!(filled("MQTT_USER", "given", None).1.mqtt.user, "given");
    assert_eq!(filled("MQTT_USER", "!x", Some("hidden")).1.mqtt.user, "hidden");
    assert_eq!(filled("MQTT_USER", "!x", None).1.mqtt.user, "mqtt");
    assert_eq!(filled("MQTT_PASSWORD", "given", None).1.mqtt.password, "given");
    assert_eq!(filled("MQTT_PASSWORD", "!x", Some("hidden")).1.mqtt.password, "hidden");
    assert_eq!(filled("MQTT_PASSWORD", "!x", None).1.mqtt.password, "password");
    assert_eq!(filled("MQTT_CA_CERT_PATH", "given", None).1.mqtt.root_ca_path, "given");
    assert_eq!(filled("MQTT_CA_CERT_PATH", "!x", Some("hidden")).1.mqtt.root_ca_path, "hidden");
    assert_eq!(filled("MQTT_CA_CERT_PATH", "!x", None).1.mqtt.root_ca_path, "");
}

#[test]
fn rabbitmq_settings_are_filled() {
    assert_eq!(filled("RABBITMQ_HOST", "given", None).1.rabbitmq.host, "given");
    assert_eq!(filled("RABBITMQ_HOST", "!x", Some("hidden")).1.rabbitmq.host, "hidden");
    assert_eq!(filled("RABBITMQ_HOST", "!x", None).1.rabbitmq.host, "localhost");
    assert_eq!(filled("RABBITMQ_PORT", "12", None).1.rabbitmq.port, 12);
    assert_eq!(filled("RABBITMQ_PORT", "!x", Some("13")).1.rabbitmq.port, 13);
    assert_eq!(filled("RABBITMQ_PORT", "!x", None).1.rabbitmq.port, 5672);
    assert_eq!(filled("RABBITMQ_PORT", "twelve", None).1.rabbitmq.port, 5672);
    assert_eq!(filled("RABBITMQ_PORT", "!x", Some("y")).1.rabbitmq.port, 5672);
    assert_eq!(filled("RABBITMQ_USER", "given", None).1.rabbitmq.user, "given");
    assert_eq!(filled("RABBITMQ_USER", "!x", Some("hidden")).1.rabbitmq.user, "hidden");
    assert_eq!(filled("RABBITMQ_USER", "!x", None).1.rabbitmq.user, "guest");
    assert_eq!(filled("RABBITMQ_PASSWORD", "given", None).1.rabbitmq.password, "given");
    assert_eq!(filled("RABBITMQ_PASSWORD", "!x", Some("hidden")).1.rabbitmq.password, "hidden");
    assert_eq!(filled("RABBITMQ_PASSWORD", "!x", None).1.rabbitmq.password, "guest");
    assert_eq!(filled("RABBITMQ_VHOST", "given", None).1.rabbitmq.vhost, "given");
    assert_eq!(filled("RABBITMQ_VHOST", "!x", Some("hidden")).1.rabbitmq.vhost, "hidden");
    assert_eq!(filled("RABBITMQ_VHOST", "!x", None).1.rabbitmq.vhost, "");
}

#[test]
fn trace_settings_are_filled() {
    assert_eq!(filled("ENABLE_TRACES", "true", None).1.trace.enable, true);
    assert_eq!(filled("ENABLE_TRACES", "!x", Some("true")).1.trace.enable, true);
    assert_eq!(filled("ENABLE_TRACES", "!x", None).1.trace.enable, false);
    assert_eq!(filled("ENABLE_TRACES", "yes", None).1.trace.enable, false);
    assert_eq!(filled("TRACE_HOST", "given", None).1.trace.host, "given");
    assert_eq!(filled("TRACE_HOST", "!x", Some("hidden")).1.trace.host, "hidden");
    assert_eq!(filled("TRACE_HOST", "!x", None).1.trace.host, "localhost");
    assert_eq!(filled("TRACE_ACCESS_KEY", "given", None).1.trace.key, "given");
    assert_eq!(filled("TRACE_ACCESS_KEY", "!x", Some("hidden")).1.trace.key, "hidden");
    assert_eq!(filled("TRACE_ACCESS_KEY", "!x", None).1.trace.key, "key");
    assert_eq!(filled("TRACE_SERVICE_TYPE", "given", None).1.trace.service_type, "given");
    assert_eq!(filled("TRACE_SERVICE_TYPE", "!x", Some("hidden")).1.trace.service_type, "hidden");
    assert_eq!(filled("TRACE_SERVICE_TYPE", "!x", None).1.trace.service_type, "service");
    assert_eq!(filled("TRACE_EXPORT_TIMEOUT", "12", None).1.trace.export_timeout, 12);
    assert_eq!(filled("TRACE_EXPORT_TIMEOUT", "!x", Some("13")).1.trace.export_timeout, 13);
    assert_eq!(filled("TRACE_EXPORT_TIMEOUT", "!x", None).1.trace.export_timeout, 30);
    assert_eq!(filled("TRACE_EXPORT_TIMEOUT", "twelve", None).1.trace.export_timeout, 30);
    assert_eq!(filled("TRACE_EXPORT_TIMEOUT", "!x", Some("y")).1.trace.export_timeout, 30);
    assert_eq!(filled("TRACE_EXPORT_RATE_BASE", "0.5", None).1.trace.export_rate_base, Rate::Given("0.5".to_owned()));
    assert_eq!(filled("TRACE_EXPORT_RATE_BASE", "!x", Some("0.25")).1.trace.export_rate_base, Rate::Given("0.25".to_owned()));
    assert_eq!(filled("TRACE_EXPORT_RATE_BASE", "!x", None).1.trace.export_rate_base, Rate::Fallback);
}

#[test]
fn metric_settings_are_filled() {
    assert_eq!(filled("ENABLE_METRICS", "true", None).1.metric.enable, true);
    assert_eq!(filled("ENABLE_METRICS", "!x", Some("true")).1.metric.enable, true);
    assert_eq!(filled("ENABLE_METRICS", "!x", None).1.metric.enable, false);
    assert_eq!(filled("ENABLE_METRICS", "yes", None).1.metric.enable, false);
    assert_eq!(filled("METRIC_HOST", "given", None).1.metric.host, "given");
    assert_eq!(filled("METRIC_HOST", "!x", Some("hidden")).1.metric.host, "hidden");
    assert_eq!(filled("METRIC_HOST", "!x", None).1.metric.host, "localhost");
    assert_eq!(filled("METRIC_ACCESS_KEY", "given", None).1.metric.key, "given");
    assert_eq!(filled("METRIC_ACCESS_KEY", "!x", Some("hidden")).1.metric.key, "hidden");
    assert_eq!(filled("METRIC_ACCESS_KEY", "!x", None).1.metric.key, "key");
    assert_eq!(filled("METRIC_SERVICE_TYPE", "given", None).1.metric.service_type, "given");
    assert_eq!(filled("METRIC_SERVICE_TYPE", "!x", Some("hidden")).1.metric.service_type, "hidden");
    assert_eq!(filled("METRIC_SERVICE_TYPE", "!x", None).1.metric.service_type, "service");
    assert_eq!(filled("METRIC_EXPORT_TIMEOUT", "12", None).1.metric.export_timeout, 12);
    assert_eq!(filled("METRIC_EXPORT_TIMEOUT", "!x", Some("13")).1.metric.export_timeout, 13);
    assert_eq!(filled("METRIC_EXPORT_TIMEOUT", "!x", None).1.metric.export_timeout, 30);
    assert_eq!(filled("METRIC_EXPORT_TIMEOUT", "twelve", None).1.metric.export_timeout, 30);
    assert_eq!(filled("METRIC_EXPORT_TIMEOUT", "!x", Some("y")).1.metric.export_timeout, 30);
    assert_eq!(filled("METRIC_EXPORT_RATE_BASE", "0.5", None).1.metric.export_rate_base, Rate::Given("0.5".to_owned()));
    assert_eq!(filled("METRIC_EXPORT_RATE_BASE", "!x", Some("0.25")).1.metric.export_rate_base, Rate::Given("0.25".to_owned()));
    assert_eq!(filled("METRIC_EXPORT_RATE_BASE", "!x", None).1.metric.export_rate_base, Rate::Fallback);
}

#[test]
fn postgres_settings_are_filled() {
    assert_eq!(filled("POSTGRES_HOST", "given", None).1.postgres.host, "given");
    assert_eq!(filled("POSTGRES_HOST", "!x", Some("hidden")).1.postgres.host, "hidden");
    assert_eq!(filled("POSTGRES_HOST", "!x", None).1.postgres.host, "localhost");
    assert_eq!(filled("POSTGRES_USER", "given", None).1.postgres.user, "given");
    assert_eq!(filled("POSTGRES_USER", "!x", Some("hidden")).1.postgres.user, "hidden");
    assert_eq!(filled("POSTGRES_USER", "!x", None).1.postgres.user, "postgres");
    assert_eq!(filled("POSTGRES_PASSWORD", "given", None).1.postgres.password, "given");
    assert_eq!(filled("POSTGRES_PASSWORD", "!x", Some("hidden")).1.postgres.password, "hidden");
    assert_eq!(filled("POSTGRES_PASSWORD", "!x", None).1.postgres.password, "postgres");
    assert_eq!(filled("POSTGRES_PORT", "12", None).1.postgres.port, 12);
    assert_eq!(filled("POSTGRES_PORT", "!x", Some("13")).1.postgres.port, 13);
    assert_eq!(filled("POSTGRES_PORT", "!x", None).1.postgres.port, 5432);
    assert_eq!(filled("POSTGRES_PORT", "twelve", None).1.postgres.port, 5432);
    assert_eq!(filled("POSTGRES_PORT", "!x", Some("y")).1.postgres.port, 5432);
    assert_eq!(filled("POSTGRES_DB", "given", None).1.postgres.db, "given");
    assert_eq!(filled("POSTGRES_DB", "!x", Some("hidden")).1.postgres.db, "hidden");
    assert_eq!(filled("POSTGRES_DB", "!x", None).1.postgres.db, "hdr");
}

#[test]
fn dynamo_settings_are_filled() {
    assert_eq!(filled("DYNAMO_ENDPOINT", "given", None).1.dynamo.endpoint, "given");
    assert_eq!(filled("DYNAMO_ENDPOINT", "!x", Some("hidden")).1.dynamo.endpoint, "hidden");
    assert_eq!(filled("DYNAMO_ENDPOINT", "!x", None).1.dynamo.endpoint, "localhost");
    assert_eq!(filled("DYNAMO_TABLE", "given", None).1.dynamo.table, "given");
    assert_eq!(filled("DYNAMO_TABLE", "!x", Some("hidden")).1.dynamo.table, "hidden");
    assert_eq!(filled("DYNAMO_TABLE", "!x", None).1.dynamo.table, "table");
    assert_eq!(filled("DYNAMO_REGION", "given", None).1.dynamo.region, "given");
    assert_eq!(filled("DYNAMO_REGION", "!x", Some("hidden")).1.dynamo.region, "hidden");
    assert_eq!(filled("DYNAMO_REGION", "!x", None).1.dynamo.region, "us-east-1");
    assert_eq!(filled("DYNAMO_EXPIRE", "12", None).1.dynamo.expire, 12);
    assert_eq!(filled("DYNAMO_EXPIRE", "!x", Some("13")).1.dynamo.expire, 13);
    assert_eq!(filled("DYNAMO_EXPIRE", "!x", None).1.dynamo.expire, 31536000);
    assert_eq!(filled("DYNAMO_EXPIRE", "twelve", None).1.dynamo.expire, 31536000);
    assert_eq!(filled("DYNAMO_EXPIRE", "!x", Some("y")).1.dynamo.expire, 31536000);
}

#[test]
fn aws_settings_are_filled() {
    assert_eq!(filled("AWS_IAM_ACCESS_KEY_ID", "given", None).1.aws.access_key_id, Some("given".to_owned()));
    assert_eq!(filled("AWS_IAM_ACCESS_KEY_ID", "!x", Some("hidden")).1.aws.access_key_id, Some("hidden".to_owned()));
    assert_eq!(filled("AWS_IAM_ACCESS_KEY_ID", "!x", None).1.aws.access_key_id, Some("key".to_owned()));
    assert_eq!(filled("AWS_IAM_SECRET_ACCESS_KEY", "given", None).1.aws.secret_access_key, Some("given".to_owned()));
    assert_eq!(filled("AWS_IAM_SECRET_ACCESS_KEY", "!x", Some("hidden")).1.aws.secret_access_key, Some("hidden".to_owned()));
    assert_eq!(filled("AWS_IAM_SECRET_ACCESS_KEY", "!x", None).1.aws.secret_access_key, Some("secret".to_owned()));
}

#[test]
fn health_settings_are_filled() {
    assert_eq!(filled("HEALTH_READINESS_PORT", "12", None).1.health_readiness.port, 12);
    assert_eq!(filled("HEALTH_READINESS_PORT", "!x", Some("13")).1.health_readiness.port, 13);
    assert_eq!(filled("HEALTH_READINESS_PORT", "!x", None).1.health_readiness.port, 8888);
    assert_eq!(filled("HEALTH_READINESS_PORT", "twelve", None).1.health_readiness.port, 8888);
    assert_eq!(filled("HEALTH_READINESS_PORT", "!x", Some("y")).1.health_readiness.port, 8888);
    assert_eq!(filled("ENABLE_HEALTH_READINESS", "true", None).1.health_readiness.enable, true);
    assert_eq!(filled("ENABLE_HEALTH_READINESS", "!x", Some("true")).1.health_readiness.enable, true);
    assert_eq!(filled("ENABLE_HEALTH_READINESS", "!x", None).1.health_readiness.enable, false);
    assert_eq!(filled("ENABLE_HEALTH_READINESS", "yes", None).1.health_readiness.enable, false);
}

#[test]
fn sqlite_settings_are_filled() {
    assert_eq!(filled("SQLITE_FILE_NAME", "given", None).1.sqlite.file, "given");
    assert_eq!(filled("SQLITE_FILE_NAME", "!x", Some("hidden")).1.sqlite.file, "hidden");
    assert_eq!(filled("SQLITE_FILE_NAME", "!x", None).1.sqlite.file, "local.db");
    assert_eq!(filled("SQLITE_USER", "given", None).1.sqlite.user, "given");
    assert_eq!(filled("SQLITE_USER", "!x", Some("hidden")).1.sqlite.user, "hidden");
    assert_eq!(filled("SQLITE_USER", "!x", None).1.sqlite.user, "user");
    assert_eq!(filled("SQLITE_PASSWORD", "given", None).1.sqlite.password, "given");
    assert_eq!(filled("SQLITE_PASSWORD", "!x", Some("hidden")).1.sqlite.password, "hidden");
    assert_eq!(filled("SQLITE_PASSWORD", "!x", None).1.sqlite.password, "password");
}

#[test]
fn nothing_is_filled_at_first() {
    let cfg = Configs::new(7);
    assert_eq!(cfg.dynamic, 7);
    assert_eq!(cfg.mqtt.host, "");
    assert_eq!(cfg.mqtt.broker_kind, None);
    assert_eq!(cfg.dynamo.expire, 0);
    assert_eq!(cfg.trace.export_rate_base, Rate::Unset);
    assert_eq!(cfg.aws.access_key_id, None);
    assert!(!cfg.metric.enable);
}

#[test]
fn unknown_variables_fill_nothing() {
    let (claimed, cfg) = filled("PATH", "/bin", None);
    assert!(!claimed);
    assert_eq!(cfg, Configs::new(()));
    assert!(filled("MQTT_HOST", "x", None).0);
}

#[test]
fn a_fill_touches_its_own_section_only() {
    let mut cfg = Configs::new(());
    let builder = everything();
    assert!(!builder.fill_mqtt(&mut cfg, "RABBITMQ_HOST", "h", &None));
    assert_eq!(cfg, Configs::new(()));
    assert!(builder.fill_rabbitmq(&mut cfg, "RABBITMQ_HOST", "h", &None));
    assert_eq!(cfg.rabbitmq.host, "h");
    assert_eq!(cfg.mqtt, Configs::new(()).mqtt);
}

#[test]
fn sections_that_are_not_asked_for_stay() {
    let builder = ConfigBuilder::new().mqtt();
    let mut cfg = Configs::new(());
    builder.fill_all(&mut cfg, &vec![var("MQTT_HOST", "m"), var("POSTGRES_HOST", "p")]);
    assert_eq!(cfg.mqtt.host, "m");
    assert_eq!(cfg.postgres.host, "");
    assert!(builder.claims("MQTT_HOST"));
    assert!(!builder.claims("POSTGRES_HOST"));
    assert!(!builder.claims("HOME"));
    assert!(builder.fills_section(Section::Mqtt));
    assert!(!builder.fills_section(Section::Sqlite));
}

#[test]
fn each_method_asks_for_its_section() {
    let sections = [
        Section::Auth0,
        Section::Mqtt,
        Section::RabbitMq,
        Section::Trace,
        Section::Metric,
        Section::Postgres,
        Section::Dynamo,
        Section::Aws,
        Section::Health,
        Section::Sqlite,
    ];
    let builders = [
        ConfigBuilder::new().auth0(),
        ConfigBuilder::new().mqtt(),
        ConfigBuilder::new().rabbitmq(),
        ConfigBuilder::new().trace(),
        ConfigBuilder::new().metric(),
        ConfigBuilder::new().postgres(),
        ConfigBuilder::new().dynamodb(),
        ConfigBuilder::new().aws(),
        ConfigBuilder::new().health(),
        ConfigBuilder::new().sqlite(),
    ];
    for (i, builder) in builders.iter().enumerate() {
        for (j, section) in sections.iter().enumerate() {
            assert_eq!(builder.fills_section(*section), i == j);
        }
    }
    for section in sections {
        assert!(!ConfigBuilder::new().fills_section(section));
        assert!(!ConfigBuilder::default().fills_section(section));
        assert!(everything().fills_section(section));
    }
}

#[test]
fn settings_are_named_by_their_variables() {
    assert_eq!(Setting::named("SQLITE_USER"), Some(Setting::SqliteUser));
    assert_eq!(Setting::named("SQLITE_PASSWORD"), Some(Setting::SqlitePassword));
    assert_eq!(Setting::named("sqlite_user"), None);
    assert_eq!(Setting::SqliteUser.section(), Section::Sqlite);
}

#[test]
fn the_last_variable_wins() {
    let mut cfg = Configs::new(());
    everything().fill_all(&mut cfg, &vec![var("MQTT_PORT", "1"), var("MQTT_PORT", "2")]);
    assert_eq!(cfg.mqtt.port, 2);
}

#[test]
fn the_order_of_variables_does_not_matter() {
    let mut forward = Configs::new(());
    let mut backward = Configs::new(());
    everything().fill_all(
        &mut forward,
        &vec![var("MQTT_PORT", "1"), var("SQLITE_FILE_NAME", "f"), var("DYNAMO_TABLE", "t")],
    );
    everything().fill_all(
        &mut backward,
        &vec![
            var("HOME", "/root"),
            var("DYNAMO_TABLE", "t"),
            var("SQLITE_FILE_NAME", "f"),
            var("MQTT_PORT", "1"),
            var("HOME", "/"),
        ],
    );
    assert_eq!(forward, backward);
    assert_eq!(forward.sqlite.file, "f");
}

#[test]
fn filling_twice_is_filling_once() {
    let vars = vec![var("TRACE_HOST", "h"), var("ENABLE_TRACES", "true")];
    let mut once = Configs::new(());
    everything().fill_all(&mut once, &vars);
    let mut twice = Configs::new(());
    everything().fill_all(&mut twice, &vars);
    everything().fill_all(&mut twice, &vars);
    assert_eq!(once, twice);
    assert!(once.trace.enable);
}

#[test]
fn values_that_name_secrets_are_told_apart() {
    let builder = ConfigBuilder::new().mqtt();
    assert_eq!(builder.secret_asked_for("MQTT_USER", "!key"), Some("!key".to_owned()));
    assert_eq!(builder.secret_asked_for("MQTT_USER", "key"), None);
    assert_eq!(builder.secret_asked_for("MQTT_USER", ""), None);
    assert_eq!(builder.secret_asked_for("SQLITE_USER", "!key"), None);
    assert_eq!(builder.get_from_secret("5", &Some("6".to_owned()), 7u64), 5);
    assert_eq!(builder.get_from_secret("!5", &Some("6".to_owned()), 7u64), 6);
    assert_eq!(builder.get_from_secret("!5", &None, 7u64), 7);
    assert_eq!(builder.get_from_secret("!5", &Some("six".to_owned()), 7u64), 7);
    assert!(builder.get_from_secret("true", &None, false));
    assert_eq!(builder.get_from_secret("", &None, "d".to_owned()), "");
}

#[test]
fn names_get_the_environment_before_them() {
    let builder = ConfigBuilder::new();
    assert_eq!(builder.fmt_name("dev", "app".to_owned()), "dev-app");
    assert_eq!(builder.fmt_name("dev", "dev-app".to_owned()), "dev-app");
    assert_eq!(builder.fmt_name("dev", "development".to_owned()), "development");
    assert_eq!(builder.fmt_name("dev", String::new()), "dev-");
    assert_eq!(builder.fmt_name("", "app".to_owned()), "app");
}

#[test]
fn the_service_is_described_by_defaults() {
    let app = app_of(no_app_vars());
    assert_eq!(app.name, "dev-");
    assert_eq!(app.secret_key, "");
    assert_eq!(app.host, "");
    assert_eq!(app.port, 3000);
    assert_eq!(app.log_level, "debug");
    assert_eq!(app.secret_manager, SecretsManagerKind::Disabled);
    assert_eq!(app.env, Environment::Dev);
    assert!(!app.enable_external_creates_logging);
}

#[test]
fn the_service_is_described_by_its_variables() {
    let mut cfg = Configs::new(1);
    let vars = AppVars {
        name: Some("shop".to_owned()),
        secret_key: Some("k".to_owned()),
        host: Some("h".to_owned()),
        port: Some("8080".to_owned()),
        log_level: Some("info".to_owned()),
        secret_manager: Some("AWS".to_owned()),
        multiple_message_timer: Some("20".to_owned()),
    };
    let mut read = reading(vars);
    read.secret_manager = SecretsManagerKind::AWSSecretManager;
    let builder = ConfigBuilder::new();
    assert_eq!(builder.secret_manager_name(&read.vars), "AWS");
    assert_eq!(builder.message_timer(&read.vars), Some(20));
    builder.fill_app(&mut cfg, &read);
    assert_eq!(cfg.app.name, "dev-shop");
    assert_eq!(cfg.app.secret_key, "k");
    assert_eq!(cfg.app.host, "h");
    assert_eq!(cfg.app.port, 8080);
    assert_eq!(cfg.app.log_level, "info");
    assert_eq!(cfg.app.secret_manager, SecretsManagerKind::AWSSecretManager);
    assert_eq!(cfg.multiple_message_timer, 20);
    assert_eq!(cfg.dynamic, 1);
}

#[test]
fn numbers_that_describe_the_service_are_read() {
    let mut vars = no_app_vars();
    vars.port = Some("http".to_owned());
    assert_eq!(app_of(vars).port, 0);

    let builder = ConfigBuilder::new();
    let mut vars = no_app_vars();
    assert_eq!(builder.message_timer(&vars), Some(15000));
    assert_eq!(builder.secret_manager_name(&vars), "None");
    vars.multiple_message_timer = Some("soon".to_owned());
    assert_eq!(builder.message_timer(&vars), None);
}

#[test]
fn the_secret_client_follows_the_secret_manager() {
    let builder = ConfigBuilder::new();
    let mut app = app_of(no_app_vars());
    assert_eq!(
        builder.get_secret_client(&app, "dev", &Some("k".to_owned())),
        SecretClientPlan::StandIn
    );
    app.secret_manager = SecretsManagerKind::AWSSecretManager;
    assert_eq!(
        builder.get_secret_client(&app, "dev", &Some("k".to_owned())),
        SecretClientPlan::Aws { env_name: "dev".to_owned(), secret_key: "k".to_owned() }
    );
    assert_eq!(
        builder.get_secret_client(&app, "dev", &None),
        SecretClientPlan::Aws { env_name: "dev".to_owned(), secret_key: String::new() }
    );
}

#[test]
fn base64_texts_are_decoded() {
    let builder = ConfigBuilder::new();
    assert_eq!(builder._decoded("aGVsbG8=".to_owned()), Ok("hello".to_owned()));
    assert_eq!(builder._decoded(String::new()), Ok(String::new()));
    assert_eq!(builder._decoded("w6k=".to_owned()), Ok("\u{e9}".to_owned()));
    assert_eq!(builder._decoded("aGVsbG8".to_owned()), Err(()));
    assert_eq!(builder._decoded("a*==".to_owned()), Err(()));
    assert_eq!(builder._decoded("/w==".to_owned()), Err(()));
}

#[test]
fn bytes_are_read_as_text() {
    assert_eq!(text_of_bytes(vec![104, 105]), Ok("hi".to_owned()));
    assert_eq!(text_of_bytes(vec![0xc3, 0xa9]), Ok("\u{e9}".to_owned()));
    assert_eq!(text_of_bytes(vec![0xff]), Err(()));
}

#[test]
fn sections_may_be_asked_for_in_any_order() {
    let one = ConfigBuilder::new().mqtt().sqlite();
    let other = ConfigBuilder::new().sqlite().mqtt().sqlite();
    assert_eq!(format!("{one:?}"), format!("{other:?}"));
}
