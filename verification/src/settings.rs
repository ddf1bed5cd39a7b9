//! The settings that environment variables fill: which variable names which, to
//! what section of the configuration each belongs, and what stands in for a value
//! that is missing or cannot be read.

use crate::env_keys::{
    AUTH0_AUDIENCE_ENV_KEY, AUTH0_CLIENT_ID_ENV_KEY, AUTH0_CLIENT_SECRET_ENV_KEY,
    AUTH0_DOMAIN_ENV_KEY, AUTH0_GRANT_TYPE_ENV_KEY, AUTH0_ISSUER_ENV_KEY, AWS_DEFAULT_REGION,
    AWS_IAM_ACCESS_KEY_ID, AWS_IAM_SECRET_ACCESS_KEY, DYNAMO_ENDPOINT_ENV_KEY,
    DYNAMO_EXPIRE_ENV_KEY, DYNAMO_REGION_ENV_KEY, DYNAMO_TABLE_ENV_KEY,
    ENABLE_HEALTH_READINESS_ENV_KEY, ENABLE_METRICS_ENV_KEY, ENABLE_TRACES_ENV_KEY,
    HEALTH_READINESS_PORT_ENV_KEY, METRIC_ACCESS_KEY_ENV_KEY, METRIC_EXPORT_RATE_BASE_ENV_KEY,
    METRIC_EXPORT_TIMEOUT_ENV_KEY, METRIC_HOST_ENV_KEY, METRIC_SERVICE_TYPE_ENV_KEY,
    MQTT_BROKER_KIND_ENV_KEY, MQTT_CA_CERT_PATH_ENV_KEY, MQTT_HOST_ENV_KEY,
    MQTT_PASSWORD_ENV_KEY, MQTT_PORT_ENV_KEY, MQTT_TRANSPORT_ENV_KEY, MQTT_USER_ENV_KEY,
    POSTGRES_DB_ENV_KEY, POSTGRES_HOST_ENV_KEY, POSTGRES_PASSWORD_ENV_KEY,
    POSTGRES_PORT_ENV_KEY, POSTGRES_USER_ENV_KEY, RABBITMQ_HOST_ENV_KEY,
    RABBITMQ_PASSWORD_ENV_KEY, RABBITMQ_PORT_ENV_KEY, RABBITMQ_USER_ENV_KEY,
    RABBITMQ_VHOST_ENV_KEY, SQLITE_FILE_NAME_ENV_KEY, SQLITE_PASSWORD_ENV_KEY,
    SQLITE_USER_ENV_KEY, TRACE_ACCESS_KEY_ENV_KEY, TRACE_EXPORT_RATE_BASE_ENV_KEY,
    TRACE_EXPORT_TIMEOUT_ENV_KEY, TRACE_HOST_ENV_KEY, TRACE_SERVICE_TYPE_ENV_KEY,
};
use crate::text::same_text;
#[allow(unused_imports)]
use crate::text::{flag_in, law_flags_are_two_words, number_in};
use vstd::prelude::*;

verus! {

/// A section of the configuration, which is filled only where it is asked for.
#[derive(Clone, Copy, Debug, PartialEq, Eq, Structural)]
pub enum Section {
    Auth0,
    Mqtt,
    RabbitMq,
    Trace,
    Metric,
    Postgres,
    Dynamo,
    Aws,
    Health,
    Sqlite,
}

/// A setting that an environment variable fills.
#[derive(Clone, Copy, Debug, PartialEq, Eq, Structural)]
pub enum Setting {
    Auth0Domain,
    Auth0Audience,
    Auth0Issuer,
    Auth0GrantType,
    Auth0ClientId,
    Auth0ClientSecret,
    MqttBrokerKind,
    MqttHost,
    MqttTransport,
    MqttPort,
    MqttUser,
    MqttPassword,
    MqttCaCertPath,
    RabbitMqHost,
    RabbitMqPort,
    RabbitMqUser,
    RabbitMqPassword,
    RabbitMqVhost,
    TraceEnable,
    TraceHost,
    TraceKey,
    TraceServiceType,
    TraceExportTimeout,
    TraceExportRateBase,
    MetricEnable,
    MetricHost,
    MetricKey,
    MetricServiceType,
    MetricExportTimeout,
    MetricExportRateBase,
    PostgresHost,
    PostgresUser,
    PostgresPassword,
    PostgresPort,
    PostgresDb,
    DynamoEndpoint,
    DynamoTable,
    DynamoRegion,
    DynamoExpire,
    AwsAccessKeyId,
    AwsSecretAccessKey,
    HealthPort,
    HealthEnable,
    SqliteFile,
    SqliteUser,
    SqlitePassword,
}

/// The rate that stands in for one that is missing or denotes no number.
pub const RATE_FALLBACK: &'static str = "0.8";

/// A rate, which the configuration keeps as it was written.
#[derive(Debug, PartialEq, Eq)]
pub enum Rate {
    /// Never filled.
    Unset,
    /// Filled with `RATE_FALLBACK`: no text was to be had.
    Fallback,
    /// Filled with this text; where it denotes no number, `RATE_FALLBACK` holds.
    Given(String),
}

/// A rate, with its text as a sequence of characters.
pub enum RateView {
    Unset,
    Fallback,
    Given(Seq<char>),
}

impl View for Rate {
    type V = RateView;

    open spec fn view(&self) -> RateView {
        match self {
            Rate::Unset => RateView::Unset,
            Rate::Fallback => RateView::Fallback,
            Rate::Given(text) => RateView::Given(text@),
        }
    }
}

/// The value of a setting.
pub enum Value {
    Flag(bool),
    Number(u64),
    Text(Seq<char>),
    /// A text that may not have been chosen yet.
    Chosen(Option<Seq<char>>),
    Rate(RateView),
}

/// The variable that fills a setting.
pub open spec fn env_key(setting: Setting) -> Seq<char> {
    match setting {
        Setting::Auth0Domain => AUTH0_DOMAIN_ENV_KEY@,
        Setting::Auth0Audience => AUTH0_AUDIENCE_ENV_KEY@,
        Setting::Auth0Issuer => AUTH0_ISSUER_ENV_KEY@,
        Setting::Auth0GrantType => AUTH0_GRANT_TYPE_ENV_KEY@,
        Setting::Auth0ClientId => AUTH0_CLIENT_ID_ENV_KEY@,
        Setting::Auth0ClientSecret => AUTH0_CLIENT_SECRET_ENV_KEY@,
        Setting::MqttBrokerKind => MQTT_BROKER_KIND_ENV_KEY@,
        Setting::MqttHost => MQTT_HOST_ENV_KEY@,
        Setting::MqttTransport => MQTT_TRANSPORT_ENV_KEY@,
        Setting::MqttPort => MQTT_PORT_ENV_KEY@,
        Setting::MqttUser => MQTT_USER_ENV_KEY@,
        Setting::MqttPassword => MQTT_PASSWORD_ENV_KEY@,
        Setting::MqttCaCertPath => MQTT_CA_CERT_PATH_ENV_KEY@,
        Setting::RabbitMqHost => RABBITMQ_HOST_ENV_KEY@,
        Setting::RabbitMqPort => RABBITMQ_PORT_ENV_KEY@,
        Setting::RabbitMqUser => RABBITMQ_USER_ENV_KEY@,
        Setting::RabbitMqPassword => RABBITMQ_PASSWORD_ENV_KEY@,
        Setting::RabbitMqVhost => RABBITMQ_VHOST_ENV_KEY@,
        Setting::TraceEnable => ENABLE_TRACES_ENV_KEY@,
        Setting::TraceHost => TRACE_HOST_ENV_KEY@,
        Setting::TraceKey => TRACE_ACCESS_KEY_ENV_KEY@,
        Setting::TraceServiceType => TRACE_SERVICE_TYPE_ENV_KEY@,
        Setting::TraceExportTimeout => TRACE_EXPORT_TIMEOUT_ENV_KEY@,
        Setting::TraceExportRateBase => TRACE_EXPORT_RATE_BASE_ENV_KEY@,
        Setting::MetricEnable => ENABLE_METRICS_ENV_KEY@,
        Setting::MetricHost => METRIC_HOST_ENV_KEY@,
        Setting::MetricKey => METRIC_ACCESS_KEY_ENV_KEY@,
        Setting::MetricServiceType => METRIC_SERVICE_TYPE_ENV_KEY@,
        Setting::MetricExportTimeout => METRIC_EXPORT_TIMEOUT_ENV_KEY@,
        Setting::MetricExportRateBase => METRIC_EXPORT_RATE_BASE_ENV_KEY@,
        Setting::PostgresHost => POSTGRES_HOST_ENV_KEY@,
        Setting::PostgresUser => POSTGRES_USER_ENV_KEY@,
        Setting::PostgresPassword => POSTGRES_PASSWORD_ENV_KEY@,
        Setting::PostgresPort => POSTGRES_PORT_ENV_KEY@,
        Setting::PostgresDb => POSTGRES_DB_ENV_KEY@,
        Setting::DynamoEndpoint => DYNAMO_ENDPOINT_ENV_KEY@,
        Setting::DynamoTable => DYNAMO_TABLE_ENV_KEY@,
        Setting::DynamoRegion => DYNAMO_REGION_ENV_KEY@,
        Setting::DynamoExpire => DYNAMO_EXPIRE_ENV_KEY@,
        Setting::AwsAccessKeyId => AWS_IAM_ACCESS_KEY_ID@,
        Setting::AwsSecretAccessKey => AWS_IAM_SECRET_ACCESS_KEY@,
        Setting::HealthPort => HEALTH_READINESS_PORT_ENV_KEY@,
        Setting::HealthEnable => ENABLE_HEALTH_READINESS_ENV_KEY@,
        Setting::SqliteFile => SQLITE_FILE_NAME_ENV_KEY@,
        Setting::SqliteUser => SQLITE_USER_ENV_KEY@,
        Setting::SqlitePassword => SQLITE_PASSWORD_ENV_KEY@,
    }
}

/// The section that a setting belongs to.
pub open spec fn section_of(setting: Setting) -> Section {
    match setting {
        Setting::Auth0Domain
        | Setting::Auth0Audience
        | Setting::Auth0Issuer
        | Setting::Auth0GrantType
        | Setting::Auth0ClientId
        | Setting::Auth0ClientSecret => Section::Auth0,
        Setting::MqttBrokerKind
        | Setting::MqttHost
        | Setting::MqttTransport
        | Setting::MqttPort
        | Setting::MqttUser
        | Setting::MqttPassword
        | Setting::MqttCaCertPath => Section::Mqtt,
        Setting::RabbitMqHost
        | Setting::RabbitMqPort
        | Setting::RabbitMqUser
        | Setting::RabbitMqPassword
        | Setting::RabbitMqVhost => Section::RabbitMq,
        Setting::TraceEnable
        | Setting::TraceHost
        | Setting::TraceKey
        | Setting::TraceServiceType
        | Setting::TraceExportTimeout
        | Setting::TraceExportRateBase => Section::Trace,
        Setting::MetricEnable
        | Setting::MetricHost
        | Setting::MetricKey
        | Setting::MetricServiceType
        | Setting::MetricExportTimeout
        | Setting::MetricExportRateBase => Section::Metric,
        Setting::PostgresHost
        | Setting::PostgresUser
        | Setting::PostgresPassword
        | Setting::PostgresPort
        | Setting::PostgresDb => Section::Postgres,
        Setting::DynamoEndpoint
        | Setting::DynamoTable
        | Setting::DynamoRegion
        | Setting::DynamoExpire => Section::Dynamo,
        Setting::AwsAccessKeyId
        | Setting::AwsSecretAccessKey => Section::Aws,
        Setting::HealthPort
        | Setting::HealthEnable => Section::Health,
        Setting::SqliteFile
        | Setting::SqliteUser
        | Setting::SqlitePassword => Section::Sqlite,
    }
}

/// What a setting is filled with where its text is missing or cannot be read.
pub open spec fn fallback(setting: Setting) -> Value {
    match setting {
        Setting::Auth0Domain => Value::Text("localhost"@),
        Setting::Auth0Audience => Value::Text("localhost"@),
        Setting::Auth0Issuer => Value::Text("localhost"@),
        Setting::Auth0GrantType => Value::Text("client_credentials"@),
        Setting::Auth0ClientId => Value::Text(""@),
        Setting::Auth0ClientSecret => Value::Text(""@),
        Setting::MqttBrokerKind => Value::Chosen(Some("SELF_HOSTED"@)),
        Setting::MqttHost => Value::Text("localhost"@),
        Setting::MqttTransport => Value::Chosen(Some("tcp"@)),
        Setting::MqttPort => Value::Number(1883),
        Setting::MqttUser => Value::Text("mqtt"@),
        Setting::MqttPassword => Value::Text("password"@),
        Setting::MqttCaCertPath => Value::Text(""@),
        Setting::RabbitMqHost => Value::Text("localhost"@),
        Setting::RabbitMqPort => Value::Number(5672),
        Setting::RabbitMqUser => Value::Text("guest"@),
        Setting::RabbitMqPassword => Value::Text("guest"@),
        Setting::RabbitMqVhost => Value::Text(""@),
        Setting::TraceEnable => Value::Flag(false),
        Setting::TraceHost => Value::Text("localhost"@),
        Setting::TraceKey => Value::Text("key"@),
        Setting::TraceServiceType => Value::Text("service"@),
        Setting::TraceExportTimeout => Value::Number(30),
        Setting::TraceExportRateBase => Value::Rate(RateView::Fallback),
        Setting::MetricEnable => Value::Flag(false),
        Setting::MetricHost => Value::Text("localhost"@),
        Setting::MetricKey => Value::Text("key"@),
        Setting::MetricServiceType => Value::Text("service"@),
        Setting::MetricExportTimeout => Value::Number(30),
        Setting::MetricExportRateBase => Value::Rate(RateView::Fallback),
        Setting::PostgresHost => Value::Text("localhost"@),
        Setting::PostgresUser => Value::Text("postgres"@),
        Setting::PostgresPassword => Value::Text("postgres"@),
        Setting::PostgresPort => Value::Number(5432),
        Setting::PostgresDb => Value::Text("hdr"@),
        Setting::DynamoEndpoint => Value::Text("localhost"@),
        Setting::DynamoTable => Value::Text("table"@),
        Setting::DynamoRegion => Value::Text(AWS_DEFAULT_REGION@),
        Setting::DynamoExpire => Value::Number(31536000),
        Setting::AwsAccessKeyId => Value::Chosen(Some("key"@)),
        Setting::AwsSecretAccessKey => Value::Chosen(Some("secret"@)),
        Setting::HealthPort => Value::Number(8888),
        Setting::HealthEnable => Value::Flag(false),
        Setting::SqliteFile => Value::Text("local.db"@),
        Setting::SqliteUser => Value::Text("user"@),
        Setting::SqlitePassword => Value::Text("password"@),
    }
}

/// The value that a text gives a setting with the given fallback. No text, and a
/// text that does not denote a value of the fallback's kind, give the fallback.
pub open spec fn interpreted(fallback: Value, text: Option<Seq<char>>) -> Value {
    match (fallback, text) {
        (_, None) => fallback,
        (Value::Flag(_), Some(t)) => match flag_in(t) {
            Some(flag) => Value::Flag(flag),
            None => fallback,
        },
        (Value::Number(_), Some(t)) => match number_in(t) {
            Some(number) => Value::Number(number),
            None => fallback,
        },
        (Value::Text(_), Some(t)) => Value::Text(t),
        (Value::Chosen(_), Some(t)) => Value::Chosen(Some(t)),
        (Value::Rate(_), Some(t)) => Value::Rate(RateView::Given(t)),
    }
}

/// The setting that a variable fills.
pub open spec fn setting_named(key: Seq<char>) -> Option<Setting> {
    if exists|setting: Setting| env_key(setting) == key {
        Some(choose|setting: Setting| env_key(setting) == key)
    } else {
        None
    }
}

/// What tells the names of the variables apart: the length, the first character
/// and the last but one.
spec fn fingerprint(key: Seq<char>) -> (int, char, char) {
    (key.len() as int, key[0], key[key.len() - 2])
}

/// The fingerprint of the name of the variable that fills a setting.
spec fn fingerprint_of(setting: Setting) -> (int, char, char) {
    match setting {
        Setting::Auth0Domain => (12, 'A', 'I'),
        Setting::Auth0Audience => (14, 'A', 'C'),
        Setting::Auth0Issuer => (12, 'A', 'E'),
        Setting::Auth0GrantType => (16, 'A', 'P'),
        Setting::Auth0ClientId => (15, 'A', 'I'),
        Setting::Auth0ClientSecret => (19, 'A', 'E'),
        Setting::MqttBrokerKind => (16, 'M', 'N'),
        Setting::MqttHost => (9, 'M', 'S'),
        Setting::MqttTransport => (14, 'M', 'R'),
        Setting::MqttPort => (9, 'M', 'R'),
        Setting::MqttUser => (9, 'M', 'E'),
        Setting::MqttPassword => (13, 'M', 'R'),
        Setting::MqttCaCertPath => (17, 'M', 'T'),
        Setting::RabbitMqHost => (13, 'R', 'S'),
        Setting::RabbitMqPort => (13, 'R', 'R'),
        Setting::RabbitMqUser => (13, 'R', 'E'),
        Setting::RabbitMqPassword => (17, 'R', 'R'),
        Setting::RabbitMqVhost => (14, 'R', 'S'),
        Setting::TraceEnable => (13, 'E', 'E'),
        Setting::TraceHost => (10, 'T', 'S'),
        Setting::TraceKey => (16, 'T', 'E'),
        Setting::TraceServiceType => (18, 'T', 'P'),
        Setting::TraceExportTimeout => (20, 'T', 'U'),
        Setting::TraceExportRateBase => (22, 'T', 'S'),
        Setting::MetricEnable => (14, 'E', 'C'),
        Setting::MetricHost => (11, 'M', 'S'),
        Setting::MetricKey => (17, 'M', 'E'),
        Setting::MetricServiceType => (19, 'M', 'P'),
        Setting::MetricExportTimeout => (21, 'M', 'U'),
        Setting::MetricExportRateBase => (23, 'M', 'S'),
        Setting::PostgresHost => (13, 'P', 'S'),
        Setting::PostgresUser => (13, 'P', 'E'),
        Setting::PostgresPassword => (17, 'P', 'R'),
        Setting::PostgresPort => (13, 'P', 'R'),
        Setting::PostgresDb => (11, 'P', 'D'),
        Setting::DynamoEndpoint => (15, 'D', 'N'),
        Setting::DynamoTable => (12, 'D', 'L'),
        Setting::DynamoRegion => (13, 'D', 'O'),
        Setting::DynamoExpire => (13, 'D', 'R'),
        Setting::AwsAccessKeyId => (21, 'A', 'I'),
        Setting::AwsSecretAccessKey => (25, 'A', 'E'),
        Setting::HealthPort => (21, 'H', 'R'),
        Setting::HealthEnable => (23, 'E', 'S'),
        Setting::SqliteFile => (16, 'S', 'M'),
        Setting::SqliteUser => (11, 'S', 'E'),
        Setting::SqlitePassword => (15, 'S', 'R'),
    }
}

proof fn lemma_fingerprints(setting: Setting)
    ensures
        fingerprint(env_key(setting)) == fingerprint_of(setting),
{
    match setting {
        Setting::Auth0Domain => {
            reveal_strlit("AUTH0_DOMAIN");
        },
        Setting::Auth0Audience => {
            reveal_strlit("AUTH0_AUDIENCE");
        },
        Setting::Auth0Issuer => {
            reveal_strlit("AUTH0_ISSUER");
        },
        Setting::Auth0GrantType => {
            reveal_strlit("AUTH0_GRANT_TYPE");
        },
        Setting::Auth0ClientId => {
            reveal_strlit("AUTH0_CLIENT_ID");
        },
        Setting::Auth0ClientSecret => {
            reveal_strlit("AUTH0_CLIENT_SECRET");
        },
        Setting::MqttBrokerKind => {
            reveal_strlit("MQTT_BROKER_KIND");
        },
        Setting::MqttHost => {
            reveal_strlit("MQTT_HOST");
        },
        Setting::MqttTransport => {
            reveal_strlit("MQTT_TRANSPORT");
        },
        Setting::MqttPort => {
            reveal_strlit("MQTT_PORT");
        },
        Setting::MqttUser => {
            reveal_strlit("MQTT_USER");
        },
        Setting::MqttPassword => {
            reveal_strlit("MQTT_PASSWORD");
        },
        Setting::MqttCaCertPath => {
            reveal_strlit("MQTT_CA_CERT_PATH");
        },
        Setting::RabbitMqHost => {
            reveal_strlit("RABBITMQ_HOST");
        },
        Setting::RabbitMqPort => {
            reveal_strlit("RABBITMQ_PORT");
        },
        Setting::RabbitMqUser => {
            reveal_strlit("RABBITMQ_USER");
        },
        Setting::RabbitMqPassword => {
            reveal_strlit("RABBITMQ_PASSWORD");
        },
        Setting::RabbitMqVhost => {
            reveal_strlit("RABBITMQ_VHOST");
        },
        Setting::TraceEnable => {
            reveal_strlit("ENABLE_TRACES");
        },
        Setting::TraceHost => {
            reveal_strlit("TRACE_HOST");
        },
        Setting::TraceKey => {
            reveal_strlit("TRACE_ACCESS_KEY");
        },
        Setting::TraceServiceType => {
            reveal_strlit("TRACE_SERVICE_TYPE");
        },
        Setting::TraceExportTimeout => {
            reveal_strlit("TRACE_EXPORT_TIMEOUT");
        },
        Setting::TraceExportRateBase => {
            reveal_strlit("TRACE_EXPORT_RATE_BASE");
        },
        Setting::MetricEnable => {
            reveal_strlit("ENABLE_METRICS");
        },
        Setting::MetricHost => {
            reveal_strlit("METRIC_HOST");
        },
        Setting::MetricKey => {
            reveal_strlit("METRIC_ACCESS_KEY");
        },
        Setting::MetricServiceType => {
            reveal_strlit("METRIC_SERVICE_TYPE");
        },
        Setting::MetricExportTimeout => {
            reveal_strlit("METRIC_EXPORT_TIMEOUT");
        },
        Setting::MetricExportRateBase => {
            reveal_strlit("METRIC_EXPORT_RATE_BASE");
        },
        Setting::PostgresHost => {
            reveal_strlit("POSTGRES_HOST");
        },
        Setting::PostgresUser => {
            reveal_strlit("POSTGRES_USER");
        },
        Setting::PostgresPassword => {
            reveal_strlit("POSTGRES_PASSWORD");
        },
        Setting::PostgresPort => {
            reveal_strlit("POSTGRES_PORT");
        },
        Setting::PostgresDb => {
            reveal_strlit("POSTGRES_DB");
        },
        Setting::DynamoEndpoint => {
            reveal_strlit("DYNAMO_ENDPOINT");
        },
        Setting::DynamoTable => {
            reveal_strlit("DYNAMO_TABLE");
        },
        Setting::DynamoRegion => {
            reveal_strlit("DYNAMO_REGION");
        },
        Setting::DynamoExpire => {
            reveal_strlit("DYNAMO_EXPIRE");
        },
        Setting::AwsAccessKeyId => {
            reveal_strlit("AWS_IAM_ACCESS_KEY_ID");
        },
        Setting::AwsSecretAccessKey => {
            reveal_strlit("AWS_IAM_SECRET_ACCESS_KEY");
        },
        Setting::HealthPort => {
            reveal_strlit("HEALTH_READINESS_PORT");
        },
        Setting::HealthEnable => {
            reveal_strlit("ENABLE_HEALTH_READINESS");
        },
        Setting::SqliteFile => {
            reveal_strlit("SQLITE_FILE_NAME");
        },
        Setting::SqliteUser => {
            reveal_strlit("SQLITE_USER");
        },
        Setting::SqlitePassword => {
            reveal_strlit("SQLITE_PASSWORD");
        },
    }
}

/// No two settings are filled by one variable.
pub proof fn law_variables_are_distinct(a: Setting, b: Setting)
    ensures
        env_key(a) == env_key(b) <==> a == b,
{
    lemma_fingerprints(a);
    lemma_fingerprints(b);
}

/// Every setting is the one that its own variable fills.
pub proof fn law_setting_named_by_its_variable(setting: Setting)
    ensures
        setting_named(env_key(setting)) == Some(setting),
{
    let found = choose|s: Setting| env_key(s) == env_key(setting);
    law_variables_are_distinct(found, setting);
}

impl Setting {
    /// The setting that the variable `key` fills.
    pub fn named(key: &str) -> (setting: Option<Setting>)
        ensures
            setting == setting_named(key@),
    {
        proof {
            if exists|s: Setting| env_key(s) == key@ {
                law_setting_named_by_its_variable(choose|s: Setting| env_key(s) == key@);
            }
            assert forall|s: Setting| #[trigger] env_key(s) == key@ implies setting_named(key@)
                == Some(s) by {
                law_setting_named_by_its_variable(s);
            }
        }
        if same_text(key, AUTH0_DOMAIN_ENV_KEY) {
            proof {
                assert(env_key(Setting::Auth0Domain) == key@);
            }
            Some(Setting::Auth0Domain)
        } else if same_text(key, AUTH0_AUDIENCE_ENV_KEY) {
            proof {
                assert(env_key(Setting::Auth0Audience) == key@);
            }
            Some(Setting::Auth0Audience)
        } else if same_text(key, AUTH0_ISSUER_ENV_KEY) {
            proof {
                assert(env_key(Setting::Auth0Issuer) == key@);
            }
            Some(Setting::Auth0Issuer)
        } else if same_text(key, AUTH0_GRANT_TYPE_ENV_KEY) {
            proof {
                assert(env_key(Setting::Auth0GrantType) == key@);
            }
            Some(Setting::Auth0GrantType)
        } else if same_text(key, AUTH0_CLIENT_ID_ENV_KEY) {
            proof {
                assert(env_key(Setting::Auth0ClientId) == key@);
            }
            Some(Setting::Auth0ClientId)
        } else if same_text(key, AUTH0_CLIENT_SECRET_ENV_KEY) {
            proof {
                assert(env_key(Setting::Auth0ClientSecret) == key@);
            }
            Some(Setting::Auth0ClientSecret)
        } else if same_text(key, MQTT_BROKER_KIND_ENV_KEY) {
            proof {
                assert(env_key(Setting::MqttBrokerKind) == key@);
            }
            Some(Setting::MqttBrokerKind)
        } else if same_text(key, MQTT_HOST_ENV_KEY) {
            proof {
                assert(env_key(Setting::MqttHost) == key@);
            }
            Some(Setting::MqttHost)
        } else if same_text(key, MQTT_TRANSPORT_ENV_KEY) {
            proof {
                assert(env_key(Setting::MqttTransport) == key@);
            }
            Some(Setting::MqttTransport)
        } else if same_text(key, MQTT_PORT_ENV_KEY) {
            proof {
                assert(env_key(Setting::MqttPort) == key@);
            }
            Some(Setting::MqttPort)
        } else if same_text(key, MQTT_USER_ENV_KEY) {
            proof {
                assert(env_key(Setting::MqttUser) == key@);
            }
            Some(Setting::MqttUser)
        } else if same_text(key, MQTT_PASSWORD_ENV_KEY) {
            proof {
                assert(env_key(Setting::MqttPassword) == key@);
            }
            Some(Setting::MqttPassword)
        } else if same_text(key, MQTT_CA_CERT_PATH_ENV_KEY) {
            proof {
                assert(env_key(Setting::MqttCaCertPath) == key@);
            }
            Some(Setting::MqttCaCertPath)
        } else if same_text(key, RABBITMQ_HOST_ENV_KEY) {
            proof {
                assert(env_key(Setting::RabbitMqHost) == key@);
            }
            Some(Setting::RabbitMqHost)
        } else if same_text(key, RABBITMQ_PORT_ENV_KEY) {
            proof {
                assert(env_key(Setting::RabbitMqPort) == key@);
            }
            Some(Setting::RabbitMqPort)
        } else if same_text(key, RABBITMQ_USER_ENV_KEY) {
            proof {
                assert(env_key(Setting::RabbitMqUser) == key@);
            }
            Some(Setting::RabbitMqUser)
        } else if same_text(key, RABBITMQ_PASSWORD_ENV_KEY) {
            proof {
                assert(env_key(Setting::RabbitMqPassword) == key@);
            }
            Some(Setting::RabbitMqPassword)
        } else if same_text(key, RABBITMQ_VHOST_ENV_KEY) {
            proof {
                assert(env_key(Setting::RabbitMqVhost) == key@);
            }
            Some(Setting::RabbitMqVhost)
        } else if same_text(key, ENABLE_TRACES_ENV_KEY) {
            proof {
                assert(env_key(Setting::TraceEnable) == key@);
            }
            Some(Setting::TraceEnable)
        } else if same_text(key, TRACE_HOST_ENV_KEY) {
            proof {
                assert(env_key(Setting::TraceHost) == key@);
            }
            Some(Setting::TraceHost)
        } else if same_text(key, TRACE_ACCESS_KEY_ENV_KEY) {
            proof {
                assert(env_key(Setting::TraceKey) == key@);
            }
            Some(Setting::TraceKey)
        } else if same_text(key, TRACE_SERVICE_TYPE_ENV_KEY) {
            proof {
                assert(env_key(Setting::TraceServiceType) == key@);
            }
            Some(Setting::TraceServiceType)
        } else if same_text(key, TRACE_EXPORT_TIMEOUT_ENV_KEY) {
            proof {
                assert(env_key(Setting::TraceExportTimeout) == key@);
            }
            Some(Setting::TraceExportTimeout)
        } else if same_text(key, TRACE_EXPORT_RATE_BASE_ENV_KEY) {
            proof {
                assert(env_key(Setting::TraceExportRateBase) == key@);
            }
            Some(Setting::TraceExportRateBase)
        } else if same_text(key, ENABLE_METRICS_ENV_KEY) {
            proof {
                assert(env_key(Setting::MetricEnable) == key@);
            }
            Some(Setting::MetricEnable)
        } else if same_text(key, METRIC_HOST_ENV_KEY) {
            proof {
                assert(env_key(Setting::MetricHost) == key@);
            }
            Some(Setting::MetricHost)
        } else if same_text(key, METRIC_ACCESS_KEY_ENV_KEY) {
            proof {
                assert(env_key(Setting::MetricKey) == key@);
            }
            Some(Setting::MetricKey)
        } else if same_text(key, METRIC_SERVICE_TYPE_ENV_KEY) {
            proof {
                assert(env_key(Setting::MetricServiceType) == key@);
            }
            Some(Setting::MetricServiceType)
        } else if same_text(key, METRIC_EXPORT_TIMEOUT_ENV_KEY) {
            proof {
                assert(env_key(Setting::MetricExportTimeout) == key@);
            }
            Some(Setting::MetricExportTimeout)
        } else if same_text(key, METRIC_EXPORT_RATE_BASE_ENV_KEY) {
            proof {
                assert(env_key(Setting::MetricExportRateBase) == key@);
            }
            Some(Setting::MetricExportRateBase)
        } else if same_text(key, POSTGRES_HOST_ENV_KEY) {
            proof {
                assert(env_key(Setting::PostgresHost) == key@);
            }
            Some(Setting::PostgresHost)
        } else if same_text(key, POSTGRES_USER_ENV_KEY) {
            proof {
                assert(env_key(Setting::PostgresUser) == key@);
            }
            Some(Setting::PostgresUser)
        } else if same_text(key, POSTGRES_PASSWORD_ENV_KEY) {
            proof {
                assert(env_key(Setting::PostgresPassword) == key@);
            }
            Some(Setting::PostgresPassword)
        } else if same_text(key, POSTGRES_PORT_ENV_KEY) {
            proof {
                assert(env_key(Setting::PostgresPort) == key@);
            }
            Some(Setting::PostgresPort)
        } else if same_text(key, POSTGRES_DB_ENV_KEY) {
            proof {
                assert(env_key(Setting::PostgresDb) == key@);
            }
            Some(Setting::PostgresDb)
        } else if same_text(key, DYNAMO_ENDPOINT_ENV_KEY) {
            proof {
                assert(env_key(Setting::DynamoEndpoint) == key@);
            }
            Some(Setting::DynamoEndpoint)
        } else if same_text(key, DYNAMO_TABLE_ENV_KEY) {
            proof {
                assert(env_key(Setting::DynamoTable) == key@);
            }
            Some(Setting::DynamoTable)
        } else if same_text(key, DYNAMO_REGION_ENV_KEY) {
            proof {
                assert(env_key(Setting::DynamoRegion) == key@);
            }
            Some(Setting::DynamoRegion)
        } else if same_text(key, DYNAMO_EXPIRE_ENV_KEY) {
            proof {
                assert(env_key(Setting::DynamoExpire) == key@);
            }
            Some(Setting::DynamoExpire)
        } else if same_text(key, AWS_IAM_ACCESS_KEY_ID) {
            proof {
                assert(env_key(Setting::AwsAccessKeyId) == key@);
            }
            Some(Setting::AwsAccessKeyId)
        } else if same_text(key, AWS_IAM_SECRET_ACCESS_KEY) {
            proof {
                assert(env_key(Setting::AwsSecretAccessKey) == key@);
            }
            Some(Setting::AwsSecretAccessKey)
        } else if same_text(key, HEALTH_READINESS_PORT_ENV_KEY) {
            proof {
                assert(env_key(Setting::HealthPort) == key@);
            }
            Some(Setting::HealthPort)
        } else if same_text(key, ENABLE_HEALTH_READINESS_ENV_KEY) {
            proof {
                assert(env_key(Setting::HealthEnable) == key@);
            }
            Some(Setting::HealthEnable)
        } else if same_text(key, SQLITE_FILE_NAME_ENV_KEY) {
            proof {
                assert(env_key(Setting::SqliteFile) == key@);
            }
            Some(Setting::SqliteFile)
        } else if same_text(key, SQLITE_USER_ENV_KEY) {
            proof {
                assert(env_key(Setting::SqliteUser) == key@);
            }
            Some(Setting::SqliteUser)
        } else if same_text(key, SQLITE_PASSWORD_ENV_KEY) {
            proof {
                assert(env_key(Setting::SqlitePassword) == key@);
            }
            Some(Setting::SqlitePassword)
        } else {
            None
        }
    }

    /// The section that the setting belongs to.
    pub fn section(self) -> (section: Section)
        ensures
            section == section_of(self),
    {
        match self {
            Setting::Auth0Domain
            | Setting::Auth0Audience
            | Setting::Auth0Issuer
            | Setting::Auth0GrantType
            | Setting::Auth0ClientId
            | Setting::Auth0ClientSecret => Section::Auth0,
            Setting::MqttBrokerKind
            | Setting::MqttHost
            | Setting::MqttTransport
            | Setting::MqttPort
            | Setting::MqttUser
            | Setting::MqttPassword
            | Setting::MqttCaCertPath => Section::Mqtt,
            Setting::RabbitMqHost
            | Setting::RabbitMqPort
            | Setting::RabbitMqUser
            | Setting::RabbitMqPassword
            | Setting::RabbitMqVhost => Section::RabbitMq,
            Setting::TraceEnable
            | Setting::TraceHost
            | Setting::TraceKey
            | Setting::TraceServiceType
            | Setting::TraceExportTimeout
            | Setting::TraceExportRateBase => Section::Trace,
            Setting::MetricEnable
            | Setting::MetricHost
            | Setting::MetricKey
            | Setting::MetricServiceType
            | Setting::MetricExportTimeout
            | Setting::MetricExportRateBase => Section::Metric,
            Setting::PostgresHost
            | Setting::PostgresUser
            | Setting::PostgresPassword
            | Setting::PostgresPort
            | Setting::PostgresDb => Section::Postgres,
            Setting::DynamoEndpoint
            | Setting::DynamoTable
            | Setting::DynamoRegion
            | Setting::DynamoExpire => Section::Dynamo,
            Setting::AwsAccessKeyId
            | Setting::AwsSecretAccessKey => Section::Aws,
            Setting::HealthPort
            | Setting::HealthEnable => Section::Health,
            Setting::SqliteFile
            | Setting::SqliteUser
            | Setting::SqlitePassword => Section::Sqlite,
        }
    }
}

/// A flag is on where the text is `true` and off where it is `false`, whatever stands
/// in for it; any other text, and no text, leave what stands in for it.
pub proof fn law_flags_are_as_written(otherwise: bool, text: Seq<char>)
    ensures
        interpreted(Value::Flag(otherwise), Some(seq!['t', 'r', 'u', 'e'])) == Value::Flag(true),
        interpreted(Value::Flag(otherwise), Some(seq!['f', 'a', 'l', 's', 'e'])) == Value::Flag(
            false,
        ),
        interpreted(Value::Flag(otherwise), Some("true"@)) == Value::Flag(true),
        interpreted(Value::Flag(otherwise), Some("false"@)) == Value::Flag(false),
        text != seq!['t', 'r', 'u', 'e'] && text != seq!['f', 'a', 'l', 's', 'e'] ==> interpreted(
            Value::Flag(otherwise),
            Some(text),
        ) == Value::Flag(otherwise),
        interpreted(Value::Flag(otherwise), None) == Value::Flag(otherwise),
{
    reveal_strlit("true");
    reveal_strlit("false");
    assert("true"@ =~= seq!['t', 'r', 'u', 'e']);
    assert("false"@ =~= seq!['f', 'a', 'l', 's', 'e']);
    law_flags_are_two_words(text);
    law_flags_are_two_words("true"@);
    law_flags_are_two_words("false"@);
}

/// A number is the one that the text denotes, whatever stands in for it; a text that
/// denotes none, and no text, leave what stands in for it.
pub proof fn law_numbers_are_as_written(otherwise: u64, text: Seq<char>)
    ensures
        interpreted(Value::Number(otherwise), Some(text)) == Value::Number(
            match number_in(text) {
                Some(number) => number,
                None => otherwise,
            },
        ),
        interpreted(Value::Number(otherwise), None) == Value::Number(otherwise),
{
}

/// A text is kept as it is, whatever stands in for it and whatever it says; no text
/// leaves what stands in for it.
pub proof fn law_texts_are_as_written(
    otherwise: Seq<char>,
    chosen: Option<Seq<char>>,
    rate: RateView,
    text: Seq<char>,
)
    ensures
        interpreted(Value::Text(otherwise), Some(text)) == Value::Text(text),
        interpreted(Value::Text(otherwise), None) == Value::Text(otherwise),
        interpreted(Value::Chosen(chosen), Some(text)) == Value::Chosen(Some(text)),
        interpreted(Value::Chosen(chosen), None) == Value::Chosen(chosen),
        interpreted(Value::Rate(rate), Some(text)) == Value::Rate(RateView::Given(text)),
        interpreted(Value::Rate(rate), None) == Value::Rate(rate),
{
}

} // verus!
