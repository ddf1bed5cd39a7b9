//! The configuration of a service.

#[allow(unused_imports)]
use crate::settings::{fallback, interpreted, Setting, Value};
use crate::settings::{Rate, RateView};
use vstd::prelude::*;

verus! {

/// Where the service runs.
#[derive(Clone, Copy, Debug, PartialEq, Eq, Structural)]
pub enum Environment {
    /// On a developer's machine, or anywhere not listed below.
    Local,
    Dev,
    Staging,
    Prod,
}

/// Where secrets are kept.
#[derive(Clone, Copy, Debug, PartialEq, Eq, Structural)]
pub enum SecretsManagerKind {
    /// Nowhere.
    Disabled,
    /// In the secret manager of the cloud provider.
    AWSSecretManager,
}

/// The service itself.
#[derive(Debug, PartialEq, Eq)]
pub struct AppConfigs {
    pub enable_external_creates_logging: bool,
    pub env: Environment,
    pub host: String,
    pub log_level: String,
    pub name: String,
    pub port: u64,
    pub secret_key: String,
    pub secret_manager: SecretsManagerKind,
}

/// The account with the identity provider.
#[derive(Debug, PartialEq, Eq)]
pub struct Auth0Configs {
    pub domain: String,
    pub audience: String,
    pub issuer: String,
    pub grant_type: String,
    pub client_id: String,
    pub client_secret: String,
}

/// The MQTT broker.
#[derive(Debug, PartialEq, Eq)]
pub struct MQTTConfigs {
    /// The name of the kind of broker, where one was chosen.
    pub broker_kind: Option<String>,
    pub host: String,
    /// The name of the transport, where one was chosen.
    pub transport: Option<String>,
    pub port: u64,
    pub user: String,
    pub password: String,
    pub root_ca_path: String,
}

/// The RabbitMQ broker.
#[derive(Debug, PartialEq, Eq)]
pub struct RabbitMQConfigs {
    pub host: String,
    pub port: u64,
    pub user: String,
    pub password: String,
    pub vhost: String,
}

/// The export of traces.
#[derive(Debug, PartialEq, Eq)]
pub struct TraceConfigs {
    pub enable: bool,
    pub host: String,
    pub key: String,
    pub service_type: String,
    pub export_timeout: u64,
    pub export_rate_base: Rate,
}

/// The export of metrics.
#[derive(Debug, PartialEq, Eq)]
pub struct MetricConfigs {
    pub enable: bool,
    pub host: String,
    pub key: String,
    pub service_type: String,
    pub export_timeout: u64,
    pub export_rate_base: Rate,
}

/// The PostgreSQL database.
#[derive(Debug, PartialEq, Eq)]
pub struct PostgresConfigs {
    pub host: String,
    pub user: String,
    pub password: String,
    pub port: u64,
    pub db: String,
}

/// The DynamoDB table.
#[derive(Debug, PartialEq, Eq)]
pub struct DynamoConfigs {
    pub endpoint: String,
    pub table: String,
    pub region: String,
    pub expire: u64,
}

/// The account with the cloud provider.
#[derive(Debug, PartialEq, Eq)]
pub struct AwsConfigs {
    pub access_key_id: Option<String>,
    pub secret_access_key: Option<String>,
}

/// The endpoint that answers health checks.
#[derive(Debug, PartialEq, Eq)]
pub struct HealthReadinessConfigs {
    pub port: u64,
    pub enable: bool,
}

/// The SQLite database.
#[derive(Debug, PartialEq, Eq)]
pub struct SqliteConfigs {
    pub file: String,
    pub user: String,
    pub password: String,
}

/// The configuration. `dynamic` is the service's own part, which nothing here
/// looks at.
#[derive(Debug, PartialEq, Eq)]
pub struct Configs<T> {
    pub app: AppConfigs,
    /// The time between two messages of one batch, in milliseconds.
    pub multiple_message_timer: u64,
    pub auth0: Auth0Configs,
    pub mqtt: MQTTConfigs,
    pub rabbitmq: RabbitMQConfigs,
    pub trace: TraceConfigs,
    pub metric: MetricConfigs,
    pub postgres: PostgresConfigs,
    pub dynamo: DynamoConfigs,
    pub aws: AwsConfigs,
    pub health_readiness: HealthReadinessConfigs,
    pub sqlite: SqliteConfigs,
    pub dynamic: T,
}

/// A text that may be missing, as a sequence of characters.
pub open spec fn optional_text(text: Option<String>) -> Option<Seq<char>> {
    match text {
        Some(t) => Some(t@),
        None => None,
    }
}

/// The value that a setting has before it is filled.
pub open spec fn blank(setting: Setting) -> Value {
    match fallback(setting) {
        Value::Flag(_) => Value::Flag(false),
        Value::Number(_) => Value::Number(0),
        Value::Text(_) => Value::Text(Seq::<char>::empty()),
        Value::Chosen(_) => Value::Chosen(None),
        Value::Rate(_) => Value::Rate(RateView::Unset),
    }
}

impl<T> Configs<T> {
    /// The value of a setting.
    pub open spec fn read(&self, setting: Setting) -> Value {
        match setting {
            Setting::Auth0Domain => Value::Text(self.auth0.domain@),
            Setting::Auth0Audience => Value::Text(self.auth0.audience@),
            Setting::Auth0Issuer => Value::Text(self.auth0.issuer@),
            Setting::Auth0GrantType => Value::Text(self.auth0.grant_type@),
            Setting::Auth0ClientId => Value::Text(self.auth0.client_id@),
            Setting::Auth0ClientSecret => Value::Text(self.auth0.client_secret@),
            Setting::MqttBrokerKind => Value::Chosen(optional_text(self.mqtt.broker_kind)),
            Setting::MqttHost => Value::Text(self.mqtt.host@),
            Setting::MqttTransport => Value::Chosen(optional_text(self.mqtt.transport)),
            Setting::MqttPort => Value::Number(self.mqtt.port),
            Setting::MqttUser => Value::Text(self.mqtt.user@),
            Setting::MqttPassword => Value::Text(self.mqtt.password@),
            Setting::MqttCaCertPath => Value::Text(self.mqtt.root_ca_path@),
            Setting::RabbitMqHost => Value::Text(self.rabbitmq.host@),
            Setting::RabbitMqPort => Value::Number(self.rabbitmq.port),
            Setting::RabbitMqUser => Value::Text(self.rabbitmq.user@),
            Setting::RabbitMqPassword => Value::Text(self.rabbitmq.password@),
            Setting::RabbitMqVhost => Value::Text(self.rabbitmq.vhost@),
            Setting::TraceEnable => Value::Flag(self.trace.enable),
            Setting::TraceHost => Value::Text(self.trace.host@),
            Setting::TraceKey => Value::Text(self.trace.key@),
            Setting::TraceServiceType => Value::Text(self.trace.service_type@),
            Setting::TraceExportTimeout => Value::Number(self.trace.export_timeout),
            Setting::TraceExportRateBase => Value::Rate(self.trace.export_rate_base@),
            Setting::MetricEnable => Value::Flag(self.metric.enable),
            Setting::MetricHost => Value::Text(self.metric.host@),
            Setting::MetricKey => Value::Text(self.metric.key@),
            Setting::MetricServiceType => Value::Text(self.metric.service_type@),
            Setting::MetricExportTimeout => Value::Number(self.metric.export_timeout),
            Setting::MetricExportRateBase => Value::Rate(self.metric.export_rate_base@),
            Setting::PostgresHost => Value::Text(self.postgres.host@),
            Setting::PostgresUser => Value::Text(self.postgres.user@),
            Setting::PostgresPassword => Value::Text(self.postgres.password@),
            Setting::PostgresPort => Value::Number(self.postgres.port),
            Setting::PostgresDb => Value::Text(self.postgres.db@),
            Setting::DynamoEndpoint => Value::Text(self.dynamo.endpoint@),
            Setting::DynamoTable => Value::Text(self.dynamo.table@),
            Setting::DynamoRegion => Value::Text(self.dynamo.region@),
            Setting::DynamoExpire => Value::Number(self.dynamo.expire),
            Setting::AwsAccessKeyId => Value::Chosen(optional_text(self.aws.access_key_id)),
            Setting::AwsSecretAccessKey => Value::Chosen(optional_text(self.aws.secret_access_key)),
            Setting::HealthPort => Value::Number(self.health_readiness.port),
            Setting::HealthEnable => Value::Flag(self.health_readiness.enable),
            Setting::SqliteFile => Value::Text(self.sqlite.file@),
            Setting::SqliteUser => Value::Text(self.sqlite.user@),
            Setting::SqlitePassword => Value::Text(self.sqlite.password@),
        }
    }

    /// Whether what environment variables do not fill one by one is as it was: the
    /// service's description, the message timer and the service's own part.
    pub open spec fn same_frame(&self, before: &Self) -> bool {
        &&& self.app == before.app
        &&& self.multiple_message_timer == before.multiple_message_timer
        &&& self.dynamic == before.dynamic
    }

    /// A configuration in which nothing is filled.
    pub fn new(dynamic: T) -> (cfg: Self)
        ensures
            forall|setting: Setting| #[trigger] cfg.read(setting) == blank(setting),
            cfg.dynamic == dynamic,
            cfg.multiple_message_timer == 0,
            !cfg.app.enable_external_creates_logging,
            cfg.app.env == Environment::Local,
            cfg.app.host@.len() == 0,
            cfg.app.log_level@.len() == 0,
            cfg.app.name@.len() == 0,
            cfg.app.port == 0,
            cfg.app.secret_key@.len() == 0,
            cfg.app.secret_manager == SecretsManagerKind::Disabled,
    {
        Configs {
            app: AppConfigs {
                enable_external_creates_logging: false,
                env: Environment::Local,
                host: String::new(),
                log_level: String::new(),
                name: String::new(),
                port: 0,
                secret_key: String::new(),
                secret_manager: SecretsManagerKind::Disabled,
            },
            multiple_message_timer: 0,
            auth0: Auth0Configs {
                domain: String::new(),
                audience: String::new(),
                issuer: String::new(),
                grant_type: String::new(),
                client_id: String::new(),
                client_secret: String::new(),
            },
            mqtt: MQTTConfigs {
                broker_kind: None,
                host: String::new(),
                transport: None,
                port: 0,
                user: String::new(),
                password: String::new(),
                root_ca_path: String::new(),
            },
            rabbitmq: RabbitMQConfigs {
                host: String::new(),
                port: 0,
                user: String::new(),
                password: String::new(),
                vhost: String::new(),
            },
            trace: TraceConfigs {
                enable: false,
                host: String::new(),
                key: String::new(),
                service_type: String::new(),
                export_timeout: 0,
                export_rate_base: Rate::Unset,
            },
            metric: MetricConfigs {
                enable: false,
                host: String::new(),
                key: String::new(),
                service_type: String::new(),
                export_timeout: 0,
                export_rate_base: Rate::Unset,
            },
            postgres: PostgresConfigs {
                host: String::new(),
                user: String::new(),
                password: String::new(),
                port: 0,
                db: String::new(),
            },
            dynamo: DynamoConfigs {
                endpoint: String::new(),
                table: String::new(),
                region: String::new(),
                expire: 0,
            },
            aws: AwsConfigs {
                access_key_id: None,
                secret_access_key: None,
            },
            health_readiness: HealthReadinessConfigs {
                port: 0,
                enable: false,
            },
            sqlite: SqliteConfigs {
                file: String::new(),
                user: String::new(),
                password: String::new(),
            },
            dynamic,
        }
    }
}

/// Whether `after` is `before` with one setting filled from a text, and nothing
/// else changed.
pub open spec fn filled_from<T>(
    before: Configs<T>,
    after: Configs<T>,
    setting: Setting,
    text: Option<Seq<char>>,
) -> bool {
    &&& after.read(setting) == interpreted(fallback(setting), text)
    &&& forall|other: Setting|
        other != setting ==> #[trigger] after.read(other) == before.read(other)
    &&& after.same_frame(&before)
}

/// Configurations whose settings read the same hold the same in every field that a
/// variable fills.
pub proof fn law_settings_are_the_fields<T>(a: Configs<T>, b: Configs<T>)
    requires
        forall|setting: Setting| #[trigger] a.read(setting) == b.read(setting),
    ensures
        a.auth0.domain@ == b.auth0.domain@,
        a.auth0.audience@ == b.auth0.audience@,
        a.auth0.issuer@ == b.auth0.issuer@,
        a.auth0.grant_type@ == b.auth0.grant_type@,
        a.auth0.client_id@ == b.auth0.client_id@,
        a.auth0.client_secret@ == b.auth0.client_secret@,
        match (a.mqtt.broker_kind, b.mqtt.broker_kind) {
            (Some(one), Some(other)) => one@ == other@,
            (None, None) => true,
            _ => false,
        },
        a.mqtt.host@ == b.mqtt.host@,
        match (a.mqtt.transport, b.mqtt.transport) {
            (Some(one), Some(other)) => one@ == other@,
            (None, None) => true,
            _ => false,
        },
        a.mqtt.port == b.mqtt.port,
        a.mqtt.user@ == b.mqtt.user@,
        a.mqtt.password@ == b.mqtt.password@,
        a.mqtt.root_ca_path@ == b.mqtt.root_ca_path@,
        a.rabbitmq.host@ == b.rabbitmq.host@,
        a.rabbitmq.port == b.rabbitmq.port,
        a.rabbitmq.user@ == b.rabbitmq.user@,
        a.rabbitmq.password@ == b.rabbitmq.password@,
        a.rabbitmq.vhost@ == b.rabbitmq.vhost@,
        a.trace.enable == b.trace.enable,
        a.trace.host@ == b.trace.host@,
        a.trace.key@ == b.trace.key@,
        a.trace.service_type@ == b.trace.service_type@,
        a.trace.export_timeout == b.trace.export_timeout,
        match (a.trace.export_rate_base, b.trace.export_rate_base) {
            (Rate::Given(one), Rate::Given(other)) => one@ == other@,
            (Rate::Fallback, Rate::Fallback) => true,
            (Rate::Unset, Rate::Unset) => true,
            _ => false,
        },
        a.metric.enable == b.metric.enable,
        a.metric.host@ == b.metric.host@,
        a.metric.key@ == b.metric.key@,
        a.metric.service_type@ == b.metric.service_type@,
        a.metric.export_timeout == b.metric.export_timeout,
        match (a.metric.export_rate_base, b.metric.export_rate_base) {
            (Rate::Given(one), Rate::Given(other)) => one@ == other@,
            (Rate::Fallback, Rate::Fallback) => true,
            (Rate::Unset, Rate::Unset) => true,
            _ => false,
        },
        a.postgres.host@ == b.postgres.host@,
        a.postgres.user@ == b.postgres.user@,
        a.postgres.password@ == b.postgres.password@,
        a.postgres.port == b.postgres.port,
        a.postgres.db@ == b.postgres.db@,
        a.dynamo.endpoint@ == b.dynamo.endpoint@,
        a.dynamo.table@ == b.dynamo.table@,
        a.dynamo.region@ == b.dynamo.region@,
        a.dynamo.expire == b.dynamo.expire,
        match (a.aws.access_key_id, b.aws.access_key_id) {
            (Some(one), Some(other)) => one@ == other@,
            (None, None) => true,
            _ => false,
        },
        match (a.aws.secret_access_key, b.aws.secret_access_key) {
            (Some(one), Some(other)) => one@ == other@,
            (None, None) => true,
            _ => false,
        },
        a.health_readiness.port == b.health_readiness.port,
        a.health_readiness.enable == b.health_readiness.enable,
        a.sqlite.file@ == b.sqlite.file@,
        a.sqlite.user@ == b.sqlite.user@,
        a.sqlite.password@ == b.sqlite.password@,
{
    assert(a.read(Setting::Auth0Domain) == b.read(Setting::Auth0Domain));
    assert(a.read(Setting::Auth0Audience) == b.read(Setting::Auth0Audience));
    assert(a.read(Setting::Auth0Issuer) == b.read(Setting::Auth0Issuer));
    assert(a.read(Setting::Auth0GrantType) == b.read(Setting::Auth0GrantType));
    assert(a.read(Setting::Auth0ClientId) == b.read(Setting::Auth0ClientId));
    assert(a.read(Setting::Auth0ClientSecret) == b.read(Setting::Auth0ClientSecret));
    assert(a.read(Setting::MqttBrokerKind) == b.read(Setting::MqttBrokerKind));
    assert(a.read(Setting::MqttHost) == b.read(Setting::MqttHost));
    assert(a.read(Setting::MqttTransport) == b.read(Setting::MqttTransport));
    assert(a.read(Setting::MqttPort) == b.read(Setting::MqttPort));
    assert(a.read(Setting::MqttUser) == b.read(Setting::MqttUser));
    assert(a.read(Setting::MqttPassword) == b.read(Setting::MqttPassword));
    assert(a.read(Setting::MqttCaCertPath) == b.read(Setting::MqttCaCertPath));
    assert(a.read(Setting::RabbitMqHost) == b.read(Setting::RabbitMqHost));
    assert(a.read(Setting::RabbitMqPort) == b.read(Setting::RabbitMqPort));
    assert(a.read(Setting::RabbitMqUser) == b.read(Setting::RabbitMqUser));
    assert(a.read(Setting::RabbitMqPassword) == b.read(Setting::RabbitMqPassword));
    assert(a.read(Setting::RabbitMqVhost) == b.read(Setting::RabbitMqVhost));
    assert(a.read(Setting::TraceEnable) == b.read(Setting::TraceEnable));
    assert(a.read(Setting::TraceHost) == b.read(Setting::TraceHost));
    assert(a.read(Setting::TraceKey) == b.read(Setting::TraceKey));
    assert(a.read(Setting::TraceServiceType) == b.read(Setting::TraceServiceType));
    assert(a.read(Setting::TraceExportTimeout) == b.read(Setting::TraceExportTimeout));
    assert(a.read(Setting::TraceExportRateBase) == b.read(Setting::TraceExportRateBase));
    assert(a.read(Setting::MetricEnable) == b.read(Setting::MetricEnable));
    assert(a.read(Setting::MetricHost) == b.read(Setting::MetricHost));
    assert(a.read(Setting::MetricKey) == b.read(Setting::MetricKey));
    assert(a.read(Setting::MetricServiceType) == b.read(Setting::MetricServiceType));
    assert(a.read(Setting::MetricExportTimeout) == b.read(Setting::MetricExportTimeout));
    assert(a.read(Setting::MetricExportRateBase) == b.read(Setting::MetricExportRateBase));
    assert(a.read(Setting::PostgresHost) == b.read(Setting::PostgresHost));
    assert(a.read(Setting::PostgresUser) == b.read(Setting::PostgresUser));
    assert(a.read(Setting::PostgresPassword) == b.read(Setting::PostgresPassword));
    assert(a.read(Setting::PostgresPort) == b.read(Setting::PostgresPort));
    assert(a.read(Setting::PostgresDb) == b.read(Setting::PostgresDb));
    assert(a.read(Setting::DynamoEndpoint) == b.read(Setting::DynamoEndpoint));
    assert(a.read(Setting::DynamoTable) == b.read(Setting::DynamoTable));
    assert(a.read(Setting::DynamoRegion) == b.read(Setting::DynamoRegion));
    assert(a.read(Setting::DynamoExpire) == b.read(Setting::DynamoExpire));
    assert(a.read(Setting::AwsAccessKeyId) == b.read(Setting::AwsAccessKeyId));
    assert(a.read(Setting::AwsSecretAccessKey) == b.read(Setting::AwsSecretAccessKey));
    assert(a.read(Setting::HealthPort) == b.read(Setting::HealthPort));
    assert(a.read(Setting::HealthEnable) == b.read(Setting::HealthEnable));
    assert(a.read(Setting::SqliteFile) == b.read(Setting::SqliteFile));
    assert(a.read(Setting::SqliteUser) == b.read(Setting::SqliteUser));
    assert(a.read(Setting::SqlitePassword) == b.read(Setting::SqlitePassword));
}

/// Where nothing is filled, the texts are empty, the numbers zero and the flags off,
/// and nothing is chosen.
pub proof fn law_nothing_is_filled<T>(cfg: Configs<T>)
    requires
        forall|setting: Setting| #[trigger] cfg.read(setting) == blank(setting),
    ensures
        cfg.auth0.domain@.len() == 0,
        cfg.auth0.audience@.len() == 0,
        cfg.auth0.issuer@.len() == 0,
        cfg.auth0.grant_type@.len() == 0,
        cfg.auth0.client_id@.len() == 0,
        cfg.auth0.client_secret@.len() == 0,
        cfg.mqtt.broker_kind is None,
        cfg.mqtt.host@.len() == 0,
        cfg.mqtt.transport is None,
        cfg.mqtt.port == 0,
        cfg.mqtt.user@.len() == 0,
        cfg.mqtt.password@.len() == 0,
        cfg.mqtt.root_ca_path@.len() == 0,
        cfg.rabbitmq.host@.len() == 0,
        cfg.rabbitmq.port == 0,
        cfg.rabbitmq.user@.len() == 0,
        cfg.rabbitmq.password@.len() == 0,
        cfg.rabbitmq.vhost@.len() == 0,
        !cfg.trace.enable,
        cfg.trace.host@.len() == 0,
        cfg.trace.key@.len() == 0,
        cfg.trace.service_type@.len() == 0,
        cfg.trace.export_timeout == 0,
        cfg.trace.export_rate_base is Unset,
        !cfg.metric.enable,
        cfg.metric.host@.len() == 0,
        cfg.metric.key@.len() == 0,
        cfg.metric.service_type@.len() == 0,
        cfg.metric.export_timeout == 0,
        cfg.metric.export_rate_base is Unset,
        cfg.postgres.host@.len() == 0,
        cfg.postgres.user@.len() == 0,
        cfg.postgres.password@.len() == 0,
        cfg.postgres.port == 0,
        cfg.postgres.db@.len() == 0,
        cfg.dynamo.endpoint@.len() == 0,
        cfg.dynamo.table@.len() == 0,
        cfg.dynamo.region@.len() == 0,
        cfg.dynamo.expire == 0,
        cfg.aws.access_key_id is None,
        cfg.aws.secret_access_key is None,
        cfg.health_readiness.port == 0,
        !cfg.health_readiness.enable,
        cfg.sqlite.file@.len() == 0,
        cfg.sqlite.user@.len() == 0,
        cfg.sqlite.password@.len() == 0,
{
    assert(cfg.read(Setting::Auth0Domain) == blank(Setting::Auth0Domain));
    assert(cfg.read(Setting::Auth0Audience) == blank(Setting::Auth0Audience));
    assert(cfg.read(Setting::Auth0Issuer) == blank(Setting::Auth0Issuer));
    assert(cfg.read(Setting::Auth0GrantType) == blank(Setting::Auth0GrantType));
    assert(cfg.read(Setting::Auth0ClientId) == blank(Setting::Auth0ClientId));
    assert(cfg.read(Setting::Auth0ClientSecret) == blank(Setting::Auth0ClientSecret));
    assert(cfg.read(Setting::MqttBrokerKind) == blank(Setting::MqttBrokerKind));
    assert(cfg.read(Setting::MqttHost) == blank(Setting::MqttHost));
    assert(cfg.read(Setting::MqttTransport) == blank(Setting::MqttTransport));
    assert(cfg.read(Setting::MqttPort) == blank(Setting::MqttPort));
    assert(cfg.read(Setting::MqttUser) == blank(Setting::MqttUser));
    assert(cfg.read(Setting::MqttPassword) == blank(Setting::MqttPassword));
    assert(cfg.read(Setting::MqttCaCertPath) == blank(Setting::MqttCaCertPath));
    assert(cfg.read(Setting::RabbitMqHost) == blank(Setting::RabbitMqHost));
    assert(cfg.read(Setting::RabbitMqPort) == blank(Setting::RabbitMqPort));
    assert(cfg.read(Setting::RabbitMqUser) == blank(Setting::RabbitMqUser));
    assert(cfg.read(Setting::RabbitMqPassword) == blank(Setting::RabbitMqPassword));
    assert(cfg.read(Setting::RabbitMqVhost) == blank(Setting::RabbitMqVhost));
    assert(cfg.read(Setting::TraceEnable) == blank(Setting::TraceEnable));
    assert(cfg.read(Setting::TraceHost) == blank(Setting::TraceHost));
    assert(cfg.read(Setting::TraceKey) == blank(Setting::TraceKey));
    assert(cfg.read(Setting::TraceServiceType) == blank(Setting::TraceServiceType));
    assert(cfg.read(Setting::TraceExportTimeout) == blank(Setting::TraceExportTimeout));
    assert(cfg.read(Setting::TraceExportRateBase) == blank(Setting::TraceExportRateBase));
    assert(cfg.read(Setting::MetricEnable) == blank(Setting::MetricEnable));
    assert(cfg.read(Setting::MetricHost) == blank(Setting::MetricHost));
    assert(cfg.read(Setting::MetricKey) == blank(Setting::MetricKey));
    assert(cfg.read(Setting::MetricServiceType) == blank(Setting::MetricServiceType));
    assert(cfg.read(Setting::MetricExportTimeout) == blank(Setting::MetricExportTimeout));
    assert(cfg.read(Setting::MetricExportRateBase) == blank(Setting::MetricExportRateBase));
    assert(cfg.read(Setting::PostgresHost) == blank(Setting::PostgresHost));
    assert(cfg.read(Setting::PostgresUser) == blank(Setting::PostgresUser));
    assert(cfg.read(Setting::PostgresPassword) == blank(Setting::PostgresPassword));
    assert(cfg.read(Setting::PostgresPort) == blank(Setting::PostgresPort));
    assert(cfg.read(Setting::PostgresDb) == blank(Setting::PostgresDb));
    assert(cfg.read(Setting::DynamoEndpoint) == blank(Setting::DynamoEndpoint));
    assert(cfg.read(Setting::DynamoTable) == blank(Setting::DynamoTable));
    assert(cfg.read(Setting::DynamoRegion) == blank(Setting::DynamoRegion));
    assert(cfg.read(Setting::DynamoExpire) == blank(Setting::DynamoExpire));
    assert(cfg.read(Setting::AwsAccessKeyId) == blank(Setting::AwsAccessKeyId));
    assert(cfg.read(Setting::AwsSecretAccessKey) == blank(Setting::AwsSecretAccessKey));
    assert(cfg.read(Setting::HealthPort) == blank(Setting::HealthPort));
    assert(cfg.read(Setting::HealthEnable) == blank(Setting::HealthEnable));
    assert(cfg.read(Setting::SqliteFile) == blank(Setting::SqliteFile));
    assert(cfg.read(Setting::SqliteUser) == blank(Setting::SqliteUser));
    assert(cfg.read(Setting::SqlitePassword) == blank(Setting::SqlitePassword));
}

/// A text that is there is its characters.
pub proof fn law_optional_texts(text: String)
    ensures
        optional_text(Some(text)) == Some(text@),
        optional_text(None) is None,
{
}

} // verus!
