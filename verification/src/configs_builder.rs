//! The builder of the configuration: which sections it fills, how it reads the
//! value of an environment variable, and what it makes of the variables.

use crate::configs::{AppConfigs, Configs, Environment, SecretsManagerKind};
#[allow(unused_imports)]
use crate::configs::{filled_from, optional_text};
#[allow(unused_imports)]
use crate::encoding::base64_decoded;
use crate::encoding::{base64_decode, text_of_bytes};
use crate::env_keys::{AWS_DEFAULT_REGION, SECRET_PREFIX};
#[allow(unused_imports)]
use crate::settings::{
    env_key, fallback, interpreted, law_setting_named_by_its_variable, section_of, setting_named,
    RateView, Value,
};
use crate::settings::{Rate, Section, Setting};
#[allow(unused_imports)]
use crate::text::{law_one_digit_numbers, law_one_more_digit, number_in};
use crate::text::{parse_number, starts_with, FromText};
use vstd::prelude::*;
#[allow(unused_imports)]
use vstd::utf8::{decode_utf8, valid_utf8};

verus! {

/// An environment variable. `secret` is what the secret manager answers when it is
/// asked for the secret that the value names, if it has it.
#[derive(Debug, PartialEq, Eq)]
pub struct EnvVar {
    pub key: String,
    pub value: String,
    pub secret: Option<String>,
}

/// Whether the value of a variable names a secret instead of being the value.
pub open spec fn names_secret(value: Seq<char>) -> bool {
    SECRET_PREFIX@.is_prefix_of(value)
}

/// The text that the value of a variable stands for: itself, or the secret that it
/// names, if there is one.
pub open spec fn resolved(value: Seq<char>, secret: Option<String>) -> Option<Seq<char>> {
    if names_secret(value) {
        optional_text(secret)
    } else {
        Some(value)
    }
}

/// What filling does: the claimed setting is filled from the text that the value
/// stands for, and nothing else changes. Where nothing is claimed, nothing changes.
pub open spec fn fills<T>(
    before: Configs<T>,
    after: Configs<T>,
    claim: Option<Setting>,
    value: Seq<char>,
    secret: &Option<String>,
) -> bool {
    match claim {
        Some(setting) => filled_from(before, after, setting, resolved(value, *secret)),
        None => after == before,
    }
}

/// The builder of a configuration: the set of sections that it fills.
#[derive(Debug)]
pub struct ConfigBuilder {
    mqtt: bool,
    rabbitmq: bool,
    postgres: bool,
    sqlite: bool,
    aws: bool,
    dynamo: bool,
    metric: bool,
    trace: bool,
    health: bool,
    auth0: bool,
}

impl ConfigBuilder {
    /// Whether the builder fills a section.
    pub closed spec fn enables(&self, section: Section) -> bool {
        match section {
            Section::Auth0 => self.auth0,
            Section::Mqtt => self.mqtt,
            Section::RabbitMq => self.rabbitmq,
            Section::Trace => self.trace,
            Section::Metric => self.metric,
            Section::Postgres => self.postgres,
            Section::Dynamo => self.dynamo,
            Section::Aws => self.aws,
            Section::Health => self.health,
            Section::Sqlite => self.sqlite,
        }
    }

    /// The setting that a variable fills, where the builder fills its section.
    pub open spec fn claim(&self, key: Seq<char>) -> Option<Setting> {
        match setting_named(key) {
            Some(setting) => if self.enables(section_of(setting)) {
                Some(setting)
            } else {
                None
            },
            None => None,
        }
    }

    /// The setting of one section that a variable fills, where the builder fills
    /// the section.
    pub open spec fn claim_in(&self, section: Section, key: Seq<char>) -> Option<Setting> {
        match self.claim(key) {
            Some(setting) => if section_of(setting) == section {
                Some(setting)
            } else {
                None
            },
            None => None,
        }
    }

    /// What a setting holds once the variables were gone through in order.
    pub open spec fn value_after(
        &self,
        before: Value,
        setting: Setting,
        vars: Seq<EnvVar>,
    ) -> Value {
        match last_of(vars, env_key(setting)) {
            Some(var) => if self.enables(section_of(setting)) {
                interpreted(fallback(setting), resolved(var.value@, var.secret))
            } else {
                before
            },
            None => before,
        }
    }

    /// A builder that fills no section.
    pub fn new() -> (builder: ConfigBuilder)
        ensures
            forall|section: Section| !#[trigger] builder.enables(section),
    {
        ConfigBuilder::default()
    }

    /// Fills the section of the MQTT broker too.
    pub fn mqtt(self) -> (builder: Self)
        ensures
            forall|section: Section| #[trigger]
                builder.enables(section) == (section == Section::Mqtt || self.enables(section)),
    {
        let mut builder = self;
        builder.mqtt = true;
        builder
    }

    /// Fills the section of the RabbitMQ broker too.
    pub fn rabbitmq(self) -> (builder: Self)
        ensures
            forall|section: Section| #[trigger]
                builder.enables(section) == (section == Section::RabbitMq || self.enables(section)),
    {
        let mut builder = self;
        builder.rabbitmq = true;
        builder
    }

    /// Fills the section of the PostgreSQL database too.
    pub fn postgres(self) -> (builder: Self)
        ensures
            forall|section: Section| #[trigger]
                builder.enables(section) == (section == Section::Postgres || self.enables(section)),
    {
        let mut builder = self;
        builder.postgres = true;
        builder
    }

    /// Fills the section of the SQLite database too.
    pub fn sqlite(self) -> (builder: Self)
        ensures
            forall|section: Section| #[trigger]
                builder.enables(section) == (section == Section::Sqlite || self.enables(section)),
    {
        let mut builder = self;
        builder.sqlite = true;
        builder
    }

    /// Fills the section of the DynamoDB table too.
    pub fn dynamodb(self) -> (builder: Self)
        ensures
            forall|section: Section| #[trigger]
                builder.enables(section) == (section == Section::Dynamo || self.enables(section)),
    {
        let mut builder = self;
        builder.dynamo = true;
        builder
    }

    /// Fills the section of the account with the cloud provider too.
    pub fn aws(self) -> (builder: Self)
        ensures
            forall|section: Section| #[trigger]
                builder.enables(section) == (section == Section::Aws || self.enables(section)),
    {
        let mut builder = self;
        builder.aws = true;
        builder
    }

    /// Fills the section of the export of metrics too.
    pub fn metric(self) -> (builder: Self)
        ensures
            forall|section: Section| #[trigger]
                builder.enables(section) == (section == Section::Metric || self.enables(section)),
    {
        let mut builder = self;
        builder.metric = true;
        builder
    }

    /// Fills the section of the export of traces too.
    pub fn trace(self) -> (builder: Self)
        ensures
            forall|section: Section| #[trigger]
                builder.enables(section) == (section == Section::Trace || self.enables(section)),
    {
        let mut builder = self;
        builder.trace = true;
        builder
    }

    /// Fills the section of the health endpoint too.
    pub fn health(self) -> (builder: Self)
        ensures
            forall|section: Section| #[trigger]
                builder.enables(section) == (section == Section::Health || self.enables(section)),
    {
        let mut builder = self;
        builder.health = true;
        builder
    }

    /// Fills the section of the account with the identity provider too.
    pub fn auth0(self) -> (builder: Self)
        ensures
            forall|section: Section| #[trigger]
                builder.enables(section) == (section == Section::Auth0 || self.enables(section)),
    {
        let mut builder = self;
        builder.auth0 = true;
        builder
    }

    /// The text that the value of a variable stands for, read as a value of type
    /// `T`; `default` where there is no text or it cannot be read so.
    pub fn get_from_secret<T: FromText>(
        &self,
        value: &str,
        secret: &Option<String>,
        default: T,
    ) -> (read: T)
        ensures
            read@ == (match resolved(value@, *secret) {
                Some(text) => match T::denoted(text) {
                    Some(denoted) => denoted,
                    None => default@,
                },
                None => default@,
            }),
            value@.len() == 0 || value@[0] != '!' ==> read@ == (match T::denoted(value@) {
                Some(denoted) => denoted,
                None => default@,
            }),
            value@.len() > 0 && value@[0] == '!' ==> read@ == (match *secret {
                Some(hidden) => match T::denoted(hidden@) {
                    Some(denoted) => denoted,
                    None => default@,
                },
                None => default@,
            }),
    {
        proof {
            law_secrets_are_named_by_an_exclamation_mark(value@, *secret);
        }
        if !starts_with(value, SECRET_PREFIX) {
            return match T::from_text(value) {
                Some(read) => read,
                None => default,
            };
        }
        match secret {
            Some(text) => match T::from_text(text.as_str()) {
                Some(read) => read,
                None => default,
            },
            None => default,
        }
    }

    /// The text that the value of a variable stands for, as a rate.
    pub fn get_rate_from_secret(&self, value: &str, secret: &Option<String>) -> (rate: Rate)
        ensures
            rate@ == (match resolved(value@, *secret) {
                Some(text) => RateView::Given(text),
                None => RateView::Fallback,
            }),
            match rate {
                Rate::Given(text) => if value@.len() > 0 && value@[0] == '!' {
                    *secret matches Some(hidden) && text@ == hidden@
                } else {
                    text@ == value@
                },
                Rate::Fallback => value@.len() > 0 && value@[0] == '!' && *secret is None,
                Rate::Unset => false,
            },
    {
        proof {
            law_secrets_are_named_by_an_exclamation_mark(value@, *secret);
        }
        if !starts_with(value, SECRET_PREFIX) {
            return Rate::Given(value.to_owned());
        }
        match secret {
            Some(text) => Rate::Given(text.clone()),
            None => Rate::Fallback,
        }
    }

    /// Fills a setting of the account with the identity provider: see `fills`.
    /// Says whether the variable fills one.
    pub fn fill_auth0<T>(
        &self,
        cfg: &mut Configs<T>,
        key: &str,
        value: &str,
        secret: &Option<String>,
    ) -> (claimed: bool)
        ensures
            claimed == (self.claim_in(Section::Auth0, key@) is Some),
            fills(*old(cfg), *final(cfg), self.claim_in(Section::Auth0, key@), value@, secret),
    {
        if !self.auth0 {
            return false;
        }
        match Setting::named(key) {
            Some(Setting::Auth0Domain) => {
                cfg.auth0.domain = self.get_from_secret(value, secret, "localhost".to_owned());
                true
            },
            Some(Setting::Auth0Audience) => {
                cfg.auth0.audience = self.get_from_secret(value, secret, "localhost".to_owned());
                true
            },
            Some(Setting::Auth0Issuer) => {
                cfg.auth0.issuer = self.get_from_secret(value, secret, "localhost".to_owned());
                true
            },
            Some(Setting::Auth0GrantType) => {
                cfg.auth0.grant_type =
                    self.get_from_secret(value, secret, "client_credentials".to_owned());
                true
            },
            Some(Setting::Auth0ClientId) => {
                cfg.auth0.client_id = self.get_from_secret(value, secret, "".to_owned());
                true
            },
            Some(Setting::Auth0ClientSecret) => {
                cfg.auth0.client_secret = self.get_from_secret(value, secret, "".to_owned());
                true
            },
            _ => false,
        }
    }

    /// Fills a setting of the MQTT broker: see `fills`.
    /// Says whether the variable fills one.
    pub fn fill_mqtt<T>(
        &self,
        cfg: &mut Configs<T>,
        key: &str,
        value: &str,
        secret: &Option<String>,
    ) -> (claimed: bool)
        ensures
            claimed == (self.claim_in(Section::Mqtt, key@) is Some),
            fills(*old(cfg), *final(cfg), self.claim_in(Section::Mqtt, key@), value@, secret),
    {
        if !self.mqtt {
            return false;
        }
        match Setting::named(key) {
            Some(Setting::MqttBrokerKind) => {
                cfg.mqtt.broker_kind =
                    Some(self.get_from_secret(value, secret, "SELF_HOSTED".to_owned()));
                true
            },
            Some(Setting::MqttHost) => {
                cfg.mqtt.host = self.get_from_secret(value, secret, "localhost".to_owned());
                true
            },
            Some(Setting::MqttTransport) => {
                cfg.mqtt.transport = Some(self.get_from_secret(value, secret, "tcp".to_owned()));
                true
            },
            Some(Setting::MqttPort) => {
                cfg.mqtt.port = self.get_from_secret(value, secret, 1883u64);
                true
            },
            Some(Setting::MqttUser) => {
                cfg.mqtt.user = self.get_from_secret(value, secret, "mqtt".to_owned());
                true
            },
            Some(Setting::MqttPassword) => {
                cfg.mqtt.password = self.get_from_secret(value, secret, "password".to_owned());
                true
            },
            Some(Setting::MqttCaCertPath) => {
                cfg.mqtt.root_ca_path = self.get_from_secret(value, secret, "".to_owned());
                true
            },
            _ => false,
        }
    }

    /// Fills a setting of the RabbitMQ broker: see `fills`.
    /// Says whether the variable fills one.
    pub fn fill_rabbitmq<T>(
        &self,
        cfg: &mut Configs<T>,
        key: &str,
        value: &str,
        secret: &Option<String>,
    ) -> (claimed: bool)
        ensures
            claimed == (self.claim_in(Section::RabbitMq, key@) is Some),
            fills(*old(cfg), *final(cfg), self.claim_in(Section::RabbitMq, key@), value@, secret),
    {
        if !self.rabbitmq {
            return false;
        }
        match Setting::named(key) {
            Some(Setting::RabbitMqHost) => {
                cfg.rabbitmq.host = self.get_from_secret(value, secret, "localhost".to_owned());
                true
            },
            Some(Setting::RabbitMqPort) => {
                cfg.rabbitmq.port = self.get_from_secret(value, secret, 5672u64);
                true
            },
            Some(Setting::RabbitMqUser) => {
                cfg.rabbitmq.user = self.get_from_secret(value, secret, "guest".to_owned());
                true
            },
            Some(Setting::RabbitMqPassword) => {
                cfg.rabbitmq.password = self.get_from_secret(value, secret, "guest".to_owned());
                true
            },
            Some(Setting::RabbitMqVhost) => {
                cfg.rabbitmq.vhost = self.get_from_secret(value, secret, "".to_owned());
                true
            },
            _ => false,
        }
    }

    /// Fills a setting of the export of traces: see `fills`.
    /// Says whether the variable fills one.
    pub fn fill_trace<T>(
        &self,
        cfg: &mut Configs<T>,
        key: &str,
        value: &str,
        secret: &Option<String>,
    ) -> (claimed: bool)
        ensures
            claimed == (self.claim_in(Section::Trace, key@) is Some),
            fills(*old(cfg), *final(cfg), self.claim_in(Section::Trace, key@), value@, secret),
    {
        if !self.trace {
            return false;
        }
        match Setting::named(key) {
            Some(Setting::TraceEnable) => {
                cfg.trace.enable = self.get_from_secret(value, secret, false);
                true
            },
            Some(Setting::TraceHost) => {
                cfg.trace.host = self.get_from_secret(value, secret, "localhost".to_owned());
                true
            },
            Some(Setting::TraceKey) => {
                cfg.trace.key = self.get_from_secret(value, secret, "key".to_owned());
                true
            },
            Some(Setting::TraceServiceType) => {
                cfg.trace.service_type =
                    self.get_from_secret(value, secret, "service".to_owned());
                true
            },
            Some(Setting::TraceExportTimeout) => {
                cfg.trace.export_timeout = self.get_from_secret(value, secret, 30u64);
                true
            },
            Some(Setting::TraceExportRateBase) => {
                cfg.trace.export_rate_base = self.get_rate_from_secret(value, secret);
                true
            },
            _ => false,
        }
    }

    /// Fills a setting of the export of metrics: see `fills`.
    /// Says whether the variable fills one.
    pub fn fill_metric<T>(
        &self,
        cfg: &mut Configs<T>,
        key: &str,
        value: &str,
        secret: &Option<String>,
    ) -> (claimed: bool)
        ensures
            claimed == (self.claim_in(Section::Metric, key@) is Some),
            fills(*old(cfg), *final(cfg), self.claim_in(Section::Metric, key@), value@, secret),
    {
        if !self.metric {
            return false;
        }
        match Setting::named(key) {
            Some(Setting::MetricEnable) => {
                cfg.metric.enable = self.get_from_secret(value, secret, false);
                true
            },
            Some(Setting::MetricHost) => {
                cfg.metric.host = self.get_from_secret(value, secret, "localhost".to_owned());
                true
            },
            Some(Setting::MetricKey) => {
                cfg.metric.key = self.get_from_secret(value, secret, "key".to_owned());
                true
            },
            Some(Setting::MetricServiceType) => {
                cfg.metric.service_type =
                    self.get_from_secret(value, secret, "service".to_owned());
                true
            },
            Some(Setting::MetricExportTimeout) => {
                cfg.metric.export_timeout = self.get_from_secret(value, secret, 30u64);
                true
            },
            Some(Setting::MetricExportRateBase) => {
                cfg.metric.export_rate_base = self.get_rate_from_secret(value, secret);
                true
            },
            _ => false,
        }
    }

    /// Fills a setting of the PostgreSQL database: see `fills`.
    /// Says whether the variable fills one.
    pub fn fill_postgres<T>(
        &self,
        cfg: &mut Configs<T>,
        key: &str,
        value: &str,
        secret: &Option<String>,
    ) -> (claimed: bool)
        ensures
            claimed == (self.claim_in(Section::Postgres, key@) is Some),
            fills(*old(cfg), *final(cfg), self.claim_in(Section::Postgres, key@), value@, secret),
    {
        if !self.postgres {
            return false;
        }
        match Setting::named(key) {
            Some(Setting::PostgresHost) => {
                cfg.postgres.host = self.get_from_secret(value, secret, "localhost".to_owned());
                true
            },
            Some(Setting::PostgresUser) => {
                cfg.postgres.user = self.get_from_secret(value, secret, "postgres".to_owned());
                true
            },
            Some(Setting::PostgresPassword) => {
                cfg.postgres.password =
                    self.get_from_secret(value, secret, "postgres".to_owned());
                true
            },
            Some(Setting::PostgresPort) => {
                cfg.postgres.port = self.get_from_secret(value, secret, 5432u64);
                true
            },
            Some(Setting::PostgresDb) => {
                cfg.postgres.db = self.get_from_secret(value, secret, "hdr".to_owned());
                true
            },
            _ => false,
        }
    }

    /// Fills a setting of the DynamoDB table: see `fills`.
    /// Says whether the variable fills one.
    pub fn fill_dynamo<T>(
        &self,
        cfg: &mut Configs<T>,
        key: &str,
        value: &str,
        secret: &Option<String>,
    ) -> (claimed: bool)
        ensures
            claimed == (self.claim_in(Section::Dynamo, key@) is Some),
            fills(*old(cfg), *final(cfg), self.claim_in(Section::Dynamo, key@), value@, secret),
    {
        if !self.dynamo {
            return false;
        }
        match Setting::named(key) {
            Some(Setting::DynamoEndpoint) => {
                cfg.dynamo.endpoint = self.get_from_secret(value, secret, "localhost".to_owned());
                true
            },
            Some(Setting::DynamoTable) => {
                cfg.dynamo.table = self.get_from_secret(value, secret, "table".to_owned());
                true
            },
            Some(Setting::DynamoRegion) => {
                cfg.dynamo.region =
                    self.get_from_secret(value, secret, AWS_DEFAULT_REGION.to_owned());
                true
            },
            Some(Setting::DynamoExpire) => {
                cfg.dynamo.expire = self.get_from_secret(value, secret, 31536000u64);
                true
            },
            _ => false,
        }
    }

    /// Fills a setting of the account with the cloud provider: see `fills`.
    /// Says whether the variable fills one.
    pub fn fill_aws<T>(
        &self,
        cfg: &mut Configs<T>,
        key: &str,
        value: &str,
        secret: &Option<String>,
    ) -> (claimed: bool)
        ensures
            claimed == (self.claim_in(Section::Aws, key@) is Some),
            fills(*old(cfg), *final(cfg), self.claim_in(Section::Aws, key@), value@, secret),
    {
        if !self.aws {
            return false;
        }
        match Setting::named(key) {
            Some(Setting::AwsAccessKeyId) => {
                cfg.aws.access_key_id =
                    Some(self.get_from_secret(value, secret, "key".to_owned()));
                true
            },
            Some(Setting::AwsSecretAccessKey) => {
                cfg.aws.secret_access_key =
                    Some(self.get_from_secret(value, secret, "secret".to_owned()));
                true
            },
            _ => false,
        }
    }

    /// Fills a setting of the health endpoint: see `fills`.
    /// Says whether the variable fills one.
    pub fn fill_health_readiness<T>(
        &self,
        cfg: &mut Configs<T>,
        key: &str,
        value: &str,
        secret: &Option<String>,
    ) -> (claimed: bool)
        ensures
            claimed == (self.claim_in(Section::Health, key@) is Some),
            fills(*old(cfg), *final(cfg), self.claim_in(Section::Health, key@), value@, secret),
    {
        if !self.health {
            return false;
        }
        match Setting::named(key) {
            Some(Setting::HealthPort) => {
                cfg.health_readiness.port = self.get_from_secret(value, secret, 8888u64);
                true
            },
            Some(Setting::HealthEnable) => {
                cfg.health_readiness.enable = self.get_from_secret(value, secret, false);
                true
            },
            _ => false,
        }
    }

    /// Fills a setting of the SQLite database: see `fills`.
    /// Says whether the variable fills one.
    pub fn fill_sqlite<T>(
        &self,
        cfg: &mut Configs<T>,
        key: &str,
        value: &str,
        secret: &Option<String>,
    ) -> (claimed: bool)
        ensures
            claimed == (self.claim_in(Section::Sqlite, key@) is Some),
            fills(*old(cfg), *final(cfg), self.claim_in(Section::Sqlite, key@), value@, secret),
    {
        if !self.sqlite {
            return false;
        }
        match Setting::named(key) {
            Some(Setting::SqliteFile) => {
                cfg.sqlite.file = self.get_from_secret(value, secret, "local.db".to_owned());
                true
            },
            Some(Setting::SqliteUser) => {
                cfg.sqlite.user = self.get_from_secret(value, secret, "user".to_owned());
                true
            },
            Some(Setting::SqlitePassword) => {
                cfg.sqlite.password = self.get_from_secret(value, secret, "password".to_owned());
                true
            },
            _ => false,
        }
    }

    /// Fills the setting that a variable fills, whatever its section: see `fills`.
    /// Says whether the variable fills one.
    pub fn fill<T>(
        &self,
        cfg: &mut Configs<T>,
        key: &str,
        value: &str,
        secret: &Option<String>,
    ) -> (claimed: bool)
        ensures
            claimed == (self.claim(key@) is Some),
            fills(*old(cfg), *final(cfg), self.claim(key@), value@, secret),
    {
        if self.fill_auth0(cfg, key, value, secret) {
            return true;
        }
        if self.fill_mqtt(cfg, key, value, secret) {
            return true;
        }
        if self.fill_rabbitmq(cfg, key, value, secret) {
            return true;
        }
        if self.fill_trace(cfg, key, value, secret) {
            return true;
        }
        if self.fill_metric(cfg, key, value, secret) {
            return true;
        }
        if self.fill_postgres(cfg, key, value, secret) {
            return true;
        }
        if self.fill_dynamo(cfg, key, value, secret) {
            return true;
        }
        if self.fill_aws(cfg, key, value, secret) {
            return true;
        }
        if self.fill_health_readiness(cfg, key, value, secret) {
            return true;
        }
        self.fill_sqlite(cfg, key, value, secret)
    }

    /// Fills the configuration from variables, in order: every setting of the
    /// sections that the builder fills gets what the last variable of its name
    /// says, and keeps its value where there is none.
    pub fn fill_all<T>(&self, cfg: &mut Configs<T>, vars: &Vec<EnvVar>)
        ensures
            forall|setting: Setting| #[trigger]
                final(cfg).read(setting) == self.value_after(
                    old(cfg).read(setting),
                    setting,
                    vars@,
                ),
            final(cfg).same_frame(&*old(cfg)),
    {
        let ghost before = *cfg;
        let n: usize = vars.len();
        proof {
            assert(vars@.take(0) =~= Seq::<EnvVar>::empty());
        }
        for i in 0..n
            invariant
                n == vars@.len(),
                forall|setting: Setting| #[trigger]
                    cfg.read(setting) == self.value_after(
                        before.read(setting),
                        setting,
                        vars@.take(i as int),
                    ),
                cfg.same_frame(&before),
        {
            let ghost earlier = *cfg;
            let var: &EnvVar = &vars[i];
            self.fill(cfg, var.key.as_str(), var.value.as_str(), &var.secret);
            proof {
                assert(vars@.take(i + 1).drop_last() =~= vars@.take(i as int));
                assert(vars@.take(i + 1).last() == *var);
                assert forall|setting: Setting| #[trigger]
                    cfg.read(setting) == self.value_after(
                        before.read(setting),
                        setting,
                        vars@.take(i + 1),
                    ) by {
                    assert(earlier.read(setting) == self.value_after(
                        before.read(setting),
                        setting,
                        vars@.take(i as int),
                    ));
                    law_setting_named_by_its_variable(setting);
                }
            }
        }
        proof {
            assert(vars@.take(n as int) =~= vars@);
        }
    }

    /// Whether a variable fills a setting of a section that the builder fills.
    pub fn claims(&self, key: &str) -> (claims: bool)
        ensures
            claims == (self.claim(key@) is Some),
    {
        match Setting::named(key) {
            Some(setting) => self.fills_section(setting.section()),
            None => false,
        }
    }

    /// The name of the secret that a variable asks the secret manager for: its
    /// value, where the variable fills a setting and the value names a secret.
    pub fn secret_asked_for(&self, key: &str, value: &str) -> (name: Option<String>)
        ensures
            optional_text(name) == (if self.claim(key@) is Some && names_secret(value@) {
                Some(value@)
            } else {
                None
            }),
            match name {
                Some(asked) => {
                    &&& asked@ == value@
                    &&& self.claim(key@) is Some
                    &&& value@.len() > 0 && value@[0] == '!'
                },
                None => self.claim(key@) is None || value@.len() == 0 || value@[0] != '!',
            },
    {
        proof {
            law_secrets_are_named_by_an_exclamation_mark(value@, None);
        }
        if self.claims(key) && starts_with(value, SECRET_PREFIX) {
            Some(value.to_owned())
        } else {
            None
        }
    }

    /// Whether the builder fills a section.
    pub fn fills_section(&self, section: Section) -> (enabled: bool)
        ensures
            enabled == self.enables(section),
    {
        match section {
            Section::Auth0 => self.auth0,
            Section::Mqtt => self.mqtt,
            Section::RabbitMq => self.rabbitmq,
            Section::Trace => self.trace,
            Section::Metric => self.metric,
            Section::Postgres => self.postgres,
            Section::Dynamo => self.dynamo,
            Section::Aws => self.aws,
            Section::Health => self.health,
            Section::Sqlite => self.sqlite,
        }
    }

    /// The name of the application, with that of the environment before it.
    pub fn fmt_name(&self, env_name: &str, name: String) -> (formatted: String)
        ensures
            formatted@ == prefixed_name(env_name@, name@),
            formatted@ == (if env_name@.is_prefix_of(name@) {
                name@
            } else {
                env_name@ + seq!['-'] + name@
            }),
    {
        proof {
            law_names_are_formatted_for_their_environment(env_name@, name@);
        }
        if starts_with(name.as_str(), env_name) {
            return name;
        }
        let mut formatted: String = env_name.to_owned();
        formatted.append("-");
        formatted.append(name.as_str());
        proof {
            reveal_strlit("-");
            assert(formatted@ =~= env_name@.push('-') + name@);
        }
        formatted
    }

    /// The name of the secret manager in use, which says its kind.
    pub fn secret_manager_name(&self, vars: &AppVars) -> (name: String)
        ensures
            name@ == text_or(vars.secret_manager, "None"@),
    {
        text_or_default(&vars.secret_manager, "None")
    }

    /// The time between two messages of one batch, if it is given as a number.
    pub fn message_timer(&self, vars: &AppVars) -> (timer: Option<u64>)
        ensures
            timer == vars.timer(),
    {
        parse_number(text_or_default(&vars.multiple_message_timer, "15000").as_str())
    }

    /// Fills the description of the service itself.
    pub fn fill_app<T>(&self, cfg: &mut Configs<T>, reading: &AppReading)
        requires
            reading.vars.timer() is Some,
        ensures
            reading.describes(final(cfg).app),
            Some(final(cfg).multiple_message_timer) == reading.vars.timer(),
            forall|setting: Setting| #[trigger]
                final(cfg).read(setting) == old(cfg).read(setting),
            final(cfg).dynamic == old(cfg).dynamic,
            reading.env_name@.is_prefix_of(final(cfg).app.name@),
            final(cfg).app.name@ == ({
                let name = match reading.vars.name {
                    Some(given) => given@,
                    None => Seq::<char>::empty(),
                };
                if reading.env_name@.is_prefix_of(name) {
                    name
                } else {
                    reading.env_name@ + seq!['-'] + name
                }
            }),
    {
        let vars: &AppVars = &reading.vars;
        let name: String = self.fmt_name(
            reading.env_name.as_str(),
            text_or_default(&vars.name, ""),
        );
        proof {
            reveal_strlit("");
            assert(""@ =~= Seq::<char>::empty());
        }
        let port: u64 = match parse_number(text_or_default(&vars.port, "3000").as_str()) {
            Some(port) => port,
            None => 0,
        };
        if let Some(timer) = self.message_timer(vars) {
            cfg.multiple_message_timer = timer;
        }
        cfg.app = AppConfigs {
            enable_external_creates_logging: false,
            env: reading.env,
            host: text_or_default(&vars.host, ""),
            log_level: text_or_default(&vars.log_level, "debug"),
            name,
            port,
            secret_key: text_or_default(&vars.secret_key, ""),
            secret_manager: reading.secret_manager,
        };
        proof {
            law_the_service_is_described_as_read(*reading, cfg.app);
        }
    }

    /// Which secret client the service is to use. Without a secret manager it is
    /// one that stands in for it; otherwise it serves the secrets of the
    /// environment under the given key, which is empty where none is given.
    pub fn get_secret_client(
        &self,
        app_cfg: &AppConfigs,
        env_name: &str,
        secret_key: &Option<String>,
    ) -> (plan: SecretClientPlan)
        ensures
            match plan {
                SecretClientPlan::StandIn => app_cfg.secret_manager
                    == SecretsManagerKind::Disabled,
                SecretClientPlan::Aws { env_name: environment, secret_key: key } => {
                    &&& app_cfg.secret_manager == SecretsManagerKind::AWSSecretManager
                    &&& environment@ == env_name@
                    &&& key@ == text_or(*secret_key, Seq::<char>::empty())
                },
            },
    {
        match app_cfg.secret_manager {
            SecretsManagerKind::Disabled => SecretClientPlan::StandIn,
            SecretsManagerKind::AWSSecretManager => {
                proof {
                    reveal_strlit("");
                    assert(""@ =~= Seq::<char>::empty());
                }
                SecretClientPlan::Aws {
                    env_name: env_name.to_owned(),
                    secret_key: text_or_default(secret_key, ""),
                }
            },
        }
    }

    /// The text that a Base64 text holds.
    pub fn _decoded(&self, text: String) -> (decoded: Result<String, ()>)
        ensures
            match base64_decoded(text@) {
                Some(bytes) => match decoded {
                    Ok(read) => valid_utf8(bytes) && read@ == decode_utf8(bytes),
                    Err(_) => !valid_utf8(bytes),
                },
                None => decoded is Err,
            },
    {
        match base64_decode(text.as_str()) {
            Ok(bytes) => text_of_bytes(bytes),
            Err(_) => Err(()),
        }
    }
}

impl Default for ConfigBuilder {
    fn default() -> (builder: ConfigBuilder)
        ensures
            forall|section: Section| !#[trigger] builder.enables(section),
    {
        ConfigBuilder {
            mqtt: false,
            rabbitmq: false,
            postgres: false,
            sqlite: false,
            aws: false,
            dynamo: false,
            metric: false,
            trace: false,
            health: false,
            auth0: false,
        }
    }
}

/// The last of the variables with the given name.
pub open spec fn last_of(vars: Seq<EnvVar>, key: Seq<char>) -> Option<EnvVar>
    decreases vars.len(),
{
    if vars.len() == 0 {
        None
    } else if vars.last().key@ == key {
        Some(vars.last())
    } else {
        last_of(vars.drop_last(), key)
    }
}

/// The text of a variable, or what stands in for it.
pub open spec fn text_or(var: Option<String>, default: Seq<char>) -> Seq<char> {
    match var {
        Some(text) => text@,
        None => default,
    }
}

fn text_or_default(var: &Option<String>, default: &str) -> (text: String)
    ensures
        text@ == text_or(*var, default@),
{
    match var {
        Some(text) => text.clone(),
        None => default.to_owned(),
    }
}

/// The name of an application in an environment: its own, where it begins with
/// that of the environment, else the two with a hyphen between them.
pub open spec fn prefixed_name(env_name: Seq<char>, name: Seq<char>) -> Seq<char> {
    if env_name.is_prefix_of(name) {
        name
    } else {
        env_name.push('-') + name
    }
}

/// The variables that describe the service itself, where they are set.
#[derive(Debug, PartialEq, Eq)]
pub struct AppVars {
    pub name: Option<String>,
    pub secret_key: Option<String>,
    pub host: Option<String>,
    pub port: Option<String>,
    pub log_level: Option<String>,
    pub secret_manager: Option<String>,
    pub multiple_message_timer: Option<String>,
}

impl AppVars {
    /// The time between two messages of one batch, if it is given as a number.
    pub open spec fn timer(&self) -> Option<u64> {
        number_in(text_or(self.multiple_message_timer, "15000"@))
    }
}

/// What the surroundings say of the service itself.
#[derive(Debug, PartialEq, Eq)]
pub struct AppReading {
    pub env: Environment,
    /// The name of the environment.
    pub env_name: String,
    pub vars: AppVars,
    /// The kind of secret manager that its name stands for.
    pub secret_manager: SecretsManagerKind,
}

impl AppReading {
    /// Whether `app` is the description of the service that the surroundings
    /// give.
    pub open spec fn describes(&self, app: AppConfigs) -> bool {
        &&& !app.enable_external_creates_logging
        &&& app.env == self.env
        &&& app.host@ == text_or(self.vars.host, Seq::<char>::empty())
        &&& app.log_level@ == text_or(self.vars.log_level, "debug"@)
        &&& app.name@ == prefixed_name(
            self.env_name@,
            text_or(self.vars.name, Seq::<char>::empty()),
        )
        &&& app.port == (match number_in(text_or(self.vars.port, "3000"@)) {
            Some(port) => port,
            None => 0u64,
        })
        &&& app.secret_key@ == text_or(self.vars.secret_key, Seq::<char>::empty())
        &&& app.secret_manager == self.secret_manager
    }
}

/// The secret client to use.
#[derive(Debug, PartialEq, Eq)]
pub enum SecretClientPlan {
    /// One that stands in for a secret manager.
    StandIn,
    /// One that loads the secrets of an environment under a key.
    Aws { env_name: String, secret_key: String },
}

/// A name formatted for an environment begins with the environment's name, and
/// formatting it again changes nothing.
pub proof fn law_formatted_names_stay(env_name: Seq<char>, name: Seq<char>)
    ensures
        env_name.is_prefix_of(prefixed_name(env_name, name)),
        prefixed_name(env_name, prefixed_name(env_name, name)) == prefixed_name(env_name, name),
{
    let formatted = env_name.push('-') + name;
    assert(formatted.subrange(0, env_name.len() as int) =~= env_name);
}

/// A value that names no secret is taken as it is, whatever the secret manager
/// answers.
pub proof fn law_plain_values_ask_for_no_secret(
    value: Seq<char>,
    secret: Option<String>,
    other: Option<String>,
)
    requires
        !names_secret(value),
    ensures
        resolved(value, secret) == Some(value),
        resolved(value, secret) == resolved(value, other),
{
}

/// A setting whose value names a secret that is not to be had holds its fallback.
pub proof fn law_missing_secrets_give_the_fallback(setting: Setting, value: Seq<char>)
    requires
        names_secret(value),
    ensures
        interpreted(fallback(setting), resolved(value, None)) == fallback(setting),
{
}

/// Two different settings may be filled in either order.
pub proof fn law_filling_commutes<T>(
    before: Configs<T>,
    first: Configs<T>,
    first_then_second: Configs<T>,
    second: Configs<T>,
    second_then_first: Configs<T>,
    a: Setting,
    a_text: Option<Seq<char>>,
    b: Setting,
    b_text: Option<Seq<char>>,
)
    requires
        a != b,
        filled_from(before, first, a, a_text),
        filled_from(first, first_then_second, b, b_text),
        filled_from(before, second, b, b_text),
        filled_from(second, second_then_first, a, a_text),
    ensures
        forall|setting: Setting| #[trigger]
            first_then_second.read(setting) == second_then_first.read(setting),
        first_then_second.same_frame(&second_then_first),
{
    assert forall|setting: Setting| #[trigger]
        first_then_second.read(setting) == second_then_first.read(setting) by {
        if setting != a {
            assert(first.read(setting) == before.read(setting));
        }
        if setting != b {
            assert(second.read(setting) == before.read(setting));
        }
    }
}

/// A builder is the set of sections that it fills: in what order, and how often,
/// they were asked for does not matter.
pub proof fn law_builders_are_their_sections(a: ConfigBuilder, b: ConfigBuilder)
    requires
        forall|section: Section| #[trigger] a.enables(section) == b.enables(section),
    ensures
        a == b,
{
    assert(a.enables(Section::Auth0) == b.enables(Section::Auth0));
    assert(a.enables(Section::Mqtt) == b.enables(Section::Mqtt));
    assert(a.enables(Section::RabbitMq) == b.enables(Section::RabbitMq));
    assert(a.enables(Section::Trace) == b.enables(Section::Trace));
    assert(a.enables(Section::Metric) == b.enables(Section::Metric));
    assert(a.enables(Section::Postgres) == b.enables(Section::Postgres));
    assert(a.enables(Section::Dynamo) == b.enables(Section::Dynamo));
    assert(a.enables(Section::Aws) == b.enables(Section::Aws));
    assert(a.enables(Section::Health) == b.enables(Section::Health));
    assert(a.enables(Section::Sqlite) == b.enables(Section::Sqlite));
}

/// A section that the builder does not fill keeps its values, whatever the
/// variables say, and so does a setting that no variable names.
pub proof fn law_what_is_not_asked_for_stays(
    builder: ConfigBuilder,
    before: Value,
    setting: Setting,
    vars: Seq<EnvVar>,
)
    requires
        !builder.enables(section_of(setting)) || forall|i: int|
            0 <= i < vars.len() ==> (#[trigger] vars[i]).key@ != env_key(setting),
    ensures
        builder.value_after(before, setting, vars) == before,
{
    lemma_last_of_is_among_them(vars, env_key(setting));
}

proof fn lemma_last_of_is_among_them(vars: Seq<EnvVar>, key: Seq<char>)
    ensures
        match last_of(vars, key) {
            Some(var) => vars.contains(var) && var.key@ == key,
            None => forall|i: int| 0 <= i < vars.len() ==> (#[trigger] vars[i]).key@ != key,
        },
    decreases vars.len(),
{
    if vars.len() > 0 {
        let earlier = vars.drop_last();
        lemma_last_of_is_among_them(earlier, key);
        if vars.last().key@ == key {
            assert(vars[vars.len() - 1] == vars.last());
        } else {
            match last_of(earlier, key) {
                Some(var) => {
                    let i = choose|i: int| 0 <= i < earlier.len() && earlier[i] == var;
                    assert(vars[i] == var);
                },
                None => {
                    assert forall|i: int| 0 <= i < vars.len() implies (#[trigger] vars[i]).key@
                        != key by {
                        if i < earlier.len() {
                            assert(earlier[i] == vars[i]);
                        }
                    }
                },
            }
        }
    }
}

/// Whether two variables say the same: they have the same name, and their values
/// stand for the same text. Two with the same name, value and secret do.
pub open spec fn say_the_same(a: EnvVar, b: EnvVar) -> bool {
    &&& a.key@ == b.key@
    &&& resolved(a.value@, a.secret) == resolved(b.value@, b.secret)
}

/// Whether no two of the variables that the builder fills settings from have the
/// same name.
pub open spec fn distinct_claims(builder: ConfigBuilder, vars: Seq<EnvVar>) -> bool {
    forall|i: int, j: int|
        0 <= i < vars.len() && 0 <= j < vars.len() && (#[trigger] vars[i]).key@ == (
        #[trigger] vars[j]).key@ && builder.claim(vars[i].key@) is Some ==> i == j
}

/// Whether what each of the variables says that the builder fills settings from is
/// said by one of the others too.
pub open spec fn repeated_by(
    builder: ConfigBuilder,
    vars: Seq<EnvVar>,
    others: Seq<EnvVar>,
) -> bool {
    forall|i: int|
        0 <= i < vars.len() && builder.claim((#[trigger] vars[i]).key@) is Some ==> exists|j: int|
            0 <= j < others.len() && say_the_same(vars[i], #[trigger] others[j])
}

/// What the variables fill depends on what those say that the builder fills
/// settings from: the order in which they come does not matter, nor do the other
/// variables, as long as no two of those have the same name.
pub proof fn law_order_of_variables_does_not_matter(
    builder: ConfigBuilder,
    before: Value,
    setting: Setting,
    vars: Seq<EnvVar>,
    others: Seq<EnvVar>,
)
    requires
        distinct_claims(builder, vars),
        distinct_claims(builder, others),
        repeated_by(builder, vars, others),
        repeated_by(builder, others, vars),
    ensures
        builder.value_after(before, setting, vars) == builder.value_after(
            before,
            setting,
            others,
        ),
{
    let key = env_key(setting);
    law_setting_named_by_its_variable(setting);
    lemma_last_of_is_among_them(vars, key);
    lemma_last_of_is_among_them(others, key);
    if builder.enables(section_of(setting)) {
        match (last_of(vars, key), last_of(others, key)) {
            (Some(var), Some(other)) => {
                let i = choose|i: int| 0 <= i < vars.len() && vars[i] == var;
                let j = choose|j: int|
                    0 <= j < others.len() && say_the_same(vars[i], #[trigger] others[j]);
                let k = choose|k: int| 0 <= k < others.len() && others[k] == other;
                assert(others[j].key@ == others[k].key@);
            },
            (Some(var), None) => {
                let i = choose|i: int| 0 <= i < vars.len() && vars[i] == var;
                let j = choose|j: int|
                    0 <= j < others.len() && say_the_same(vars[i], #[trigger] others[j]);
                assert(others[j].key@ != key);
            },
            (None, Some(other)) => {
                let i = choose|i: int| 0 <= i < others.len() && others[i] == other;
                let j = choose|j: int|
                    0 <= j < vars.len() && say_the_same(others[i], #[trigger] vars[j]);
                assert(vars[j].key@ != key);
            },
            (None, None) => {},
        }
    }
}

/// Going through the variables a second time changes nothing.
pub proof fn law_filling_twice_is_filling_once(
    builder: ConfigBuilder,
    before: Value,
    setting: Setting,
    vars: Seq<EnvVar>,
)
    ensures
        builder.value_after(builder.value_after(before, setting, vars), setting, vars)
            == builder.value_after(before, setting, vars),
{
}

/// A value names a secret exactly where its first character is an exclamation mark;
/// it then stands for the secret, where there is one. Every other value stands for
/// itself, whatever the secret manager answers.
pub proof fn law_secrets_are_named_by_an_exclamation_mark(
    value: Seq<char>,
    secret: Option<String>,
)
    ensures
        names_secret(value) <==> value.len() > 0 && value[0] == '!',
        value.len() == 0 || value[0] != '!' ==> resolved(value, secret) == Some(value),
        value.len() > 0 && value[0] == '!' ==> match secret {
            Some(hidden) => resolved(value, secret) == Some(hidden@),
            None => resolved(value, secret) is None,
        },
{
    reveal_strlit("!");
    assert("!"@ =~= seq!['!']);
    if value.len() > 0 {
        assert(value.subrange(0, 1)[0] == value[0]);
        if value[0] == '!' {
            assert("!"@ =~= value.subrange(0, 1));
        }
    }
}

/// A name that begins with that of the environment is kept; any other follows the
/// environment's name and a hyphen.
pub proof fn law_names_are_formatted_for_their_environment(env_name: Seq<char>, name: Seq<char>)
    ensures
        prefixed_name(env_name, name) == (if env_name.is_prefix_of(name) {
            name
        } else {
            env_name + seq!['-'] + name
        }),
{
    assert(env_name.push('-') + name =~= env_name + seq!['-'] + name);
}

/// The description of the service, variable by variable: what stands in for one that
/// is not set, a port of zero for one that is no number, and a name that begins with
/// that of the environment, in whatever environment the service runs.
pub proof fn law_the_service_is_described_as_read(reading: AppReading, app: AppConfigs)
    requires
        reading.describes(app),
    ensures
        !app.enable_external_creates_logging,
        app.env == reading.env,
        app.secret_manager == reading.secret_manager,
        match reading.vars.host {
            Some(host) => app.host@ == host@,
            None => app.host@.len() == 0,
        },
        match reading.vars.secret_key {
            Some(key) => app.secret_key@ == key@,
            None => app.secret_key@.len() == 0,
        },
        match reading.vars.log_level {
            Some(level) => app.log_level@ == level@,
            None => app.log_level@ == seq!['d', 'e', 'b', 'u', 'g'],
        },
        match reading.vars.port {
            Some(port) => app.port == (match number_in(port@) {
                Some(number) => number,
                None => 0u64,
            }),
            None => app.port == 3000,
        },
        reading.env_name@.is_prefix_of(app.name@),
        match reading.vars.name {
            Some(name) => app.name@ == (if reading.env_name@.is_prefix_of(name@) {
                name@
            } else {
                reading.env_name@ + seq!['-'] + name@
            }),
            None => app.name@ == (if reading.env_name@.len() == 0 {
                Seq::<char>::empty()
            } else {
                reading.env_name@ + seq!['-']
            }),
        },
{
    let env_name = reading.env_name@;
    let name = text_or(reading.vars.name, Seq::<char>::empty());
    law_names_are_formatted_for_their_environment(env_name, name);
    law_formatted_names_stay(env_name, name);
    reveal_strlit("debug");
    assert("debug"@ =~= seq!['d', 'e', 'b', 'u', 'g']);
    lemma_numbers_that_stand_in();
    if reading.vars.name is None {
        assert(env_name + seq!['-'] + name =~= env_name + seq!['-']);
        if env_name.len() == 0 {
            assert(env_name =~= name.subrange(0, 0));
        }
    }
}

/// Where the service runs does not show in its name: readings that differ in nothing
/// else describe the service under one name.
pub proof fn law_the_name_is_the_same_wherever_the_service_runs(
    reading: AppReading,
    elsewhere: AppReading,
    app: AppConfigs,
    app_elsewhere: AppConfigs,
)
    requires
        reading.describes(app),
        elsewhere.describes(app_elsewhere),
        elsewhere == (AppReading { env: elsewhere.env, ..reading }),
    ensures
        app.name@ == app_elsewhere.name@,
        app.host@ == app_elsewhere.host@,
        app.log_level@ == app_elsewhere.log_level@,
        app.port == app_elsewhere.port,
        app.secret_key@ == app_elsewhere.secret_key@,
        app.secret_manager == app_elsewhere.secret_manager,
{
}

/// The time between two messages is fifteen seconds where none is given, else the
/// number that is given, if it is one.
pub proof fn law_the_timer_is_as_given(vars: AppVars)
    ensures
        match vars.multiple_message_timer {
            Some(text) => vars.timer() == number_in(text@),
            None => vars.timer() == Some(15000u64),
        },
{
    lemma_numbers_that_stand_in();
}

proof fn lemma_numbers_that_stand_in()
    ensures
        number_in("3000"@) == Some(3000u64),
        number_in("15000"@) == Some(15000u64),
{
    reveal_strlit("3000");
    reveal_strlit("15000");
    law_one_digit_numbers('3');
    law_one_digit_numbers('1');
    law_one_more_digit(seq!['3'], '0');
    law_one_more_digit(seq!['3', '0'], '0');
    law_one_more_digit(seq!['3', '0', '0'], '0');
    law_one_more_digit(seq!['1'], '5');
    law_one_more_digit(seq!['1', '5'], '0');
    law_one_more_digit(seq!['1', '5', '0'], '0');
    law_one_more_digit(seq!['1', '5', '0', '0'], '0');
    assert(seq!['3'].push('0') =~= seq!['3', '0']);
    assert(seq!['3', '0'].push('0') =~= seq!['3', '0', '0']);
    assert(seq!['3', '0', '0'].push('0') =~= "3000"@);
    assert(seq!['1'].push('5') =~= seq!['1', '5']);
    assert(seq!['1', '5'].push('0') =~= seq!['1', '5', '0']);
    assert(seq!['1', '5', '0'].push('0') =~= seq!['1', '5', '0', '0']);
    assert(seq!['1', '5', '0', '0'].push('0') =~= "15000"@);
}

/// A variable that is set is read as it is, and one that is not leaves what stands in
/// for it.
pub proof fn law_set_variables_are_read(text: String, default: Seq<char>)
    ensures
        text_or(Some(text), default) == text@,
        text_or(None, default) == default,
{
}

/// Variables are gone through one by one: without any, every setting keeps what it
/// holds, and one more variable does to every setting what filling from it does.
pub proof fn law_variables_are_gone_through_one_by_one<T>(
    builder: ConfigBuilder,
    start: Configs<T>,
    vars: Seq<EnvVar>,
    before: Configs<T>,
    var: EnvVar,
    after: Configs<T>,
    setting: Setting,
)
    requires
        forall|s: Setting| #[trigger]
            before.read(s) == builder.value_after(start.read(s), s, vars),
        fills(before, after, builder.claim(var.key@), var.value@, &var.secret),
    ensures
        builder.value_after(start.read(setting), setting, Seq::<EnvVar>::empty()) == start.read(
            setting,
        ),
        builder.value_after(start.read(setting), setting, vars.push(var)) == after.read(setting),
{
    assert(vars.push(var).drop_last() =~= vars);
    assert(before.read(setting) == builder.value_after(start.read(setting), setting, vars));
    law_setting_named_by_its_variable(setting);
    if let Some(named) = setting_named(var.key@) {
        assert(env_key(named) == var.key@);
    }
}

} // verus!
