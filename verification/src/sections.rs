//! What the variables of each section fill, field by field.
//!
//! Each law is about one call that fills a setting from a variable: `fill`, where
//! `section` is none, or the call that fills the settings of that one section. The
//! configuration is `before` until the call and `after` from then on. A value that
//! begins with `!` stands for the secret that it names, any other for itself.

#[allow(unused_imports)]
use crate::configs::Configs;
#[allow(unused_imports)]
use crate::configs_builder::{
    fills, law_secrets_are_named_by_an_exclamation_mark, resolved, ConfigBuilder,
};
#[allow(unused_imports)]
use crate::settings::{
    env_key, fallback, interpreted, law_flags_are_as_written, law_setting_named_by_its_variable,
    section_of, setting_named, Rate, Section, Setting, Value,
};
#[allow(unused_imports)]
use crate::text::number_in;
use vstd::prelude::*;

verus! {

/// What one setting holds after a call that fills a setting from a variable, and
/// whether the variable fills it.
proof fn lemma_setting_after<T>(
    builder: ConfigBuilder,
    before: Configs<T>,
    after: Configs<T>,
    section: Option<Section>,
    key: Seq<char>,
    value: Seq<char>,
    secret: Option<String>,
    setting: Setting,
)
    requires
        fills(
            before,
            after,
            match section {
                Some(one) => builder.claim_in(one, key),
                None => builder.claim(key),
            },
            value,
            &secret,
        ),
    ensures
        after.read(setting) == (if builder.enables(section_of(setting)) && key == env_key(setting)
            && (section is None || section == Some(section_of(setting))) {
            interpreted(fallback(setting), resolved(value, secret))
        } else {
            before.read(setting)
        }),
        key == env_key(setting) ==> builder.claim(key) == (if builder.enables(
            section_of(setting),
        ) {
            Some(setting)
        } else {
            None
        }),
{
    law_setting_named_by_its_variable(setting);
    lemma_named_settings(key);
}

/// A variable fills the setting that it names.
proof fn lemma_named_settings(key: Seq<char>)
    ensures
        setting_named(key) matches Some(setting) ==> env_key(setting) == key,
{
}

/// A call that fills a setting leaves the description of the service, the message
/// timer and the service's own part as they were, whatever the variable.
pub proof fn law_variables_fill_no_more_than_settings<T>(
    builder: ConfigBuilder,
    before: Configs<T>,
    after: Configs<T>,
    section: Option<Section>,
    key: Seq<char>,
    value: Seq<char>,
    secret: Option<String>,
)
    requires
        fills(
            before,
            after,
            match section {
                Some(one) => builder.claim_in(one, key),
                None => builder.claim(key),
            },
            value,
            &secret,
        ),
    ensures
        after.app == before.app,
        after.multiple_message_timer == before.multiple_message_timer,
        after.dynamic == before.dynamic,
{
}

/// A variable fills a setting exactly where it fills one of some section, and then
/// the same one; it fills settings of no second section.
pub proof fn law_a_variable_belongs_to_one_section(
    builder: ConfigBuilder,
    key: Seq<char>,
    one: Section,
    other: Section,
)
    ensures
        builder.claim_in(one, key) is Some ==> builder.claim(key) == builder.claim_in(one, key),
        builder.claim_in(one, key) is Some && builder.claim_in(other, key) is Some ==> one == other,
        builder.claim(key) is Some ==> exists|section: Section| #[trigger]
            builder.claim_in(section, key) is Some,
        builder.claim_in(one, key) is Some ==> builder.enables(one),
{
    if let Some(setting) = builder.claim(key) {
        assert(builder.claim_in(section_of(setting), key) is Some);
    }
}


/// The variables of the account with the identity provider are `AUTH0_DOMAIN`,
/// `AUTH0_AUDIENCE`, `AUTH0_ISSUER`, `AUTH0_GRANT_TYPE`, `AUTH0_CLIENT_ID` and
/// `AUTH0_CLIENT_SECRET`. Where the builder fills the section, each of them fills
/// its field with the text that its value stands for; a text that is missing or
/// cannot be read leaves the field's stand-in there. No other variable changes any
/// of the fields, and none does where the builder does not fill the section.
pub proof fn law_auth0_variables<T>(
    builder: ConfigBuilder,
    before: Configs<T>,
    after: Configs<T>,
    section: Option<Section>,
    key: Seq<char>,
    value: Seq<char>,
    secret: Option<String>,
)
    requires
        fills(
            before,
            after,
            match section {
                Some(one) => builder.claim_in(one, key),
                None => builder.claim(key),
            },
            value,
            &secret,
        ),
    ensures
        builder.claim_in(Section::Auth0, key) is Some <==> builder.enables(Section::Auth0) && (
            key == "AUTH0_DOMAIN"@
            || key == "AUTH0_AUDIENCE"@
            || key == "AUTH0_ISSUER"@
            || key == "AUTH0_GRANT_TYPE"@
            || key == "AUTH0_CLIENT_ID"@
            || key == "AUTH0_CLIENT_SECRET"@),
        ({
            let filled = builder.enables(Section::Auth0) && (section is None || section == Some(
                Section::Auth0,
            ));
            let text = if value.len() > 0 && value[0] == '!' {
                match secret {
                    Some(hidden) => Some(hidden@),
                    None => None,
                }
            } else {
                Some(value)
            };
            &&& after.auth0.domain@ == (if filled && key == "AUTH0_DOMAIN"@ {
                match text {
                    Some(t) => t,
                    None => "localhost"@,
                }
            } else {
                before.auth0.domain@
            })
            &&& after.auth0.audience@ == (if filled && key == "AUTH0_AUDIENCE"@ {
                match text {
                    Some(t) => t,
                    None => "localhost"@,
                }
            } else {
                before.auth0.audience@
            })
            &&& after.auth0.issuer@ == (if filled && key == "AUTH0_ISSUER"@ {
                match text {
                    Some(t) => t,
                    None => "localhost"@,
                }
            } else {
                before.auth0.issuer@
            })
            &&& after.auth0.grant_type@ == (if filled && key == "AUTH0_GRANT_TYPE"@ {
                match text {
                    Some(t) => t,
                    None => "client_credentials"@,
                }
            } else {
                before.auth0.grant_type@
            })
            &&& after.auth0.client_id@ == (if filled && key == "AUTH0_CLIENT_ID"@ {
                match text {
                    Some(t) => t,
                    None => ""@,
                }
            } else {
                before.auth0.client_id@
            })
            &&& after.auth0.client_secret@ == (if filled && key == "AUTH0_CLIENT_SECRET"@ {
                match text {
                    Some(t) => t,
                    None => ""@,
                }
            } else {
                before.auth0.client_secret@
            })
        }),
{
    law_secrets_are_named_by_an_exclamation_mark(value, secret);
    lemma_named_settings(key);
    lemma_setting_after(
        builder,
        before,
        after,
        section,
        key,
        value,
        secret,
        Setting::Auth0Domain,
    );
    lemma_setting_after(
        builder,
        before,
        after,
        section,
        key,
        value,
        secret,
        Setting::Auth0Audience,
    );
    lemma_setting_after(
        builder,
        before,
        after,
        section,
        key,
        value,
        secret,
        Setting::Auth0Issuer,
    );
    lemma_setting_after(
        builder,
        before,
        after,
        section,
        key,
        value,
        secret,
        Setting::Auth0GrantType,
    );
    lemma_setting_after(
        builder,
        before,
        after,
        section,
        key,
        value,
        secret,
        Setting::Auth0ClientId,
    );
    lemma_setting_after(
        builder,
        before,
        after,
        section,
        key,
        value,
        secret,
        Setting::Auth0ClientSecret,
    );
}

/// The variables of the MQTT broker are `MQTT_BROKER_KIND`, `MQTT_HOST`,
/// `MQTT_TRANSPORT`, `MQTT_PORT`, `MQTT_USER`, `MQTT_PASSWORD` and
/// `MQTT_CA_CERT_PATH`. Where the builder fills the section, each of them fills its
/// field with the text that its value stands for; a text that is missing or cannot
/// be read leaves the field's stand-in there. No other variable changes any of the
/// fields, and none does where the builder does not fill the section.
pub proof fn law_mqtt_variables<T>(
    builder: ConfigBuilder,
    before: Configs<T>,
    after: Configs<T>,
    section: Option<Section>,
    key: Seq<char>,
    value: Seq<char>,
    secret: Option<String>,
)
    requires
        fills(
            before,
            after,
            match section {
                Some(one) => builder.claim_in(one, key),
                None => builder.claim(key),
            },
            value,
            &secret,
        ),
    ensures
        builder.claim_in(Section::Mqtt, key) is Some <==> builder.enables(Section::Mqtt) && (
            key == "MQTT_BROKER_KIND"@
            || key == "MQTT_HOST"@
            || key == "MQTT_TRANSPORT"@
            || key == "MQTT_PORT"@
            || key == "MQTT_USER"@
            || key == "MQTT_PASSWORD"@
            || key == "MQTT_CA_CERT_PATH"@),
        ({
            let filled = builder.enables(Section::Mqtt) && (section is None || section == Some(
                Section::Mqtt,
            ));
            let text = if value.len() > 0 && value[0] == '!' {
                match secret {
                    Some(hidden) => Some(hidden@),
                    None => None,
                }
            } else {
                Some(value)
            };
            &&& if filled && key == "MQTT_BROKER_KIND"@ {
                match after.mqtt.broker_kind {
                    Some(chosen) => chosen@ == (match text {
                        Some(t) => t,
                        None => "SELF_HOSTED"@,
                    }),
                    None => false,
                }
            } else {
                match (after.mqtt.broker_kind, before.mqtt.broker_kind) {
                    (Some(now), Some(earlier)) => now@ == earlier@,
                    (None, None) => true,
                    _ => false,
                }
            }
            &&& after.mqtt.host@ == (if filled && key == "MQTT_HOST"@ {
                match text {
                    Some(t) => t,
                    None => "localhost"@,
                }
            } else {
                before.mqtt.host@
            })
            &&& if filled && key == "MQTT_TRANSPORT"@ {
                match after.mqtt.transport {
                    Some(chosen) => chosen@ == (match text {
                        Some(t) => t,
                        None => "tcp"@,
                    }),
                    None => false,
                }
            } else {
                match (after.mqtt.transport, before.mqtt.transport) {
                    (Some(now), Some(earlier)) => now@ == earlier@,
                    (None, None) => true,
                    _ => false,
                }
            }
            &&& after.mqtt.port == (if filled && key == "MQTT_PORT"@ {
                match text {
                    Some(t) => match number_in(t) {
                        Some(number) => number,
                        None => 1883u64,
                    },
                    None => 1883u64,
                }
            } else {
                before.mqtt.port
            })
            &&& after.mqtt.user@ == (if filled && key == "MQTT_USER"@ {
                match text {
                    Some(t) => t,
                    None => "mqtt"@,
                }
            } else {
                before.mqtt.user@
            })
            &&& after.mqtt.password@ == (if filled && key == "MQTT_PASSWORD"@ {
                match text {
                    Some(t) => t,
                    None => "password"@,
                }
            } else {
                before.mqtt.password@
            })
            &&& after.mqtt.root_ca_path@ == (if filled && key == "MQTT_CA_CERT_PATH"@ {
                match text {
                    Some(t) => t,
                    None => ""@,
                }
            } else {
                before.mqtt.root_ca_path@
            })
        }),
{
    law_secrets_are_named_by_an_exclamation_mark(value, secret);
    lemma_named_settings(key);
    lemma_setting_after(
        builder,
        before,
        after,
        section,
        key,
        value,
        secret,
        Setting::MqttBrokerKind,
    );
    lemma_setting_after(
        builder,
        before,
        after,
        section,
        key,
        value,
        secret,
        Setting::MqttHost,
    );
    lemma_setting_after(
        builder,
        before,
        after,
        section,
        key,
        value,
        secret,
        Setting::MqttTransport,
    );
    lemma_setting_after(
        builder,
        before,
        after,
        section,
        key,
        value,
        secret,
        Setting::MqttPort,
    );
    lemma_setting_after(
        builder,
        before,
        after,
        section,
        key,
        value,
        secret,
        Setting::MqttUser,
    );
    lemma_setting_after(
        builder,
        before,
        after,
        section,
        key,
        value,
        secret,
        Setting::MqttPassword,
    );
    lemma_setting_after(
        builder,
        before,
        after,
        section,
        key,
        value,
        secret,
        Setting::MqttCaCertPath,
    );
}

/// The variables of the RabbitMQ broker are `RABBITMQ_HOST`, `RABBITMQ_PORT`,
/// `RABBITMQ_USER`, `RABBITMQ_PASSWORD` and `RABBITMQ_VHOST`. Where the builder
/// fills the section, each of them fills its field with the text that its value
/// stands for; a text that is missing or cannot be read leaves the field's stand-in
/// there. No other variable changes any of the fields, and none does where the
/// builder does not fill the section.
pub proof fn law_rabbitmq_variables<T>(
    builder: ConfigBuilder,
    before: Configs<T>,
    after: Configs<T>,
    section: Option<Section>,
    key: Seq<char>,
    value: Seq<char>,
    secret: Option<String>,
)
    requires
        fills(
            before,
            after,
            match section {
                Some(one) => builder.claim_in(one, key),
                None => builder.claim(key),
            },
            value,
            &secret,
        ),
    ensures
        builder.claim_in(Section::RabbitMq, key) is Some <==> builder.enables(Section::RabbitMq) && (
            key == "RABBITMQ_HOST"@
            || key == "RABBITMQ_PORT"@
            || key == "RABBITMQ_USER"@
            || key == "RABBITMQ_PASSWORD"@
            || key == "RABBITMQ_VHOST"@),
        ({
            let filled = builder.enables(Section::RabbitMq) && (section is None || section == Some(
                Section::RabbitMq,
            ));
            let text = if value.len() > 0 && value[0] == '!' {
                match secret {
                    Some(hidden) => Some(hidden@),
                    None => None,
                }
            } else {
                Some(value)
            };
            &&& after.rabbitmq.host@ == (if filled && key == "RABBITMQ_HOST"@ {
                match text {
                    Some(t) => t,
                    None => "localhost"@,
                }
            } else {
                before.rabbitmq.host@
            })
            &&& after.rabbitmq.port == (if filled && key == "RABBITMQ_PORT"@ {
                match text {
                    Some(t) => match number_in(t) {
                        Some(number) => number,
                        None => 5672u64,
                    },
                    None => 5672u64,
                }
            } else {
                before.rabbitmq.port
            })
            &&& after.rabbitmq.user@ == (if filled && key == "RABBITMQ_USER"@ {
                match text {
                    Some(t) => t,
                    None => "guest"@,
                }
            } else {
                before.rabbitmq.user@
            })
            &&& after.rabbitmq.password@ == (if filled && key == "RABBITMQ_PASSWORD"@ {
                match text {
                    Some(t) => t,
                    None => "guest"@,
                }
            } else {
                before.rabbitmq.password@
            })
            &&& after.rabbitmq.vhost@ == (if filled && key == "RABBITMQ_VHOST"@ {
                match text {
                    Some(t) => t,
                    None => ""@,
                }
            } else {
                before.rabbitmq.vhost@
            })
        }),
{
    law_secrets_are_named_by_an_exclamation_mark(value, secret);
    lemma_named_settings(key);
    lemma_setting_after(
        builder,
        before,
        after,
        section,
        key,
        value,
        secret,
        Setting::RabbitMqHost,
    );
    lemma_setting_after(
        builder,
        before,
        after,
        section,
        key,
        value,
        secret,
        Setting::RabbitMqPort,
    );
    lemma_setting_after(
        builder,
        before,
        after,
        section,
        key,
        value,
        secret,
        Setting::RabbitMqUser,
    );
    lemma_setting_after(
        builder,
        before,
        after,
        section,
        key,
        value,
        secret,
        Setting::RabbitMqPassword,
    );
    lemma_setting_after(
        builder,
        before,
        after,
        section,
        key,
        value,
        secret,
        Setting::RabbitMqVhost,
    );
}

/// The variables of the export of traces are `ENABLE_TRACES`, `TRACE_HOST`,
/// `TRACE_ACCESS_KEY`, `TRACE_SERVICE_TYPE`, `TRACE_EXPORT_TIMEOUT` and
/// `TRACE_EXPORT_RATE_BASE`. Where the builder fills the section, each of them
/// fills its field with the text that its value stands for; a text that is missing
/// or cannot be read leaves the field's stand-in there. No other variable changes
/// any of the fields, and none does where the builder does not fill the section.
/// A rate is kept as it is written.
pub proof fn law_trace_variables<T>(
    builder: ConfigBuilder,
    before: Configs<T>,
    after: Configs<T>,
    section: Option<Section>,
    key: Seq<char>,
    value: Seq<char>,
    secret: Option<String>,
)
    requires
        fills(
            before,
            after,
            match section {
                Some(one) => builder.claim_in(one, key),
                None => builder.claim(key),
            },
            value,
            &secret,
        ),
    ensures
        builder.claim_in(Section::Trace, key) is Some <==> builder.enables(Section::Trace) && (
            key == "ENABLE_TRACES"@
            || key == "TRACE_HOST"@
            || key == "TRACE_ACCESS_KEY"@
            || key == "TRACE_SERVICE_TYPE"@
            || key == "TRACE_EXPORT_TIMEOUT"@
            || key == "TRACE_EXPORT_RATE_BASE"@),
        ({
            let filled = builder.enables(Section::Trace) && (section is None || section == Some(
                Section::Trace,
            ));
            let text = if value.len() > 0 && value[0] == '!' {
                match secret {
                    Some(hidden) => Some(hidden@),
                    None => None,
                }
            } else {
                Some(value)
            };
            &&& after.trace.enable == (if filled && key == "ENABLE_TRACES"@ {
                text == Some(seq!['t', 'r', 'u', 'e'])
            } else {
                before.trace.enable
            })
            &&& after.trace.host@ == (if filled && key == "TRACE_HOST"@ {
                match text {
                    Some(t) => t,
                    None => "localhost"@,
                }
            } else {
                before.trace.host@
            })
            &&& after.trace.key@ == (if filled && key == "TRACE_ACCESS_KEY"@ {
                match text {
                    Some(t) => t,
                    None => "key"@,
                }
            } else {
                before.trace.key@
            })
            &&& after.trace.service_type@ == (if filled && key == "TRACE_SERVICE_TYPE"@ {
                match text {
                    Some(t) => t,
                    None => "service"@,
                }
            } else {
                before.trace.service_type@
            })
            &&& after.trace.export_timeout == (if filled && key == "TRACE_EXPORT_TIMEOUT"@ {
                match text {
                    Some(t) => match number_in(t) {
                        Some(number) => number,
                        None => 30u64,
                    },
                    None => 30u64,
                }
            } else {
                before.trace.export_timeout
            })
            &&& if filled && key == "TRACE_EXPORT_RATE_BASE"@ {
                match after.trace.export_rate_base {
                    Rate::Given(rate) => text == Some(rate@),
                    Rate::Fallback => text is None,
                    Rate::Unset => false,
                }
            } else {
                match (after.trace.export_rate_base, before.trace.export_rate_base) {
                    (Rate::Given(now), Rate::Given(earlier)) => now@ == earlier@,
                    (Rate::Fallback, Rate::Fallback) => true,
                    (Rate::Unset, Rate::Unset) => true,
                    _ => false,
                }
            }
        }),
{
    law_secrets_are_named_by_an_exclamation_mark(value, secret);
    lemma_named_settings(key);
    if let Some(text) = resolved(value, secret) {
        law_flags_are_as_written(false, text);
    }
    lemma_setting_after(
        builder,
        before,
        after,
        section,
        key,
        value,
        secret,
        Setting::TraceEnable,
    );
    lemma_setting_after(
        builder,
        before,
        after,
        section,
        key,
        value,
        secret,
        Setting::TraceHost,
    );
    lemma_setting_after(
        builder,
        before,
        after,
        section,
        key,
        value,
        secret,
        Setting::TraceKey,
    );
    lemma_setting_after(
        builder,
        before,
        after,
        section,
        key,
        value,
        secret,
        Setting::TraceServiceType,
    );
    lemma_setting_after(
        builder,
        before,
        after,
        section,
        key,
        value,
        secret,
        Setting::TraceExportTimeout,
    );
    lemma_setting_after(
        builder,
        before,
        after,
        section,
        key,
        value,
        secret,
        Setting::TraceExportRateBase,
    );
}

/// The variables of the export of metrics are `ENABLE_METRICS`, `METRIC_HOST`,
/// `METRIC_ACCESS_KEY`, `METRIC_SERVICE_TYPE`, `METRIC_EXPORT_TIMEOUT` and
/// `METRIC_EXPORT_RATE_BASE`. Where the builder fills the section, each of them
/// fills its field with the text that its value stands for; a text that is missing
/// or cannot be read leaves the field's stand-in there. No other variable changes
/// any of the fields, and none does where the builder does not fill the section.
/// A rate is kept as it is written.
pub proof fn law_metric_variables<T>(
    builder: ConfigBuilder,
    before: Configs<T>,
    after: Configs<T>,
    section: Option<Section>,
    key: Seq<char>,
    value: Seq<char>,
    secret: Option<String>,
)
    requires
        fills(
            before,
            after,
            match section {
                Some(one) => builder.claim_in(one, key),
                None => builder.claim(key),
            },
            value,
            &secret,
        ),
    ensures
        builder.claim_in(Section::Metric, key) is Some <==> builder.enables(Section::Metric) && (
            key == "ENABLE_METRICS"@
            || key == "METRIC_HOST"@
            || key == "METRIC_ACCESS_KEY"@
            || key == "METRIC_SERVICE_TYPE"@
            || key == "METRIC_EXPORT_TIMEOUT"@
            || key == "METRIC_EXPORT_RATE_BASE"@),
        ({
            let filled = builder.enables(Section::Metric) && (section is None || section == Some(
                Section::Metric,
            ));
            let text = if value.len() > 0 && value[0] == '!' {
                match secret {
                    Some(hidden) => Some(hidden@),
                    None => None,
                }
            } else {
                Some(value)
            };
            &&& after.metric.enable == (if filled && key == "ENABLE_METRICS"@ {
                text == Some(seq!['t', 'r', 'u', 'e'])
            } else {
                before.metric.enable
            })
            &&& after.metric.host@ == (if filled && key == "METRIC_HOST"@ {
                match text {
                    Some(t) => t,
                    None => "localhost"@,
                }
            } else {
                before.metric.host@
            })
            &&& after.metric.key@ == (if filled && key == "METRIC_ACCESS_KEY"@ {
                match text {
                    Some(t) => t,
                    None => "key"@,
                }
            } else {
                before.metric.key@
            })
            &&& after.metric.service_type@ == (if filled && key == "METRIC_SERVICE_TYPE"@ {
                match text {
                    Some(t) => t,
                    None => "service"@,
                }
            } else {
                before.metric.service_type@
            })
            &&& after.metric.export_timeout == (if filled && key == "METRIC_EXPORT_TIMEOUT"@ {
                match text {
                    Some(t) => match number_in(t) {
                        Some(number) => number,
                        None => 30u64,
                    },
                    None => 30u64,
                }
            } else {
                before.metric.export_timeout
            })
            &&& if filled && key == "METRIC_EXPORT_RATE_BASE"@ {
                match after.metric.export_rate_base {
                    Rate::Given(rate) => text == Some(rate@),
                    Rate::Fallback => text is None,
                    Rate::Unset => false,
                }
            } else {
                match (after.metric.export_rate_base, before.metric.export_rate_base) {
                    (Rate::Given(now), Rate::Given(earlier)) => now@ == earlier@,
                    (Rate::Fallback, Rate::Fallback) => true,
                    (Rate::Unset, Rate::Unset) => true,
                    _ => false,
                }
            }
        }),
{
    law_secrets_are_named_by_an_exclamation_mark(value, secret);
    lemma_named_settings(key);
    if let Some(text) = resolved(value, secret) {
        law_flags_are_as_written(false, text);
    }
    lemma_setting_after(
        builder,
        before,
        after,
        section,
        key,
        value,
        secret,
        Setting::MetricEnable,
    );
    lemma_setting_after(
        builder,
        before,
        after,
        section,
        key,
        value,
        secret,
        Setting::MetricHost,
    );
    lemma_setting_after(
        builder,
        before,
        after,
        section,
        key,
        value,
        secret,
        Setting::MetricKey,
    );
    lemma_setting_after(
        builder,
        before,
        after,
        section,
        key,
        value,
        secret,
        Setting::MetricServiceType,
    );
    lemma_setting_after(
        builder,
        before,
        after,
        section,
        key,
        value,
        secret,
        Setting::MetricExportTimeout,
    );
    lemma_setting_after(
        builder,
        before,
        after,
        section,
        key,
        value,
        secret,
        Setting::MetricExportRateBase,
    );
}

/// The variables of the PostgreSQL database are `POSTGRES_HOST`, `POSTGRES_USER`,
/// `POSTGRES_PASSWORD`, `POSTGRES_PORT` and `POSTGRES_DB`. Where the builder fills
/// the section, each of them fills its field with the text that its value stands
/// for; a text that is missing or cannot be read leaves the field's stand-in there.
/// No other variable changes any of the fields, and none does where the builder
/// does not fill the section.
pub proof fn law_postgres_variables<T>(
    builder: ConfigBuilder,
    before: Configs<T>,
    after: Configs<T>,
    section: Option<Section>,
    key: Seq<char>,
    value: Seq<char>,
    secret: Option<String>,
)
    requires
        fills(
            before,
            after,
            match section {
                Some(one) => builder.claim_in(one, key),
                None => builder.claim(key),
            },
            value,
            &secret,
        ),
    ensures
        builder.claim_in(Section::Postgres, key) is Some <==> builder.enables(Section::Postgres) && (
            key == "POSTGRES_HOST"@
            || key == "POSTGRES_USER"@
            || key == "POSTGRES_PASSWORD"@
            || key == "POSTGRES_PORT"@
            || key == "POSTGRES_DB"@),
        ({
            let filled = builder.enables(Section::Postgres) && (section is None || section == Some(
                Section::Postgres,
            ));
            let text = if value.len() > 0 && value[0] == '!' {
                match secret {
                    Some(hidden) => Some(hidden@),
                    None => None,
                }
            } else {
                Some(value)
            };
            &&& after.postgres.host@ == (if filled && key == "POSTGRES_HOST"@ {
                match text {
                    Some(t) => t,
                    None => "localhost"@,
                }
            } else {
                before.postgres.host@
            })
            &&& after.postgres.user@ == (if filled && key == "POSTGRES_USER"@ {
                match text {
                    Some(t) => t,
                    None => "postgres"@,
                }
            } else {
                before.postgres.user@
            })
            &&& after.postgres.password@ == (if filled && key == "POSTGRES_PASSWORD"@ {
                match text {
                    Some(t) => t,
                    None => "postgres"@,
                }
            } else {
                before.postgres.password@
            })
            &&& after.postgres.port == (if filled && key == "POSTGRES_PORT"@ {
                match text {
                    Some(t) => match number_in(t) {
                        Some(number) => number,
                        None => 5432u64,
                    },
                    None => 5432u64,
                }
            } else {
                before.postgres.port
            })
            &&& after.postgres.db@ == (if filled && key == "POSTGRES_DB"@ {
                match text {
                    Some(t) => t,
                    None => "hdr"@,
                }
            } else {
                before.postgres.db@
            })
        }),
{
    law_secrets_are_named_by_an_exclamation_mark(value, secret);
    lemma_named_settings(key);
    lemma_setting_after(
        builder,
        before,
        after,
        section,
        key,
        value,
        secret,
        Setting::PostgresHost,
    );
    lemma_setting_after(
        builder,
        before,
        after,
        section,
        key,
        value,
        secret,
        Setting::PostgresUser,
    );
    lemma_setting_after(
        builder,
        before,
        after,
        section,
        key,
        value,
        secret,
        Setting::PostgresPassword,
    );
    lemma_setting_after(
        builder,
        before,
        after,
        section,
        key,
        value,
        secret,
        Setting::PostgresPort,
    );
    lemma_setting_after(
        builder,
        before,
        after,
        section,
        key,
        value,
        secret,
        Setting::PostgresDb,
    );
}

/// The variables of the DynamoDB table are `DYNAMO_ENDPOINT`, `DYNAMO_TABLE`,
/// `DYNAMO_REGION` and `DYNAMO_EXPIRE`. Where the builder fills the section, each
/// of them fills its field with the text that its value stands for; a text that is
/// missing or cannot be read leaves the field's stand-in there. No other variable
/// changes any of the fields, and none does where the builder does not fill the
/// section.
pub proof fn law_dynamo_variables<T>(
    builder: ConfigBuilder,
    before: Configs<T>,
    after: Configs<T>,
    section: Option<Section>,
    key: Seq<char>,
    value: Seq<char>,
    secret: Option<String>,
)
    requires
        fills(
            before,
            after,
            match section {
                Some(one) => builder.claim_in(one, key),
                None => builder.claim(key),
            },
            value,
            &secret,
        ),
    ensures
        builder.claim_in(Section::Dynamo, key) is Some <==> builder.enables(Section::Dynamo) && (
            key == "DYNAMO_ENDPOINT"@
            || key == "DYNAMO_TABLE"@
            || key == "DYNAMO_REGION"@
            || key == "DYNAMO_EXPIRE"@),
        ({
            let filled = builder.enables(Section::Dynamo) && (section is None || section == Some(
                Section::Dynamo,
            ));
            let text = if value.len() > 0 && value[0] == '!' {
                match secret {
                    Some(hidden) => Some(hidden@),
                    None => None,
                }
            } else {
                Some(value)
            };
            &&& after.dynamo.endpoint@ == (if filled && key == "DYNAMO_ENDPOINT"@ {
                match text {
                    Some(t) => t,
                    None => "localhost"@,
                }
            } else {
                before.dynamo.endpoint@
            })
            &&& after.dynamo.table@ == (if filled && key == "DYNAMO_TABLE"@ {
                match text {
                    Some(t) => t,
                    None => "table"@,
                }
            } else {
                before.dynamo.table@
            })
            &&& after.dynamo.region@ == (if filled && key == "DYNAMO_REGION"@ {
                match text {
                    Some(t) => t,
                    None => "us-east-1"@,
                }
            } else {
                before.dynamo.region@
            })
            &&& after.dynamo.expire == (if filled && key == "DYNAMO_EXPIRE"@ {
                match text {
                    Some(t) => match number_in(t) {
                        Some(number) => number,
                        None => 31536000u64,
                    },
                    None => 31536000u64,
                }
            } else {
                before.dynamo.expire
            })
        }),
{
    law_secrets_are_named_by_an_exclamation_mark(value, secret);
    lemma_named_settings(key);
    lemma_setting_after(
        builder,
        before,
        after,
        section,
        key,
        value,
        secret,
        Setting::DynamoEndpoint,
    );
    lemma_setting_after(
        builder,
        before,
        after,
        section,
        key,
        value,
        secret,
        Setting::DynamoTable,
    );
    lemma_setting_after(
        builder,
        before,
        after,
        section,
        key,
        value,
        secret,
        Setting::DynamoRegion,
    );
    lemma_setting_after(
        builder,
        before,
        after,
        section,
        key,
        value,
        secret,
        Setting::DynamoExpire,
    );
}

/// The variables of the account with the cloud provider are `AWS_IAM_ACCESS_KEY_ID`
/// and `AWS_IAM_SECRET_ACCESS_KEY`. Where the builder fills the section, each of
/// them fills its field with the text that its value stands for; a text that is
/// missing or cannot be read leaves the field's stand-in there. No other variable
/// changes any of the fields, and none does where the builder does not fill the
/// section.
pub proof fn law_aws_variables<T>(
    builder: ConfigBuilder,
    before: Configs<T>,
    after: Configs<T>,
    section: Option<Section>,
    key: Seq<char>,
    value: Seq<char>,
    secret: Option<String>,
)
    requires
        fills(
            before,
            after,
            match section {
                Some(one) => builder.claim_in(one, key),
                None => builder.claim(key),
            },
            value,
            &secret,
        ),
    ensures
        builder.claim_in(Section::Aws, key) is Some <==> builder.enables(Section::Aws) && (
            key == "AWS_IAM_ACCESS_KEY_ID"@
            || key == "AWS_IAM_SECRET_ACCESS_KEY"@),
        ({
            let filled = builder.enables(Section::Aws) && (section is None || section == Some(
                Section::Aws,
            ));
            let text = if value.len() > 0 && value[0] == '!' {
                match secret {
                    Some(hidden) => Some(hidden@),
                    None => None,
                }
            } else {
                Some(value)
            };
            &&& if filled && key == "AWS_IAM_ACCESS_KEY_ID"@ {
                match after.aws.access_key_id {
                    Some(chosen) => chosen@ == (match text {
                        Some(t) => t,
                        None => "key"@,
                    }),
                    None => false,
                }
            } else {
                match (after.aws.access_key_id, before.aws.access_key_id) {
                    (Some(now), Some(earlier)) => now@ == earlier@,
                    (None, None) => true,
                    _ => false,
                }
            }
            &&& if filled && key == "AWS_IAM_SECRET_ACCESS_KEY"@ {
                match after.aws.secret_access_key {
                    Some(chosen) => chosen@ == (match text {
                        Some(t) => t,
                        None => "secret"@,
                    }),
                    None => false,
                }
            } else {
                match (after.aws.secret_access_key, before.aws.secret_access_key) {
                    (Some(now), Some(earlier)) => now@ == earlier@,
                    (None, None) => true,
                    _ => false,
                }
            }
        }),
{
    law_secrets_are_named_by_an_exclamation_mark(value, secret);
    lemma_named_settings(key);
    lemma_setting_after(
        builder,
        before,
        after,
        section,
        key,
        value,
        secret,
        Setting::AwsAccessKeyId,
    );
    lemma_setting_after(
        builder,
        before,
        after,
        section,
        key,
        value,
        secret,
        Setting::AwsSecretAccessKey,
    );
}

/// The variables of the health endpoint are `HEALTH_READINESS_PORT` and
/// `ENABLE_HEALTH_READINESS`. Where the builder fills the section, each of them
/// fills its field with the text that its value stands for; a text that is missing
/// or cannot be read leaves the field's stand-in there. No other variable changes
/// any of the fields, and none does where the builder does not fill the section.
pub proof fn law_health_variables<T>(
    builder: ConfigBuilder,
    before: Configs<T>,
    after: Configs<T>,
    section: Option<Section>,
    key: Seq<char>,
    value: Seq<char>,
    secret: Option<String>,
)
    requires
        fills(
            before,
            after,
            match section {
                Some(one) => builder.claim_in(one, key),
                None => builder.claim(key),
            },
            value,
            &secret,
        ),
    ensures
        builder.claim_in(Section::Health, key) is Some <==> builder.enables(Section::Health) && (
            key == "HEALTH_READINESS_PORT"@
            || key == "ENABLE_HEALTH_READINESS"@),
        ({
            let filled = builder.enables(Section::Health) && (section is None || section == Some(
                Section::Health,
            ));
            let text = if value.len() > 0 && value[0] == '!' {
                match secret {
                    Some(hidden) => Some(hidden@),
                    None => None,
                }
            } else {
                Some(value)
            };
            &&& after.health_readiness.port == (if filled && key == "HEALTH_READINESS_PORT"@ {
                match text {
                    Some(t) => match number_in(t) {
                        Some(number) => number,
                        None => 8888u64,
                    },
                    None => 8888u64,
                }
            } else {
                before.health_readiness.port
            })
            &&& after.health_readiness.enable == (if filled && key == "ENABLE_HEALTH_READINESS"@ {
                text == Some(seq!['t', 'r', 'u', 'e'])
            } else {
                before.health_readiness.enable
            })
        }),
{
    law_secrets_are_named_by_an_exclamation_mark(value, secret);
    lemma_named_settings(key);
    if let Some(text) = resolved(value, secret) {
        law_flags_are_as_written(false, text);
    }
    lemma_setting_after(
        builder,
        before,
        after,
        section,
        key,
        value,
        secret,
        Setting::HealthPort,
    );
    lemma_setting_after(
        builder,
        before,
        after,
        section,
        key,
        value,
        secret,
        Setting::HealthEnable,
    );
}

/// The variables of the SQLite database are `SQLITE_FILE_NAME`, `SQLITE_USER` and
/// `SQLITE_PASSWORD`. Where the builder fills the section, each of them fills its
/// field with the text that its value stands for; a text that is missing or cannot
/// be read leaves the field's stand-in there. No other variable changes any of the
/// fields, and none does where the builder does not fill the section.
pub proof fn law_sqlite_variables<T>(
    builder: ConfigBuilder,
    before: Configs<T>,
    after: Configs<T>,
    section: Option<Section>,
    key: Seq<char>,
    value: Seq<char>,
    secret: Option<String>,
)
    requires
        fills(
            before,
            after,
            match section {
                Some(one) => builder.claim_in(one, key),
                None => builder.claim(key),
            },
            value,
            &secret,
        ),
    ensures
        builder.claim_in(Section::Sqlite, key) is Some <==> builder.enables(Section::Sqlite) && (
            key == "SQLITE_FILE_NAME"@
            || key == "SQLITE_USER"@
            || key == "SQLITE_PASSWORD"@),
        ({
            let filled = builder.enables(Section::Sqlite) && (section is None || section == Some(
                Section::Sqlite,
            ));
            let text = if value.len() > 0 && value[0] == '!' {
                match secret {
                    Some(hidden) => Some(hidden@),
                    None => None,
                }
            } else {
                Some(value)
            };
            &&& after.sqlite.file@ == (if filled && key == "SQLITE_FILE_NAME"@ {
                match text {
                    Some(t) => t,
                    None => "local.db"@,
                }
            } else {
                before.sqlite.file@
            })
            &&& after.sqlite.user@ == (if filled && key == "SQLITE_USER"@ {
                match text {
                    Some(t) => t,
                    None => "user"@,
                }
            } else {
                before.sqlite.user@
            })
            &&& after.sqlite.password@ == (if filled && key == "SQLITE_PASSWORD"@ {
                match text {
                    Some(t) => t,
                    None => "password"@,
                }
            } else {
                before.sqlite.password@
            })
        }),
{
    law_secrets_are_named_by_an_exclamation_mark(value, secret);
    lemma_named_settings(key);
    lemma_setting_after(
        builder,
        before,
        after,
        section,
        key,
        value,
        secret,
        Setting::SqliteFile,
    );
    lemma_setting_after(
        builder,
        before,
        after,
        section,
        key,
        value,
        secret,
        Setting::SqliteUser,
    );
    lemma_setting_after(
        builder,
        before,
        after,
        section,
        key,
        value,
        secret,
        Setting::SqlitePassword,
    );
}

} // verus!
