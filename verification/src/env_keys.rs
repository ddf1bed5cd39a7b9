//! The names of the environment variables and files that hold the configuration.

use vstd::prelude::*;

verus! {

/// The file that holds the variables of a local run.
pub const LOCAL_ENV_FILE_NAME: &'static str = "./.env.local";

/// The file that holds the variables of the development environment.
pub const DEV_ENV_FILE_NAME: &'static str = "./.env.dev";

/// The file that holds the variables of the staging environment.
pub const STAGING_FILE_NAME: &'static str = "./.env.staging";

/// The file that holds the variables of the production environment.
pub const PROD_FILE_NAME: &'static str = "./.env.prod";

/// What the value of a variable begins with when it names a secret.
pub const SECRET_PREFIX: &'static str = "!";

/// The region used where none is given.
pub const AWS_DEFAULT_REGION: &'static str = "us-east-1";

/// The name of the application.
pub const APP_NAME_ENV_KEY: &'static str = "APP_NAME";

/// The port that the application listens on.
pub const APP_PORT_ENV_KEY: &'static str = "APP_PORT";

/// The name of the host.
pub const HOST_NAME_ENV_KEY: &'static str = "HOST_NAME";

/// The level of logging.
pub const LOG_LEVEL_ENV_KEY: &'static str = "LOG_LEVEL";

/// The key of the secret that holds the application's secrets.
pub const SECRET_KEY_ENV_KEY: &'static str = "SECRET_KEY";

/// The secret manager in use.
pub const SECRET_MANAGER_ENV_KEY: &'static str = "SECRET_MANAGER";

/// The time between two messages of one batch, in milliseconds.
pub const MULTIPLE_MESSAGE_TIMER_ENV_KEY: &'static str = "MULTIPLE_MESSAGE_TIMER";

/// Sets `auth0.domain`.
pub const AUTH0_DOMAIN_ENV_KEY: &'static str = "AUTH0_DOMAIN";

/// Sets `auth0.audience`.
pub const AUTH0_AUDIENCE_ENV_KEY: &'static str = "AUTH0_AUDIENCE";

/// Sets `auth0.issuer`.
pub const AUTH0_ISSUER_ENV_KEY: &'static str = "AUTH0_ISSUER";

/// Sets `auth0.grant_type`.
pub const AUTH0_GRANT_TYPE_ENV_KEY: &'static str = "AUTH0_GRANT_TYPE";

/// Sets `auth0.client_id`.
pub const AUTH0_CLIENT_ID_ENV_KEY: &'static str = "AUTH0_CLIENT_ID";

/// Sets `auth0.client_secret`.
pub const AUTH0_CLIENT_SECRET_ENV_KEY: &'static str = "AUTH0_CLIENT_SECRET";

/// Sets `mqtt.broker_kind`.
pub const MQTT_BROKER_KIND_ENV_KEY: &'static str = "MQTT_BROKER_KIND";

/// Sets `mqtt.host`.
pub const MQTT_HOST_ENV_KEY: &'static str = "MQTT_HOST";

/// Sets `mqtt.transport`.
pub const MQTT_TRANSPORT_ENV_KEY: &'static str = "MQTT_TRANSPORT";

/// Sets `mqtt.port`.
pub const MQTT_PORT_ENV_KEY: &'static str = "MQTT_PORT";

/// Sets `mqtt.user`.
pub const MQTT_USER_ENV_KEY: &'static str = "MQTT_USER";

/// Sets `mqtt.password`.
pub const MQTT_PASSWORD_ENV_KEY: &'static str = "MQTT_PASSWORD";

/// Sets `mqtt.root_ca_path`.
pub const MQTT_CA_CERT_PATH_ENV_KEY: &'static str = "MQTT_CA_CERT_PATH";

/// Sets `rabbitmq.host`.
pub const RABBITMQ_HOST_ENV_KEY: &'static str = "RABBITMQ_HOST";

/// Sets `rabbitmq.port`.
pub const RABBITMQ_PORT_ENV_KEY: &'static str = "RABBITMQ_PORT";

/// Sets `rabbitmq.user`.
pub const RABBITMQ_USER_ENV_KEY: &'static str = "RABBITMQ_USER";

/// Sets `rabbitmq.password`.
pub const RABBITMQ_PASSWORD_ENV_KEY: &'static str = "RABBITMQ_PASSWORD";

/// Sets `rabbitmq.vhost`.
pub const RABBITMQ_VHOST_ENV_KEY: &'static str = "RABBITMQ_VHOST";

/// Sets `trace.enable`.
pub const ENABLE_TRACES_ENV_KEY: &'static str = "ENABLE_TRACES";

/// Sets `trace.host`.
pub const TRACE_HOST_ENV_KEY: &'static str = "TRACE_HOST";

/// Sets `trace.key`.
pub const TRACE_ACCESS_KEY_ENV_KEY: &'static str = "TRACE_ACCESS_KEY";

/// Sets `trace.service_type`.
pub const TRACE_SERVICE_TYPE_ENV_KEY: &'static str = "TRACE_SERVICE_TYPE";

/// Sets `trace.export_timeout`.
pub const TRACE_EXPORT_TIMEOUT_ENV_KEY: &'static str = "TRACE_EXPORT_TIMEOUT";

/// Sets `trace.export_rate_base`.
pub const TRACE_EXPORT_RATE_BASE_ENV_KEY: &'static str = "TRACE_EXPORT_RATE_BASE";

/// Sets `metric.enable`.
pub const ENABLE_METRICS_ENV_KEY: &'static str = "ENABLE_METRICS";

/// Sets `metric.host`.
pub const METRIC_HOST_ENV_KEY: &'static str = "METRIC_HOST";

/// Sets `metric.key`.
pub const METRIC_ACCESS_KEY_ENV_KEY: &'static str = "METRIC_ACCESS_KEY";

/// Sets `metric.service_type`.
pub const METRIC_SERVICE_TYPE_ENV_KEY: &'static str = "METRIC_SERVICE_TYPE";

/// Sets `metric.export_timeout`.
pub const METRIC_EXPORT_TIMEOUT_ENV_KEY: &'static str = "METRIC_EXPORT_TIMEOUT";

/// Sets `metric.export_rate_base`.
pub const METRIC_EXPORT_RATE_BASE_ENV_KEY: &'static str = "METRIC_EXPORT_RATE_BASE";

/// Sets `postgres.host`.
pub const POSTGRES_HOST_ENV_KEY: &'static str = "POSTGRES_HOST";

/// Sets `postgres.user`.
pub const POSTGRES_USER_ENV_KEY: &'static str = "POSTGRES_USER";

/// Sets `postgres.password`.
pub const POSTGRES_PASSWORD_ENV_KEY: &'static str = "POSTGRES_PASSWORD";

/// Sets `postgres.port`.
pub const POSTGRES_PORT_ENV_KEY: &'static str = "POSTGRES_PORT";

/// Sets `postgres.db`.
pub const POSTGRES_DB_ENV_KEY: &'static str = "POSTGRES_DB";

/// Sets `dynamo.endpoint`.
pub const DYNAMO_ENDPOINT_ENV_KEY: &'static str = "DYNAMO_ENDPOINT";

/// Sets `dynamo.table`.
pub const DYNAMO_TABLE_ENV_KEY: &'static str = "DYNAMO_TABLE";

/// Sets `dynamo.region`.
pub const DYNAMO_REGION_ENV_KEY: &'static str = "DYNAMO_REGION";

/// Sets `dynamo.expire`.
pub const DYNAMO_EXPIRE_ENV_KEY: &'static str = "DYNAMO_EXPIRE";

/// Sets `aws.access_key_id`.
pub const AWS_IAM_ACCESS_KEY_ID: &'static str = "AWS_IAM_ACCESS_KEY_ID";

/// Sets `aws.secret_access_key`.
pub const AWS_IAM_SECRET_ACCESS_KEY: &'static str = "AWS_IAM_SECRET_ACCESS_KEY";

/// Sets `health_readiness.port`.
pub const HEALTH_READINESS_PORT_ENV_KEY: &'static str = "HEALTH_READINESS_PORT";

/// Sets `health_readiness.enable`.
pub const ENABLE_HEALTH_READINESS_ENV_KEY: &'static str = "ENABLE_HEALTH_READINESS";

/// Sets `sqlite.file`.
pub const SQLITE_FILE_NAME_ENV_KEY: &'static str = "SQLITE_FILE_NAME";

/// Sets `sqlite.user`.
pub const SQLITE_USER_ENV_KEY: &'static str = "SQLITE_USER";

/// Sets `sqlite.password`.
pub const SQLITE_PASSWORD_ENV_KEY: &'static str = "SQLITE_PASSWORD";

} // verus!
