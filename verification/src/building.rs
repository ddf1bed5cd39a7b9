//! The steps in which a configuration is built, and what comes of them.

use crate::configs::{Configs, Environment};
use crate::configs_builder::{AppReading, ConfigBuilder, EnvVar};
use crate::env_keys::{
    DEV_ENV_FILE_NAME, LOCAL_ENV_FILE_NAME, PROD_FILE_NAME, STAGING_FILE_NAME,
};
#[allow(unused_imports)]
use crate::configs_builder::{
    distinct_claims, law_order_of_variables_does_not_matter, repeated_by,
};
#[allow(unused_imports)]
use crate::settings::Setting;
use vstd::prelude::*;

verus! {

/// Why a configuration could not be built.
#[derive(Debug, PartialEq, Eq)]
pub enum ConfigsError {
    /// Logging could not be set up.
    InternalError {},
    /// The secrets could not be loaded, for the reason given.
    SecretLoadingError(String),
}

/// The file with the variables of an environment.
pub open spec fn env_file(env: Environment) -> Seq<char> {
    match env {
        Environment::Prod => PROD_FILE_NAME@,
        Environment::Staging => STAGING_FILE_NAME@,
        Environment::Dev => DEV_ENV_FILE_NAME@,
        Environment::Local => LOCAL_ENV_FILE_NAME@,
    }
}

/// The file with the variables of an environment.
pub fn env_file_name(env: Environment) -> (name: &'static str)
    ensures
        name@ == env_file(env),
{
    match env {
        Environment::Prod => PROD_FILE_NAME,
        Environment::Staging => STAGING_FILE_NAME,
        Environment::Dev => DEV_ENV_FILE_NAME,
        Environment::Local => LOCAL_ENV_FILE_NAME,
    }
}

/// What is to be done next to build a configuration.
#[derive(Clone, Copy, Debug, PartialEq, Eq, Structural)]
pub enum Stage {
    /// Load the file with the variables of the environment, if there is one.
    EnvFile,
    /// Read what describes the service itself.
    App,
    /// Set up logging.
    Logging,
    /// Load the service's own part of the configuration.
    Dynamic,
    /// Create the secret client.
    Client,
    /// Read the environment variables, with the secrets that they name.
    Variables,
    /// Nothing: the configuration is built.
    Done,
}

/// What came of it.
#[derive(Debug, PartialEq, Eq)]
pub enum BuildEvent {
    /// The file was loaded, or there was none.
    EnvFileTried,
    /// What describes the service was read.
    AppRead(AppReading),
    /// Logging was set up, or could not be.
    LoggingTried(bool),
    /// The service's own part was loaded.
    DynamicLoaded,
    /// The secret client was created, or could not be, for the reason given.
    ClientTried(Result<(), String>),
    /// The variables were read.
    VariablesRead(Vec<EnvVar>),
}

/// A configuration that is being built.
#[derive(Debug)]
pub struct Build<T> {
    pub builder: ConfigBuilder,
    pub cfg: Configs<T>,
    pub stage: Stage,
}

/// The stage in which an event comes.
pub open spec fn stage_of(event: BuildEvent) -> Stage {
    match event {
        BuildEvent::EnvFileTried => Stage::EnvFile,
        BuildEvent::AppRead(_) => Stage::App,
        BuildEvent::LoggingTried(_) => Stage::Logging,
        BuildEvent::DynamicLoaded => Stage::Dynamic,
        BuildEvent::ClientTried(_) => Stage::Client,
        BuildEvent::VariablesRead(_) => Stage::Variables,
    }
}

/// The stage that follows a stage.
pub open spec fn stage_after(stage: Stage) -> Stage {
    match stage {
        Stage::EnvFile => Stage::App,
        Stage::App => Stage::Logging,
        Stage::Logging => Stage::Dynamic,
        Stage::Dynamic => Stage::Client,
        Stage::Client => Stage::Variables,
        Stage::Variables | Stage::Done => Stage::Done,
    }
}

/// The error with which an event ends the build, if it does.
pub open spec fn failure_of(event: BuildEvent) -> Option<ConfigsError> {
    match event {
        BuildEvent::LoggingTried(false) => Some(ConfigsError::InternalError {  }),
        BuildEvent::ClientTried(Err(reason)) => Some(ConfigsError::SecretLoadingError(reason)),
        _ => None,
    }
}

/// Whether an event takes a build from `before` to `after`. What describes the
/// service fills the description and the message timer, the variables fill the
/// settings, and no other event changes the configuration.
pub open spec fn steps_to<T>(before: Build<T>, event: BuildEvent, after: Build<T>) -> bool {
    &&& stage_of(event) == before.stage
    &&& after.stage == stage_after(before.stage)
    &&& after.builder == before.builder
    &&& match event {
        BuildEvent::AppRead(reading) => {
            &&& reading.describes(after.cfg.app)
            &&& Some(after.cfg.multiple_message_timer) == reading.vars.timer()
            &&& forall|setting: Setting| #[trigger]
                after.cfg.read(setting) == before.cfg.read(setting)
            &&& after.cfg.dynamic == before.cfg.dynamic
        },
        BuildEvent::VariablesRead(vars) => {
            &&& forall|setting: Setting| #[trigger]
                after.cfg.read(setting) == before.builder.value_after(
                    before.cfg.read(setting),
                    setting,
                    vars@,
                )
            &&& after.cfg.same_frame(&before.cfg)
        },
        _ => after.cfg == before.cfg,
    }
}

impl<T> Build<T> {
    /// Begins to build a configuration.
    pub fn new(builder: ConfigBuilder, cfg: Configs<T>) -> (build: Self)
        ensures
            build.builder == builder,
            build.cfg == cfg,
            build.stage == Stage::EnvFile,
    {
        Build { builder, cfg, stage: Stage::EnvFile }
    }

    /// Takes in what came of the stage and goes on to the next one: see `steps_to`.
    /// The build fails where logging could not be set up, and where the secret
    /// client could not be created; it then changes nothing.
    pub fn step(&mut self, event: BuildEvent) -> (result: Result<(), ConfigsError>)
        requires
            stage_of(event) == old(self).stage,
            event matches BuildEvent::AppRead(reading) ==> reading.vars.timer() is Some,
        ensures
            match failure_of(event) {
                Some(error) => result == Err::<(), ConfigsError>(error) && *final(self)
                    == *old(self),
                None => result is Ok && steps_to(*old(self), event, *final(self)),
            },
    {
        match event {
            BuildEvent::EnvFileTried => {
                self.stage = Stage::App;
                Ok(())
            },
            BuildEvent::AppRead(reading) => {
                self.builder.fill_app(&mut self.cfg, &reading);
                self.stage = Stage::Logging;
                Ok(())
            },
            BuildEvent::LoggingTried(done) => {
                if !done {
                    return Err(ConfigsError::InternalError {  });
                }
                self.stage = Stage::Dynamic;
                Ok(())
            },
            BuildEvent::DynamicLoaded => {
                self.stage = Stage::Client;
                Ok(())
            },
            BuildEvent::ClientTried(created) => match created {
                Ok(_) => {
                    self.stage = Stage::Variables;
                    Ok(())
                },
                Err(reason) => Err(ConfigsError::SecretLoadingError(reason)),
            },
            BuildEvent::VariablesRead(vars) => {
                self.builder.fill_all(&mut self.cfg, &vars);
                self.stage = Stage::Done;
                Ok(())
            },
        }
    }
}

/// Whether a build comes to `end`: the service is described as it was read, every
/// setting of the sections that the builder fills holds what the last variable of
/// its name says, everything else is as it was at the start, and the service's own
/// part is as it was loaded.
pub open spec fn built_from<T>(
    start: Build<T>,
    reading: AppReading,
    dynamic: T,
    vars: Seq<EnvVar>,
    end: Build<T>,
) -> bool {
    &&& end.stage == Stage::Done
    &&& end.builder == start.builder
    &&& reading.describes(end.cfg.app)
    &&& Some(end.cfg.multiple_message_timer) == reading.vars.timer()
    &&& end.cfg.dynamic == dynamic
    &&& forall|setting: Setting| #[trigger]
        end.cfg.read(setting) == start.builder.value_after(start.cfg.read(setting), setting, vars)
}

/// What a build that goes through comes to: see `built_from`.
pub proof fn law_what_is_built<T>(
    start: Build<T>,
    env_file_tried: Build<T>,
    reading: AppReading,
    app_read: Build<T>,
    logging_tried: Build<T>,
    loaded: Build<T>,
    dynamic_loaded: Build<T>,
    client_tried: Build<T>,
    vars: Vec<EnvVar>,
    end: Build<T>,
)
    requires
        steps_to(start, BuildEvent::EnvFileTried, env_file_tried),
        steps_to(env_file_tried, BuildEvent::AppRead(reading), app_read),
        steps_to(app_read, BuildEvent::LoggingTried(true), logging_tried),
        loaded == (Build {
            cfg: Configs { dynamic: loaded.cfg.dynamic, ..logging_tried.cfg },
            ..logging_tried
        }),
        steps_to(loaded, BuildEvent::DynamicLoaded, dynamic_loaded),
        steps_to(dynamic_loaded, BuildEvent::ClientTried(Ok(())), client_tried),
        steps_to(client_tried, BuildEvent::VariablesRead(vars), end),
    ensures
        built_from(start, reading, loaded.cfg.dynamic, vars@, end),
{
    assert forall|setting: Setting| #[trigger]
        end.cfg.read(setting) == start.builder.value_after(
            start.cfg.read(setting),
            setting,
            vars@,
        ) by {
        assert(app_read.cfg.read(setting) == env_file_tried.cfg.read(setting));
        assert(loaded.cfg.read(setting) == logging_tried.cfg.read(setting));
    }
}

/// Two builds with the same builder, from starts whose settings hold the same,
/// come to the same settings when their variables say the same, in whatever order
/// and among whatever other variables.
pub proof fn law_order_does_not_matter_to_a_build<T>(
    start: Build<T>,
    reading: AppReading,
    dynamic: T,
    vars: Seq<EnvVar>,
    end: Build<T>,
    other_start: Build<T>,
    other_reading: AppReading,
    other_dynamic: T,
    other_vars: Seq<EnvVar>,
    other_end: Build<T>,
)
    requires
        built_from(start, reading, dynamic, vars, end),
        built_from(other_start, other_reading, other_dynamic, other_vars, other_end),
        start.builder == other_start.builder,
        forall|setting: Setting| #[trigger]
            start.cfg.read(setting) == other_start.cfg.read(setting),
        distinct_claims(start.builder, vars),
        distinct_claims(start.builder, other_vars),
        repeated_by(start.builder, vars, other_vars),
        repeated_by(start.builder, other_vars, vars),
    ensures
        forall|setting: Setting| #[trigger]
            end.cfg.read(setting) == other_end.cfg.read(setting),
{
    assert forall|setting: Setting| #[trigger]
        end.cfg.read(setting) == other_end.cfg.read(setting) by {
        assert(start.cfg.read(setting) == other_start.cfg.read(setting));
        law_order_of_variables_does_not_matter(
            start.builder,
            start.cfg.read(setting),
            setting,
            vars,
            other_vars,
        );
        assert(other_end.cfg.read(setting) == other_start.builder.value_after(
            other_start.cfg.read(setting),
            setting,
            other_vars,
        ));
    }
}

/// Each environment has a file of its own.
pub proof fn law_each_environment_has_its_file(a: Environment, b: Environment)
    ensures
        env_file(a) == env_file(b) <==> a == b,
        env_file(Environment::Local) == "./.env.local"@,
        env_file(Environment::Dev) == "./.env.dev"@,
        env_file(Environment::Staging) == "./.env.staging"@,
        env_file(Environment::Prod) == "./.env.prod"@,
{
    reveal_strlit("./.env.local");
    reveal_strlit("./.env.dev");
    reveal_strlit("./.env.staging");
    reveal_strlit("./.env.prod");
    assert("./.env.local"@.len() == 12);
    assert("./.env.dev"@.len() == 10);
    assert("./.env.staging"@.len() == 14);
    assert("./.env.prod"@.len() == 11);
}

/// A build fails where logging could not be set up, and where the secret client could
/// not be created, for whatever reason, which the error then gives. Nothing else that
/// comes of a stage fails it.
pub proof fn law_what_fails_a_build(event: BuildEvent)
    ensures
        match event {
            BuildEvent::LoggingTried(done) => failure_of(event) == (if done {
                None
            } else {
                Some(ConfigsError::InternalError {  })
            }),
            BuildEvent::ClientTried(created) => failure_of(event) == (match created {
                Ok(_) => None,
                Err(reason) => Some(ConfigsError::SecretLoadingError(reason)),
            }),
            BuildEvent::EnvFileTried => failure_of(event) is None,
            BuildEvent::AppRead(_) => failure_of(event) is None,
            BuildEvent::DynamicLoaded => failure_of(event) is None,
            BuildEvent::VariablesRead(_) => failure_of(event) is None,
        },
{
}

/// A build goes from the file to the description of the service, to logging, to the
/// service's own part, to the secret client, to the variables, and is done. On the way
/// the builder stays the same, and so does the service's own part; the description and
/// the message timer change in their own stage alone, and the settings where the
/// variables are read.
pub proof fn law_stages_come_in_order<T>(before: Build<T>, event: BuildEvent, after: Build<T>)
    requires
        steps_to(before, event, after),
    ensures
        match event {
            BuildEvent::EnvFileTried => before.stage == Stage::EnvFile && after.stage == Stage::App,
            BuildEvent::AppRead(_) => before.stage == Stage::App && after.stage == Stage::Logging,
            BuildEvent::LoggingTried(_) => before.stage == Stage::Logging && after.stage
                == Stage::Dynamic,
            BuildEvent::DynamicLoaded => before.stage == Stage::Dynamic && after.stage
                == Stage::Client,
            BuildEvent::ClientTried(_) => before.stage == Stage::Client && after.stage
                == Stage::Variables,
            BuildEvent::VariablesRead(_) => before.stage == Stage::Variables && after.stage
                == Stage::Done,
        },
        after.builder == before.builder,
        after.cfg.dynamic == before.cfg.dynamic,
        !(event is AppRead) ==> after.cfg.app == before.cfg.app && after.cfg.multiple_message_timer
            == before.cfg.multiple_message_timer,
        !(event is VariablesRead) ==> forall|setting: Setting| #[trigger]
            after.cfg.read(setting) == before.cfg.read(setting),
        !(event is AppRead) && !(event is VariablesRead) ==> after.cfg == before.cfg,
        event matches BuildEvent::AppRead(reading) ==> reading.describes(after.cfg.app) && Some(
            after.cfg.multiple_message_timer,
        ) == reading.vars.timer(),
        event matches BuildEvent::VariablesRead(vars) ==> forall|setting: Setting| #[trigger]
            after.cfg.read(setting) == before.builder.value_after(
                before.cfg.read(setting),
                setting,
                vars@,
            ),
{
}

} // verus!
