//! The configuration records and the two-stage load cascade: the top-level
//! file names the active profile, the profile's own file holds the settings,
//! and the mail settings may then be overridden from the environment.
//!
//! Reading and decoding files is left to the caller: `load_bootstrap_config`
//! says which file to read next, and is handed back what came of it.
use vstd::prelude::*;
use crate::env::{
    env_view, lemma_override_round_trip, lemma_unset_keeps_file, lookup_spec, overridden,
    override_value, set_var, unset_var,
};

verus! {

/// The `profiles` section of the top-level file.
#[derive(Debug, Clone)]
pub struct Profiles {
    pub active: String,
}

/// The top-level file: which profile is active.
#[derive(Debug, Clone)]
pub struct EnvConfig {
    pub profiles: Profiles,
}

/// The settings of one profile.
#[derive(Debug, Clone)]
pub struct Bootstrap {
    pub server: Server,
    pub services: Vec<Service>,
    pub smtp: Smtp,
}

/// Listen address of the instrumented service.
#[derive(Debug, Clone)]
pub struct Server {
    pub addr: String,
}

/// One monitored downstream service.
#[derive(Debug, Clone)]
pub struct Service {
    pub name: String,
    pub api: String,
}

/// Mail settings: addresses, credentials and relay domain.
#[derive(Debug, Clone)]
pub struct Smtp {
    pub from: String,
    pub to: String,
    pub username: String,
    pub password: String,
    pub domain: String,
}

/// Name of the top-level file.
pub open spec fn env_config_path_spec() -> Seq<char> {
    "application.yml"@
}

/// Name of the file of profile `active`: `application-<active>.yml`.
pub open spec fn profile_path_spec(active: Seq<char>) -> Seq<char> {
    "application-"@ + active + ".yml"@
}

/// The environment variable that overrides each mail setting.
pub open spec fn from_var() -> Seq<char> {
    "SMTP_FROM"@
}

pub open spec fn to_var() -> Seq<char> {
    "SMTP_TO"@
}

pub open spec fn username_var() -> Seq<char> {
    "SMTP_USERNAME"@
}

pub open spec fn password_var() -> Seq<char> {
    "SMTP_PASSWORD"@
}

pub open spec fn domain_var() -> Seq<char> {
    "SMTP_DOMAIN"@
}

/// `r` is `file` with each field replaced by its variable in `env` where that is set.
pub open spec fn smtp_resolved(file: Smtp, env: Seq<(Seq<char>, Seq<char>)>, r: Smtp) -> bool {
    &&& r.from@ == overridden(env, from_var(), file.from@)
    &&& r.to@ == overridden(env, to_var(), file.to@)
    &&& r.username@ == overridden(env, username_var(), file.username@)
    &&& r.password@ == overridden(env, password_var(), file.password@)
    &&& r.domain@ == overridden(env, domain_var(), file.domain@)
}

/// `r` is the profile `file` with its mail settings resolved against `env`.
pub open spec fn bootstrap_resolved(file: Bootstrap, env: Seq<(Seq<char>, Seq<char>)>, r: Bootstrap) -> bool {
    &&& r.server == file.server
    &&& r.services == file.services
    &&& smtp_resolved(file.smtp, env, r.smtp)
}

/// None of the mail variables is set in `env`.
pub open spec fn no_mail_vars(env: Seq<(Seq<char>, Seq<char>)>) -> bool {
    &&& lookup_spec(env, from_var()) is None
    &&& lookup_spec(env, to_var()) is None
    &&& lookup_spec(env, username_var()) is None
    &&& lookup_spec(env, password_var()) is None
    &&& lookup_spec(env, domain_var()) is None
}

/// `key` names one of the mail variables.
pub open spec fn is_mail_var(key: Seq<char>) -> bool {
    key == from_var() || key == to_var() || key == username_var() || key == password_var() || key
        == domain_var()
}

/// The mail setting that variable `key` overrides.
pub open spec fn mail_field(s: Smtp, key: Seq<char>) -> Seq<char> {
    if key == from_var() {
        s.from@
    } else if key == to_var() {
        s.to@
    } else if key == username_var() {
        s.username@
    } else if key == password_var() {
        s.password@
    } else {
        s.domain@
    }
}

/// With none of the mail variables set, a resolved profile is the file's
/// profile: same server, same services, same mail settings.
pub proof fn lemma_file_values_stand(file: Bootstrap, env: Seq<(Seq<char>, Seq<char>)>, r: Bootstrap)
    requires
        bootstrap_resolved(file, env, r),
        no_mail_vars(env),
    ensures
        r.server == file.server,
        r.services == file.services,
        r.smtp.from@ == file.smtp.from@,
        r.smtp.to@ == file.smtp.to@,
        r.smtp.username@ == file.smtp.username@,
        r.smtp.password@ == file.smtp.password@,
        r.smtp.domain@ == file.smtp.domain@,
{
    lemma_unset_keeps_file(env, from_var(), file.smtp.from@);
    lemma_unset_keeps_file(env, to_var(), file.smtp.to@);
    lemma_unset_keeps_file(env, username_var(), file.smtp.username@);
    lemma_unset_keeps_file(env, password_var(), file.smtp.password@);
    lemma_unset_keeps_file(env, domain_var(), file.smtp.domain@);
}

/// Setting the variable of a mail setting to `value` makes the resolved
/// setting `value` whatever the file holds; clearing the variable again
/// gives back the file's value.
pub proof fn lemma_mail_override(
    file: Smtp,
    env: Seq<(Seq<char>, Seq<char>)>,
    key: Seq<char>,
    value: Seq<char>,
    with_var: Smtp,
    cleared: Smtp,
)
    requires
        is_mail_var(key),
        smtp_resolved(file, set_var(env, key, value), with_var),
        smtp_resolved(file, unset_var(set_var(env, key, value), key), cleared),
    ensures
        mail_field(with_var, key) == value,
        mail_field(cleared, key) == mail_field(file, key),
{
    lemma_override_round_trip(env, key, value, mail_field(file, key));
    reveal_strlit("SMTP_FROM");
    reveal_strlit("SMTP_TO");
    reveal_strlit("SMTP_USERNAME");
    reveal_strlit("SMTP_PASSWORD");
    reveal_strlit("SMTP_DOMAIN");
}

impl Smtp {
    /// Replaces each field by its environment variable in `vars` where that
    /// is set (`SMTP_FROM`, `SMTP_TO`, `SMTP_USERNAME`, `SMTP_PASSWORD`,
    /// `SMTP_DOMAIN`), and keeps the file's value otherwise.
    pub fn from_env(config: Smtp, vars: &Vec<(String, String)>) -> (r: Smtp)
        ensures
            smtp_resolved(config, env_view(vars@), r),
    {
        Smtp {
            from: override_value(vars, &"SMTP_FROM".to_owned(), config.from),
            to: override_value(vars, &"SMTP_TO".to_owned(), config.to),
            username: override_value(vars, &"SMTP_USERNAME".to_owned(), config.username),
            password: override_value(vars, &"SMTP_PASSWORD".to_owned(), config.password),
            domain: override_value(vars, &"SMTP_DOMAIN".to_owned(), config.domain),
        }
    }
}

/// What the cascade has been handed back so far.
#[derive(Debug, Clone)]
pub enum LoadStep {
    /// Nothing read yet.
    Begin,
    /// The top-level file was read: its record, or `None` where it is
    /// missing or malformed.
    EnvLoaded(Option<EnvConfig>),
    /// The profile's file was read: its record, or `None` where it is
    /// missing or malformed.
    ProfileLoaded(Option<Bootstrap>),
}

/// What the cascade asks for next.
#[derive(Debug, Clone)]
pub enum LoadAction {
    /// Read and decode the top-level file at this path.
    ReadEnvConfig(String),
    /// Read and decode the profile file at this path.
    ReadProfile(String),
    /// The cascade is over: the resolved configuration, or `None`.
    Finish(Option<Bootstrap>),
}

/// The first step of the cascade: read the top-level file.
pub fn load_env_config() -> (r: LoadAction)
    ensures
        r matches LoadAction::ReadEnvConfig(path) && path@ == env_config_path_spec(),
{
    LoadAction::ReadEnvConfig("application.yml".to_owned())
}

/// The file that holds profile `active`.
pub fn profile_path(active: &str) -> (r: String)
    ensures
        r@ == profile_path_spec(active@),
{
    let mut path = "application-".to_owned();
    path.append(active);
    path.append(".yml");
    path
}

/// The second step of the cascade: read the file of profile `active`.
pub fn load_bootstrap_config_from_env(active: String) -> (r: LoadAction)
    ensures
        r matches LoadAction::ReadProfile(path) && path@ == profile_path_spec(active@),
{
    LoadAction::ReadProfile(profile_path(active.as_str()))
}

/// Decides the cascade's next action from what was handed back last.
/// Any missing or malformed file ends it with `None`; a profile that was
/// read ends it with that profile, its mail settings resolved against `vars`.
pub fn load_bootstrap_config(step: LoadStep, vars: &Vec<(String, String)>) -> (r: LoadAction)
    ensures
        step is Begin ==> (r matches LoadAction::ReadEnvConfig(path) && path@
            == env_config_path_spec()),
        step matches LoadStep::EnvLoaded(e) ==> match e {
            Some(e) => r matches LoadAction::ReadProfile(path) && path@ == profile_path_spec(
                e.profiles.active@,
            ),
            None => r matches LoadAction::Finish(None),
        },
        step matches LoadStep::ProfileLoaded(b) ==> match b {
            Some(b) => r matches LoadAction::Finish(Some(c)) && bootstrap_resolved(
                b,
                env_view(vars@),
                c,
            ),
            None => r matches LoadAction::Finish(None),
        },
{
    match step {
        LoadStep::Begin => load_env_config(),
        LoadStep::EnvLoaded(None) => LoadAction::Finish(None),
        LoadStep::EnvLoaded(Some(e)) => load_bootstrap_config_from_env(e.profiles.active),
        LoadStep::ProfileLoaded(None) => LoadAction::Finish(None),
        LoadStep::ProfileLoaded(Some(b)) => {
            let smtp = Smtp::from_env(b.smtp, vars);
            LoadAction::Finish(Some(Bootstrap { server: b.server, services: b.services, smtp }))
        },
    }
}

} // verus!
