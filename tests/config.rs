use monitor_core::config::{
    load_bootstrap_config, load_bootstrap_config_from_env, load_env_config, profile_path,
    Bootstrap, EnvConfig, LoadAction, LoadStep, Profiles, Server, Service, Smtp,
};
use monitor_core::env::{lookup, override_value};

fn sample_profile() -> Bootstrap {
    Bootstrap {
        server: Server { addr: "0.0.0.0:8080".to_string() },
        services: vec![
            Service { name: "orders".to_string(), api: "http://orders/health".to_string() },
            Service { name: "users".to_string(), api: "http://users/health".to_string() },
        ],
        smtp: Smtp {
            from: "alerts@example.com".to_string(),
            to: "ops@example.com".to_string(),
            username: "alice".to_string(),
            password: "file-secret".to_string(),
            domain: "smtp.example.com".to_string(),
        },
    }
}

fn vars(pairs: &[(&str, &str)]) -> Vec<(String, String)> {
    pairs.iter().map(|(k, v)| (k.to_string(), v.to_string())).collect()
}

fn finish(action: LoadAction) -> Option<Bootstrap> {
    match action {
        LoadAction::Finish(r) => r,
        other => panic!("expected the cascade to finish, got {:?}", other),
    }
}

/// Runs the cascade with files held in memory: `files` maps a path to the
/// decoded top-level record or profile record found there.
fn run_cascade(
    env_file: Option<(&str, EnvConfig)>,
    profile_file: Option<(&str, Bootstrap)>,
    env_vars: &Vec<(String, String)>,
) -> Option<Bootstrap> {
    let mut step = LoadStep::Begin;
    loop {
        match load_bootstrap_config(step, env_vars) {
            LoadAction::ReadEnvConfig(path) => {
                let found = match &env_file {
                    Some((p, e)) if *p == path => Some(e.clone()),
                    _ => None,
                };
                step = LoadStep::EnvLoaded(found);
            }
            LoadAction::ReadProfile(path) => {
                let found = match &profile_file {
                    Some((p, b)) if *p == path => Some(b.clone()),
                    _ => None,
                };
                step = LoadStep::ProfileLoaded(found);
            }
            LoadAction::Finish(r) => return r,
        }
    }
}

fn prod_env() -> EnvConfig {
    EnvConfig { profiles: Profiles { active: "prod".to_string() } }
}

#[test]
pub fn load_config_test() {
    // No configuration files are handed back here, so the cascade yields nothing.
    match run_cascade(None, None, &Vec::new()) {
        None => {
            println!("None");
        }
        Some(config) => {
            println!("{:#?}", config);
        }
    }
}

#[test]
fn first_step_reads_top_level_file() {
    match load_env_config() {
        LoadAction::ReadEnvConfig(path) => assert_eq!(path, "application.yml"),
        other => panic!("unexpected {:?}", other),
    }
    match load_bootstrap_config(LoadStep::Begin, &Vec::new()) {
        LoadAction::ReadEnvConfig(path) => assert_eq!(path, "application.yml"),
        other => panic!("unexpected {:?}", other),
    }
}

#[test]
fn profile_file_name() {
    assert_eq!(profile_path("prod"), "application-prod.yml");
    assert_eq!(profile_path(""), "application-.yml");
    match load_bootstrap_config_from_env("dev".to_string()) {
        LoadAction::ReadProfile(path) => assert_eq!(path, "application-dev.yml"),
        other => panic!("unexpected {:?}", other),
    }
    match load_bootstrap_config(LoadStep::EnvLoaded(Some(prod_env())), &Vec::new()) {
        LoadAction::ReadProfile(path) => assert_eq!(path, "application-prod.yml"),
        other => panic!("unexpected {:?}", other),
    }
}

#[test]
fn missing_top_level_file_gives_nothing() {
    assert!(finish(load_bootstrap_config(LoadStep::EnvLoaded(None), &Vec::new())).is_none());
    let p = sample_profile();
    assert!(run_cascade(None, Some(("application-prod.yml", p)), &Vec::new()).is_none());
}

#[test]
fn missing_profile_file_gives_nothing() {
    assert!(finish(load_bootstrap_config(LoadStep::ProfileLoaded(None), &Vec::new())).is_none());
    let p = sample_profile();
    // The profile file present is for another profile.
    assert!(run_cascade(
        Some(("application.yml", prod_env())),
        Some(("application-dev.yml", p)),
        &Vec::new()
    )
    .is_none());
}

#[test]
fn file_values_stand_without_variables() {
    let r = run_cascade(
        Some(("application.yml", prod_env())),
        Some(("application-prod.yml", sample_profile())),
        &vars(&[("HOME", "/root"), ("PATH", "/bin")]),
    )
    .expect("configuration");
    assert_eq!(r.server.addr, "0.0.0.0:8080");
    assert_eq!(r.services.len(), 2);
    assert_eq!(r.services[0].name, "orders");
    assert_eq!(r.services[0].api, "http://orders/health");
    assert_eq!(r.services[1].name, "users");
    assert_eq!(r.services[1].api, "http://users/health");
    assert_eq!(r.smtp.from, "alerts@example.com");
    assert_eq!(r.smtp.to, "ops@example.com");
    assert_eq!(r.smtp.username, "alice");
    assert_eq!(r.smtp.password, "file-secret");
    assert_eq!(r.smtp.domain, "smtp.example.com");
}

#[test]
fn username_from_file_then_from_variable() {
    let unset = run_cascade(
        Some(("application.yml", prod_env())),
        Some(("application-prod.yml", sample_profile())),
        &Vec::new(),
    )
    .expect("configuration");
    assert_eq!(unset.smtp.username, "alice");
    let set = run_cascade(
        Some(("application.yml", prod_env())),
        Some(("application-prod.yml", sample_profile())),
        &vars(&[("SMTP_USERNAME", "bob")]),
    )
    .expect("configuration");
    assert_eq!(set.smtp.username, "bob");
    assert_eq!(set.smtp.password, "file-secret");
}

#[test]
fn every_mail_field_is_overridden() {
    let env = vars(&[
        ("SMTP_FROM", "f@x.org"),
        ("SMTP_TO", "t@x.org"),
        ("SMTP_USERNAME", "u"),
        ("SMTP_PASSWORD", "p"),
        ("SMTP_DOMAIN", "mail.x.org"),
    ]);
    let r = Smtp::from_env(sample_profile().smtp, &env);
    assert_eq!(r.from, "f@x.org");
    assert_eq!(r.to, "t@x.org");
    assert_eq!(r.username, "u");
    assert_eq!(r.password, "p");
    assert_eq!(r.domain, "mail.x.org");
    // Clearing the variables brings the file's values back.
    let r = Smtp::from_env(sample_profile().smtp, &Vec::new());
    assert_eq!(r.from, "alerts@example.com");
    assert_eq!(r.domain, "smtp.example.com");
}

#[test]
fn empty_variable_still_overrides() {
    let r = Smtp::from_env(sample_profile().smtp, &vars(&[("SMTP_PASSWORD", "")]));
    assert_eq!(r.password, "");
    assert_eq!(r.username, "alice");
}

#[test]
fn lookup_takes_first_entry() {
    let env = vars(&[("A", "1"), ("B", "2"), ("A", "3")]);
    assert_eq!(lookup(&env, &"A".to_string()), Some("1".to_string()));
    assert_eq!(lookup(&env, &"B".to_string()), Some("2".to_string()));
    assert_eq!(lookup(&env, &"C".to_string()), None);
    assert_eq!(lookup(&Vec::new(), &"A".to_string()), None);
    assert_eq!(override_value(&env, &"C".to_string(), "file".to_string()), "file");
    assert_eq!(override_value(&env, &"B".to_string(), "file".to_string()), "2");
}

#[test]
fn variable_names_are_exact() {
    let r = Smtp::from_env(
        sample_profile().smtp,
        &vars(&[("smtp_username", "x"), ("SMTP_USERNAME ", "y"), ("MAIL_USERNAME", "z")]),
    );
    assert_eq!(r.username, "alice");
}
