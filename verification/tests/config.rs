use bois::config::bois::{Environment, Mode, RawConfiguration};
use bois::config::directory::DirectoryConfig;
use bois::config::file::{Delimiters, FileConfig};
use bois::constants::Defaults;
use bois::error::Error;
use bois::helper::{find_directory, FoundDirectory};

fn text(value: &str) -> Option<String> {
    Some(value.to_string())
}

fn pair(open: &str, close: &str) -> (String, String) {
    (open.to_string(), close.to_string())
}

fn defaults() -> Defaults {
    Defaults { user: "user".to_string(), group: "users".to_string(), home: text("/home/user") }
}

fn raw() -> RawConfiguration {
    RawConfiguration {
        name: None,
        bois_dir: None,
        target_dir: None,
        cache_dir: None,
        runtime_dir: None,
        envs: Vec::new(),
        mode: None,
    }
}

fn environment(username: &str, existing: &[&str]) -> Environment {
    Environment {
        hostname: text("myhost"),
        username: username.to_string(),
        home_dir: text("/home/user"),
        config_dir: text("/home/user/.config"),
        cache_dir: text("/home/user/.cache"),
        runtime_dir: text("/run/user/1000"),
        existing: existing.iter().map(|path| path.to_string()).collect(),
    }
}

// --- files and directories --------------------------------------------------

#[test]
fn file_without_settings_falls_back_to_the_account() {
    let config = FileConfig::default();
    assert_eq!(config.path(&defaults()), None);
    assert_eq!(config.owner(&defaults()), "user");
    assert_eq!(config.group(&defaults()), "users");
    assert_eq!(config.rename, None);
    assert_eq!(config.mode, None);
    assert!(config.delimiters.is_none());
    assert!(!config.template);
}

#[test]
fn settings_of_a_file_win() {
    let mut config = FileConfig::default();
    config.owner = text("root");
    config.group = text("wheel");
    config.path = text("~/.config/x");
    assert_eq!(config.owner(&defaults()), "root");
    assert_eq!(config.group(&defaults()), "wheel");
    assert_eq!(config.path(&defaults()), text("/home/user/.config/x"));
    config.override_path("/etc/x".to_string());
    assert_eq!(config.path(&defaults()), text("/etc/x"));
    assert_eq!(config.owner(&defaults()), "root");
    let copy = config.clone();
    assert_eq!(copy.path, text("/etc/x"));
    assert_eq!(copy.owner, text("root"));
    assert_eq!(copy.group, text("wheel"));
}

#[test]
fn directory_without_settings_falls_back() {
    let config = DirectoryConfig::default();
    assert_eq!(config.path(&defaults()), None);
    assert_eq!(config.mode(), 0o755);
    assert_eq!(config.owner(&defaults()), "user");
    assert_eq!(config.group(&defaults()), "users");
}

#[test]
fn settings_of_a_directory_win() {
    let mut config = DirectoryConfig::default();
    config.mode = Some(0o700);
    config.owner = text("root");
    config.group = text("wheel");
    assert_eq!(config.mode(), 0o700);
    assert_eq!(config.owner(&defaults()), "root");
    assert_eq!(config.group(&defaults()), "wheel");
    config.override_path("~".to_string());
    assert_eq!(config.path(&defaults()), text("/home/user"));
    assert_eq!(config.mode(), 0o700);
    let copy = config.clone();
    assert_eq!(copy.path, text("~"));
    assert_eq!(copy.mode, Some(0o700));
}

#[test]
fn usual_delimiters() {
    assert_eq!(Delimiters::default_block_delimiter(), pair("{%", "%}"));
    assert_eq!(Delimiters::default_variable_delimiter(), pair("{{", "}}"));
    assert_eq!(Delimiters::default_comment_delimiter(), pair("{#", "#}"));
}

#[test]
fn delimiters_without_prefix_are_as_they_are() {
    let delimiters = Delimiters {
        prefix: None,
        block: pair("<%", "%>"),
        variable: pair("<<", ">>"),
        comment: pair("<#", "#>"),
    };
    assert_eq!(delimiters.block(), pair("<%", "%>"));
    assert_eq!(delimiters.variable(), pair("<<", ">>"));
    assert_eq!(delimiters.comment(), pair("<#", "#>"));
}

#[test]
fn prefix_goes_before_the_opening_delimiter() {
    let delimiters = Delimiters {
        prefix: text("#"),
        block: Delimiters::default_block_delimiter(),
        variable: Delimiters::default_variable_delimiter(),
        comment: Delimiters::default_comment_delimiter(),
    };
    assert_eq!(delimiters.block(), pair("#{%", "%}"));
    assert_eq!(delimiters.variable(), pair("#{{", "}}"));
    assert_eq!(delimiters.comment(), pair("#{#", "#}"));
    let copy = delimiters.clone();
    assert_eq!(copy.prefix, text("#"));
    assert_eq!(copy.block, pair("{%", "%}"));
}

#[test]
fn delimiters_that_are_not_set_are_empty() {
    let delimiters = Delimiters::default();
    assert_eq!(delimiters.prefix, None);
    assert_eq!(delimiters.block(), pair("", ""));
    assert_eq!(delimiters.variable(), pair("", ""));
    assert_eq!(delimiters.comment(), pair("", ""));
}

// --- directories of the program ---------------------------------------------

#[test]
fn first_directory_that_exists_is_found() {
    let dirs = vec![None, text("/a"), text("/b"), None, text("/c")];
    let existing = vec!["/c".to_string(), "/b".to_string()];
    match find_directory(&dirs, &existing, "test", true) {
        Ok(FoundDirectory::Existing(path)) => assert_eq!(path, "/b"),
        other => panic!("unexpected result {other:?}"),
    }
}

#[test]
fn first_directory_is_made_where_none_exists() {
    let dirs = vec![None, text("/a"), text("/b")];
    match find_directory(&dirs, &Vec::new(), "test", true) {
        Ok(FoundDirectory::Create(path)) => assert_eq!(path, "/a"),
        other => panic!("unexpected result {other:?}"),
    }
}

#[test]
fn missing_directory_is_an_error_where_none_is_to_be_made() {
    let dirs = vec![None, text("/a"), text("/b")];
    match find_directory(&dirs, &Vec::new(), "bois config", false) {
        Err(Error::DirectoryNotFound(kind, places)) => {
            assert_eq!(kind, "bois config");
            assert_eq!(places, vec!["/a", "/b"]);
        }
        other => panic!("unexpected result {other:?}"),
    }
    match find_directory(&vec![None, None], &Vec::new(), "target", true) {
        Err(Error::DirectoryNotFound(kind, places)) => {
            assert_eq!(kind, "target");
            assert!(places.is_empty());
        }
        other => panic!("unexpected result {other:?}"),
    }
}

// --- the configuration ------------------------------------------------------

#[test]
fn mode_that_is_not_set_is_the_system() {
    assert_eq!(raw().mode(), Mode::System);
    assert_eq!(RawConfiguration { mode: Some(Mode::User), ..raw() }.mode(), Mode::User);
    assert_eq!(RawConfiguration { mode: Some(Mode::System), ..raw() }.mode(), Mode::System);
}

#[test]
fn configuration_of_a_user() {
    let env = environment("user", &["/home/user/.dots", "/home/user/.bois", "/home/user/.config"]);
    let built = raw().build_configuration(&env).unwrap();
    assert_eq!(built.configuration.name, "myhost");
    assert_eq!(built.configuration.mode, Mode::User);
    assert_eq!(built.configuration.bois_dir, "/home/user/.dots");
    assert_eq!(built.configuration.target_dir, "/home/user/.config");
    assert_eq!(built.configuration.cache_dir, "/home/user/.cache/bois");
    assert_eq!(built.configuration.runtime_dir, "/run/user/1000/bois");
    assert_eq!(built.create, vec!["/home/user/.cache/bois", "/run/user/1000/bois"]);
}

#[test]
fn configuration_of_the_system() {
    let env = environment("root", &[]);
    let built = raw().build_configuration(&env).unwrap();
    assert_eq!(built.configuration.mode, Mode::System);
    assert_eq!(built.configuration.bois_dir, "/etc/bois");
    assert_eq!(built.configuration.target_dir, "/etc/bois");
    assert_eq!(built.configuration.cache_dir, "/var/lib/bois");
    assert_eq!(built.configuration.runtime_dir, "/var/lib/bois");
    assert!(built.create.is_empty());
}

#[test]
fn settings_of_the_configuration_win() {
    let env = environment("root", &[]);
    let configured = RawConfiguration {
        name: text("laptop"),
        bois_dir: text("~/dots"),
        target_dir: text("/target"),
        cache_dir: text("~/cache"),
        runtime_dir: text("/run/bois"),
        envs: vec![("PASSWORD_STORE_DIR".to_string(), "/store".to_string())],
        mode: Some(Mode::User),
    };
    let built = configured.build_configuration(&env).unwrap();
    assert_eq!(built.configuration.name, "laptop");
    assert_eq!(built.configuration.mode, Mode::User);
    assert_eq!(built.configuration.bois_dir, "/home/user/dots");
    assert_eq!(built.configuration.target_dir, "/target");
    assert_eq!(built.configuration.cache_dir, "/home/user/cache");
    assert_eq!(built.configuration.runtime_dir, "/run/bois");
    assert_eq!(
        built.configuration.envs,
        vec![("PASSWORD_STORE_DIR".to_string(), "/store".to_string())]
    );
    assert!(built.create.is_empty());
    let copy = built.configuration.clone();
    assert_eq!(copy.name, "laptop");
    assert_eq!(copy.envs, built.configuration.envs);
}

#[test]
fn configuration_of_a_user_without_dotfiles_is_an_error() {
    let env = environment("user", &["/home/user/.config"]);
    match raw().build_configuration(&env) {
        Err(Error::DirectoryNotFound(kind, places)) => {
            assert_eq!(kind, "bois config");
            assert_eq!(
                places,
                vec![
                    "/home/user/.config/dotfiles",
                    "/home/user/.config/bois",
                    "/home/user/.dotfiles",
                    "/home/user/.dots",
                    "/home/user/.bois",
                ]
            );
        }
        other => panic!("unexpected result {other:?}"),
    }
}

#[test]
fn machine_without_a_name_is_an_error() {
    let mut env = environment("root", &[]);
    env.hostname = None;
    assert!(matches!(raw().build_configuration(&env), Err(Error::NoHostname)));
    let named = RawConfiguration { name: text("laptop"), ..raw() };
    assert_eq!(named.build_configuration(&env).unwrap().configuration.name, "laptop");
}

#[test]
fn runtime_directory_falls_back_to_the_cache() {
    let mut env = environment("user", &["/home/user/.bois", "/home/user/.cache/bois"]);
    env.runtime_dir = None;
    env.config_dir = None;
    let built = raw().build_configuration(&env).unwrap();
    assert_eq!(built.configuration.bois_dir, "/home/user/.bois");
    assert_eq!(built.configuration.target_dir, "/home/user/.config");
    assert_eq!(built.configuration.cache_dir, "/home/user/.cache/bois");
    assert_eq!(built.configuration.runtime_dir, "/home/user/.cache/bois");
    assert_eq!(built.create, vec!["/home/user/.config"]);
}
