use dwl_launcher::error::LaunchError;
use dwl_launcher::paths::{
    config_dir_for, config_dir_from, directory_from, directory_of, get_config_dir, join_with_tail,
    UserLookup,
};
use dwl_launcher::settings::Settings;

#[test]
fn standard_settings_name_the_fixed_places() {
    let settings = Settings::standard();
    assert_eq!(settings.home_root, "/home");
    assert_eq!(settings.app_name, "dwl-launcher");
    assert_eq!(settings.script_path, "/tmp/dwl_service");
    assert_eq!(settings.target, "/usr/local/bin/dwl");
}

#[test]
fn config_dir_lies_under_the_users_home() {
    let dir = config_dir_for(&Settings::standard(), "alice");
    assert_eq!(dir, "/home/alice/.config/dwl-launcher");
}

#[test]
fn config_dir_follows_the_settings() {
    let mut settings = Settings::standard();
    settings.home_root = "/srv/users".to_string();
    settings.app_name = "launcher".to_string();
    assert_eq!(config_dir_for(&settings, "bob"), "/srv/users/bob/.config/launcher");
}

#[test]
fn found_user_gives_the_directory() {
    let result = config_dir_from(&Settings::standard(), UserLookup::Name("carol".to_string()));
    assert_eq!(result, Ok("/home/carol/.config/dwl-launcher".to_string()));
}

#[test]
fn user_name_that_is_no_text_is_an_error() {
    let result = config_dir_from(&Settings::standard(), UserLookup::NotText);
    assert_eq!(
        result,
        Err(LaunchError::UserResolution { cause: "Cannot translate username".to_string() })
    );
}

#[test]
fn unknown_user_is_an_error_with_the_cause() {
    let result =
        config_dir_from(&Settings::standard(), UserLookup::Unknown("no such user".to_string()));
    assert_eq!(result, Err(LaunchError::UserResolution { cause: "no such user".to_string() }));
}

#[test]
fn invoking_user_gives_a_directory_or_a_user_error() {
    match get_config_dir(&Settings::standard()) {
        Ok(dir) => {
            assert!(dir.starts_with("/home/"));
            assert!(dir.ends_with("/.config/dwl-launcher"));
            assert!(dir.len() > "/home/".len() + "/.config/dwl-launcher".len());
        }
        Err(error) => assert!(matches!(error, LaunchError::UserResolution { .. })),
    }
}

#[test]
fn invoking_user_is_the_same_on_a_second_call() {
    let settings = Settings::standard();
    assert_eq!(get_config_dir(&settings), get_config_dir(&settings));
}

#[test]
fn join_puts_a_slash_between() {
    assert_eq!(
        join_with_tail("/home/u/.config/dwl-launcher", "services"),
        "/home/u/.config/dwl-launcher/services"
    );
    assert_eq!(join_with_tail("/home/u/.config/dwl-launcher", "envs"), "/home/u/.config/dwl-launcher/envs");
    assert_eq!(join_with_tail("", "envs"), "/envs");
}

#[test]
fn directory_of_a_file_is_its_parent() {
    assert_eq!(directory_of("/tmp/dwl_service"), Ok("/tmp".to_string()));
    assert_eq!(directory_of("/a/b/c/d.txt"), Ok("/a/b/c".to_string()));
    assert_eq!(directory_of("/top"), Ok("/".to_string()));
}

#[test]
fn directory_of_a_bare_name_is_empty() {
    assert_eq!(directory_of("file"), Ok(String::new()));
}

#[test]
fn directory_of_the_root_is_an_error() {
    assert_eq!(
        directory_of("/"),
        Err(LaunchError::Io {
            path: "/".to_string(),
            cause: "Can't get parent directory".to_string()
        })
    );
}

#[test]
fn directory_of_nothing_is_an_error() {
    assert_eq!(
        directory_of(""),
        Err(LaunchError::Io { path: String::new(), cause: "Can't get parent directory".to_string() })
    );
}

#[test]
fn directory_from_hands_the_parent_on() {
    assert_eq!(directory_from("/x/y", Some("/x".to_string())), Ok("/x".to_string()));
    assert_eq!(
        directory_from("/x/y", None),
        Err(LaunchError::Io {
            path: "/x/y".to_string(),
            cause: "Can't get parent directory".to_string()
        })
    );
}
