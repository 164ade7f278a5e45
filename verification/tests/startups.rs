use spa_server::asset::{Found, StaticSite};
use spa_server::startup::{
    establish, exit_code, is_bind_kind, BindFailureKind, ConfigurationError, Settings,
    StartupError,
};

fn file(path: &str) -> Found {
    Found::File { canonical: path.to_string() }
}

fn directory(path: &str) -> Found {
    Found::Directory { canonical: path.to_string() }
}

#[test]
fn settings_default_where_no_option_is_given() {
    let settings = Settings::from_options("/opt/app", None, None);
    assert_eq!(settings.public_dir, "/opt/app/ui/dist");
    assert_eq!(settings.bind_address, "0.0.0.0:4000");
    assert_eq!(settings.fallback_path(), "/opt/app/ui/dist/index.html");
}

#[test]
fn settings_take_each_option_that_is_given() {
    let settings = Settings::from_options("/opt/app", Some("/srv/www".to_string()), Some("127.0.0.1:8080".to_string()));
    assert_eq!(
        settings,
        Settings { public_dir: "/srv/www".to_string(), bind_address: "127.0.0.1:8080".to_string() }
    );
    assert_eq!(settings.fallback_path(), "/srv/www/index.html");
    let only_dir = Settings::from_options("/opt/app", Some("/srv/www".to_string()), None);
    assert_eq!(only_dir.bind_address, "0.0.0.0:4000");
    let only_address = Settings::from_options("/opt/app", None, Some("[::]:80".to_string()));
    assert_eq!(only_address.public_dir, "/opt/app/ui/dist");
    assert_eq!(only_address.bind_address, "[::]:80");
}

#[test]
fn establish_takes_a_directory_and_a_file() {
    let site = establish(directory("/srv/www"), file("/srv/www/index.html")).expect("a directory and a file");
    assert_eq!(site.root(), "/srv/www");
    assert_eq!(site.fallback(), "/srv/www/index.html");
}

#[test]
fn establish_roots_the_site_at_the_canonical_paths() {
    let site: StaticSite = establish(directory("/data/releases/7"), file("/data/shared/shell.html"))
        .expect("a directory and a file");
    assert_eq!(site.root(), "/data/releases/7");
    assert_eq!(site.fallback(), "/data/shared/shell.html");
}

#[test]
fn establish_fails_where_the_public_directory_does_not_exist() {
    assert_eq!(establish(Found::Absent, Found::Absent), Err(ConfigurationError::RootMissing));
    assert_eq!(establish(Found::Absent, file("/srv/www/index.html")), Err(ConfigurationError::RootMissing));
    let outcome = establish(Found::Absent, Found::Absent).map(|_| ()).map_err(StartupError::Configuration);
    assert_ne!(exit_code(&outcome), 0);
}

#[test]
fn establish_fails_where_the_root_is_no_directory() {
    assert_eq!(
        establish(file("/srv/www"), file("/srv/www/index.html")),
        Err(ConfigurationError::RootNotDirectory)
    );
}

#[test]
fn establish_fails_where_the_fallback_is_missing_or_no_file() {
    assert_eq!(establish(directory("/srv/www"), Found::Absent), Err(ConfigurationError::FallbackMissing));
    assert_eq!(
        establish(directory("/srv/www"), directory("/srv/www/index.html")),
        Err(ConfigurationError::FallbackNotFile)
    );
}

#[test]
fn establish_fails_where_the_filesystem_does() {
    assert_eq!(
        establish(Found::Failed { detail: "permission denied".to_string() }, file("/srv/www/index.html")),
        Err(ConfigurationError::Unreadable("permission denied".to_string()))
    );
    assert_eq!(
        establish(directory("/srv/www"), Found::Failed { detail: "stale handle".to_string() }),
        Err(ConfigurationError::Unreadable("stale handle".to_string()))
    );
    assert_eq!(
        establish(Found::TimedOut, file("/srv/www/index.html")),
        Err(ConfigurationError::Unreadable("the filesystem did not answer in time".to_string()))
    );
    assert_eq!(
        establish(directory("/srv/www"), Found::TimedOut),
        Err(ConfigurationError::Unreadable("the filesystem did not answer in time".to_string()))
    );
}

#[test]
fn a_failure_over_the_address_is_a_bind_failure() {
    assert!(is_bind_kind(BindFailureKind::AddressInUse));
    assert!(is_bind_kind(BindFailureKind::AddressNotAvailable));
    assert!(is_bind_kind(BindFailureKind::PermissionDenied));
    assert!(!is_bind_kind(BindFailureKind::Other));
}

#[test]
fn exit_code_is_zero_only_after_a_graceful_shutdown() {
    assert_eq!(exit_code(&Ok(())), 0);
    assert_eq!(exit_code(&Err(StartupError::Configuration(ConfigurationError::RootMissing))), 1);
    assert_eq!(exit_code(&Err(StartupError::Bind("address already in use".to_string()))), 1);
}

#[test]
fn a_configuration_error_says_what_is_wrong() {
    assert_eq!(ConfigurationError::RootMissing.message(), "static root does not exist");
    assert_eq!(
        ConfigurationError::Unreadable("stale handle".to_string()).message(),
        "cannot read static files: stale handle"
    );
}

#[test]
fn every_startup_error_has_its_message() {
    let configuration = |error| StartupError::Configuration(error).message();
    assert_eq!(configuration(ConfigurationError::RootMissing), "static root does not exist");
    assert_eq!(configuration(ConfigurationError::RootNotDirectory), "static root is not a directory");
    assert_eq!(configuration(ConfigurationError::FallbackMissing), "fallback document does not exist");
    assert_eq!(configuration(ConfigurationError::FallbackNotFile), "fallback document is not a file");
    assert_eq!(
        configuration(ConfigurationError::Unreadable("permission denied".to_string())),
        "cannot read static files: permission denied"
    );
    assert_eq!(
        StartupError::Bind("address already in use".to_string()).message(),
        "cannot bind listen address: address already in use"
    );
}
