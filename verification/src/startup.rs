//! Starting up: the recognised options and their defaults, the check that the
//! static root and the fallback document are there, and what becomes of a
//! start that fails.

use vstd::prelude::*;
use vstd::string::StringExecFns;
use crate::asset::{timeout_detail, Found, FoundView, SiteView, StaticSite};

verus! {

/// Where the server listens and where it serves files from.
#[derive(Debug, PartialEq, Eq)]
pub struct Settings {
    pub public_dir: String,
    pub bind_address: String,
}

/// Settings as the contracts speak of them.
pub ghost struct SettingsView {
    pub public_dir: Seq<char>,
    pub bind_address: Seq<char>,
}

impl View for Settings {
    type V = SettingsView;

    open spec fn view(&self) -> SettingsView {
        SettingsView { public_dir: self.public_dir@, bind_address: self.bind_address@ }
    }
}

/// The address to listen on where none is given.
pub open spec fn default_bind_address() -> Seq<char> {
    "0.0.0.0:4000"@
}

/// The directory to serve from where none is given: the build output of the
/// user interface, beneath the directory the server is installed in.
pub open spec fn default_public_dir(base_dir: Seq<char>) -> Seq<char> {
    base_dir + "/ui/dist"@
}

/// The settings that a set of options stands for: each option that is given
/// overrides its default.
pub open spec fn settings_from(
    base_dir: Seq<char>,
    public_dir: Option<Seq<char>>,
    bind_address: Option<Seq<char>>,
) -> SettingsView {
    SettingsView {
        public_dir: match public_dir {
            Some(dir) => dir,
            None => default_public_dir(base_dir),
        },
        bind_address: match bind_address {
            Some(address) => address,
            None => default_bind_address(),
        },
    }
}

/// The text of an option that may not be set.
pub open spec fn text_view(text: Option<String>) -> Option<Seq<char>> {
    match text {
        Some(text) => Some(text@),
        None => None,
    }
}

impl Settings {
    /// Reads the options `PUBLIC_DIR` and `BIND_ADDRESS`, each given as the
    /// value it has or as `None` where it is not set.
    pub fn from_options(
        base_dir: &str,
        public_dir: Option<String>,
        bind_address: Option<String>,
    ) -> (out: Settings)
        ensures
            out@ == settings_from(base_dir@, text_view(public_dir), text_view(bind_address)),
    {
        Settings {
            public_dir: match public_dir {
                Some(dir) => dir,
                None => base_dir.to_owned().concat("/ui/dist"),
            },
            bind_address: match bind_address {
                Some(address) => address,
                None => "0.0.0.0:4000".to_owned(),
            },
        }
    }

    /// Where the fallback document is looked for: `index.html` in the public directory.
    pub fn fallback_path(&self) -> (out: String)
        ensures
            out@ == self@.public_dir + "/index.html"@,
    {
        self.public_dir.clone().concat("/index.html")
    }
}

/// What is wrong with the configuration that the server was started with.
#[derive(Debug, PartialEq, Eq)]
pub enum ConfigurationError {
    /// Nothing is at the path of the static root.
    RootMissing,
    /// The static root is there but is no directory.
    RootNotDirectory,
    /// Nothing is at the path of the fallback document.
    FallbackMissing,
    /// The fallback document is there but is no file.
    FallbackNotFile,
    /// The filesystem would not say.
    Unreadable(String),
}

/// A configuration error as the contracts speak of it.
pub ghost enum ConfigurationView {
    RootMissing,
    RootNotDirectory,
    FallbackMissing,
    FallbackNotFile,
    Unreadable(Seq<char>),
}

impl View for ConfigurationError {
    type V = ConfigurationView;

    open spec fn view(&self) -> ConfigurationView {
        match self {
            ConfigurationError::RootMissing => ConfigurationView::RootMissing,
            ConfigurationError::RootNotDirectory => ConfigurationView::RootNotDirectory,
            ConfigurationError::FallbackMissing => ConfigurationView::FallbackMissing,
            ConfigurationError::FallbackNotFile => ConfigurationView::FallbackNotFile,
            ConfigurationError::Unreadable(detail) => ConfigurationView::Unreadable(detail@),
        }
    }
}

/// Why the server did not start.
#[derive(Debug, PartialEq, Eq)]
pub enum StartupError {
    Configuration(ConfigurationError),
    /// The listen address could not be bound.
    Bind(String),
}

/// A startup error as the contracts speak of it.
pub ghost enum StartupView {
    Configuration(ConfigurationView),
    Bind(Seq<char>),
}

impl View for StartupError {
    type V = StartupView;

    open spec fn view(&self) -> StartupView {
        match self {
            StartupError::Configuration(error) => StartupView::Configuration(error@),
            StartupError::Bind(detail) => StartupView::Bind(detail@),
        }
    }
}

/// The site that stands on what was found at the static root and at the
/// fallback document, or what is wrong. The root is looked at first.
pub open spec fn established(root: FoundView, fallback: FoundView) -> Result<
    SiteView,
    ConfigurationView,
> {
    match root {
        FoundView::Absent => Err(ConfigurationView::RootMissing),
        FoundView::File { canonical } => Err(ConfigurationView::RootNotDirectory),
        FoundView::Failed { detail } => Err(ConfigurationView::Unreadable(detail)),
        FoundView::TimedOut => Err(ConfigurationView::Unreadable(timeout_detail())),
        FoundView::Directory { canonical: root } => match fallback {
            FoundView::Absent => Err(ConfigurationView::FallbackMissing),
            FoundView::Directory { canonical } => Err(ConfigurationView::FallbackNotFile),
            FoundView::Failed { detail } => Err(ConfigurationView::Unreadable(detail)),
            FoundView::TimedOut => Err(ConfigurationView::Unreadable(timeout_detail())),
            FoundView::File { canonical: fallback } => Ok(SiteView { root, fallback }),
        },
    }
}

/// A public directory that does not exist fails the start, whatever else is there.
pub proof fn missing_public_dir_fails_startup(fallback: FoundView)
    ensures
        established(FoundView::Absent, fallback) == Err::<SiteView, ConfigurationView>(
            ConfigurationView::RootMissing,
        ),
{
}

/// Checks, once and before anything is served, that the static root is a
/// directory and the fallback document a file. The site that results is
/// rooted at the canonical path of each.
pub fn establish(root: Found, fallback: Found) -> (out: Result<StaticSite, ConfigurationError>)
    ensures
        match out {
            Ok(site) => established(root@, fallback@) == Ok::<SiteView, ConfigurationView>(site@),
            Err(error) => established(root@, fallback@) == Err::<SiteView, ConfigurationView>(
                error@,
            ),
        },
{
    match root {
        Found::Absent => Err(ConfigurationError::RootMissing),
        Found::File { canonical: _ } => Err(ConfigurationError::RootNotDirectory),
        Found::Failed { detail } => Err(ConfigurationError::Unreadable(detail)),
        Found::TimedOut => Err(
            ConfigurationError::Unreadable("the filesystem did not answer in time".to_owned()),
        ),
        Found::Directory { canonical: root } => match fallback {
            Found::Absent => Err(ConfigurationError::FallbackMissing),
            Found::Directory { canonical: _ } => Err(ConfigurationError::FallbackNotFile),
            Found::Failed { detail } => Err(ConfigurationError::Unreadable(detail)),
            Found::TimedOut => Err(
                ConfigurationError::Unreadable("the filesystem did not answer in time".to_owned()),
            ),
            Found::File { canonical: fallback } => Ok(StaticSite::new(root, fallback)),
        },
    }
}

/// What kind of failure the runtime met when it was to listen.
#[derive(Clone, Copy, Debug, PartialEq, Eq, Structural)]
pub enum BindFailureKind {
    /// Another socket holds the address.
    AddressInUse,
    /// The address is none of this machine's.
    AddressNotAvailable,
    /// The address is not for this process to take.
    PermissionDenied,
    /// A failure that has nothing to do with the address.
    Other,
}

/// Whether a failure of that kind is a failure to bind the listen address.
pub fn is_bind_kind(kind: BindFailureKind) -> (out: bool)
    ensures
        out == (kind != BindFailureKind::Other),
{
    match kind {
        BindFailureKind::Other => false,
        _ => true,
    }
}

/// What the diagnostic says of a configuration error.
pub open spec fn configuration_message(error: ConfigurationView) -> Seq<char> {
    match error {
        ConfigurationView::RootMissing => "static root does not exist"@,
        ConfigurationView::RootNotDirectory => "static root is not a directory"@,
        ConfigurationView::FallbackMissing => "fallback document does not exist"@,
        ConfigurationView::FallbackNotFile => "fallback document is not a file"@,
        ConfigurationView::Unreadable(detail) => "cannot read static files: "@ + detail,
    }
}

/// The diagnostic that a failed start prints.
pub open spec fn message_of(error: StartupView) -> Seq<char> {
    match error {
        StartupView::Configuration(error) => configuration_message(error),
        StartupView::Bind(detail) => "cannot bind listen address: "@ + detail,
    }
}

impl ConfigurationError {
    /// Says in words what is wrong with the configuration.
    pub fn message(&self) -> (out: String)
        ensures
            out@ == configuration_message(self@),
    {
        match self {
            ConfigurationError::RootMissing => "static root does not exist".to_owned(),
            ConfigurationError::RootNotDirectory => "static root is not a directory".to_owned(),
            ConfigurationError::FallbackMissing => "fallback document does not exist".to_owned(),
            ConfigurationError::FallbackNotFile => "fallback document is not a file".to_owned(),
            ConfigurationError::Unreadable(detail) => {
                "cannot read static files: ".to_owned().concat(detail.as_str())
            },
        }
    }
}

impl StartupError {
    /// Says in words why the server did not start.
    pub fn message(&self) -> (out: String)
        ensures
            out@ == message_of(self@),
    {
        match self {
            StartupError::Configuration(error) => error.message(),
            StartupError::Bind(detail) => {
                "cannot bind listen address: ".to_owned().concat(detail.as_str())
            },
        }
    }
}

/// The exit code of the process: zero after a graceful shutdown, one after a
/// start that failed.
pub fn exit_code(outcome: &Result<(), StartupError>) -> (out: u8)
    ensures
        out == (if outcome is Ok {
            0u8
        } else {
            1u8
        }),
{
    match outcome {
        Ok(_) => 0,
        Err(_) => 1,
    }
}

} // verus!
