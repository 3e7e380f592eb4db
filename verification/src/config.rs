//! The `pigeons` config: the telemetry choice, where it is kept, and how the
//! layers of it combine.

use vstd::prelude::*;
use vstd::utf8::encode_utf8;

use crate::document::{
    assignment, bare_key, checked_document, document_entry, entry_of, is_document, refused_document,
    write_document,
};
use crate::text::{same_text, texts};

verus! {

/// The settings of a user or of a machine.
#[derive(Clone, Debug, PartialEq, Eq)]
pub struct Config {
    /// The telemetry choice, once one was made.
    pub telemetry_enabled: Option<bool>,
}

/// What came of reading a config file.
#[derive(Debug, PartialEq, Eq)]
pub enum FileRead<E> {
    /// There is no such file.
    Missing,
    /// The file is there and could not be read.
    Unreadable(E),
    /// What the file holds.
    Contents(Vec<u8>),
}

/// Why bytes are no config.
#[derive(Debug)]
pub enum ConfigParseError {
    /// The bytes are no TOML document.
    NotADocument(toml::de::Error),
    /// The telemetry choice is no boolean.
    NotABoolean,
}

/// Why a config could not be loaded.
#[derive(Debug)]
pub enum ConfigError<E> {
    /// The file could not be read.
    Reading(E),
    /// The file holds no config.
    Parsing(ConfigParseError),
}

/// The configs to read for a run.
#[derive(Debug, PartialEq, Eq)]
pub struct Layers<U, S> {
    /// The path of the user's.
    pub user: U,
    /// The path of the machine-wide one, where the platform has one.
    pub system: Option<S>,
}

/// The key of the telemetry choice in a config file.
pub const TELEMETRY_KEY: &'static str = "telemetry_enabled";

/// The config with what a document has under [`TELEMETRY_KEY`]; none if that
/// is no boolean.
pub open spec fn config_with(entry: Option<Option<bool>>) -> Option<Config> {
    match entry {
        None => Some(Config { telemetry_enabled: None }),
        Some(Some(enabled)) => Some(Config { telemetry_enabled: Some(enabled) }),
        Some(None) => None,
    }
}

/// The config that bytes hold. Keys other than the telemetry choice are
/// ignored.
pub open spec fn config_in(bytes: Seq<u8>) -> Option<Config> {
    if is_document(bytes) {
        config_with(entry_of(bytes, TELEMETRY_KEY@))
    } else {
        None
    }
}

impl Default for Config {
    /// The config of a user who was never asked.
    fn default() -> (r: Config)
        ensures
            r.telemetry_enabled is None,
    {
        Config { telemetry_enabled: None }
    }
}

impl Config {
    /// Whether metrics may be sent: only after the user said so.
    pub open spec fn enabled(self) -> bool {
        self.telemetry_enabled == Some(true)
    }

    /// Whether a telemetry choice was made, whichever it is.
    pub open spec fn configured(self) -> bool {
        self.telemetry_enabled is Some
    }

    /// This config with every unset key taken from `fallback`.
    pub open spec fn over(self, fallback: Config) -> Config {
        Config {
            telemetry_enabled: if self.telemetry_enabled is Some {
                self.telemetry_enabled
            } else {
                fallback.telemetry_enabled
            },
        }
    }

    /// Whether sending metrics is enabled.
    pub fn telemetry_enabled(&self) -> (r: bool)
        ensures
            r == self.enabled(),
    {
        self.telemetry_enabled.unwrap_or(false)
    }

    /// Whether the user has made a telemetry choice yet. An unset key means
    /// that nobody asked; it is distinct from an explicit "no", though both keep
    /// telemetry off.
    pub fn telemetry_configured(&self) -> (r: bool)
        ensures
            r == self.configured(),
    {
        self.telemetry_enabled.is_some()
    }

    /// Records a telemetry choice.
    pub fn set_telemetry_enabled(&mut self, enabled: bool)
        ensures
            *final(self) == (Config { telemetry_enabled: Some(enabled), ..*old(self) }),
    {
        self.telemetry_enabled = Some(enabled);
    }

    /// Takes every key that this config leaves unset from `fallback`.
    pub fn fill_unset_from(&mut self, fallback: Config)
        ensures
            *final(self) == old(self).over(fallback),
    {
        if self.telemetry_enabled.is_none() {
            self.telemetry_enabled = fallback.telemetry_enabled;
        }
    }

    /// The config with what a document has under [`TELEMETRY_KEY`].
    pub fn from_entry(entry: Option<Option<bool>>) -> (r: Result<Config, ConfigParseError>)
        ensures
            match r {
                Ok(config) => config_with(entry) == Some(config),
                Err(e) => config_with(entry) is None && e is NotABoolean,
            },
    {
        match entry {
            None => Ok(Config { telemetry_enabled: None }),
            Some(Some(enabled)) => Ok(Config { telemetry_enabled: Some(enabled) }),
            Some(None) => Err(ConfigParseError::NotABoolean),
        }
    }

    /// Reads a config from the bytes of its file.
    pub fn from_toml(bytes: &[u8]) -> (r: Result<Config, ConfigParseError>)
        ensures
            match r {
                Ok(config) => config_in(bytes@) == Some(config),
                Err(ConfigParseError::NotADocument(e)) => !is_document(bytes@) && refused_document(
                    bytes@,
                    e,
                ),
                Err(ConfigParseError::NotABoolean) => is_document(bytes@) && entry_of(
                    bytes@,
                    TELEMETRY_KEY@,
                ) == Some(None::<bool>),
            },
    {
        match checked_document(bytes) {
            Ok(()) => Config::from_entry(document_entry(bytes, TELEMETRY_KEY)),
            Err(e) => Err(ConfigParseError::NotADocument(e)),
        }
    }

    /// The text of this config's file. Reading it gives this config back.
    pub fn to_toml(&self) -> (r: Result<String, toml::ser::Error>)
        ensures
            r is Ok,
            r->Ok_0@ == assignment(TELEMETRY_KEY@, self.telemetry_enabled),
            config_in(encode_utf8(r->Ok_0@)) == Some(*self),
    {
        proof {
            reveal_strlit("telemetry_enabled");
            assert(bare_key(TELEMETRY_KEY@));
        }
        write_document(TELEMETRY_KEY, self.telemetry_enabled)
    }

    /// The config that a file gives. A file that was never written gives the
    /// defaults.
    pub fn load_from<E>(read: FileRead<E>) -> (r: Result<Config, ConfigError<E>>)
        ensures
            match read {
                FileRead::Missing => r == Ok::<Config, ConfigError<E>>(
                    (Config { telemetry_enabled: None }),
                ),
                FileRead::Unreadable(e) => r == Err::<Config, ConfigError<E>>(
                    ConfigError::Reading(e),
                ),
                FileRead::Contents(bytes) => match config_in(bytes@) {
                    Some(config) => r == Ok::<Config, ConfigError<E>>(config),
                    None => r is Err && r->Err_0 is Parsing && match r->Err_0->Parsing_0 {
                        ConfigParseError::NotADocument(e) => !is_document(bytes@)
                            && refused_document(bytes@, e),
                        ConfigParseError::NotABoolean => is_document(bytes@),
                    },
                },
            },
    {
        match read {
            FileRead::Missing => Ok(Config::default()),
            FileRead::Unreadable(e) => Err(ConfigError::Reading(e)),
            FileRead::Contents(bytes) => match Config::from_toml(bytes.as_slice()) {
                Ok(config) => Ok(config),
                Err(e) => Err(ConfigError::Parsing(e)),
            },
        }
    }

    /// The user's config over the machine-wide one. An error of the user's
    /// comes first.
    pub fn load_with_fallback<E>(
        user: Result<Config, ConfigError<E>>,
        system: Result<Config, ConfigError<E>>,
    ) -> (r: Result<Config, ConfigError<E>>)
        ensures
            r == (match (user, system) {
                (Ok(u), Ok(s)) => Ok(u.over(s)),
                (Ok(_), Err(e)) => Err(e),
                (Err(e), _) => Err(e),
            }),
    {
        match user {
            Err(e) => Err(e),
            Ok(mut config) => match system {
                Err(e) => Err(e),
                Ok(fallback) => {
                    config.fill_unset_from(fallback);
                    Ok(config)
                },
            },
        }
    }

    /// The config of a run: the user's over the machine-wide one, or the user's
    /// alone where the platform has no machine-wide one.
    pub fn load<E>(
        user: Result<Config, ConfigError<E>>,
        system: Option<Result<Config, ConfigError<E>>>,
    ) -> (r: Result<Config, ConfigError<E>>)
        ensures
            r == (match (user, system) {
                (Ok(u), Some(Ok(s))) => Ok(u.over(s)),
                (Ok(_), Some(Err(e))) => Err(e),
                (Ok(u), None) => Ok(u),
                (Err(e), _) => Err(e),
            }),
    {
        match system {
            None => user,
            Some(system) => Config::load_with_fallback(user, system),
        }
    }

    /// The layers of a run's config, from the paths of both. Without a path for
    /// the user's there is no config; where the platform has no machine-wide one,
    /// the user's is read alone.
    pub fn layers<U, S>(user: Result<U, PathError>, system: Result<S, PathError>) -> (r: Result<
        Layers<U, S>,
        PathError,
    >)
        ensures
            r == (match (user, system) {
                (Err(e), _) => Err(e),
                (Ok(user), Ok(system)) => Ok((Layers { user, system: Some(system) })),
                (Ok(user), Err(_)) => Ok((Layers { user, system: None })),
            }),
    {
        match user {
            Err(e) => Err(e),
            Ok(user) => match system {
                Ok(system) => Ok(Layers { user, system: Some(system) }),
                Err(_) => Ok(Layers { user, system: None }),
            },
        }
    }

    /// A loaded config, or the defaults if loading failed.
    pub fn load_or_default<E>(loaded: Result<Config, E>) -> (r: Config)
        ensures
            match loaded {
                Ok(config) => r == config,
                Err(_) => r.telemetry_enabled is None,
            },
    {
        match loaded {
            Ok(config) => config,
            Err(_) => Config::default(),
        }
    }
}

/// A file below a directory that is handed through unread: each component is
/// joined to the path in turn.
#[derive(Debug, PartialEq, Eq)]
pub struct PathBelow<D> {
    pub dir: D,
    pub components: Vec<&'static str>,
}

/// A path of the file system, carried unread.
#[verifier::external_type_specification]
#[verifier::external_body]
pub struct ExPathBuf(std::path::PathBuf);

/// The error of the `homedir` crate, carried unread.
#[verifier::external_type_specification]
#[verifier::external_body]
pub struct ExGetHomeError(homedir::GetHomeError);

/// Calls `dirs::config_dir`, which looks in the environment for the directory
/// in which the running user's configs are kept. Nothing is claimed of it: it
/// differs from one machine and one run to another.
#[verifier::external_body]
fn config_dir() -> Option<std::path::PathBuf> {
    dirs::config_dir()
}

/// Calls `homedir::home`, which looks an account's home up in the account
/// database of the machine. Nothing is claimed of it: the database is not part
/// of the program.
#[verifier::external_body]
fn home_of(user: &str) -> Result<Option<std::path::PathBuf>, homedir::GetHomeError> {
    homedir::home(user)
}

/// Whether `dir` is what a lookup of the running user's config directory gave.
/// Two lookups may differ, and nothing else is known of what one gives.
pub closed spec fn config_dir_found(dir: Option<std::path::PathBuf>) -> bool {
    call_ensures(config_dir, (), dir)
}

/// Whether `home` is what a lookup of the home of `user` gave. Two lookups of one
/// user may differ, and nothing else is known of what one gives.
pub closed spec fn looked_up(
    user: &str,
    home: Result<Option<std::path::PathBuf>, homedir::GetHomeError>,
) -> bool {
    call_ensures(home_of, (user,), home)
}

/// Why a config has no path.
#[derive(Debug, PartialEq, Eq)]
pub enum PathError {
    /// The system does not say where configs are kept.
    NoConfigDir,
    /// There is no machine-wide location on this platform.
    NoMachineWideLocation(String),
}

/// The directory of the machine-wide config on a platform.
pub open spec fn machine_wide_dir(os: Seq<char>) -> Option<Seq<char>> {
    if os == "linux"@ || os == "macos"@ {
        Some("/etc/pigeons"@)
    } else if os == "windows"@ {
        Some("C:\\ProgramData\\pigeons"@)
    } else {
        None
    }
}

/// Where a user's config is, from the user's home.
pub open spec fn below_home(os: Seq<char>) -> Seq<char> {
    if os == "macos"@ {
        "Library/Application Support/pigeons/config.toml"@
    } else if os == "windows"@ {
        "AppData/Roaming/pigeons/config.toml"@
    } else {
        ".config/pigeons/config.toml"@
    }
}

/// One step of writing a config to its path. The steps are taken as a plan: see
/// [`crate::plan::next_step`].
#[derive(Clone, Copy, Debug, PartialEq, Eq, Structural)]
pub enum StoreStep {
    /// Create the directory of the file and those above it.
    CreateParents,
    /// Replace the contents of the file, which is created if need be.
    Write,
    /// Set the mode of the directory of the file.
    SetDirMode(u32),
    /// Set the mode of the file.
    SetFileMode(u32),
}

/// The mode of a directory that everyone may enter.
pub const WORLD_READABLE_DIR: u32 = 0o755;

/// The mode of a file that everyone may read.
pub const WORLD_READABLE_FILE: u32 = 0o644;

impl Config {
    /// The path of the running user's config: below the directory that a lookup
    /// of the system's config directory gave, and an error exactly if it gave
    /// none.
    pub fn config_path() -> (r: Result<PathBelow<std::path::PathBuf>, PathError>)
        ensures
            exists|found: Option<std::path::PathBuf>|
                #![trigger config_dir_found(found)]
                config_dir_found(found) && match found {
                    Some(dir) => r is Ok && r->Ok_0.dir == dir && texts(r->Ok_0.components@)
                        == seq!["pigeons"@, "config.toml"@],
                    None => r == Err::<PathBelow<std::path::PathBuf>, PathError>(
                        PathError::NoConfigDir,
                    ),
                },
    {
        let found = config_dir();
        assert(config_dir_found(found));
        Config::config_path_below(found)
    }

    /// The path of a user's config, from the directory in which the system keeps
    /// configs.
    pub fn config_path_below<D>(config_dir: Option<D>) -> (r: Result<PathBelow<D>, PathError>)
        ensures
            match config_dir {
                Some(dir) => r is Ok && r->Ok_0.dir == dir && texts(r->Ok_0.components@)
                    == seq!["pigeons"@, "config.toml"@],
                None => r == Err::<PathBelow<D>, PathError>(PathError::NoConfigDir),
            },
    {
        match config_dir {
            Some(dir) => {
                let components = vec!["pigeons", "config.toml"];
                assert(texts(components@) == seq!["pigeons"@, "config.toml"@]);
                Ok(PathBelow { dir, components })
            },
            None => Err(PathError::NoConfigDir),
        }
    }

    /// The path of the machine-wide config on the platform that `os` names.
    pub fn system_config_path(os: &str) -> (r: Result<PathBelow<&'static str>, PathError>)
        ensures
            match machine_wide_dir(os@) {
                Some(dir) => r is Ok && r->Ok_0.dir@ == dir && texts(r->Ok_0.components@)
                    == seq!["config.toml"@],
                None => r is Err && r->Err_0 is NoMachineWideLocation
                    && r->Err_0->NoMachineWideLocation_0@ == os@,
            },
    {
        let dir: &'static str = if same_text(os, "linux") || same_text(os, "macos") {
            "/etc/pigeons"
        } else if same_text(os, "windows") {
            "C:\\ProgramData\\pigeons"
        } else {
            return Err(PathError::NoMachineWideLocation(os.to_owned()));
        };
        let components = vec!["config.toml"];
        assert(texts(components@) == seq!["config.toml"@]);
        Ok(PathBelow { dir, components })
    }

    /// The path of the config of the user whose home is `home`, in the layout of
    /// the platform that `os` names.
    pub fn config_path_in<D>(home: D, os: &str) -> (r: PathBelow<D>)
        ensures
            r.dir == home,
            texts(r.components@) == seq![below_home(os@)],
    {
        let relative: &'static str = if same_text(os, "macos") {
            "Library/Application Support/pigeons/config.toml"
        } else if same_text(os, "windows") {
            "AppData/Roaming/pigeons/config.toml"
        } else {
            ".config/pigeons/config.toml"
        };
        let components = vec![relative];
        assert(texts(components@) == seq![below_home(os@)]);
        PathBelow { dir: home, components }
    }

    /// The steps of [`Config::store_steps`].
    pub open spec fn steps_to_store(world_readable: bool, unix: bool) -> Seq<StoreStep> {
        if world_readable && unix {
            seq![
                StoreStep::CreateParents,
                StoreStep::Write,
                StoreStep::SetDirMode(0o755),
                StoreStep::SetFileMode(0o644),
            ]
        } else {
            seq![StoreStep::CreateParents, StoreStep::Write]
        }
    }

    /// The steps of writing a config. A machine-wide config is made readable by
    /// everyone, whatever the umask, where the platform has modes.
    pub fn store_steps(world_readable: bool, unix: bool) -> (r: Vec<StoreStep>)
        ensures
            r@ == Config::steps_to_store(world_readable, unix),
    {
        let mut steps = vec![StoreStep::CreateParents, StoreStep::Write];
        if world_readable && unix {
            steps.push(StoreStep::SetDirMode(WORLD_READABLE_DIR));
            steps.push(StoreStep::SetFileMode(WORLD_READABLE_FILE));
        }
        assert(steps@ == Config::steps_to_store(world_readable, unix));
        steps
    }
}

/// The path of the config of `user`, in the layout of the platform that `os`
/// names: below the home that a lookup of this user gave, and none exactly if
/// the lookup gave no home.
pub fn config_path_for_user(user: &str, os: &str) -> (r: Option<PathBelow<std::path::PathBuf>>)
    ensures
        exists|home: Result<Option<std::path::PathBuf>, homedir::GetHomeError>|
            #![trigger looked_up(user, home)]
            looked_up(user, home) && match home {
                Ok(Some(home)) => r is Some && r->0.dir == home && texts(r->0.components@) == seq![
                    below_home(os@),
                ],
                _ => r is None,
            },
{
    let home = home_of(user);
    assert(looked_up(user, home));
    config_path_for_home(home, os)
}

/// The path of a user's config, from what a lookup of the user's home gave;
/// none if the home cannot be resolved.
pub fn config_path_for_home<D, E>(home: Result<Option<D>, E>, os: &str) -> (r: Option<
    PathBelow<D>,
>)
    ensures
        match home {
            Ok(Some(home)) => r is Some && r->0.dir == home && texts(r->0.components@) == seq![
                below_home(os@),
            ],
            _ => r is None,
        },
{
    match home {
        Ok(Some(home)) => Some(Config::config_path_in(home, os)),
        _ => None,
    }
}

/// Whose config holds the choice of the user who started an elevated command.
#[derive(Debug, PartialEq, Eq)]
pub enum ConfigOwner {
    /// The account that `sudo` was called from.
    Named(String),
    /// The running account.
    Running,
}

/// Whose config an elevated install reads: that of the account in `SUDO_USER`
/// where it is set, else that of the running account.
pub fn installing_user(sudo_user: Option<String>) -> (r: ConfigOwner)
    ensures
        match sudo_user {
            Some(user) => r == ConfigOwner::Named(user),
            None => r == ConfigOwner::Running,
        },
{
    match sudo_user {
        Some(user) => ConfigOwner::Named(user),
        None => ConfigOwner::Running,
    }
}

/// The choice of the user who started an elevated command, from what came of
/// loading that user's config; none if the config has no path, does not load,
/// or holds no choice.
pub fn installing_user_telemetry_choice<E>(loaded: Option<Result<Config, E>>) -> (r: Option<bool>)
    ensures
        r == (match loaded {
            Some(Ok(config)) => config.telemetry_enabled,
            _ => None,
        }),
{
    match loaded {
        Some(Ok(config)) => config.telemetry_enabled,
        _ => None,
    }
}

/// The config that a file gives, if it loads.
pub open spec fn loaded<E>(read: FileRead<E>) -> Option<Config> {
    match read {
        FileRead::Missing => Some(Config { telemetry_enabled: None }),
        FileRead::Unreadable(_) => None,
        FileRead::Contents(bytes) => config_in(bytes@),
    }
}

/// The machine-wide config after `enabled` was published over what is on disk.
/// A config that does not load counts as the defaults.
pub open spec fn published<E>(enabled: bool, on_disk: FileRead<E>) -> Config {
    let current = match loaded(on_disk) {
        Some(config) => config,
        None => Config { telemetry_enabled: None },
    };
    Config { telemetry_enabled: Some(enabled), ..current }
}

/// Whether the service sends metrics under the machine-wide config on disk.
pub open spec fn effective<E>(on_disk: FileRead<E>) -> bool {
    loaded(on_disk) is Some && loaded(on_disk)->0.enabled()
}

/// The text to write to the machine-wide config so that it carries `choice`;
/// none if there is nothing to publish, and then nothing is written.
pub fn publish_telemetry_choice_to<E>(choice: Option<bool>, on_disk: FileRead<E>) -> (r: Result<
    Option<String>,
    toml::ser::Error,
>)
    ensures
        r is Ok,
        match choice {
            None => r->Ok_0 is None,
            Some(enabled) => r->Ok_0 is Some && r->Ok_0->0@ == assignment(
                TELEMETRY_KEY@,
                Some(enabled),
            ) && config_in(encode_utf8(r->Ok_0->0@)) == Some(published(enabled, on_disk)),
        },
{
    match choice {
        None => Ok(None),
        Some(enabled) => {
            let mut system = Config::load_or_default(Config::load_from(on_disk));
            system.set_telemetry_enabled(enabled);
            match system.to_toml() {
                Ok(text) => Ok(Some(text)),
                Err(e) => Err(e),
            }
        },
    }
}

/// The steps of writing what [`publish_telemetry_choice_to`] gives: none if there
/// is nothing to publish, else those that leave the machine-wide config readable
/// by everyone.
pub fn publish_steps(choice: Option<bool>, unix: bool) -> (r: Vec<StoreStep>)
    ensures
        r@ == match choice {
            None => Seq::<StoreStep>::empty(),
            Some(_) => Config::steps_to_store(true, unix),
        },
{
    match choice {
        None => Vec::new(),
        Some(_) => Config::store_steps(true, unix),
    }
}

/// Whether the service will send metrics, from the machine-wide config as it
/// is on disk. A config that does not load keeps them off.
pub fn effective_telemetry<E>(on_disk: FileRead<E>) -> (r: bool)
    ensures
        r == effective(on_disk),
{
    Config::load_or_default(Config::load_from(on_disk)).telemetry_enabled()
}

/// Metrics are sent only after a choice was recorded.
pub proof fn law_enabled_implies_configured(config: Config)
    ensures
        config.enabled() ==> config.configured(),
{
}

/// A user who made a choice keeps it, whatever the machine-wide config says.
pub proof fn law_user_choice_wins(user: Config, system: Config)
    requires
        user.configured(),
    ensures
        user.over(system) == user,
{
}

/// A user who made no choice has the machine-wide one.
pub proof fn law_machine_fills_in(user: Config, system: Config)
    requires
        !user.configured(),
    ensures
        user.over(system).enabled() == system.enabled(),
        user.over(system).configured() == system.configured(),
{
}

/// The order in which layers are combined does not matter, only their order.
pub proof fn law_layers_associate(a: Config, b: Config, c: Config)
    ensures
        a.over(b).over(c) == a.over(b.over(c)),
{
}

/// The choice that was published is the one in effect once the text is on disk,
/// whatever was there before.
pub proof fn law_published_choice_is_effective<E>(
    enabled: bool,
    before: FileRead<E>,
    text: Seq<char>,
    written: Vec<u8>,
)
    requires
        config_in(encode_utf8(text)) == Some(published(enabled, before)),
        written@ == encode_utf8(text),
    ensures
        effective(FileRead::<E>::Contents(written)) == enabled,
{
}

/// A config file that is missing, unreadable or no config keeps metrics off.
pub proof fn law_off_unless_loaded<E>(on_disk: FileRead<E>)
    requires
        !(on_disk is Contents) || config_in(on_disk->Contents_0@) is None,
    ensures
        !effective(on_disk),
{
}

/// Wherever a user's config is kept, it is the file `config.toml` in a
/// directory `pigeons`.
pub proof fn law_config_path_ending(os: Seq<char>)
    ensures
        exists|dir: Seq<char>| below_home(os) == #[trigger] (dir + "/pigeons/config.toml"@),
{
    reveal_strlit("/pigeons/config.toml");
    reveal_strlit("Library/Application Support/pigeons/config.toml");
    reveal_strlit("AppData/Roaming/pigeons/config.toml");
    reveal_strlit(".config/pigeons/config.toml");
    let p = below_home(os);
    let dir = p.take(p.len() - 20);
    assert(p =~= dir + "/pigeons/config.toml"@);
}

/// Metrics are sent exactly after a "yes", and a choice counts as made after a
/// "yes" and after a "no" alike.
pub proof fn law_choices_are_told_apart(config: Config)
    ensures
        config.telemetry_enabled is None ==> !config.enabled() && !config.configured(),
        config.telemetry_enabled matches Some(choice) ==> config.configured() && config.enabled()
            == choice,
{
}

/// A config is read exactly from a document whose telemetry choice, if it has one,
/// is a boolean; it holds that choice, and none if the document has none. Nothing
/// else in the document matters.
pub proof fn law_configs_hold_what_the_document_says(bytes: Seq<u8>)
    ensures
        config_in(bytes) is Some <==> is_document(bytes) && entry_of(bytes, "telemetry_enabled"@)
            != Some(None::<bool>),
        config_in(bytes) matches Some(config) ==> entry_of(bytes, "telemetry_enabled"@)
            == match config.telemetry_enabled {
            Some(choice) => Some(Some(choice)),
            None => None,
        },
{
}

/// Two documents that say the same of the telemetry choice hold the same config.
pub proof fn law_other_keys_do_not_matter(a: Seq<u8>, b: Seq<u8>)
    requires
        is_document(a) && is_document(b),
        entry_of(a, "telemetry_enabled"@) == entry_of(b, "telemetry_enabled"@),
    ensures
        config_in(a) == config_in(b),
{
}

/// What was published is the choice that was made, whatever was on disk and
/// whether or not it loads.
pub proof fn law_published_configs_hold_the_choice<E>(
    enabled: bool,
    before: FileRead<E>,
    other: FileRead<E>,
)
    ensures
        published(enabled, before).telemetry_enabled == Some(enabled),
        published(enabled, before) == published(enabled, other),
{
}

/// The service sends metrics exactly if the machine-wide config on disk loads and
/// says so.
pub proof fn law_disk_decides_what_is_effective<E>(on_disk: FileRead<E>)
    ensures
        effective(on_disk) <==> on_disk is Contents && config_in(on_disk->Contents_0@) == Some(
            (Config { telemetry_enabled: Some(true) }),
        ),
        loaded(on_disk) is None <==> on_disk is Unreadable || (on_disk is Contents && config_in(
            on_disk->Contents_0@,
        ) is None),
        on_disk is Missing ==> loaded(on_disk) == Some((Config { telemetry_enabled: None })),
        on_disk is Contents && loaded(on_disk) is Some ==> loaded(on_disk) == config_in(
            on_disk->Contents_0@,
        ),
{
}

/// Three platforms have a machine-wide config and no other has: two in the same
/// place, the third in its own.
pub proof fn law_three_platforms_have_a_machine_wide_config(os: Seq<char>)
    ensures
        machine_wide_dir(os) is Some <==> os == "linux"@ || os == "macos"@ || os == "windows"@,
        os == "linux"@ || os == "macos"@ ==> machine_wide_dir(os) == Some("/etc/pigeons"@),
        os == "windows"@ ==> machine_wide_dir(os) == Some("C:\\ProgramData\\pigeons"@),
{
    reveal_strlit("linux");
    reveal_strlit("macos");
    reveal_strlit("windows");
    assert("linux"@.len() == 5 && "macos"@.len() == 5 && "windows"@.len() == 7);
}

/// Two platforms have a layout of their own for a user's config, and all others
/// share one.
pub proof fn law_most_platforms_share_a_layout(os: Seq<char>, other: Seq<char>)
    ensures
        os == "macos"@ ==> below_home(os) == "Library/Application Support/pigeons/config.toml"@,
        os == "windows"@ ==> below_home(os) == "AppData/Roaming/pigeons/config.toml"@,
        os != "macos"@ && os != "windows"@ ==> below_home(os) == ".config/pigeons/config.toml"@,
        os != "macos"@ && os != "windows"@ && other != "macos"@ && other != "windows"@
            ==> below_home(os) == below_home(other),
{
    reveal_strlit("macos");
    reveal_strlit("windows");
    assert("macos"@.len() == 5 && "windows"@.len() == 7);
}

/// A config is written once, into a directory that is made first. Modes are set
/// after that, and exactly on a machine-wide config where there are modes: the
/// file can then be read, and its directory entered, by everyone, and neither
/// written but by its owner.
pub proof fn law_stored_configs_can_be_read(world_readable: bool, unix: bool, step: StoreStep)
    ensures
        ({
            let steps = Config::steps_to_store(world_readable, unix);
            &&& steps[0] is CreateParents && steps[1] is Write
            &&& steps.contains(step) <==> match step {
                StoreStep::SetDirMode(mode) => world_readable && unix && mode == 0o755,
                StoreStep::SetFileMode(mode) => world_readable && unix && mode == 0o644,
                _ => true,
            }
            &&& steps.no_duplicates()
        }),
{
    let steps = Config::steps_to_store(world_readable, unix);
    assert(steps[0] is CreateParents && steps[1] is Write);
    if world_readable && unix {
        assert(steps[2] == StoreStep::SetDirMode(0o755));
        assert(steps[3] == StoreStep::SetFileMode(0o644));
    }
}

} // verus!
