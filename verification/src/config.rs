//! User configuration.
//!
//! The data a `config.toml` file holds, the fresh values a first run starts
//! from, and the in-memory store the loaded configuration lives in.  Reading
//! and writing the file itself, and parsing TOML, are the embedding program's
//! work; this module owns the values and every decision about them: what a
//! fresh configuration contains, which language tags the locale lookup tries,
//! what to adopt and what to write back for each outcome of the load.

use vstd::prelude::*;

verus! {

use vstd::pervasive::unreached;

/// Saved values of lobby text boxes.
pub struct LobbyConfig {
    pub nickname: String,
    pub relay: String,
}

/// The color scheme variant.
#[derive(Clone, Copy, Debug, PartialEq, Eq, Structural)]
pub enum ColorScheme {
    Light,
    Dark,
}

/// The position of the toolbar.
#[derive(Clone, Copy, Debug, PartialEq, Eq, Structural)]
pub enum ToolbarPosition {
    /// Vertical on the left side of the screen.
    Left,
    /// Vertical on the right side of the screen.
    Right,
}

impl Default for ToolbarPosition {
    /// The default toolbar position is the left-hand side of the screen.
    fn default() -> (r: Self)
        ensures
            r == ToolbarPosition::Left,
    {
        Self::Left
    }
}

/// UI-related configuration options.
pub struct UiConfig {
    pub color_scheme: ColorScheme,
    pub toolbar_position: ToolbarPosition,
}

/// Window position and size.
pub struct WindowConfig {
    pub x: i32,
    pub y: i32,
    pub width: u32,
    pub height: u32,
    pub maximized: bool,
}

/// A user `config.toml` file.
pub struct UserConfig {
    pub language: String,
    pub lobby: LobbyConfig,
    pub ui: UiConfig,
    pub window: Option<WindowConfig>,
}

impl UserConfig {
    /// Relies on `directories::ProjectDirs::from("", "", "NetCanv")`: the
    /// platform-specific configuration directory, as a string, when the
    /// platform defines one.  The answer depends on the machine and its
    /// environment, so nothing is promised of the value.
    #[verifier::external_body]
    pub fn config_dir() -> (r: Option<String>) {
        let dirs = directories::ProjectDirs::from("", "", "NetCanv")?;
        Some(dirs.config_dir().to_string_lossy().into_owned())
    }

    /// The path of the configuration file inside a given directory.
    pub fn path_in(dir: &str) -> (r: String)
        ensures
            r@ == dir@ + "/config.toml"@,
    {
        let mut s = String::from_str(dir);
        s.append("/config.toml");
        s
    }

    /// The path of the `config.toml` file, when the platform defines a
    /// configuration directory to put it in.
    pub fn path() -> (r: Option<String>) {
        match Self::config_dir() {
            Some(dir) => Some(Self::path_in(dir.as_str())),
            None => None,
        }
    }

    /// A fresh configuration recording the given user-interface language:
    /// anonymous nickname, the stock relay address, light color scheme,
    /// toolbar on the left, no remembered window.
    pub fn with_language(language: String) -> (r: UserConfig)
        ensures
            r.language == language,
            r.lobby.nickname@ == "Anon"@,
            r.lobby.relay@ == "ws://localhost"@,
            r.ui.color_scheme == ColorScheme::Light,
            r.ui.toolbar_position == ToolbarPosition::Left,
            r.window is None,
    {
        UserConfig {
            language,
            lobby: LobbyConfig {
                nickname: String::from_str("Anon"),
                relay: String::from_str("ws://localhost"),
            },
            ui: UiConfig {
                color_scheme: ColorScheme::Light,
                toolbar_position: ToolbarPosition::Left,
            },
            window: None,
        }
    }
}

impl Default for UserConfig {
    /// The configuration a first run starts from when no locale could be
    /// matched: the fresh values under the fallback language.
    fn default() -> (r: Self)
        ensures
            r.language@ == "en-US"@,
            r.lobby.nickname@ == "Anon"@,
            r.lobby.relay@ == "ws://localhost"@,
            r.ui.color_scheme == ColorScheme::Light,
            r.ui.toolbar_position == ToolbarPosition::Left,
            r.window is None,
    {
        UserConfig::with_language(String::from_str("en-US"))
    }
}

/// Relies on `sys_locale::get_locale`: the system locale as a BCP 47 tag,
/// when one can be determined.  The answer depends on the machine, so
/// nothing is promised of the value.
#[verifier::external_body]
fn system_locale() -> (r: Option<String>) {
    sys_locale::get_locale()
}

/// The system locale tag, when the platform reports one.
pub fn detected_locale() -> (r: Option<String>) {
    system_locale()
}

/// A language tag rendered from its subtags, `-`-separated: "en-Latn-US",
/// "en-US", "en".
pub open spec fn spec_tag(
    language: Seq<char>,
    script: Option<Seq<char>>,
    region: Option<Seq<char>>,
) -> Seq<char> {
    language + (match script {
        Some(s) => seq!['-'] + s,
        None => Seq::empty(),
    }) + (match region {
        Some(r) => seq!['-'] + r,
        None => Seq::empty(),
    })
}

/// The view of an optional subtag.
pub open spec fn opt_view(o: Option<&str>) -> Option<Seq<char>> {
    match o {
        Some(s) => Some(s@),
        None => None,
    }
}

/// Renders a language tag from its subtags.
pub fn render_tag(language: &str, script: Option<&str>, region: Option<&str>) -> (r: String)
    ensures
        r@ == spec_tag(language@, opt_view(script), opt_view(region)),
{
    proof {
        reveal_strlit("-");
    }
    let mut s = String::from_str(language);
    match script {
        Some(sc) => {
            s.append("-");
            s.append(sc);
        },
        None => {},
    }
    match region {
        Some(rg) => {
            s.append("-");
            s.append(rg);
        },
        None => {},
    }
    s
}

/// The language tags the locale lookup tries against the available
/// translations, most specific first: the full tag, then the tag without its
/// region, then without its script either.
pub fn language_candidates(language: &str, script: Option<&str>, region: Option<&str>) -> (r: Vec<
    String,
>)
    ensures
        r@.len() == 3,
        r@[0]@ == spec_tag(language@, opt_view(script), opt_view(region)),
        r@[1]@ == spec_tag(language@, opt_view(script), None),
        r@[2]@ == spec_tag(language@, None, None),
{
    let mut v: Vec<String> = Vec::new();
    v.push(render_tag(language, script, region));
    v.push(render_tag(language, script, None));
    v.push(render_tag(language, None, None));
    v
}

/// The language a fresh configuration records: the candidate tag the
/// translation lookup accepted, or "en-US" when none was accepted.
pub fn default_language(accepted: Option<String>) -> (r: String)
    ensures
        accepted matches Some(l) ==> r == l,
        accepted is None ==> r@ == "en-US"@,
{
    match accepted {
        Some(l) => l,
        None => String::from_str("en-US"),
    }
}

/// Errors of the configuration store.
#[derive(Clone, Copy, Debug, PartialEq, Eq, Structural)]
pub enum ConfigError {
    /// A configuration was already installed in this store.
    ConfigIsAlreadyLoaded,
}

/// What was found when loading the configuration file.
pub enum LoadEvent {
    /// No file yet.
    Missing,
    /// A file whose contents did not parse.
    Unparsable,
    /// The file's parsed contents.
    Parsed(UserConfig),
}

/// The load decision: which configuration to adopt, and whether to write the
/// file back.  A missing file adopts the fresh configuration and saves it at
/// once; an unparsable file adopts the fresh configuration for this run only
/// and leaves the file alone; a parsed file is adopted and re-saved, so keys
/// added since it was written appear in it.
pub fn plan_load(event: LoadEvent, fresh: UserConfig) -> (r: (UserConfig, bool))
    ensures
        event is Missing ==> r == (fresh, true),
        event is Unparsable ==> r == (fresh, false),
        event matches LoadEvent::Parsed(c) ==> r == (c, true),
{
    match event {
        LoadEvent::Missing => (fresh, true),
        LoadEvent::Unparsable => (fresh, false),
        LoadEvent::Parsed(c) => (c, true),
    }
}

/// The in-memory home of the loaded user configuration.  The embedding
/// program owns one store for the process and hands it to whoever reads or
/// writes the configuration.
pub struct ConfigStore {
    loaded: Option<UserConfig>,
}

impl ConfigStore {
    /// Whether a configuration has been installed.
    pub closed spec fn is_loaded(&self) -> bool {
        self.loaded is Some
    }

    /// The installed configuration.
    pub closed spec fn spec_config(&self) -> UserConfig
        recommends
            self.is_loaded(),
    {
        self.loaded->Some_0
    }

    /// An empty store: nothing loaded yet.
    pub fn new() -> (r: ConfigStore)
        ensures
            !r.is_loaded(),
    {
        ConfigStore { loaded: None }
    }

    /// Whether a configuration has been installed.
    pub fn loaded(&self) -> (r: bool)
        ensures
            r == self.is_loaded(),
    {
        self.loaded.is_some()
    }

    /// Installs the configuration adopted at startup.  Exactly one install
    /// can ever succeed: a second one fails and changes nothing.
    pub fn install(&mut self, config: UserConfig) -> (r: Result<(), ConfigError>)
        ensures
            !old(self).is_loaded() ==> r is Ok && final(self).is_loaded()
                && final(self).spec_config() == config,
            old(self).is_loaded() ==> r == Err::<(), ConfigError>(
                ConfigError::ConfigIsAlreadyLoaded,
            ) && *final(self) == *old(self),
    {
        match &self.loaded {
            Some(_) => Err(ConfigError::ConfigIsAlreadyLoaded),
            None => {
                self.loaded = Some(config);
                Ok(())
            },
        }
    }
}

/// Reads from the user config.
pub fn config(store: &ConfigStore) -> (r: &UserConfig)
    requires
        store.is_loaded(),
    ensures
        *r == store.spec_config(),
{
    match &store.loaded {
        Some(c) => c,
        None => unreached(),
    }
}

/// Writes to the user config, replacing it with `new_config`.  Saving the
/// file afterwards is the embedding program's step.
pub fn write(store: &mut ConfigStore, new_config: UserConfig)
    requires
        old(store).is_loaded(),
    ensures
        final(store).is_loaded(),
        final(store).spec_config() == new_config,
{
    store.loaded = Some(new_config);
}

} // verus!
