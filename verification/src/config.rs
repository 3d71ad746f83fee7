use vstd::prelude::*;
use vstd::string::*;

verus! {

/// Connection settings for the Subsonic server.
#[derive(Debug)]
pub struct ServerConfig {
    pub url: String,
    pub username: String,
    pub auth_method: AuthMethod,
    pub password: String,
    pub api_key: String,
}

/// How the client authenticates against the server.
#[derive(Debug, Clone, Copy, PartialEq, Eq, Structural)]
pub enum AuthMethod {
    Token,
    ApiKey,
    Plain,
}

/// Settings handed to the audio engine when it is launched.
#[derive(Debug)]
pub struct AudioConfig {
    pub device: String,
    pub exclusive: bool,
    pub gapless: bool,
    pub replaygain: ReplayGainMode,
    pub max_bitrate: u32,
}

/// Which ReplayGain tags the audio engine applies.
#[derive(Debug, Clone, Copy, PartialEq, Eq, Structural)]
pub enum ReplayGainMode {
    Off,
    Track,
    Album,
}

/// Display settings. The UI scale is kept in percent (150 stands for 1.5x).
#[derive(Debug)]
pub struct DisplayConfig {
    pub scale_percent: u32,
    pub theme: String,
}

/// Playback behaviour.
#[derive(Debug, Clone, Copy)]
pub struct PlaybackConfig {
    pub scrobble: bool,
    pub auto_advance: bool,
    pub resume_on_start: bool,
}

/// Where cover art is cached and at which size it is requested.
#[derive(Debug)]
pub struct CacheConfig {
    pub dir: String,
    pub cover_art_size: u32,
}

/// Whether the first-launch wizard has been completed.
#[derive(Debug, Clone, Copy)]
pub struct WizardConfig {
    pub completed: bool,
}

/// The whole configuration file.
#[derive(Debug)]
pub struct Config {
    pub server: ServerConfig,
    pub audio: AudioConfig,
    pub display: DisplayConfig,
    pub playback: PlaybackConfig,
    pub cache: CacheConfig,
    pub wizard: WizardConfig,
}

impl Default for AuthMethod {
    fn default() -> (r: Self)
        ensures
            r == AuthMethod::Token,
    {
        AuthMethod::Token
    }
}

impl Default for ReplayGainMode {
    fn default() -> (r: Self)
        ensures
            r == ReplayGainMode::Off,
    {
        ReplayGainMode::Off
    }
}

impl Clone for ServerConfig {
    fn clone(&self) -> (r: Self)
        ensures
            r == *self,
    {
        ServerConfig {
            url: self.url.clone(),
            username: self.username.clone(),
            auth_method: self.auth_method,
            password: self.password.clone(),
            api_key: self.api_key.clone(),
        }
    }
}

impl Clone for AudioConfig {
    fn clone(&self) -> (r: Self)
        ensures
            r == *self,
    {
        AudioConfig {
            device: self.device.clone(),
            exclusive: self.exclusive,
            gapless: self.gapless,
            replaygain: self.replaygain,
            max_bitrate: self.max_bitrate,
        }
    }
}

impl Clone for DisplayConfig {
    fn clone(&self) -> (r: Self)
        ensures
            r == *self,
    {
        DisplayConfig { scale_percent: self.scale_percent, theme: self.theme.clone() }
    }
}

impl Clone for CacheConfig {
    fn clone(&self) -> (r: Self)
        ensures
            r == *self,
    {
        CacheConfig { dir: self.dir.clone(), cover_art_size: self.cover_art_size }
    }
}

impl Clone for Config {
    fn clone(&self) -> (r: Self)
        ensures
            r == *self,
    {
        Config {
            server: self.server.clone(),
            audio: self.audio.clone(),
            display: self.display.clone(),
            playback: self.playback,
            cache: self.cache.clone(),
            wizard: self.wizard,
        }
    }
}

/// The path `base` extended by the relative component `comp`, as a path
/// join does on Unix: a separator is inserted unless `base` is empty or
/// already ends in one.
pub open spec fn join_path(base: Seq<char>, comp: Seq<char>) -> Seq<char> {
    if base.len() > 0 && base.last() != '/' {
        base + seq!['/'] + comp
    } else {
        base + comp
    }
}

/// The directory used when the platform reports no cache directory.
pub open spec fn fallback_cache_base() -> Seq<char> {
    seq!['~', '/', '.', 'c', 'a', 'c', 'h', 'e']
}

/// The name of this application's directories.
pub open spec fn app_dir_name() -> Seq<char> {
    seq!['n', 'a', 'v', 'i', 'd', 'r', 'o', 'm', 'e', '-', 'h', 't', 'p', 'c']
}

/// Every field of `c` but the cache directory holds its default value.
pub open spec fn has_default_settings(c: Config) -> bool {
    &&& c.server.url@ == Seq::<char>::empty()
    &&& c.server.username@ == Seq::<char>::empty()
    &&& c.server.auth_method == AuthMethod::Token
    &&& c.server.password@ == Seq::<char>::empty()
    &&& c.server.api_key@ == Seq::<char>::empty()
    &&& c.audio.device@ == seq!['a', 'u', 't', 'o']
    &&& c.audio.exclusive
    &&& c.audio.gapless
    &&& c.audio.replaygain == ReplayGainMode::Album
    &&& c.audio.max_bitrate == 0
    &&& c.display.scale_percent == 150
    &&& c.display.theme@ == seq!['d', 'a', 'r', 'k']
    &&& c.playback.scrobble
    &&& c.playback.auto_advance
    &&& c.playback.resume_on_start
    &&& c.cache.cover_art_size == 300
    &&& !c.wizard.completed
}

/// The platform's cache directory, as reported by the `dirs` crate.
///
/// Trusted: calls `dirs::cache_dir` and converts the path to a string with
/// `to_string_lossy` (bytes that are not UTF-8 become U+FFFD, as the cache
/// path has always been written). Nothing is stated of the result: it
/// depends on the platform and on the environment of the process.
#[verifier::external_body]
fn platform_cache_dir() -> (r: Option<String>) {
    match dirs::cache_dir() {
        Some(p) => Some(p.to_string_lossy().into_owned()),
        None => None,
    }
}

/// Appends the relative component `comp` to the path `base`.
pub fn join_path_exec(base: &str, comp: &str) -> (r: String)
    ensures
        r@ == join_path(base@, comp@),
{
    let n = base.unicode_len();
    let mut r = String::from_str(base);
    if n > 0 && base.get_char(n - 1) != '/' {
        r.append("/");
        proof {
            reveal_strlit("/");
        }
    }
    r.append(comp);
    proof {
        if base@.len() > 0 && base@.last() != '/' {
            assert(r@ =~= base@ + seq!['/'] + comp@);
        }
    }
    r
}

/// The cache directory of this application under the platform cache
/// directory `base`, or under `~/.cache` when there is none.
pub fn app_cache_dir(base: Option<String>) -> (r: String)
    ensures
        r@ == join_path(
            match base {
                Some(b) => b@,
                None => fallback_cache_base(),
            },
            app_dir_name(),
        ),
{
    proof {
        reveal_strlit("~/.cache");
        reveal_strlit("navidrome-htpc");
    }
    match base {
        Some(b) => join_path_exec(b.as_str(), "navidrome-htpc"),
        None => join_path_exec("~/.cache", "navidrome-htpc"),
    }
}

/// The name of the configuration file.
pub open spec fn config_file_name() -> Seq<char> {
    seq!['c', 'o', 'n', 'f', 'i', 'g', '.', 't', 'o', 'm', 'l']
}

/// The platform's configuration directory, as reported by the `dirs` crate.
///
/// Trusted: calls `dirs::config_dir` and converts the path to a string with
/// `to_string_lossy` (bytes that are not UTF-8 become U+FFFD).
/// Nothing is stated of the result: it depends on the platform and on the
/// environment of the process.
#[verifier::external_body]
fn platform_config_dir() -> (r: Option<String>) {
    match dirs::config_dir() {
        Some(p) => Some(p.to_string_lossy().into_owned()),
        None => None,
    }
}

/// Where the configuration file lives under the platform configuration
/// directory `base`: `navidrome-htpc/config.toml`; nowhere without one.
pub fn config_file_in(base: Option<String>) -> (r: Option<String>)
    ensures
        base is None ==> r is None,
        base matches Some(b) ==> r matches Some(p) && p@ == join_path(join_path(b@, app_dir_name()), config_file_name()),
{
    proof {
        reveal_strlit("navidrome-htpc");
        reveal_strlit("config.toml");
    }
    match base {
        Some(b) => {
            let dir = join_path_exec(b.as_str(), "navidrome-htpc");
            Some(join_path_exec(dir.as_str(), "config.toml"))
        },
        None => None,
    }
}

impl Config {
    /// The default configuration, with `cache_dir` as its cache directory.
    pub fn with_cache_dir(cache_dir: String) -> (r: Config)
        ensures
            has_default_settings(r),
            r.cache.dir == cache_dir,
    {
        let device = String::from_str("auto");
        let theme = String::from_str("dark");
        proof {
            reveal_strlit("auto");
            reveal_strlit("dark");
            assert(device@ =~= seq!['a', 'u', 't', 'o']);
            assert(theme@ =~= seq!['d', 'a', 'r', 'k']);
        }
        Config {
            server: ServerConfig {
                url: String::new(),
                username: String::new(),
                auth_method: AuthMethod::Token,
                password: String::new(),
                api_key: String::new(),
            },
            audio: AudioConfig {
                device,
                exclusive: true,
                gapless: true,
                replaygain: ReplayGainMode::Album,
                max_bitrate: 0,
            },
            display: DisplayConfig { scale_percent: 150, theme },
            playback: PlaybackConfig { scrobble: true, auto_advance: true, resume_on_start: true },
            cache: CacheConfig { dir: cache_dir, cover_art_size: 300 },
            wizard: WizardConfig { completed: false },
        }
    }
}

impl Config {
    /// The path of the configuration file: `navidrome-htpc/config.toml`
    /// under the platform configuration directory, if the platform has one.
    pub fn config_path() -> (r: Option<String>)
        ensures
            r matches Some(p) ==> exists|base: Seq<char>|
                p@ == join_path(join_path(base, app_dir_name()), config_file_name()),
    {
        let base = platform_config_dir();
        let ghost b = base;
        let r = config_file_in(base);
        proof {
            if r is Some {
                let w = b.unwrap()@;
                assert(r.unwrap()@ == join_path(join_path(w, app_dir_name()), config_file_name()));
            }
        }
        r
    }
}

impl Default for Config {
    /// The default configuration; its cache directory is
    /// `navidrome-htpc` under the platform's cache directory.
    fn default() -> (r: Self)
        ensures
            has_default_settings(r),
            exists|base: Seq<char>| r.cache.dir@ == join_path(base, app_dir_name()),
    {
        let base = platform_cache_dir();
        let ghost base_path = match base {
            Some(ref b) => b@,
            None => fallback_cache_base(),
        };
        let r = Config::with_cache_dir(app_cache_dir(base));
        assert(r.cache.dir@ == join_path(base_path, app_dir_name()));
        r
    }
}

} // verus!
