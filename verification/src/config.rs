//! The configuration file, the credentials, and the paths of the daemon's runtime
//! files.
use crate::text;
use crate::time::{Duration, NANOS_PER_SEC};
use vstd::prelude::*;

verus! {

/// How long the daemon stays idle before it exits, unless the user says
/// otherwise.
pub const DEFAULT_IDLE_TIMEOUT_SECS: u64 = 1200;

/// The configuration file: the server and the user, and settings of the daemon.
/// The password is no part of it.
#[derive(Debug, PartialEq, Eq)]
pub struct Config {
    pub server_url: String,
    pub username: String,
    /// How long the daemon stays idle before it exits, where the user says so.
    pub idle_timeout_secs: Option<u64>,
    /// The audio output device, by name, where the user names one.
    pub output_device: Option<String>,
}

/// The server, the user, and the password.
pub struct Credentials {
    pub server_url: String,
    pub username: String,
    pub password: String,
}

impl Clone for Config {
    fn clone(&self) -> (r: Self)
        ensures
            r == *self,
    {
        Config {
            server_url: self.server_url.clone(),
            username: self.username.clone(),
            idle_timeout_secs: self.idle_timeout_secs,
            output_device: self.output_device.clone(),
        }
    }
}

impl Clone for Credentials {
    fn clone(&self) -> (r: Self)
        ensures
            r == *self,
    {
        Credentials {
            server_url: self.server_url.clone(),
            username: self.username.clone(),
            password: self.password.clone(),
        }
    }
}

/// Why there is no configuration, or there are no credentials.
#[derive(Debug, PartialEq, Eq)]
pub enum Error {
    /// The user has no directory for configuration files.
    NoConfigDir,
    /// There is no configuration file yet.
    ConfigMissing(String),
    /// The configuration file cannot be read, with the reason.
    ConfigRead { path: String, reason: String },
    /// The configuration file does not hold a configuration.
    ConfigParse { path: String },
    /// The keyring holds no password for the user.
    PasswordMissing { username: String },
    /// The keyring does not answer, with the reason.
    Keyring(String),
}

/// What a file path finds.
#[derive(Debug, PartialEq, Eq)]
pub enum ConfigFile {
    Absent,
    Unreadable(String),
    Text(String),
}

/// What a key of a TOML text holds.
#[derive(Debug, PartialEq, Eq)]
pub enum Setting {
    /// Nothing: the text has no such key.
    Missing,
    Text(String),
    Number(i64),
    /// A value of another type.
    Other,
}

/// What a [`Setting`] says.
#[verifier::ext_equal]
pub enum SettingView {
    Missing,
    Text(Seq<char>),
    Number(i64),
    Other,
}

impl View for Setting {
    type V = SettingView;

    open spec fn view(&self) -> SettingView {
        match *self {
            Setting::Missing => SettingView::Missing,
            Setting::Text(s) => SettingView::Text(s@),
            Setting::Number(n) => SettingView::Number(n),
            Setting::Other => SettingView::Other,
        }
    }
}

/// What `toml` reads under a key at the top of a text; nothing for a text that is
/// no TOML.
pub uninterp spec fn toml_setting(raw: Seq<char>, key: Seq<char>) -> Option<SettingView>;

/// Parses `raw` with `toml`, as a `toml::Table`, and calls its `get` with `key`. The
/// result depends on the two texts alone.
#[verifier::external_body]
fn read_setting(raw: &str, key: &str) -> (r: Option<Setting>)
    ensures
        match (r, toml_setting(raw@, key@)) {
            (Some(found), Some(named)) => found@ == named,
            (None, None) => true,
            _ => false,
        },
{
    match raw.parse::<toml::Table>() {
        Err(_) => None,
        Ok(table) => match table.get(key) {
            None => Some(Setting::Missing),
            Some(toml::Value::String(s)) => Some(Setting::Text(s.clone())),
            Some(toml::Value::Integer(n)) => Some(Setting::Number(*n)),
            Some(_) => Some(Setting::Other),
        },
    }
}

/// How many times `mark` stands at the end of a text.
pub open spec fn marks_at_end(s: Seq<char>, mark: char) -> nat
    decreases s.len(),
{
    if s.len() == 0 || s.last() != mark {
        0
    } else {
        1 + marks_at_end(s.drop_last(), mark)
    }
}

/// Whether no more than 255 quotation marks of a kind follow each other in a text:
/// `toml` counts them in a byte.
pub open spec fn quotes_are_short(s: Seq<char>) -> bool {
    forall|n: int|
        0 <= n <= s.len() ==> marks_at_end(#[trigger] s.take(n), '"') <= 255 && marks_at_end(
            s.take(n),
            '\'',
        ) <= 255
}

/// Whether no more than 255 quotation marks of a kind follow each other in a text.
fn short_quotes(s: &str) -> (r: bool)
    ensures
        r == quotes_are_short(s@),
{
    let chars = text::chars_of(s);
    let mut double: u32 = 0;
    let mut single: u32 = 0;
    let mut i: usize = 0;
    while i < chars.len()
        invariant
            i <= chars.len(),
            chars@ == s@,
            double == marks_at_end(s@.take(i as int), '"'),
            single == marks_at_end(s@.take(i as int), '\''),
            double <= 255,
            single <= 255,
            forall|n: int|
                0 <= n <= i ==> marks_at_end(#[trigger] s@.take(n), '"') <= 255 && marks_at_end(
                    s@.take(n),
                    '\'',
                ) <= 255,
        decreases chars.len() - i,
    {
        let c: char = chars[i];
        assert(s@.take(i + 1).drop_last() =~= s@.take(i as int));
        assert(s@.take(i + 1).last() == c);
        double = if c == '"' {
            double + 1
        } else {
            0
        };
        single = if c == '\'' {
            single + 1
        } else {
            0
        };
        i = i + 1;
        if double > 255 || single > 255 {
            assert(!quotes_are_short(s@)) by {
                assert(marks_at_end(s@.take(i as int), '"') > 255 || marks_at_end(
                    s@.take(i as int),
                    '\'',
                ) > 255);
            }
            return false;
        }
    }
    true
}

/// A setting to write.
#[derive(Debug, PartialEq, Eq)]
pub enum Written {
    Text(String),
    Number(i64),
}

impl View for Written {
    type V = SettingView;

    open spec fn view(&self) -> SettingView {
        match *self {
            Written::Text(s) => SettingView::Text(s@),
            Written::Number(n) => SettingView::Number(n),
        }
    }
}

/// Whether `toml` can write a setting: a number, or a text whose quotation marks it
/// can count.
pub open spec fn can_be_written(s: SettingView) -> bool {
    s matches SettingView::Text(t) ==> quotes_are_short(t)
}

/// The text that `toml` writes for a table of settings.
pub uninterp spec fn toml_text(settings: Seq<(Seq<char>, SettingView)>) -> Seq<char>;

/// Calls `toml::to_string_pretty` on a `toml::Table` of the settings, which does not
/// fail for texts and integers. The text depends on them alone, and reads back as they
/// are: under each key stands its own setting, and under any other key nothing.
#[verifier::external_body]
fn write_settings(settings: &Vec<(String, Written)>) -> (r: String)
    requires
        forall|i: int|
            0 <= i < settings@.len() ==> can_be_written(#[trigger] setting_views(settings@)[i].1),
        forall|i: int, j: int|
            0 <= i < j < settings@.len() ==> (#[trigger] setting_views(settings@)[i]).0 != (
            #[trigger] setting_views(settings@)[j]).0,
    ensures
        r@ == toml_text(setting_views(settings@)),
        forall|key: Seq<char>|
            #[trigger] toml_setting(r@, key) == Some(found(setting_views(settings@), key)),
{
    let mut table = toml::Table::new();
    for (key, setting) in settings {
        let value = match setting {
            Written::Text(text) => toml::Value::String(text.clone()),
            Written::Number(number) => toml::Value::Integer(*number),
        };
        table.insert(key.clone(), value);
    }
    toml::to_string_pretty(&table).unwrap_or_default()
}

/// What a [`Config`] says.
#[verifier::ext_equal]
pub struct ConfigView {
    pub server_url: Seq<char>,
    pub username: Seq<char>,
    pub idle_timeout_secs: Option<u64>,
    pub output_device: Option<Seq<char>>,
}

impl ConfigView {
    /// Whether TOML's integers reach the timeout.
    pub open spec fn fits(self) -> bool {
        self.idle_timeout_secs is Some ==> self.idle_timeout_secs->0 <= i64::MAX
    }

    /// Whether `toml` can count the quotation marks in every text.
    pub open spec fn writable(self) -> bool {
        &&& quotes_are_short(self.server_url)
        &&& quotes_are_short(self.username)
        &&& self.output_device is Some ==> quotes_are_short(self.output_device->0)
    }
}

impl View for Config {
    type V = ConfigView;

    open spec fn view(&self) -> ConfigView {
        ConfigView {
            server_url: self.server_url@,
            username: self.username@,
            idle_timeout_secs: self.idle_timeout_secs,
            output_device: match self.output_device {
                Some(d) => Some(d@),
                None => None,
            },
        }
    }
}

/// A setting that has to be a text.
pub open spec fn wanted(s: Option<SettingView>) -> Option<Seq<char>> {
    match s {
        Some(SettingView::Text(t)) => Some(t),
        _ => None,
    }
}

/// A setting that may be missing, and else has to be a count.
pub open spec fn maybe_count(s: Option<SettingView>) -> Option<Option<u64>> {
    match s {
        Some(SettingView::Missing) => Some(None),
        Some(SettingView::Number(n)) => if n >= 0 {
            Some(Some(n as u64))
        } else {
            None
        },
        _ => None,
    }
}

/// A setting that may be missing, and else has to be a text.
pub open spec fn maybe_text(s: Option<SettingView>) -> Option<Option<Seq<char>>> {
    match s {
        Some(SettingView::Missing) => Some(None),
        Some(SettingView::Text(t)) => Some(Some(t)),
        _ => None,
    }
}

/// The configuration that four settings make: the server, the user, the timeout
/// and the device. Nothing where one of them is of the wrong type, or one of the
/// first two is missing.
pub open spec fn config_of(
    server_url: Option<SettingView>,
    username: Option<SettingView>,
    idle_timeout_secs: Option<SettingView>,
    output_device: Option<SettingView>,
) -> Option<ConfigView> {
    match (
        wanted(server_url),
        wanted(username),
        maybe_count(idle_timeout_secs),
        maybe_text(output_device),
    ) {
        (Some(s), Some(u), Some(t), Some(d)) => Some(
            ConfigView { server_url: s, username: u, idle_timeout_secs: t, output_device: d },
        ),
        _ => None,
    }
}

/// The configuration that a text holds.
pub open spec fn config_in(raw: Seq<char>) -> Option<ConfigView> {
    config_of(
        toml_setting(raw, "server_url"@),
        toml_setting(raw, "username"@),
        toml_setting(raw, "idle_timeout_secs"@),
        toml_setting(raw, "output_device"@),
    )
}

/// What an optional setting says.
pub open spec fn setting_view(s: Option<Setting>) -> Option<SettingView> {
    match s {
        Some(x) => Some(x@),
        None => None,
    }
}

impl Config {
    /// How long the daemon stays idle before it exits.
    pub fn idle_timeout(&self) -> (d: Duration)
        ensures
            d.nanos == (match self.idle_timeout_secs {
                Some(secs) => secs * NANOS_PER_SEC,
                None => DEFAULT_IDLE_TIMEOUT_SECS * NANOS_PER_SEC,
            }),
    {
        match self.idle_timeout_secs {
            Some(secs) => Duration::from_secs(secs),
            None => Duration::from_secs(DEFAULT_IDLE_TIMEOUT_SECS),
        }
    }

    /// The configuration that four settings make, see [`config_of`].
    pub fn from_settings(
        server_url: Option<Setting>,
        username: Option<Setting>,
        idle_timeout_secs: Option<Setting>,
        output_device: Option<Setting>,
    ) -> (r: Option<Config>)
        ensures
            match config_of(
                setting_view(server_url),
                setting_view(username),
                setting_view(idle_timeout_secs),
                setting_view(output_device),
            ) {
                Some(v) => r matches Some(c) && c@ == v,
                None => r is None,
            },
    {
        let server_url: String = match server_url {
            Some(Setting::Text(s)) => s,
            _ => {
                return None;
            },
        };
        let username: String = match username {
            Some(Setting::Text(s)) => s,
            _ => {
                return None;
            },
        };
        let idle_timeout_secs: Option<u64> = match idle_timeout_secs {
            Some(Setting::Missing) => None,
            Some(Setting::Number(n)) => if n >= 0 {
                Some(n as u64)
            } else {
                return None;
            },
            _ => {
                return None;
            },
        };
        let output_device: Option<String> = match output_device {
            Some(Setting::Missing) => None,
            Some(Setting::Text(s)) => Some(s),
            _ => {
                return None;
            },
        };
        Some(Config { server_url, username, idle_timeout_secs, output_device })
    }

    /// Reads the configuration file at `path`, of which `file` was found. A file
    /// that is not there yet is an error of its own: the user has to log in first.
    pub fn load(path: &str, file: ConfigFile) -> (r: Result<Config, Error>)
        ensures
            match file {
                ConfigFile::Absent => r matches Err(Error::ConfigMissing(p)) && p@ == path@,
                ConfigFile::Unreadable(why) => r matches Err(
                    Error::ConfigRead { path: p, reason },
                ) && p@ == path@ && reason == why,
                ConfigFile::Text(raw) => match config_in(raw@) {
                    Some(v) => r matches Ok(c) && c@ == v,
                    None => r matches Err(Error::ConfigParse { path: p }) && p@ == path@,
                },
            },
    {
        match file {
            ConfigFile::Absent => Err(Error::ConfigMissing(path.to_owned())),
            ConfigFile::Unreadable(reason) => Err(
                Error::ConfigRead { path: path.to_owned(), reason },
            ),
            ConfigFile::Text(raw) => {
                let text: &str = raw.as_str();
                match Config::from_settings(
                    read_setting(text, "server_url"),
                    read_setting(text, "username"),
                    read_setting(text, "idle_timeout_secs"),
                    read_setting(text, "output_device"),
                ) {
                    Some(config) => Ok(config),
                    None => Err(Error::ConfigParse { path: path.to_owned() }),
                }
            },
        }
    }

    /// The settings to write to the configuration file, in order. A setting that
    /// the user did not make is left out. A timeout that TOML's integers do not
    /// reach cannot be written.
    pub fn settings(&self) -> (r: Option<Vec<(String, Written)>>)
        ensures
            r is Some == self@.fits(),
            r is Some ==> setting_views(r->0@) == saved(self@),
    {
        let mut out: Vec<(String, Written)> = Vec::new();
        out.push(("server_url".to_owned(), Written::Text(self.server_url.clone())));
        out.push(("username".to_owned(), Written::Text(self.username.clone())));
        match self.idle_timeout_secs {
            Some(secs) => {
                if secs > 0x7fff_ffff_ffff_ffff {
                    return None;
                }
                out.push(("idle_timeout_secs".to_owned(), Written::Number(secs as i64)));
            },
            None => {},
        }
        match &self.output_device {
            Some(device) => {
                out.push(("output_device".to_owned(), Written::Text(device.clone())));
            },
            None => {},
        }
        assert(setting_views(out@) =~= saved(self@));
        Some(out)
    }

    /// Whether `toml` can write the texts of the configuration.
    pub fn writable(&self) -> (r: bool)
        ensures
            r == self@.writable(),
    {
        if !short_quotes(self.server_url.as_str()) || !short_quotes(self.username.as_str()) {
            return false;
        }
        match &self.output_device {
            Some(device) => short_quotes(device.as_str()),
            None => true,
        }
    }

    /// The text to write to the configuration file; nothing for a timeout that
    /// TOML's integers do not reach. The text reads back as this configuration: under
    /// each key stands what was saved under it, and nothing under any other. It holds
    /// no password.
    pub fn save(&self) -> (r: Option<String>)
        requires
            self@.writable(),
        ensures
            r is Some == self@.fits(),
            r is Some ==> r->0@ == toml_text(saved(self@)),
            r is Some ==> config_in(r->0@) == Some(self@),
            r is Some ==> forall|key: Seq<char>|
                #[trigger] toml_setting(r->0@, key) == Some(found(saved(self@), key)),
            r is Some ==> toml_setting(r->0@, "password"@) == Some(SettingView::Missing),
    {
        let settings: Vec<(String, Written)> = match self.settings() {
            Some(settings) => settings,
            None => {
                return None;
            },
        };
        proof {
            keys_are_distinct(self@);
            saved_config_reads_back(self@);
            password_is_not_written(self@);
        }
        let text: String = write_settings(&settings);
        proof {
            not_found(saved(self@), "password"@);
        }
        Some(text)
    }
}

/// What the settings say, in order.
pub open spec fn setting_views(settings: Seq<(String, Written)>) -> Seq<(Seq<char>, SettingView)> {
    settings.map_values(|s: (String, Written)| (s.0@, s.1@))
}

/// The settings that a configuration writes.
pub open spec fn saved(c: ConfigView) -> Seq<(Seq<char>, SettingView)> {
    let who = seq![
        ("server_url"@, SettingView::Text(c.server_url)),
        ("username"@, SettingView::Text(c.username)),
    ];
    let timeout = match c.idle_timeout_secs {
        Some(secs) => seq![("idle_timeout_secs"@, SettingView::Number(secs as i64))],
        None => Seq::empty(),
    };
    let device = match c.output_device {
        Some(name) => seq![("output_device"@, SettingView::Text(name))],
        None => Seq::empty(),
    };
    who + timeout + device
}

/// The setting that the pairs hold under `key`: that of the first pair with it.
pub open spec fn found(settings: Seq<(Seq<char>, SettingView)>, key: Seq<char>) -> SettingView
    decreases settings.len(),
{
    if settings.len() == 0 {
        SettingView::Missing
    } else if settings[0].0 == key {
        settings[0].1
    } else {
        found(settings.skip(1), key)
    }
}

/// A key that no pair has is not found.
proof fn not_found(settings: Seq<(Seq<char>, SettingView)>, key: Seq<char>)
    requires
        forall|i: int| 0 <= i < settings.len() ==> (#[trigger] settings[i]).0 != key,
    ensures
        found(settings, key) == SettingView::Missing,
    decreases settings.len(),
{
    if settings.len() > 0 {
        assert(settings[0].0 != key);
        assert forall|i: int| 0 <= i < settings.skip(1).len() implies (
        #[trigger] settings.skip(1)[i]).0 != key by {
            assert(settings.skip(1)[i] == settings[i + 1]);
        }
        not_found(settings.skip(1), key);
    }
}

/// Every setting is written under a key of its own.
pub proof fn keys_are_distinct(c: ConfigView)
    ensures
        forall|i: int, j: int|
            0 <= i < j < saved(c).len() ==> (#[trigger] saved(c)[i]).0 != (
            #[trigger] saved(c)[j]).0,
{
    reveal_strlit("server_url");
    reveal_strlit("username");
    reveal_strlit("idle_timeout_secs");
    reveal_strlit("output_device");
    assert("server_url"@.len() == 10);
    assert("username"@.len() == 8);
    assert("idle_timeout_secs"@.len() == 17);
    assert("output_device"@.len() == 13);
}

/// The settings that a configuration writes make that configuration.
pub proof fn saved_config_reads_back(c: ConfigView)
    requires
        c.fits(),
    ensures
        config_of(
            Some(found(saved(c), "server_url"@)),
            Some(found(saved(c), "username"@)),
            Some(found(saved(c), "idle_timeout_secs"@)),
            Some(found(saved(c), "output_device"@)),
        ) == Some(c),
{
    reveal_strlit("server_url");
    reveal_strlit("username");
    reveal_strlit("idle_timeout_secs");
    reveal_strlit("output_device");
    reveal_with_fuel(found, 6);
    assert("server_url"@.len() == 10);
    assert("username"@.len() == 8);
    assert("idle_timeout_secs"@.len() == 17);
    assert("output_device"@.len() == 13);
    let s = saved(c);
    assert(found(s, "server_url"@) == SettingView::Text(c.server_url));
    assert(s.skip(1)[0] == s[1]);
    assert(found(s, "username"@) == SettingView::Text(c.username));
    assert(s.skip(1).skip(1) =~= s.skip(2));
    if s.len() > 2 {
        assert(s.skip(2).skip(1) =~= s.skip(3));
        assert(s.skip(2)[0] == s[2]);
    }
    if s.len() > 3 {
        assert(s.skip(3)[0] == s[3]);
        assert(s.skip(3).skip(1) =~= Seq::<(Seq<char>, SettingView)>::empty());
    }
}

/// No setting that is written is named for a password.
pub proof fn password_is_not_written(c: ConfigView)
    ensures
        forall|i: int| 0 <= i < saved(c).len() ==> (#[trigger] saved(c)[i]).0 != "password"@,
{
    reveal_strlit("server_url");
    reveal_strlit("username");
    reveal_strlit("idle_timeout_secs");
    reveal_strlit("output_device");
    reveal_strlit("password");
    assert("username"@[0] == 'u');
    assert("password"@[0] == 'p');
    assert("server_url"@.len() == 10);
    assert("idle_timeout_secs"@.len() == 17);
    assert("output_device"@.len() == 13);
    assert("password"@.len() == 8);
}

/// What the keyring answers when it is asked for a password.
pub enum KeyringReply {
    Found(String),
    NoEntry,
    Failed(String),
}

impl Credentials {
    /// The credentials of a configuration whose user's password the keyring was
    /// asked for. Without a password there are none: it is stored nowhere else.
    pub fn load(config: Config, reply: KeyringReply) -> (r: Result<Credentials, Error>)
        ensures
            match reply {
                KeyringReply::Found(password) => r == Ok::<Credentials, Error>(
                    Credentials {
                        server_url: config.server_url,
                        username: config.username,
                        password,
                    },
                ),
                KeyringReply::NoEntry => r == Err::<Credentials, Error>(
                    Error::PasswordMissing { username: config.username },
                ),
                KeyringReply::Failed(why) => r == Err::<Credentials, Error>(Error::Keyring(why)),
            },
    {
        match reply {
            KeyringReply::Found(password) => Ok(
                Credentials { server_url: config.server_url, username: config.username, password },
            ),
            KeyringReply::NoEntry => Err(Error::PasswordMissing { username: config.username }),
            KeyringReply::Failed(why) => Err(Error::Keyring(why)),
        }
    }

    /// The configuration to write when a user logs in: the new server and user, and
    /// the daemon's settings as they were.
    pub fn save(server_url: String, username: String, existing: Option<Config>) -> (c: Config)
        ensures
            c == (Config {
                server_url,
                username,
                idle_timeout_secs: match existing {
                    Some(old) => old.idle_timeout_secs,
                    None => None,
                },
                output_device: match existing {
                    Some(old) => old.output_device,
                    None => None,
                },
            }),
    {
        match existing {
            Some(old) => Config {
                server_url,
                username,
                idle_timeout_secs: old.idle_timeout_secs,
                output_device: old.output_device,
            },
            None => Config { server_url, username, idle_timeout_secs: None, output_device: None },
        }
    }
}

/// The path of `name` in a directory: a slash between the two, unless the
/// directory's own path ends in one or is empty.
pub open spec fn join(dir: Seq<char>, name: Seq<char>) -> Seq<char> {
    if dir.len() == 0 || dir.last() == '/' {
        dir + name
    } else {
        dir + "/"@ + name
    }
}

/// The path of `name` in a directory, see [`join`].
pub fn join_path(dir: &str, name: &str) -> (path: String)
    requires
        name@.len() > 0 ==> name@[0] != '/',
    ensures
        path@ == join(dir@, name@),
{
    let chars = text::chars_of(dir);
    if chars.len() == 0 || chars[chars.len() - 1] == '/' {
        dir.to_owned().concat(name)
    } else {
        dir.to_owned().concat("/").concat(name)
    }
}

/// The configuration file's path, in the user's directory for this program's
/// configuration.
pub fn config_path(config_dir: Option<&str>) -> (r: Result<String, Error>)
    ensures
        match config_dir {
            Some(dir) => r matches Ok(path) && path@ == join(dir@, "config.toml"@),
            None => r matches Err(e) && e == Error::NoConfigDir,
        },
{
    proof {
        reveal_strlit("config.toml");
    }
    match config_dir {
        Some(dir) => Ok(join_path(dir, "config.toml")),
        None => Err(Error::NoConfigDir),
    }
}

/// The directory for the daemon's runtime files: under the user's own runtime
/// directory where the system names one, else a directory of the user's in the one
/// for temporary files.
pub open spec fn runtime_dir_of(xdg: Option<Seq<char>>, temp_dir: Seq<char>, uid: u32) -> Seq<char> {
    if xdg is Some && xdg->0.len() > 0 {
        join(xdg->0, "maraetai"@)
    } else {
        join(temp_dir, "maraetai-"@ + text::decimal(uid as nat))
    }
}

/// The text of an optional string.
pub open spec fn opt_str(s: Option<&str>) -> Option<Seq<char>> {
    match s {
        Some(t) => Some(t@),
        None => None,
    }
}

/// The directory for the daemon's runtime files, see [`runtime_dir_of`].
pub fn runtime_dir(xdg: Option<&str>, temp_dir: &str, uid: u32) -> (path: String)
    ensures
        path@ == runtime_dir_of(opt_str(xdg), temp_dir@, uid),
{
    proof {
        reveal_strlit("maraetai");
        reveal_strlit("maraetai-");
    }
    match xdg {
        Some(dir) => {
            if !dir.is_empty() {
                return join_path(dir, "maraetai");
            }
        },
        None => {},
    }
    let name: String = "maraetai-".to_owned().concat(text::render(uid as u128).as_str());
    assert(name@[0] == 'm');
    join_path(temp_dir, name.as_str())
}

/// The path of the daemon's pidfile.
pub fn pidfile_path(xdg: Option<&str>, temp_dir: &str, uid: u32) -> (path: String)
    ensures
        path@ == join(runtime_dir_of(opt_str(xdg), temp_dir@, uid), "daemon.pid"@),
{
    proof {
        reveal_strlit("daemon.pid");
    }
    join_path(runtime_dir(xdg, temp_dir, uid).as_str(), "daemon.pid")
}

/// The path of the daemon's control socket.
pub fn control_socket_path(xdg: Option<&str>, temp_dir: &str, uid: u32) -> (path: String)
    ensures
        path@ == join(runtime_dir_of(opt_str(xdg), temp_dir@, uid), "control.sock"@),
{
    proof {
        reveal_strlit("control.sock");
    }
    join_path(runtime_dir(xdg, temp_dir, uid).as_str(), "control.sock")
}

/// A configuration needs a server and a user; a timeout below zero is refused, a missing
/// one is none.
pub proof fn config_needs_server_and_user(
    server_url: Option<SettingView>,
    username: Option<SettingView>,
    timeout: Option<SettingView>,
    device: Option<SettingView>,
)
    ensures
        ({
            let c = config_of(server_url, username, timeout, device);
            &&& c is Some ==> server_url == Some(SettingView::Text(c->0.server_url)) && username
                == Some(SettingView::Text(c->0.username))
            &&& timeout matches Some(SettingView::Number(n)) ==> (n < 0 ==> c is None) && (n >= 0
                && c is Some ==> c->0.idle_timeout_secs is Some && c->0.idle_timeout_secs->0 == n)
            &&& timeout == Some(SettingView::Missing) && c is Some ==> c->0.idle_timeout_secs is None
            &&& device == Some(SettingView::Missing) && c is Some ==> c->0.output_device is None
            &&& device matches Some(SettingView::Text(name)) ==> (c is Some ==> c->0.output_device
                == Some(name))
        }),
{
}

/// What runs together is kept under the user's runtime directory where there is one, else
/// in a directory of the user's own under the temporary one.
pub proof fn runtime_dir_is_the_users_own(xdg: Seq<char>, temp_dir: Seq<char>, uid: u32)
    requires
        xdg.len() > 0,
        xdg.last() != '/',
        temp_dir.len() > 0,
        temp_dir.last() != '/',
    ensures
        runtime_dir_of(Some(xdg), temp_dir, uid) == xdg + "/"@ + "maraetai"@,
        runtime_dir_of(None, temp_dir, uid) == temp_dir + "/"@ + ("maraetai-"@ + text::decimal(
            uid as nat,
        )),
        runtime_dir_of(Some(Seq::empty()), temp_dir, uid) == runtime_dir_of(None, temp_dir, uid),
{
}

} // verus!
