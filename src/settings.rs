//! The tool's settings: where builds happen, whether to run dry, and the backends'
//! settings, read from layered TOML configuration files.
use vstd::prelude::*;

use crate::cli::Cli;
use crate::driver::DriverConfig;
use crate::driver_bare::DriverBareConfig;
use crate::driver_docker::DriverDockerConfig;

use ::config::builder::{ConfigBuilder, DefaultState};
use ::config::Config as LayeredConfig;

verus! {

/// The configuration crate's builder, which collects sources in order; Verus refuses
/// a declaration of its type, so it is held out of sight here.
#[verifier::external_body]
pub struct LayerBuilder {
    inner: ConfigBuilder<DefaultState>,
}

#[verifier::external_type_specification]
#[verifier::external_body]
pub struct ExLayeredConfig(LayeredConfig);

/// The tool's settings, as read from its configuration files.
#[derive(Debug, Clone)]
pub struct Config {
    pub driver: DriverConfig,
    pub temp_build_dir: String,
    pub dry_run: bool,
    /// How a finished build waits for attached shells before releasing its backend.
    pub attach_wait: AttachWait,
}

/// How a finished build waits for the attach counter to drain.
#[derive(Debug, Clone, Copy, PartialEq, Eq, Structural)]
pub struct AttachWait {
    /// Milliseconds between two readings of the counter.
    pub poll_interval_ms: u64,
    /// How many waits at most before the build gives up; `None` waits without bound.
    pub max_polls: Option<u64>,
}

/// Milliseconds between two readings of the attach counter unless configured otherwise.
pub const DEFAULT_POLL_INTERVAL_MS: u64 = 500;

/// Where builds happen unless configured otherwise.
pub const DEFAULT_TEMP_BUILD_DIR: &'static str = "/tmp/debmagic";

/// What a configuration file says about one key.
#[derive(Debug, Clone, PartialEq, Eq)]
pub enum Setting<T> {
    /// The key holds this value.
    Value(T),
    /// No file sets the key.
    Missing,
    /// The key is set to something of the wrong kind.
    Invalid,
}

/// Why the configuration could not be read.
#[derive(Debug, Clone, PartialEq, Eq)]
pub enum ConfigLoadError {
    /// A file is not valid TOML; the text says why.
    Unreadable(String),
    /// The key is set to something of the wrong kind.
    InvalidValue { key: String },
}

/// The TOML texts a builder holds, in the order they were added.
pub uninterp spec fn builder_layers(b: LayerBuilder) -> Seq<Seq<char>>;

/// Whether the configuration crate reads the TOML `layers` without error.
pub uninterp spec fn toml_layers_readable(layers: Seq<Seq<char>>) -> bool;

/// The integer at the dotted `key` of the TOML `layers`, later layers overriding earlier ones.
pub uninterp spec fn toml_int_setting(layers: Seq<Seq<char>>, key: Seq<char>) -> Setting<int>;

/// The TOML texts a configuration was built from, in order.
pub uninterp spec fn config_layers(c: LayeredConfig) -> Seq<Seq<char>>;

/// The boolean at the dotted `key` of the TOML `layers`, later layers overriding earlier ones.
pub uninterp spec fn toml_bool_setting(layers: Seq<Seq<char>>, key: Seq<char>) -> Setting<bool>;

/// The string at the dotted `key` of the TOML `layers`, later layers overriding earlier ones.
pub uninterp spec fn toml_string_setting(layers: Seq<Seq<char>>, key: Seq<char>) -> Setting<
    Seq<char>,
>;

/// Relies on config::Config::builder: a builder without sources.
#[verifier::external_body]
fn empty_builder() -> (r: LayerBuilder)
    ensures
        builder_layers(r) == Seq::<Seq<char>>::empty(),
{
    LayerBuilder { inner: LayeredConfig::builder() }
}

/// Relies on ConfigBuilder::add_source, which appends the source to those of the
/// builder without reading anything, and on config::File::from_str, which makes a
/// TOML source of `text`.
#[verifier::external_body]
fn add_toml_layer(b: LayerBuilder, text: &str) -> (r: LayerBuilder)
    ensures
        builder_layers(r) == builder_layers(b).push(text@),
{
    LayerBuilder { inner: b.inner.add_source(::config::File::from_str(text, ::config::FileFormat::Toml)) }
}

/// Relies on ConfigBuilder::build: reads the sources in order, later ones
/// overriding earlier ones, or says why one cannot be read. Whether it fails depends
/// on the texts alone.
#[verifier::external_body]
fn build_layers(b: LayerBuilder) -> (r: Result<LayeredConfig, String>)
    ensures
        r is Ok <==> toml_layers_readable(builder_layers(b)),
        r matches Ok(c) ==> config_layers(c) == builder_layers(b),
{
    match b.inner.build() {
        Ok(c) => Ok(c),
        Err(e) => Err(e.to_string()),
    }
}

/// Relies on config::Config::get_bool: the boolean at `key`, `ConfigError::NotFound`
/// when no source sets it, another error when it is not a boolean. With the crate's
/// `preserve_order` feature, which this crate enables, each text's keys are merged in
/// document order, so the value depends on the texts alone.
#[verifier::external_body]
fn lookup_bool(c: &LayeredConfig, key: &str) -> (r: Setting<bool>)
    ensures
        r == toml_bool_setting(config_layers(*c), key@),
{
    match c.get_bool(key) {
        Ok(v) => Setting::Value(v),
        Err(::config::ConfigError::NotFound(_)) => Setting::Missing,
        Err(_) => Setting::Invalid,
    }
}

/// Relies on config::Config::get_string: the string at `key`, `ConfigError::NotFound`
/// when no source sets it, another error when it cannot be read as a string. Keys are
/// merged in document order (`preserve_order`), so the value depends on the texts alone.
#[verifier::external_body]
fn lookup_string(c: &LayeredConfig, key: &str) -> (r: Setting<String>)
    ensures
        setting_view(r) == toml_string_setting(config_layers(*c), key@),
{
    match c.get_string(key) {
        Ok(v) => Setting::Value(v),
        Err(::config::ConfigError::NotFound(_)) => Setting::Missing,
        Err(_) => Setting::Invalid,
    }
}

/// Relies on config::Config::get_int: the integer at `key`, `ConfigError::NotFound`
/// when no source sets it, another error when it cannot be read as an integer. Keys
/// are merged in document order (`preserve_order`), so the value depends on the texts alone.
#[verifier::external_body]
fn lookup_int(c: &LayeredConfig, key: &str) -> (r: Setting<i64>)
    ensures
        int_setting_view(r) == toml_int_setting(config_layers(*c), key@),
{
    match c.get_int(key) {
        Ok(v) => Setting::Value(v),
        Err(::config::ConfigError::NotFound(_)) => Setting::Missing,
        Err(_) => Setting::Invalid,
    }
}

/// An integer setting as a mathematical integer.
pub open spec fn int_setting_view(s: Setting<i64>) -> Setting<int> {
    match s {
        Setting::Value(v) => Setting::Value(v as int),
        Setting::Missing => Setting::Missing,
        Setting::Invalid => Setting::Invalid,
    }
}

/// The waiting settings that two keys give: a poll interval (by default
/// [`DEFAULT_POLL_INTERVAL_MS`]) and a largest number of polls (by default none), or
/// the first key whose value is not a non-negative integer of 64 bits.
pub open spec fn wait_result(interval: Setting<int>, max_polls: Setting<int>) -> Result<
    AttachWait,
    Seq<char>,
> {
    if interval is Invalid || (interval matches Setting::Value(v) && !(0 <= v <= u64::MAX)) {
        Err("attach_poll_interval_ms"@)
    } else if max_polls is Invalid || (max_polls matches Setting::Value(v) && !(0 <= v
        <= u64::MAX)) {
        Err("attach_max_wait_polls"@)
    } else {
        Ok(
            AttachWait {
                poll_interval_ms: match interval {
                    Setting::Value(v) => v as u64,
                    _ => DEFAULT_POLL_INTERVAL_MS,
                },
                max_polls: match max_polls {
                    Setting::Value(v) => Some(v as u64),
                    _ => None,
                },
            },
        )
    }
}

/// The waiting settings of `layers`, or the offending key.
pub open spec fn layered_wait(layers: Seq<Seq<char>>) -> Result<AttachWait, Seq<char>> {
    wait_result(
        toml_int_setting(layers, "attach_poll_interval_ms"@),
        toml_int_setting(layers, "attach_max_wait_polls"@),
    )
}

impl AttachWait {
    /// The waiting settings that the values found for `attach_poll_interval_ms` and
    /// `attach_max_wait_polls` give.
    pub fn from_settings(interval: Setting<i64>, max_polls: Setting<i64>) -> (r: Result<
        Self,
        ConfigLoadError,
    >)
        ensures
            match wait_result(int_setting_view(interval), int_setting_view(max_polls)) {
                Ok(w) => r == Ok::<Self, ConfigLoadError>(w),
                Err(k) => r matches Err(ConfigLoadError::InvalidValue { key }) && key@ == k,
            },
    {
        let poll_interval_ms = match interval {
            Setting::Value(v) => {
                if v < 0 {
                    return Err(ConfigLoadError::InvalidValue {
                        key: String::from_str("attach_poll_interval_ms"),
                    });
                }
                v as u64
            },
            Setting::Missing => DEFAULT_POLL_INTERVAL_MS,
            Setting::Invalid => {
                return Err(ConfigLoadError::InvalidValue {
                    key: String::from_str("attach_poll_interval_ms"),
                });
            },
        };
        let max_polls = match max_polls {
            Setting::Value(v) => {
                if v < 0 {
                    return Err(ConfigLoadError::InvalidValue {
                        key: String::from_str("attach_max_wait_polls"),
                    });
                }
                Some(v as u64)
            },
            Setting::Missing => None,
            Setting::Invalid => {
                return Err(ConfigLoadError::InvalidValue {
                    key: String::from_str("attach_max_wait_polls"),
                });
            },
        };
        Ok(AttachWait { poll_interval_ms, max_polls })
    }
}

/// A string setting as characters.
pub open spec fn setting_view(s: Setting<String>) -> Setting<Seq<char>> {
    match s {
        Setting::Value(v) => Setting::Value(v@),
        Setting::Missing => Setting::Missing,
        Setting::Invalid => Setting::Invalid,
    }
}

/// The settings as plain values: dry run, temp build dir, base image, persistence.
pub open spec fn config_view(c: Config) -> (bool, Seq<char>, Option<Seq<char>>, bool) {
    (
        c.dry_run,
        c.temp_build_dir@,
        match c.driver.docker.base_image {
            Some(b) => Some(b@),
            None => None,
        },
        c.driver.docker.persistent,
    )
}

/// The settings that four keys give, with defaults for missing ones (not a dry run,
/// [`DEFAULT_TEMP_BUILD_DIR`], no base image override, no persistence), or the first
/// key, in that order, whose value is of the wrong kind.
pub open spec fn settings_result(
    dry_run: Setting<bool>,
    temp_build_dir: Setting<Seq<char>>,
    base_image: Setting<Seq<char>>,
    persistent: Setting<bool>,
) -> Result<(bool, Seq<char>, Option<Seq<char>>, bool), Seq<char>> {
    if dry_run is Invalid {
        Err("dry_run"@)
    } else if temp_build_dir is Invalid {
        Err("temp_build_dir"@)
    } else if base_image is Invalid {
        Err("driver.docker.base_image"@)
    } else if persistent is Invalid {
        Err("driver.docker.persistent"@)
    } else {
        Ok(
            (
                match dry_run {
                    Setting::Value(v) => v,
                    _ => false,
                },
                match temp_build_dir {
                    Setting::Value(v) => v,
                    _ => DEFAULT_TEMP_BUILD_DIR@,
                },
                match base_image {
                    Setting::Value(v) => Some(v),
                    _ => None,
                },
                match persistent {
                    Setting::Value(v) => v,
                    _ => false,
                },
            ),
        )
    }
}

/// The settings of `layers` as plain values, or the offending key.
pub open spec fn layered_settings(layers: Seq<Seq<char>>) -> Result<
    (bool, Seq<char>, Option<Seq<char>>, bool),
    Seq<char>,
> {
    settings_result(
        toml_bool_setting(layers, "dry_run"@),
        toml_string_setting(layers, "temp_build_dir"@),
        toml_string_setting(layers, "driver.docker.base_image"@),
        toml_bool_setting(layers, "driver.docker.persistent"@),
    )
}

impl Default for Config {
    fn default() -> (r: Self)
        ensures
            config_view(r) == (false, DEFAULT_TEMP_BUILD_DIR@, None::<Seq<char>>, false),
            r.attach_wait == (AttachWait { poll_interval_ms: DEFAULT_POLL_INTERVAL_MS, max_polls: None }),
    {
        Config::new_default()
    }
}

impl Config {
    /// The settings when no file sets anything.
    pub fn new_default() -> (r: Self)
        ensures
            config_view(r) == (false, DEFAULT_TEMP_BUILD_DIR@, None::<Seq<char>>, false),
            r.attach_wait == (AttachWait { poll_interval_ms: DEFAULT_POLL_INTERVAL_MS, max_polls: None }),
    {
        Config {
            driver: DriverConfig {
                docker: DriverDockerConfig { base_image: None, persistent: false },
                bare: DriverBareConfig {},
            },
            temp_build_dir: String::from_str(DEFAULT_TEMP_BUILD_DIR),
            dry_run: false,
            attach_wait: AttachWait { poll_interval_ms: DEFAULT_POLL_INTERVAL_MS, max_polls: None },
        }
    }

    /// The settings that the values found for `dry_run`, `temp_build_dir`,
    /// `driver.docker.base_image` and `driver.docker.persistent` give.
    pub fn from_settings(
        dry_run: Setting<bool>,
        temp_build_dir: Setting<String>,
        base_image: Setting<String>,
        persistent: Setting<bool>,
    ) -> (r: Result<Self, ConfigLoadError>)
        ensures
            match settings_result(
                dry_run,
                setting_view(temp_build_dir),
                setting_view(base_image),
                persistent,
            ) {
                Ok(v) => r matches Ok(c) && config_view(c) == v && c.attach_wait == (AttachWait {
                    poll_interval_ms: DEFAULT_POLL_INTERVAL_MS,
                    max_polls: None,
                }),
                Err(k) => r matches Err(ConfigLoadError::InvalidValue { key }) && key@ == k,
            },
    {
        let invalid = if matches!(dry_run, Setting::Invalid) {
            Some("dry_run")
        } else if matches!(temp_build_dir, Setting::Invalid) {
            Some("temp_build_dir")
        } else if matches!(base_image, Setting::Invalid) {
            Some("driver.docker.base_image")
        } else if matches!(persistent, Setting::Invalid) {
            Some("driver.docker.persistent")
        } else {
            None
        };
        if let Some(key) = invalid {
            return Err(ConfigLoadError::InvalidValue { key: String::from_str(key) });
        }
        let mut c = Config::new_default();
        if let Setting::Value(v) = dry_run {
            c.dry_run = v;
        }
        if let Setting::Value(v) = temp_build_dir {
            c.temp_build_dir = v;
        }
        if let Setting::Value(v) = base_image {
            c.driver.docker.base_image = Some(v);
        }
        if let Setting::Value(v) = persistent {
            c.driver.docker.persistent = v;
        }
        Ok(c)
    }

    /// Applies the container options given to `build` on the command line: a base
    /// image and whether the container persists, each only when given.
    pub fn apply_build_overrides(&mut self, base_image: Option<String>, persistent: Option<bool>)
        ensures
            final(self).dry_run == old(self).dry_run,
            final(self).temp_build_dir == old(self).temp_build_dir,
            final(self).attach_wait == old(self).attach_wait,
            final(self).driver.bare == old(self).driver.bare,
            final(self).driver.docker.base_image == match base_image {
                Some(b) => Some(b),
                None => old(self).driver.docker.base_image,
            },
            final(self).driver.docker.persistent == match persistent {
                Some(p) => p,
                None => old(self).driver.docker.persistent,
            },
    {
        if let Some(b) = base_image {
            self.driver.docker.base_image = Some(b);
        }
        if let Some(p) = persistent {
            self.driver.docker.persistent = p;
        }
    }

    /// Reads the settings from the TOML texts `config_sources` (the contents of the
    /// configuration files, in order; later ones override earlier ones). Keys that no
    /// text sets keep their defaults. Fails with [`ConfigLoadError::Unreadable`] exactly
    /// when the configuration crate cannot read the texts, and otherwise with
    /// [`ConfigLoadError::InvalidValue`] exactly when a key holds a value of the wrong
    /// kind, naming the first such key.
    pub fn new(config_sources: &Vec<String>, _cli_args: &Cli) -> (r: Result<Self, ConfigLoadError>)
        ensures
            ({
                let layers = config_sources@.map_values(|s: String| s@);
                if !toml_layers_readable(layers) {
                    r is Err && r->Err_0 is Unreadable
                } else {
                    match (layered_settings(layers), layered_wait(layers)) {
                        (Ok(v), Ok(w)) => r matches Ok(c) && config_view(c) == v && c.attach_wait
                            == w,
                        (Err(k), _) => r matches Err(ConfigLoadError::InvalidValue { key }) && key@
                            == k,
                        (Ok(_), Err(k)) => r matches Err(ConfigLoadError::InvalidValue { key })
                            && key@ == k,
                    }
                }
            }),
    {
        let mut builder = empty_builder();
        let mut i: usize = 0;
        while i < config_sources.len()
            invariant
                i <= config_sources@.len(),
                builder_layers(builder) == config_sources@.subrange(0, i as int).map_values(
                    |s: String| s@,
                ),
            decreases config_sources@.len() - i,
        {
            builder = add_toml_layer(builder, config_sources[i].as_str());
            assert(config_sources@.subrange(0, i + 1).map_values(|s: String| s@) =~= config_sources@.subrange(
                0,
                i as int,
            ).map_values(|s: String| s@).push(config_sources@[i as int]@));
            i += 1;
        }
        assert(config_sources@.subrange(0, i as int) =~= config_sources@);
        let built = match build_layers(builder) {
            Ok(c) => c,
            Err(msg) => return Err(ConfigLoadError::Unreadable(msg)),
        };
        let mut config = Config::from_settings(
            lookup_bool(&built, "dry_run"),
            lookup_string(&built, "temp_build_dir"),
            lookup_string(&built, "driver.docker.base_image"),
            lookup_bool(&built, "driver.docker.persistent"),
        )?;
        config.attach_wait = AttachWait::from_settings(
            lookup_int(&built, "attach_poll_interval_ms"),
            lookup_int(&built, "attach_max_wait_polls"),
        )?;
        Ok(config)
    }
}

} // verus!
