//! The persisted configuration and the one operation that changes it.

use crate::text::{decimal, law_parse_reads_decimal, parse_u16, parse_u16_spec};
use vstd::prelude::*;
use vstd::string::*;

verus! {

/// The configuration that is kept between runs. Every field is optional.
#[derive(Debug, Clone, PartialEq, Eq)]
pub struct Config {
    pub year: Option<u16>,
    pub session_key: Option<String>,
    pub output_path: Option<String>,
}

/// A configuration as a value: its texts are sequences of characters.
pub struct ConfigView {
    pub year: Option<u16>,
    pub session_key: Option<Seq<char>>,
    pub output_path: Option<Seq<char>>,
}

/// The text of an optional string.
pub open spec fn text_of(field: Option<String>) -> Option<Seq<char>> {
    match field {
        Some(text) => Some(text@),
        None => None,
    }
}

impl View for Config {
    type V = ConfigView;

    open spec fn view(&self) -> ConfigView {
        ConfigView {
            year: self.year,
            session_key: text_of(self.session_key),
            output_path: text_of(self.output_path),
        }
    }
}

/// Why a setting was refused.
#[derive(Debug, Clone, Copy, PartialEq, Eq, Structural)]
pub enum ConfigError {
    /// The key is none of `year`, `session_key` and `output_path`.
    InvalidKey,
    /// The value given for `year` is no unsigned 16-bit number.
    InvalidYear,
}

/// The configuration without any field.
pub open spec fn empty_config() -> ConfigView {
    ConfigView { year: None, session_key: None, output_path: None }
}

impl Default for Config {
    fn default() -> (r: Config)
        ensures
            r@ == empty_config(),
    {
        Config { year: None, session_key: None, output_path: None }
    }
}

impl ConfigError {
    pub open spec fn message_spec(self) -> Seq<char> {
        match self {
            ConfigError::InvalidKey => "Invalid key specified!"@,
            ConfigError::InvalidYear => "Invalid year: not a number from 0 to 65535"@,
        }
    }

    pub fn message(&self) -> (r: String)
        ensures
            r@ == self.message_spec(),
    {
        match self {
            ConfigError::InvalidKey => String::from_str("Invalid key specified!"),
            ConfigError::InvalidYear => String::from_str(
                "Invalid year: not a number from 0 to 65535",
            ),
        }
    }
}

/// The configuration that is in force: the stored one, or the empty one
/// where nothing is stored.
pub open spec fn read_config_spec(stored: Option<ConfigView>) -> ConfigView {
    match stored {
        Some(config) => config,
        None => empty_config(),
    }
}

/// What setting `key` to `value` makes of a configuration. The key `year`
/// takes the numeral of a `u16`, the keys `session_key` and `output_path`
/// take any text, and every other key is refused. The two fields that the
/// key does not name stay as they are.
pub open spec fn set_config_spec(config: ConfigView, key: Seq<char>, value: Seq<char>) -> Result<
    ConfigView,
    ConfigError,
> {
    if key == "year"@ {
        match parse_u16_spec(value) {
            Some(year) => Ok(ConfigView { year: Some(year), ..config }),
            None => Err(ConfigError::InvalidYear),
        }
    } else if key == "session_key"@ {
        Ok(ConfigView { session_key: Some(value), ..config })
    } else if key == "output_path"@ {
        Ok(ConfigView { output_path: Some(value), ..config })
    } else {
        Err(ConfigError::InvalidKey)
    }
}

/// The configuration that is in force, given what the configuration file
/// held, if there was one.
pub fn read_config(stored: Option<Config>) -> (r: Config)
    ensures
        r@ == read_config_spec(
            match stored {
                Some(config) => Some(config@),
                None => None,
            },
        ),
{
    match stored {
        Some(config) => config,
        None => Config::default(),
    }
}

fn same_text(a: &str, b: &str) -> (r: bool)
    ensures
        r == (a@ == b@),
{
    let x = a.to_owned();
    let y = b.to_owned();
    x == y
}

/// Sets one field of the configuration and leaves the other two as they
/// are. An unknown key, or a year that is no `u16`, is refused.
pub fn set_config_option(config: Config, key: &str, value: &str) -> (r: Result<
    Config,
    ConfigError,
>)
    ensures
        match set_config_spec(config@, key@, value@) {
            Ok(new) => r is Ok && r->Ok_0@ == new,
            Err(e) => r == Err::<Config, ConfigError>(e),
        },
{
    proof {
        reveal_strlit("year");
        reveal_strlit("session_key");
        reveal_strlit("output_path");
    }
    let mut config = config;
    if same_text(key, "year") {
        match parse_u16(value) {
            Some(year) => {
                config.year = Some(year);
            },
            None => {
                return Err(ConfigError::InvalidYear);
            },
        }
    } else if same_text(key, "session_key") {
        config.session_key = Some(value.to_owned());
    } else if same_text(key, "output_path") {
        config.output_path = Some(value.to_owned());
    } else {
        return Err(ConfigError::InvalidKey);
    }
    Ok(config)
}

/// Setting the year to the numeral of a `u16` succeeds, and loading what was
/// stored then gives that year and the other two fields as they were.
pub proof fn law_set_year_then_load(config: ConfigView, year: u16)
    ensures
        set_config_spec(config, "year"@, decimal(year as nat)) is Ok,
        read_config_spec(Some(set_config_spec(config, "year"@, decimal(year as nat))->Ok_0))
            == (ConfigView { year: Some(year), ..config }),
{
    law_parse_reads_decimal(year);
}

/// A setting changes nothing but the field that its key names.
pub proof fn law_set_keeps_other_fields(config: ConfigView, key: Seq<char>, value: Seq<char>)
    requires
        set_config_spec(config, key, value) is Ok,
    ensures
        ({
            let new = set_config_spec(config, key, value)->Ok_0;
            &&& key != "year"@ ==> new.year == config.year
            &&& key != "session_key"@ ==> new.session_key == config.session_key
            &&& key != "output_path"@ ==> new.output_path == config.output_path
        }),
{
    reveal_strlit("year");
    reveal_strlit("session_key");
    reveal_strlit("output_path");
}

} // verus!
