//! The run's settings: where the download client is, where to save, and
//! whose watch list to read.
use vstd::prelude::*;
use vstd::string::*;
use crate::json::{field, member, get_field, parse_json, parsed_json, Json};
use crate::tracking::{as_i32, as_text};

verus! {

#[derive(Clone, Debug)]
pub struct Config {
    pub qbittorrent_path: String,
    /// Read but not handed to the download client.
    pub save_path: String,
    pub anilist_user_id: i32,
}

/// Why the settings could not be read.
#[derive(Clone, Copy, Debug, PartialEq, Eq, Structural)]
pub enum ConfigError {
    /// The text is not JSON.
    Unparsable,
    /// A field is missing or has the wrong type.
    Malformed,
}

pub struct ConfigView {
    pub qbittorrent_path: Seq<char>,
    pub save_path: Seq<char>,
    pub anilist_user_id: i32,
}

pub open spec fn config_view(c: Config) -> ConfigView {
    ConfigView {
        qbittorrent_path: c.qbittorrent_path@,
        save_path: c.save_path@,
        anilist_user_id: c.anilist_user_id,
    }
}

pub open spec fn config_result_view(r: Result<Config, ConfigError>) -> Result<ConfigView, ConfigError> {
    match r {
        Ok(c) => Ok(config_view(c)),
        Err(e) => Err(e),
    }
}

/// The settings held by a JSON object with the fields `qbittorrent_path`,
/// `save_path` (texts) and `anilist_user_id` (a 32-bit integer).
pub open spec fn config_of(j: Json) -> Result<ConfigView, ConfigError> {
    match (
        as_text(field(j, "qbittorrent_path"@)),
        as_text(field(j, "save_path"@)),
        as_i32(field(j, "anilist_user_id"@)),
    ) {
        (Some(p), Some(s), Some(u)) => Ok(
            ConfigView { qbittorrent_path: p, save_path: s, anilist_user_id: u },
        ),
        _ => Err(ConfigError::Malformed),
    }
}

pub open spec fn config_of_text(text: Seq<char>) -> Result<ConfigView, ConfigError> {
    match parsed_json(text) {
        Some(j) => config_of(j),
        None => Err(ConfigError::Unparsable),
    }
}

fn text_field(j: &Json, key: &str) -> (r: Option<String>)
    ensures
        match r {
            Some(s) => as_text(field(*j, key@)) == Some(s@),
            None => as_text(field(*j, key@)) is None,
        },
{
    match get_field(j, key) {
        Some(Json::Str(s)) => Some(s.clone()),
        _ => None,
    }
}

impl Config {
    /// The settings written on first run: placeholder paths and user id.
    pub fn placeholder() -> (r: Config)
        ensures
            r.qbittorrent_path@ == "C:\\Program Files\\qBittorrent\\qbittorrent.exe"@,
            r.save_path@ == "D:\\animes"@,
            r.anilist_user_id == 6204649,
    {
        Config {
            qbittorrent_path: String::from_str("C:\\Program Files\\qBittorrent\\qbittorrent.exe"),
            save_path: String::from_str("D:\\animes"),
            anilist_user_id: 6204649,
        }
    }

    /// Reads the settings from a parsed JSON document.
    pub fn from_json(j: &Json) -> (r: Result<Config, ConfigError>)
        ensures
            config_result_view(r) == config_of(*j),
    {
        let p = text_field(j, "qbittorrent_path");
        let s = text_field(j, "save_path");
        let u = match get_field(j, "anilist_user_id") {
            Some(Json::Int(n)) => if i32::MIN as i64 <= *n && *n <= i32::MAX as i64 {
                Some(*n as i32)
            } else {
                None
            },
            _ => None,
        };
        match (p, s, u) {
            (Some(p), Some(s), Some(u)) => Ok(
                Config { qbittorrent_path: p, save_path: s, anilist_user_id: u },
            ),
            _ => Err(ConfigError::Malformed),
        }
    }

    /// Reads the settings from the text of the settings file.
    pub fn from_text(text: &str) -> (r: Result<Config, ConfigError>)
        ensures
            config_result_view(r) == config_of_text(text@),
    {
        match parse_json(text) {
            Some(j) => Config::from_json(&j),
            None => Err(ConfigError::Unparsable),
        }
    }

    /// The settings as a JSON object; reading it back gives the same settings.
    pub fn to_json(&self) -> (r: Json)
        ensures
            config_of(r) == Ok::<ConfigView, ConfigError>(config_view(*self)),
    {
        let k1 = String::from_str("qbittorrent_path");
        let k2 = String::from_str("save_path");
        let k3 = String::from_str("anilist_user_id");
        let members = vec![
            (k1, Json::Str(self.qbittorrent_path.clone())),
            (k2, Json::Str(self.save_path.clone())),
            (k3, Json::Int(self.anilist_user_id as i64)),
        ];
        proof {
            reveal_strlit("qbittorrent_path");
            reveal_strlit("save_path");
            reveal_strlit("anilist_user_id");
            let m = members@;
            assert(m[0].0@[0] != "save_path"@[0]);
            assert(m[0].0@[0] != "anilist_user_id"@[0]);
            assert(m[1].0@[0] != "anilist_user_id"@[0]);
            assert(m.drop_first().drop_first()[0] == m[2]);
            assert(m.drop_first()[0] == m[1]);
            assert(m[0].0@ != "save_path"@);
            assert(m[0].0@ != "anilist_user_id"@);
            assert(m[1].0@ != "anilist_user_id"@);
            assert(member(m, "qbittorrent_path"@) == Some(m[0].1));
            assert(member(m, "save_path"@) == member(m.drop_first(), "save_path"@));
            assert(m.drop_first()[0].0@ == "save_path"@);
            assert(member(m, "save_path"@) == Some(m[1].1));
            assert(member(m.drop_first(), "anilist_user_id"@) == member(m.drop_first().drop_first(), "anilist_user_id"@));
            assert(member(m, "anilist_user_id"@) == member(m.drop_first(), "anilist_user_id"@));
            assert(m.drop_first().drop_first()[0].0@ == "anilist_user_id"@);
            assert(member(m, "anilist_user_id"@) == Some(m[2].1));
        }
        Json::Object(members)
    }
}

} // verus!
