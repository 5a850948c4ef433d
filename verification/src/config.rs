//! Startup configuration: which Discord token and which game data the bot
//! uses, and the build number recorded with extracted game data.

use vstd::prelude::*;
use crate::outside::{parse_toml_table, toml_document, toml_table_integer, toml_table_table, TomlItem};

verus! {

/// Where the game data is loaded from.
pub enum GameDataSource {
    /// A directory of pre-extracted game data.
    Extracted { data_dir: String },
    /// A full game installation, with the client version to load.
    Install { game_dir: String, game_version: String },
}

/// `GameDataSource` with its text taken by view.
pub enum GameDataSourceView {
    Extracted { data_dir: Seq<char> },
    Install { game_dir: Seq<char>, game_version: Seq<char> },
}

impl View for GameDataSource {
    type V = GameDataSourceView;

    open spec fn view(&self) -> GameDataSourceView {
        match self {
            GameDataSource::Extracted { data_dir } => GameDataSourceView::Extracted {
                data_dir: data_dir@,
            },
            GameDataSource::Install { game_dir, game_version } => GameDataSourceView::Install {
                game_dir: game_dir@,
                game_version: game_version@,
            },
        }
    }
}

/// The settings the bot starts with.
pub struct BotConfig {
    /// The Discord bot token.
    pub token: String,
    /// Where the game data comes from.
    pub source: GameDataSource,
}

/// Why the bot cannot start.
#[derive(Clone, Copy, Debug, PartialEq, Eq, Structural)]
pub enum ConfigError {
    /// `DISCORD_TOKEN` is not set.
    MissingToken,
    /// `WOWS_GAME_DIR` is set without `WOWS_GAME_VERSION`.
    MissingGameVersion,
    /// Neither `WOWS_DATA_DIR` nor `WOWS_GAME_DIR` is set.
    NoGameData,
}

/// The configuration made of the settings `DISCORD_TOKEN`, `WOWS_DATA_DIR`,
/// `WOWS_GAME_DIR` and `WOWS_GAME_VERSION` (each `None` where unset). The
/// token is required first; extracted data takes precedence over an
/// installation; an installation needs its version.
pub open spec fn config_of(
    token: Option<Seq<char>>,
    data_dir: Option<Seq<char>>,
    game_dir: Option<Seq<char>>,
    game_version: Option<Seq<char>>,
) -> Result<(Seq<char>, GameDataSourceView), ConfigError> {
    match token {
        None => Err(ConfigError::MissingToken),
        Some(t) => match data_dir {
            Some(d) => Ok((t, GameDataSourceView::Extracted { data_dir: d })),
            None => match game_dir {
                None => Err(ConfigError::NoGameData),
                Some(g) => match game_version {
                    None => Err(ConfigError::MissingGameVersion),
                    Some(v) => Ok((t, GameDataSourceView::Install { game_dir: g, game_version: v })),
                },
            },
        },
    }
}

/// An optional string taken by view.
pub open spec fn opt_view(s: Option<String>) -> Option<Seq<char>> {
    match s {
        Some(t) => Some(t@),
        None => None,
    }
}

/// Makes the bot's configuration from its settings (each `None` where unset).
pub fn bot_config(
    token: Option<String>,
    data_dir: Option<String>,
    game_dir: Option<String>,
    game_version: Option<String>,
) -> (r: Result<BotConfig, ConfigError>)
    ensures
        match (r, config_of(opt_view(token), opt_view(data_dir), opt_view(game_dir), opt_view(game_version))) {
            (Ok(c), Ok((t, s))) => c.token@ == t && c.source@ == s,
            (Err(e), Err(f)) => e == f,
            _ => false,
        },
{
    let token = match token {
        None => return Err(ConfigError::MissingToken),
        Some(t) => t,
    };
    match data_dir {
        Some(d) => Ok(BotConfig { token, source: GameDataSource::Extracted { data_dir: d } }),
        None => match game_dir {
            None => Err(ConfigError::NoGameData),
            Some(g) => match game_version {
                None => Err(ConfigError::MissingGameVersion),
                Some(v) => Ok(
                    BotConfig {
                        token,
                        source: GameDataSource::Install { game_dir: g, game_version: v },
                    },
                ),
            },
        },
    }
}

/// Law: the bot starts exactly when the token is set and there is game data
/// to load; the token it starts with is the one given. Whenever
/// `WOWS_DATA_DIR` is set, the extracted data at that directory is loaded,
/// whatever `WOWS_GAME_DIR` and `WOWS_GAME_VERSION` say. Without it, an
/// installation is loaded from `WOWS_GAME_DIR` at `WOWS_GAME_VERSION`. A
/// missing token is reported first; the game data is missing only when
/// neither directory is set, and the version only when the installation is
/// the one to load.
pub proof fn law_config_sources(
    token: Option<Seq<char>>,
    data_dir: Option<Seq<char>>,
    game_dir: Option<Seq<char>>,
    game_version: Option<Seq<char>>,
)
    ensures
        ({
            let r = config_of(token, data_dir, game_dir, game_version);
            &&& r is Ok <==> token is Some && (data_dir is Some || (game_dir is Some
                && game_version is Some))
            &&& r matches Ok((t, _)) ==> token == Some(t)
            &&& token is Some && data_dir is Some ==> r == Ok::<
                (Seq<char>, GameDataSourceView),
                ConfigError,
            >((token->0, GameDataSourceView::Extracted { data_dir: data_dir->0 }))
            &&& token is Some && data_dir is None && game_dir is Some && game_version is Some
                ==> r == Ok::<(Seq<char>, GameDataSourceView), ConfigError>(
                (
                    token->0,
                    GameDataSourceView::Install { game_dir: game_dir->0, game_version: game_version->0 },
                ),
            )
            &&& r == Err::<(Seq<char>, GameDataSourceView), ConfigError>(ConfigError::MissingToken)
                <==> token is None
            &&& r == Err::<(Seq<char>, GameDataSourceView), ConfigError>(ConfigError::NoGameData)
                <==> token is Some && data_dir is None && game_dir is None
            &&& r == Err::<(Seq<char>, GameDataSourceView), ConfigError>(
                ConfigError::MissingGameVersion,
            ) <==> token is Some && data_dir is None && game_dir is Some && game_version is None
        }),
{
}

/// The text that explains a configuration error.
pub open spec fn config_error_text(e: ConfigError) -> Seq<char> {
    match e {
        ConfigError::MissingToken => "DISCORD_TOKEN env var is required"@,
        ConfigError::MissingGameVersion => "WOWS_GAME_VERSION is required when using WOWS_GAME_DIR"@,
        ConfigError::NoGameData => "Set either WOWS_DATA_DIR (path to extracted game data) or WOWS_GAME_DIR + WOWS_GAME_VERSION (path to WoWS install)"@,
    }
}

impl ConfigError {
    /// The text that explains this error.
    pub fn message(&self) -> (s: String)
        ensures
            s@ == config_error_text(*self),
    {
        match self {
            ConfigError::MissingToken => String::from_str("DISCORD_TOKEN env var is required"),
            ConfigError::MissingGameVersion => String::from_str(
                "WOWS_GAME_VERSION is required when using WOWS_GAME_DIR",
            ),
            ConfigError::NoGameData => String::from_str(
                "Set either WOWS_DATA_DIR (path to extracted game data) or WOWS_GAME_DIR + WOWS_GAME_VERSION (path to WoWS install)",
            ),
        }
    }
}

/// Why the build number could not be read from `metadata.toml`.
#[derive(Clone, Copy, Debug, PartialEq, Eq, Structural)]
pub enum MetadataError {
    /// The text is not a TOML document.
    InvalidToml,
    /// The document has no integer `build` entry.
    MissingBuild,
}

/// The low 32 bits of `i`, which is what `i as u32` keeps.
pub open spec fn low_u32(i: i64) -> int {
    (i as int) % 4294967296
}

/// The build number given by a document's `build` entry: the entry's
/// integer cut to its low 32 bits.
pub open spec fn build_from(field: Option<i64>) -> Result<u32, MetadataError> {
    match field {
        Some(i) => Ok(low_u32(i) as u32),
        None => Err(MetadataError::MissingBuild),
    }
}

/// The build number that a `metadata.toml` of this content gives, where
/// `doc` is what the TOML parser made of it (see `toml_document`). The file
/// is laid out as
/// ```text
/// [metadata]
/// version = "15.1.0"
/// build = 12345678
/// ```
/// and the build is the `build` entry of the `metadata` table.
pub open spec fn metadata_build_of(doc: Option<Map<Seq<char>, TomlItem>>) -> Result<u32, MetadataError> {
    match doc {
        None => Err(MetadataError::InvalidToml),
        Some(m) => if m.contains_key("metadata"@) {
            match m["metadata"@] {
                TomlItem::Table(meta) => if meta.contains_key("build"@) {
                    build_from(meta["build"@])
                } else {
                    Err(MetadataError::MissingBuild)
                },
                _ => Err(MetadataError::MissingBuild),
            }
        } else {
            Err(MetadataError::MissingBuild)
        },
    }
}

/// The low 32 bits of `i`.
pub fn low_bits(i: i64) -> (r: u32)
    ensures
        r as int == low_u32(i),
{
    let m: i64 = i % 4294967296;
    let e: i64 = if m < 0 {
        m + 4294967296
    } else {
        m
    };
    e as u32
}

/// The build number given by the integer found under `build` (`None` where
/// there is none).
pub fn build_from_field(field: Option<i64>) -> (r: Result<u32, MetadataError>)
    ensures
        r == build_from(field),
{
    match field {
        Some(i) => Ok(low_bits(i)),
        None => Err(MetadataError::MissingBuild),
    }
}

/// Reads the build number from the content of `metadata.toml`.
pub fn metadata_build(text: &str) -> (r: Result<u32, MetadataError>)
    ensures
        r == metadata_build_of(toml_document(text@)),
{
    match parse_toml_table(text) {
        Err(_) => Err(MetadataError::InvalidToml),
        Ok(table) => match toml_table_table(&table, "metadata") {
            None => Err(MetadataError::MissingBuild),
            Some(meta) => build_from_field(toml_table_integer(meta, "build")),
        },
    }
}

/// The text that explains a metadata error.
pub open spec fn metadata_error_text(e: MetadataError) -> Seq<char> {
    match e {
        MetadataError::InvalidToml => "Invalid metadata.toml"@,
        MetadataError::MissingBuild => "metadata.toml missing 'build' field"@,
    }
}

impl MetadataError {
    /// The text that explains this error.
    pub fn message(&self) -> (s: String)
        ensures
            s@ == metadata_error_text(*self),
    {
        match self {
            MetadataError::InvalidToml => String::from_str("Invalid metadata.toml"),
            MetadataError::MissingBuild => String::from_str("metadata.toml missing 'build' field"),
        }
    }
}

} // verus!
