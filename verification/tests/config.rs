use umbrella::config::{
    bot_config, build_from_field, low_bits, metadata_build, ConfigError, GameDataSource,
    MetadataError,
};

fn s(v: &str) -> Option<String> {
    Some(v.to_string())
}

#[test]
fn token_is_required_first() {
    let r = bot_config(None, s("/data"), None, None);
    assert!(matches!(r, Err(ConfigError::MissingToken)));
    let r = bot_config(None, None, None, None);
    assert!(matches!(r, Err(ConfigError::MissingToken)));
}

#[test]
fn extracted_data_takes_precedence() {
    let c = bot_config(s("tok"), s("/srv/extracted"), s("C:/Games/WoWS"), s("15,1,0,123")).unwrap();
    assert_eq!(c.token, "tok");
    assert!(matches!(c.source, GameDataSource::Extracted { ref data_dir } if data_dir == "/srv/extracted"));
}

#[test]
fn install_needs_version() {
    let r = bot_config(s("tok"), None, s("C:/Games/WoWS"), None);
    assert!(matches!(r, Err(ConfigError::MissingGameVersion)));
    let c = bot_config(s("tok"), None, s("C:/Games/WoWS"), s("15,1,0,123")).unwrap();
    assert!(matches!(
        c.source,
        GameDataSource::Install { ref game_dir, ref game_version }
            if game_dir == "C:/Games/WoWS" && game_version == "15,1,0,123"
    ));
}

#[test]
fn no_game_data_is_an_error() {
    let r = bot_config(s("tok"), None, None, s("15,1,0,123"));
    assert!(matches!(r, Err(ConfigError::NoGameData)));
}

#[test]
fn config_error_messages() {
    assert_eq!(ConfigError::MissingToken.message(), "DISCORD_TOKEN env var is required");
    assert_eq!(
        ConfigError::MissingGameVersion.message(),
        "WOWS_GAME_VERSION is required when using WOWS_GAME_DIR"
    );
    assert_eq!(
        ConfigError::NoGameData.message(),
        "Set either WOWS_DATA_DIR (path to extracted game data) or WOWS_GAME_DIR + WOWS_GAME_VERSION (path to WoWS install)"
    );
}

#[test]
fn build_is_read_from_metadata_table() {
    let text = "[metadata]\nversion = \"15.1.0\"\nbuild = 12345678\n";
    assert_eq!(metadata_build(text), Ok(12345678));
}

#[test]
fn build_keeps_low_32_bits() {
    assert_eq!(metadata_build("[metadata]\nbuild = 4294967296\n"), Ok(0));
    assert_eq!(metadata_build("[metadata]\nbuild = 5000000000\n"), Ok(705032704));
    assert_eq!(metadata_build("[metadata]\nbuild = -1\n"), Ok(4294967295));
    assert_eq!(low_bits(i64::MIN), 0);
    assert_eq!(low_bits(i64::MAX), 4294967295);
    assert_eq!(low_bits(-4294967297), 4294967295);
    assert_eq!(build_from_field(Some(7)), Ok(7));
    assert_eq!(build_from_field(None), Err(MetadataError::MissingBuild));
}

#[test]
fn build_must_be_an_integer_in_metadata() {
    assert_eq!(metadata_build("[metadata]\nbuild = \"123\"\n"), Err(MetadataError::MissingBuild));
    assert_eq!(metadata_build("[metadata]\nversion = \"15.1.0\"\n"), Err(MetadataError::MissingBuild));
    assert_eq!(metadata_build("build = 123\n"), Err(MetadataError::MissingBuild));
    assert_eq!(metadata_build("metadata = 5\n"), Err(MetadataError::MissingBuild));
    assert_eq!(metadata_build(""), Err(MetadataError::MissingBuild));
}

#[test]
fn invalid_toml_is_reported() {
    assert_eq!(metadata_build("[metadata\nbuild = 1"), Err(MetadataError::InvalidToml));
    assert_eq!(metadata_build("build = = 3"), Err(MetadataError::InvalidToml));
}

#[test]
fn metadata_error_messages() {
    assert_eq!(MetadataError::InvalidToml.message(), "Invalid metadata.toml");
    assert_eq!(MetadataError::MissingBuild.message(), "metadata.toml missing 'build' field");
}
