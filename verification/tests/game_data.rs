use umbrella::game_data::{
    finish_with_params, BotState, ExtractedAction, ExtractedEvent, ExtractedLoad, ExtractedStage,
};
use wowsunpack::game_params::types::{Achievement, Param, ParamData};
use wowsunpack::vfs::{MemoryFS, VfsPath};
use umbrella::translations::{TranslationAction, TranslationEvent, TranslationLoad};

fn load() -> ExtractedLoad {
    ExtractedLoad::new(
        "/srv/extracted".to_string(),
        "/srv/extracted/vfs".to_string(),
        "/srv/extracted/game_params.rkyv".to_string(),
    )
}

fn archive(params: &Vec<Param>) -> Vec<u8> {
    rkyv::to_bytes::<rkyv::rancor::Error>(params).unwrap().to_vec()
}

fn finish_error(a: ExtractedAction) -> String {
    match a {
        ExtractedAction::Finish(Err(m)) => m,
        _ => panic!("expected a failed load"),
    }
}

fn decode(bytes: &[u8]) -> Result<Vec<Param>, String> {
    rkyv::from_bytes::<Vec<Param>, rkyv::rancor::Error>(bytes).map_err(|e| e.to_string())
}

fn specs_loaded() -> ExtractedLoad {
    let mut l = load();
    let _ = l.step(ExtractedEvent::MetadataRead(Some("[metadata]\nbuild = 1".to_string())));
    let _ = l.step(ExtractedEvent::VfsChecked(true));
    let _ = l.step(ExtractedEvent::SpecsLoaded(Ok((VfsPath::new(MemoryFS::new()), Vec::new()))));
    l
}

#[test]
fn empty_archive_decodes() {
    let r = finish_with_params((VfsPath::new(MemoryFS::new()), Vec::new()), decode(&archive(&Vec::new())));
    let g = r.ok().unwrap();
    assert!(g.specs.is_empty());
}

#[test]
fn decode_error_is_prefixed() {
    let r = finish_with_params((VfsPath::new(MemoryFS::new()), Vec::new()), Err("bad magic".to_string()));
    assert_eq!(r.err(), Some("Failed to deserialize GameParams: bad magic".to_string()));
}

#[test]
fn bad_archive_is_reported() {
    let mut l = specs_loaded();
    let e = finish_error(l.step(ExtractedEvent::ParamsRead(Some(vec![1, 2, 3]))));
    assert!(e.starts_with("Failed to deserialize GameParams: "));
    assert!(e.len() > "Failed to deserialize GameParams: ".len());
    assert_eq!(l.current_stage(), ExtractedStage::Finished);
}

#[test]
fn extracted_load_succeeds_step_by_step() {
    let mut l = load();
    assert_eq!(l.current_stage(), ExtractedStage::ReadingMetadata);
    let a = l.step(ExtractedEvent::MetadataRead(Some("[metadata]\nversion = \"15.1.0\"\nbuild = 12345678\n".to_string())));
    assert!(matches!(a, ExtractedAction::CheckVfs { build: 12345678 }));
    let a = l.step(ExtractedEvent::VfsChecked(true));
    assert!(matches!(a, ExtractedAction::LoadSpecs));
    let vfs = VfsPath::new(MemoryFS::new());
    let a = l.step(ExtractedEvent::SpecsLoaded(Ok((vfs, Vec::new()))));
    assert!(matches!(a, ExtractedAction::ReadParams));
    assert_eq!(l.current_stage(), ExtractedStage::ReadingParams);
    let a = l.step(ExtractedEvent::ParamsRead(Some(archive(&Vec::new()))));
    match a {
        ExtractedAction::Finish(Ok(game_data)) => {
            assert!(game_data.specs.is_empty());
            let state = BotState::new(game_data);
            assert!(state.game_data().specs.is_empty());
        }
        _ => panic!("expected game data"),
    }
    assert_eq!(l.current_stage(), ExtractedStage::Finished);
    assert!(!l.accepts(&ExtractedEvent::VfsChecked(true)));
}

#[test]
fn extracted_load_failures() {
    let mut l = load();
    assert_eq!(finish_error(l.step(ExtractedEvent::MetadataRead(None))), "Missing metadata.toml in /srv/extracted");

    let mut l = load();
    assert_eq!(finish_error(l.step(ExtractedEvent::MetadataRead(Some("[oops".to_string())))), "Invalid metadata.toml");

    let mut l = load();
    assert_eq!(
        finish_error(l.step(ExtractedEvent::MetadataRead(Some("version = 1".to_string())))),
        "metadata.toml missing 'build' field"
    );

    let mut l = load();
    let _ = l.step(ExtractedEvent::MetadataRead(Some("[metadata]\nbuild = 1".to_string())));
    assert_eq!(finish_error(l.step(ExtractedEvent::VfsChecked(false))), "VFS directory not found: /srv/extracted/vfs");

    let mut l = load();
    let _ = l.step(ExtractedEvent::MetadataRead(Some("[metadata]\nbuild = 1".to_string())));
    let _ = l.step(ExtractedEvent::VfsChecked(true));
    assert_eq!(
        finish_error(l.step(ExtractedEvent::SpecsLoaded(Err("Io(NotFound)".to_string())))),
        "Failed to parse entity specs: Io(NotFound)"
    );

    let mut l = load();
    let _ = l.step(ExtractedEvent::MetadataRead(Some("[metadata]\nbuild = 1".to_string())));
    let _ = l.step(ExtractedEvent::VfsChecked(true));
    let _ = l.step(ExtractedEvent::SpecsLoaded(Ok((VfsPath::new(MemoryFS::new()), Vec::new()))));
    assert_eq!(finish_error(l.step(ExtractedEvent::ParamsRead(None))), "Failed to read /srv/extracted/game_params.rkyv");

    let mut l = load();
    let _ = l.step(ExtractedEvent::MetadataRead(Some("[metadata]\nbuild = 1".to_string())));
    let _ = l.step(ExtractedEvent::VfsChecked(true));
    let _ = l.step(ExtractedEvent::SpecsLoaded(Ok((VfsPath::new(MemoryFS::new()), Vec::new()))));
    assert!(finish_error(l.step(ExtractedEvent::ParamsRead(Some(vec![9; 3]))))
        .starts_with("Failed to deserialize GameParams: "));
}


fn param(id: u64, index: &str) -> Param {
    let data = ParamData::Achievement(
        Achievement::builder()
            .is_group(false)
            .one_per_battle(false)
            .ui_type(String::new())
            .ui_name(String::new())
            .build(),
    );
    Param::builder()
        .id(wowsunpack::game_types::GameParamId::from(id))
        .index(index.to_string())
        .name(format!("{index}_name"))
        .nation("usa".to_string())
        .data(data)
        .build()
}

#[test]
fn archived_params_reach_both_providers() {
    let params = vec![param(10, "PASC020"), param(11, "PJSB018"), param(10, "PASC021")];
    let decoded = decode(&archive(&params)).unwrap();
    let keys: Vec<(u64, String)> = decoded.iter().map(|p| (p.id().raw(), p.index().to_string())).collect();
    assert_eq!(keys, vec![(10, "PASC020".to_string()), (11, "PJSB018".to_string()), (10, "PASC021".to_string())]);

    let mut l = specs_loaded();
    let game_data = match l.step(ExtractedEvent::ParamsRead(Some(archive(&params)))) {
        ExtractedAction::Finish(Ok(g)) => g,
        _ => panic!("expected game data"),
    };
    let facts = umbrella::replay::ReplayFacts {
        player_name: String::new(),
        map_display_name: String::new(),
        duration_secs: 0,
        vehicles: vec![(1, 11), (0, 10)],
    };
    // A later parameter with the same id replaces an earlier one.
    let expected = Some("gui/ships_silhouettes/PASC021.png".to_string());
    assert_eq!(umbrella::replay::own_silhouette_path(&game_data.game_params, &facts), expected);
    assert_eq!(umbrella::replay::own_silhouette_path(&game_data.controller_game_params, &facts), expected);
}

fn translation_actions(events: &[TranslationEvent]) -> Vec<TranslationAction> {
    let mut load = TranslationLoad::new();
    let mut out = Vec::new();
    for &e in events {
        assert!(load.accepts(e));
        out.push(load.step(e));
    }
    out
}

#[test]
fn translations_go_to_both_providers() {
    let a = translation_actions(&[
        TranslationEvent::Checked(true),
        TranslationEvent::Parsed(true),
        TranslationEvent::Parsed(true),
    ]);
    assert_eq!(
        a,
        vec![
            TranslationAction::ParseFirst,
            TranslationAction::InstallFirstAndParseSecond,
            TranslationAction::InstallSecond
        ]
    );
}

#[test]
fn missing_translations_are_warned_about() {
    let a = translation_actions(&[TranslationEvent::Checked(false)]);
    assert_eq!(a, vec![TranslationAction::WarnMissing]);
    let mut load = TranslationLoad::new();
    let _ = load.step(TranslationEvent::Checked(false));
    assert!(!load.accepts(TranslationEvent::Parsed(true)));
}

#[test]
fn failed_parse_stops_quietly() {
    let a = translation_actions(&[TranslationEvent::Checked(true), TranslationEvent::Parsed(false)]);
    assert_eq!(a, vec![TranslationAction::ParseFirst, TranslationAction::Done]);
    // The renderer keeps its catalog when the second parse fails.
    let a = translation_actions(&[
        TranslationEvent::Checked(true),
        TranslationEvent::Parsed(true),
        TranslationEvent::Parsed(false),
    ]);
    assert_eq!(
        a,
        vec![
            TranslationAction::ParseFirst,
            TranslationAction::InstallFirstAndParseSecond,
            TranslationAction::Done
        ]
    );
}
