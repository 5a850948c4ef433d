//! The game data that every render uses, and the bot's shared state.

use vstd::prelude::*;
use wowsunpack::game_params::provider::GameMetadataProvider;
use wowsunpack::game_params::types::Param;
use crate::outside::{
    archive_fits, archived_params, clone_params, index_map, param_indices, params_from_archive, params_keys,
    provider_from_params, toml_document,
};
use crate::config::{metadata_build, metadata_build_of, metadata_error_text};
use wowsunpack::vfs::VfsPath;
use wowsunpack::rpc::entitydefs::EntitySpec;

verus! {

/// All the heavy game data that is loaded once at startup and reused for
/// every render.
pub struct GameData {
    /// The game's virtual file system.
    pub vfs: VfsPath,
    /// The entity definitions of the game's scripts.
    pub specs: Vec<EntitySpec>,
    /// The game parameters the renderer reads.
    pub game_params: GameMetadataProvider,
    /// The game parameters the battle controller reads.
    pub controller_game_params: GameMetadataProvider,
}

/// Shared state available to all bot commands.
pub struct BotState {
    game_data: GameData,
}

impl BotState {
    /// The state of a bot that renders with `game_data`.
    pub fn new(game_data: GameData) -> (s: BotState)
        ensures
            s.data() == game_data,
    {
        BotState { game_data }
    }

    /// The game data the bot renders with.
    pub closed spec fn data(&self) -> GameData {
        self.game_data
    }

    /// The game data the bot renders with.
    pub fn game_data(&self) -> (g: &GameData)
        ensures
            *g == self.data(),
    {
        &self.game_data
    }
}

/// Finishes a load whose VFS and entity definitions are `loaded`, given what
/// came of deserializing `game_params.rkyv`: the game data with both parameter
/// providers built from the decoded parameters, or the deserialization error.
pub fn finish_with_params(loaded: (VfsPath, Vec<EntitySpec>), decoded: Result<Vec<Param>, String>) -> (r: Result<
    GameData,
    String,
>)
    ensures
        r is Ok <==> decoded is Ok,
        r matches Ok(g) ==> (g.vfs, g.specs@) == (loaded.0, loaded.1@) && param_indices(g.game_params)
            == index_map(params_keys(decoded->Ok_0)) && param_indices(g.controller_game_params)
            == index_map(params_keys(decoded->Ok_0)),
        r matches Err(m) ==> decoded matches Err(d) && m@ == "Failed to deserialize GameParams: "@ + d@,
{
    match decoded {
        Ok(params) => {
            let (game_params, controller_game_params) = providers_from_params(params);
            let (vfs, specs) = loaded;
            Ok(GameData { vfs, specs, game_params, controller_game_params })
        },
        Err(detail) => Err(String::from_str("Failed to deserialize GameParams: ").concat(detail.as_str())),
    }
}

/// Builds the two parameter providers, one for the renderer and one for the
/// battle controller, each from its own copy of `params`.
pub(crate) fn providers_from_params(params: Vec<Param>) -> (r: (GameMetadataProvider, GameMetadataProvider))
    ensures
        param_indices(r.0) == index_map(params_keys(params)),
        param_indices(r.1) == index_map(params_keys(params)),
{
    let copy = clone_params(&params);
    let game_params = match provider_from_params(copy) {
        Ok(p) => p,
        Err(_) => vstd::pervasive::unreached(),
    };
    let controller_game_params = match provider_from_params(params) {
        Ok(p) => p,
        Err(_) => vstd::pervasive::unreached(),
    };
    (game_params, controller_game_params)
}

/// Where loading game data from an extracted directory stands.
#[derive(Clone, Copy, Debug, PartialEq, Eq, Structural)]
pub enum ExtractedStage {
    /// `metadata.toml` is being read.
    ReadingMetadata,
    /// The `vfs` directory is being looked for.
    CheckingVfs,
    /// The VFS is being opened and the entity definitions read from it.
    LoadingSpecs,
    /// `game_params.rkyv` is being read.
    ReadingParams,
    /// The load has finished.
    Finished,
}

/// What the caller reports after performing a loading step.
pub enum ExtractedEvent {
    /// The content of `metadata.toml`, `None` where it could not be read.
    MetadataRead(Option<String>),
    /// Whether the `vfs` directory exists.
    VfsChecked(bool),
    /// The VFS over the `vfs` directory and the entity definitions read from
    /// it, or the text of the error that stopped the reading.
    SpecsLoaded(Result<(VfsPath, Vec<EntitySpec>), String>),
    /// The content of `game_params.rkyv`, `None` where it could not be read.
    ParamsRead(Option<Vec<u8>>),
}

/// The next loading step for the caller.
pub enum ExtractedAction {
    /// Check that the `vfs` directory exists; the data is of build `build`.
    CheckVfs { build: u32 },
    /// Open the VFS and read the entity definitions from it.
    LoadSpecs,
    /// Read `game_params.rkyv`.
    ReadParams,
    /// The load ends with this result.
    Finish(Result<GameData, String>),
}

/// The stage that follows `stage` when its step succeeds.
pub open spec fn stage_after_success(stage: ExtractedStage) -> ExtractedStage {
    match stage {
        ExtractedStage::ReadingMetadata => ExtractedStage::CheckingVfs,
        ExtractedStage::CheckingVfs => ExtractedStage::LoadingSpecs,
        ExtractedStage::LoadingSpecs => ExtractedStage::ReadingParams,
        _ => ExtractedStage::Finished,
    }
}

/// Whether `e` answers the step pending at `stage`.
pub open spec fn extracted_accepts(stage: ExtractedStage, e: ExtractedEvent) -> bool {
    match stage {
        ExtractedStage::ReadingMetadata => e is MetadataRead,
        ExtractedStage::CheckingVfs => e is VfsChecked,
        ExtractedStage::LoadingSpecs => e is SpecsLoaded,
        ExtractedStage::ReadingParams => e is ParamsRead,
        ExtractedStage::Finished => false,
    }
}

/// Loading game data from a pre-extracted directory, laid out as
/// `metadata.toml` (with the data's `build`), `game_params.rkyv` (the game
/// parameters as an rkyv archive), `translations/...` and `vfs/` (a copy of
/// the game's assets). The caller reads the files; this decides what comes of
/// what was read. The first step is reading `metadata.toml`.
pub struct ExtractedLoad {
    stage: ExtractedStage,
    dir: String,
    vfs_root: String,
    params_path: String,
    loaded: Option<(VfsPath, Vec<EntitySpec>)>,
}

impl ExtractedLoad {
    /// A load of the directory displayed as `dir`, whose `vfs` directory and
    /// `game_params.rkyv` are displayed as `vfs_root` and `params_path`.
    pub fn new(dir: String, vfs_root: String, params_path: String) -> (l: ExtractedLoad)
        ensures
            l.stage() == ExtractedStage::ReadingMetadata,
            l.dir() == dir@,
            l.vfs_root() == vfs_root@,
            l.params_path() == params_path@,
            l.loaded() is None,
            l.wf(),
    {
        ExtractedLoad { stage: ExtractedStage::ReadingMetadata, dir, vfs_root, params_path, loaded: None }
    }

    /// The load is consistent: once the entity definitions are being kept,
    /// they have been loaded.
    pub closed spec fn wf(&self) -> bool {
        self.stage == ExtractedStage::ReadingParams ==> self.loaded is Some
    }

    /// Where the load stands.
    pub closed spec fn stage(&self) -> ExtractedStage {
        self.stage
    }

    /// The directory, as displayed.
    pub closed spec fn dir(&self) -> Seq<char> {
        self.dir@
    }

    /// The `vfs` directory, as displayed.
    pub closed spec fn vfs_root(&self) -> Seq<char> {
        self.vfs_root@
    }

    /// The `game_params.rkyv` file, as displayed.
    pub closed spec fn params_path(&self) -> Seq<char> {
        self.params_path@
    }

    /// The VFS and entity definitions loaded so far.
    pub closed spec fn loaded(&self) -> Option<(VfsPath, Seq<EntitySpec>)> {
        match self.loaded {
            Some((v, s)) => Some((v, s@)),
            None => None,
        }
    }

    /// Where the load stands.
    pub fn current_stage(&self) -> (s: ExtractedStage)
        ensures
            s == self.stage(),
    {
        self.stage
    }

    /// Whether `event` answers the pending step.
    pub fn accepts(&self, event: &ExtractedEvent) -> (r: bool)
        ensures
            r == extracted_accepts(self.stage(), *event),
    {
        match self.stage {
            ExtractedStage::ReadingMetadata => matches!(event, ExtractedEvent::MetadataRead(_)),
            ExtractedStage::CheckingVfs => matches!(event, ExtractedEvent::VfsChecked(_)),
            ExtractedStage::LoadingSpecs => matches!(event, ExtractedEvent::SpecsLoaded(_)),
            ExtractedStage::ReadingParams => matches!(event, ExtractedEvent::ParamsRead(_)),
            ExtractedStage::Finished => false,
        }
    }

    /// Takes what came of the pending step and gives the next one. The load
    /// stops at the first step that fails, with that step's message; it
    /// succeeds with the VFS and entity definitions that were loaded and the
    /// two parameter providers built from the archive.
    pub fn step(&mut self, event: ExtractedEvent) -> (a: ExtractedAction)
        requires
            old(self).wf(),
            extracted_accepts(old(self).stage(), event),
        ensures
            final(self).wf(),
            final(self).dir() == old(self).dir(),
            final(self).vfs_root() == old(self).vfs_root(),
            final(self).params_path() == old(self).params_path(),
            a is Finish <==> final(self).stage() == ExtractedStage::Finished,
            final(self).stage() == stage_after_success(old(self).stage()) || final(self).stage()
                == ExtractedStage::Finished,
            match event {
                ExtractedEvent::MetadataRead(None) => a matches ExtractedAction::Finish(Err(m))
                    && m@ == "Missing metadata.toml in "@ + old(self).dir(),
                ExtractedEvent::MetadataRead(Some(text)) => match metadata_build_of(
                    toml_document(text@),
                ) {
                    Err(e) => a matches ExtractedAction::Finish(Err(m)) && m@ == metadata_error_text(e),
                    Ok(b) => a == ExtractedAction::CheckVfs { build: b } && final(self).stage()
                        == ExtractedStage::CheckingVfs,
                },
                ExtractedEvent::VfsChecked(false) => a matches ExtractedAction::Finish(Err(m)) && m@
                    == "VFS directory not found: "@ + old(self).vfs_root(),
                ExtractedEvent::VfsChecked(true) => a is LoadSpecs && final(self).stage()
                    == ExtractedStage::LoadingSpecs,
                ExtractedEvent::SpecsLoaded(Err(e)) => a matches ExtractedAction::Finish(Err(m))
                    && m@ == "Failed to parse entity specs: "@ + e@,
                ExtractedEvent::SpecsLoaded(Ok((v, specs))) => a is ReadParams && final(self).stage()
                    == ExtractedStage::ReadingParams && final(self).loaded() == Some((v, specs@)),
                ExtractedEvent::ParamsRead(None) => a matches ExtractedAction::Finish(Err(m)) && m@
                    == "Failed to read "@ + old(self).params_path(),
                ExtractedEvent::ParamsRead(Some(bytes)) => a matches ExtractedAction::Finish(r) && (r is Ok
                    <==> archive_fits(bytes@) && archived_params(bytes@) is Some) && (r matches Ok(g)
                    ==> old(self).loaded() == Some((g.vfs, g.specs@)) && param_indices(g.game_params)
                    == index_map(archived_params(bytes@)->0) && param_indices(g.controller_game_params)
                    == index_map(archived_params(bytes@)->0)) && (r matches Err(m) ==> exists|
                    detail: Seq<char>,
                | m@ == "Failed to deserialize GameParams: "@ + detail),
            },
    {
        match event {
            ExtractedEvent::MetadataRead(None) => {
                self.stage = ExtractedStage::Finished;
                ExtractedAction::Finish(Err(String::from_str("Missing metadata.toml in ").concat(self.dir.as_str())))
            },
            ExtractedEvent::MetadataRead(Some(text)) => {
                match metadata_build(text.as_str()) {
                    Err(e) => {
                        self.stage = ExtractedStage::Finished;
                        ExtractedAction::Finish(Err(e.message()))
                    },
                    Ok(build) => {
                        self.stage = ExtractedStage::CheckingVfs;
                        ExtractedAction::CheckVfs { build }
                    },
                }
            },
            ExtractedEvent::VfsChecked(exists) => {
                if exists {
                    self.stage = ExtractedStage::LoadingSpecs;
                    ExtractedAction::LoadSpecs
                } else {
                    self.stage = ExtractedStage::Finished;
                    ExtractedAction::Finish(
                        Err(String::from_str("VFS directory not found: ").concat(self.vfs_root.as_str())),
                    )
                }
            },
            ExtractedEvent::SpecsLoaded(Err(e)) => {
                self.stage = ExtractedStage::Finished;
                ExtractedAction::Finish(Err(String::from_str("Failed to parse entity specs: ").concat(e.as_str())))
            },
            ExtractedEvent::SpecsLoaded(Ok(loaded)) => {
                self.stage = ExtractedStage::ReadingParams;
                self.loaded = Some(loaded);
                ExtractedAction::ReadParams
            },
            ExtractedEvent::ParamsRead(None) => {
                self.stage = ExtractedStage::Finished;
                ExtractedAction::Finish(Err(String::from_str("Failed to read ").concat(self.params_path.as_str())))
            },
            ExtractedEvent::ParamsRead(Some(bytes)) => {
                self.stage = ExtractedStage::Finished;
                let decoded = if bytes.len() <= (isize::MAX as usize) - 15 {
                    params_from_archive(bytes.as_slice())
                } else {
                    Err(String::from_str("archive too large to align"))
                };
                match self.loaded.take() {
                    Some(loaded) => ExtractedAction::Finish(finish_with_params(loaded, decoded)),
                    None => vstd::pervasive::unreached(),
                }
            },
        }
    }
}

} // verus!
