//! Declarations of the outside crates' types and the trusted wrappers around
//! the outside calls that the library makes.

use vstd::prelude::*;
use crate::replay::{ReplayFacts, ReplayFactsView};
use wowsunpack::game_params::provider::GameMetadataProvider;
use wowsunpack::game_params::types::{GameParamProvider, Param};

verus! {

#[verifier::external_type_specification]
#[verifier::external_body]
#[verifier::reject_recursive_types(K)]
#[verifier::reject_recursive_types(V)]
pub struct ExTomlMap<K, V>(toml::map::Map<K, V>);

#[verifier::external_type_specification]
#[verifier::external_body]
pub struct ExTomlValue(toml::Value);

#[verifier::external_type_specification]
#[verifier::external_body]
pub struct ExTomlError(toml::de::Error);

/// One entry of a TOML table, as the library reads it.
pub enum TomlItem {
    /// An integer.
    Integer(i64),
    /// A table, given by the integers of its own entries (`None` for an
    /// entry that is not an integer).
    Table(Map<Seq<char>, Option<i64>>),
    /// Any other value.
    Other,
}

/// The integer of an entry, `None` where it is not an integer.
pub open spec fn item_integer(item: TomlItem) -> Option<i64> {
    match item {
        TomlItem::Integer(i) => Some(i),
        _ => None,
    }
}

/// The integers of a table's entries, by key.
pub open spec fn integers_of(entries: Map<Seq<char>, TomlItem>) -> Map<Seq<char>, Option<i64>> {
    entries.map_values(|item: TomlItem| item_integer(item))
}

/// What a TOML table holds, as the library reads it: each key with its entry.
pub uninterp spec fn table_entries(t: toml::Table) -> Map<Seq<char>, TomlItem>;

/// What `<toml::Table as FromStr>::from_str` makes of a text: `None` where it
/// refuses the text, else the entries of the table it gives.
pub uninterp spec fn toml_document(text: Seq<char>) -> Option<Map<Seq<char>, TomlItem>>;

/// Parses `text` as a TOML document with `<toml::Table as FromStr>::from_str`.
/// Trusted: the outcome and the table's entries are those that
/// `toml_document` names for the text.
#[verifier::external_body]
pub(crate) fn parse_toml_table(text: &str) -> (r: Result<toml::Table, toml::de::Error>)
    ensures
        match r {
            Ok(t) => toml_document(text@) == Some(table_entries(t)),
            Err(_) => toml_document(text@) is None,
        },
{
    text.parse::<toml::Table>()
}

/// Looks `key` up with `toml::map::Map::get` and reads the value found with
/// `toml::Value::as_integer`. Trusted: the result is the integer that the
/// table holds under `key`, `None` where the key is absent or its value is
/// not an integer.
#[verifier::external_body]
pub(crate) fn toml_table_integer(table: &toml::Table, key: &str) -> (r: Option<i64>)
    ensures
        r == (if table_entries(*table).contains_key(key@) {
            item_integer(table_entries(*table)[key@])
        } else {
            None
        }),
{
    table.get(key).and_then(|v| v.as_integer())
}

/// Looks `key` up with `toml::map::Map::get` and reads the value found with
/// `toml::Value::as_table`. Trusted: there is a result exactly where the
/// table holds a table under `key`, and the integers of that table are the
/// ones the entry gives.
#[verifier::external_body]
pub(crate) fn toml_table_table<'a>(table: &'a toml::Table, key: &str) -> (r: Option<&'a toml::Table>)
    ensures
        match r {
            Some(sub) => table_entries(*table).contains_key(key@) && table_entries(*table)[key@]
                == TomlItem::Table(integers_of(table_entries(*sub))),
            None => !(table_entries(*table).contains_key(key@) && table_entries(*table)[key@] is Table),
        },
{
    table.get(key).and_then(|v| v.as_table())
}

#[verifier::external_type_specification]
#[verifier::external_body]
pub struct ExReplayFile(wows_replays::ReplayFile);

/// Whether a replay file's header says that it holds no blocks (bytes 4 to 7,
/// the little-endian block count, are all zero). `ReplayFile::from_bytes`
/// computes that count less one unchecked, which panics where overflow is
/// checked.
pub open spec fn header_counts_no_blocks(bytes: Seq<u8>) -> bool {
    bytes.len() >= 8 && bytes[4] == 0 && bytes[5] == 0 && bytes[6] == 0 && bytes[7] == 0
}

/// What `wows_replays::ReplayFile::from_bytes` makes of a file's bytes, as
/// the library reads it: `None` where it refuses them, else the metadata
/// fields that the library uses.
pub uninterp spec fn parsed_replay(bytes: Seq<u8>) -> Option<ReplayFactsView>;

/// Parses a replay file held in memory with
/// `wows_replays::ReplayFile::from_bytes`, and copies the metadata fields that
/// the library reads (player name, map display name, duration, and each
/// vehicle's relation and ship id, in order) out of the result. Trusted: the
/// outcome and those fields are what `parsed_replay` names for the bytes; on
/// failure, the text is the parser's report. Nothing is said of the packet
/// data or of the other fields.
#[verifier::external_body]
pub(crate) fn parse_replay_bytes(bytes: &[u8]) -> (r: Result<(wows_replays::ReplayFile, ReplayFacts), String>)
    requires
        !header_counts_no_blocks(bytes@),
    ensures
        match r {
            Ok((_, facts)) => parsed_replay(bytes@) == Some(facts@),
            Err(_) => parsed_replay(bytes@) is None,
        },
{
    match wows_replays::ReplayFile::from_bytes(bytes) {
        Ok(file) => {
            let meta = &file.meta;
            let vehicles = meta.vehicles.iter().map(|v| (v.relation, v.shipId.raw())).collect();
            let facts = ReplayFacts {
                player_name: meta.playerName.clone(),
                map_display_name: meta.mapDisplayName.clone(),
                duration_secs: meta.duration,
                vehicles,
            };
            Ok((file, facts))
        },
        Err(e) => Err(format!("{e:?}")),
    }
}

#[verifier::external_type_specification]
#[verifier::external_body]
pub struct ExVfsPath(wowsunpack::vfs::VfsPath);

#[verifier::external_type_specification]
#[verifier::external_body]
pub struct ExEntitySpec(wowsunpack::rpc::entitydefs::EntitySpec);

#[verifier::external_type_specification]
#[verifier::external_body]
pub struct ExGameMetadataProvider(GameMetadataProvider);

#[verifier::external_type_specification]
#[verifier::external_body]
pub struct ExParam(Param);

/// What a vector of game parameters holds, as the library reads it: each
/// parameter's id and index (its short code name), in order.
pub uninterp spec fn params_keys(params: Vec<Param>) -> Seq<(u64, Seq<char>)>;

/// The game parameters that an rkyv archive holds, as `params_keys` reads
/// them, in the order `rkyv::from_bytes::<Vec<Param>, rkyv::rancor::Error>`
/// gives them back from the archive laid out at a 16-byte aligned address;
/// `None` where it refuses the archive.
pub uninterp spec fn archived_params(bytes: Seq<u8>) -> Option<Seq<(u64, Seq<char>)>>;

/// The largest archive that can be copied to an aligned buffer: rkyv's
/// `AlignedVec::<16>` holds at most `isize::MAX - 15` bytes.
pub open spec fn archive_fits(bytes: Seq<u8>) -> bool {
    bytes.len() <= isize::MAX - 15
}

/// Deserializes game parameters archived with rkyv, with
/// `rkyv::from_bytes::<Vec<Param>, rkyv::rancor::Error>`, after copying the
/// bytes into an `AlignedVec::<16>` (rkyv's own archive buffer, whose
/// alignment its validator requires); on failure the text is the error's
/// `Display`. Trusted: with the bytes so aligned, rkyv's validation and
/// deserialization depend on the bytes alone, so it succeeds exactly where
/// `archived_params` names parameters for them, and gives those. The copy
/// panics above `AlignedVec`'s capacity, which `requires` leaves out.
#[verifier::external_body]
pub(crate) fn params_from_archive(bytes: &[u8]) -> (r: Result<Vec<Param>, String>)
    requires
        archive_fits(bytes@),
    ensures
        match archived_params(bytes@) {
            Some(keys) => r matches Ok(v) && params_keys(v) == keys,
            None => r is Err,
        },
{
    let mut aligned = rkyv::util::AlignedVec::<16>::new();
    aligned.extend_from_slice(bytes);
    rkyv::from_bytes::<Vec<Param>, rkyv::rancor::Error>(&aligned).map_err(|e| e.to_string())
}

/// Copies game parameters with `<Vec<Param> as Clone>::clone`. Trusted: the
/// copy holds the same ids and indices in the same order (`Param` derives
/// `Clone`, which clones each field).
#[verifier::external_body]
pub(crate) fn clone_params(params: &Vec<Param>) -> (r: Vec<Param>)
    ensures
        params_keys(r) == params_keys(*params),
{
    params.clone()
}

/// The index of each id after the parameters `keys` were entered in order: a
/// later parameter with the same id replaces an earlier one.
pub open spec fn index_map(keys: Seq<(u64, Seq<char>)>) -> Map<u64, Seq<char>>
    decreases keys.len(),
{
    if keys.len() == 0 {
        Map::empty()
    } else {
        index_map(keys.drop_last()).insert(keys.last().0, keys.last().1)
    }
}

/// What a `GameMetadataProvider` holds, as the library reads it: the index
/// (the short code name) of each game parameter, by the parameter's id.
pub uninterp spec fn param_indices(p: GameMetadataProvider) -> Map<u64, Seq<char>>;

/// Builds a provider with `GameMetadataProvider::from_params_no_specs`.
/// Trusted: the source returns `Ok` whatever the parameters, and its lookup by
/// id is a map filled with the parameters in order (a later parameter with the
/// same id replaces an earlier one), so the provider holds, for each id, the
/// index that `index_map` gives.
#[verifier::external_body]
pub(crate) fn provider_from_params(params: Vec<Param>) -> (r: Result<GameMetadataProvider, String>)
    ensures
        r is Ok,
        r matches Ok(p) ==> param_indices(p) == index_map(params_keys(params)),
{
    GameMetadataProvider::from_params_no_specs(params).map_err(|e| format!("{e:?}"))
}

/// Looks a game parameter up by id with `GameParamProvider::game_param_by_id`
/// and reads its index with `Param::index`. Trusted: the result is the index
/// that `param_indices` holds for `id`, `None` where it holds none.
#[verifier::external_body]
pub(crate) fn param_index_by_id(provider: &GameMetadataProvider, id: u64) -> (r: Option<String>)
    ensures
        r is Some <==> param_indices(*provider).contains_key(id),
        r matches Some(s) ==> s@ == param_indices(*provider)[id],
{
    let id = wowsunpack::game_types::GameParamId::from(id);
    GameParamProvider::game_param_by_id(provider, id).map(|p| p.index().to_string())
}

} // verus!
