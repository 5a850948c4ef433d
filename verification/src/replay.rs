//! What the bot reads from a replay file: the summary line posted with the
//! video, and the silhouette of the recording player's ship.

use vstd::prelude::*;
use crate::outside::{parse_replay_bytes, parsed_replay, header_counts_no_blocks, param_index_by_id, param_indices};
use wowsunpack::game_params::provider::GameMetadataProvider;
use crate::text::{decimal, decimal_string};

verus! {

/// The metadata fields of a replay that the library reads.
pub struct ReplayFacts {
    /// The recording player's name.
    pub player_name: String,
    /// The map's display name.
    pub map_display_name: String,
    /// The battle's length in seconds.
    pub duration_secs: u32,
    /// Each vehicle in the battle: its relation to the recording player
    /// (0 for the player's own) and its ship's game parameter id.
    pub vehicles: Vec<(u32, u64)>,
}

/// `ReplayFacts` taken by view.
pub struct ReplayFactsView {
    pub player_name: Seq<char>,
    pub map_display_name: Seq<char>,
    pub duration_secs: u32,
    pub vehicles: Seq<(u32, u64)>,
}

impl View for ReplayFacts {
    type V = ReplayFactsView;

    open spec fn view(&self) -> ReplayFactsView {
        ReplayFactsView {
            player_name: self.player_name@,
            map_display_name: self.map_display_name@,
            duration_secs: self.duration_secs,
            vehicles: self.vehicles@,
        }
    }
}

/// Why a replay could not be read.
#[derive(Debug)]
pub enum ReplayError {
    /// The header counts no blocks, so the file cannot hold a replay.
    NoBlocks,
    /// The parser refused the file, with its report.
    Unparsable(String),
}

/// Whether the bytes of a replay file are read: they are when the header
/// counts blocks and the parser accepts them.
pub open spec fn replay_readable(bytes: Seq<u8>) -> bool {
    !header_counts_no_blocks(bytes) && parsed_replay(bytes) is Some
}

/// Whether the header of `bytes` counts no blocks.
pub fn counts_no_blocks(bytes: &[u8]) -> (r: bool)
    ensures
        r == header_counts_no_blocks(bytes@),
{
    bytes.len() >= 8 && bytes[4] == 0 && bytes[5] == 0 && bytes[6] == 0 && bytes[7] == 0
}

/// Parses a replay file held in memory.
pub fn replay_file_from_bytes(data: &[u8]) -> (r: Result<(wows_replays::ReplayFile, ReplayFacts), ReplayError>)
    ensures
        r is Ok <==> replay_readable(data@),
        header_counts_no_blocks(data@) ==> r matches Err(ReplayError::NoBlocks),
        r matches Ok((_, facts)) ==> parsed_replay(data@) == Some(facts@),
{
    if counts_no_blocks(data) {
        return Err(ReplayError::NoBlocks);
    }
    match parse_replay_bytes(data) {
        Ok(parsed) => Ok(parsed),
        Err(report) => Err(ReplayError::Unparsable(report)),
    }
}

/// The summary line of a replay: `**{player}** on **{map}** ({n} players,
/// {minutes} min)`, where `n` is the number of vehicles and `minutes` the
/// battle's length in minutes as the caller wrote it.
pub open spec fn summary_line(facts: ReplayFactsView, minutes: Seq<char>) -> Seq<char> {
    "**"@ + facts.player_name + "** on **"@ + facts.map_display_name + "** ("@ + decimal(
        facts.vehicles.len(),
    ) + " players, "@ + minutes + " min)"@
}

impl ReplayFacts {
    /// The summary line of the replay, with the battle's length in minutes
    /// written as `minutes`.
    pub fn summary(&self, minutes: &str) -> (s: String)
        ensures
            s@ == summary_line(self@, minutes@),
    {
        let count = self.vehicles.len() as u64;
        let mut s = String::from_str("**");
        s.append(self.player_name.as_str());
        s.append("** on **");
        s.append(self.map_display_name.as_str());
        s.append("** (");
        let n = decimal_string(count);
        s.append(n.as_str());
        s.append(" players, ");
        s.append(minutes);
        s.append(" min)");
        s
    }
}

/// Reads the facts that the summary line is made of from a replay file held
/// in memory.
pub fn replay_summary(replay_data: &[u8]) -> (r: Result<ReplayFacts, ReplayError>)
    ensures
        r is Ok <==> replay_readable(replay_data@),
        r matches Ok(facts) ==> parsed_replay(replay_data@) == Some(facts@),
{
    match replay_file_from_bytes(replay_data) {
        Ok((_, facts)) => Ok(facts),
        Err(e) => Err(e),
    }
}

/// Law: what a replay's summary is read from depends on its bytes alone: two
/// readings of the same bytes both succeed or both fail, and successful
/// readings give the same facts.
pub proof fn law_summary_depends_on_bytes(a: Seq<u8>, b: Seq<u8>)
    requires
        a == b,
    ensures
        replay_readable(a) <==> replay_readable(b),
        replay_readable(a) ==> parsed_replay(a) is Some && parsed_replay(a) == parsed_replay(b),
{
}

/// The ship id of the recording player's own vehicle: the first vehicle whose
/// relation is 0.
pub open spec fn own_ship_of(vehicles: Seq<(u32, u64)>) -> Option<u64>
    decreases vehicles.len(),
{
    if vehicles.len() == 0 {
        None
    } else if vehicles[0].0 == 0 {
        Some(vehicles[0].1)
    } else {
        own_ship_of(vehicles.drop_first())
    }
}

/// Law: the recording player's ship is that of the first vehicle, in the
/// replay's order, whose relation is 0, wherever it stands in the list; there
/// is none exactly when no vehicle has relation 0.
pub proof fn law_own_ship_is_first_own_vehicle(vehicles: Seq<(u32, u64)>)
    ensures
        own_ship_of(vehicles) is None <==> forall|i: int| 0 <= i < vehicles.len() ==> (
        #[trigger] vehicles[i]).0 != 0,
        forall|i: int|
            0 <= i < vehicles.len() && (#[trigger] vehicles[i]).0 == 0 && (forall|j: int|
                0 <= j < i ==> (#[trigger] vehicles[j]).0 != 0) ==> own_ship_of(vehicles) == Some(
                vehicles[i].1,
            ),
    decreases vehicles.len(),
{
    if vehicles.len() > 0 {
        let rest = vehicles.drop_first();
        law_own_ship_is_first_own_vehicle(rest);
        assert forall|i: int| 0 < i < vehicles.len() implies #[trigger] vehicles[i] == rest[i - 1] by {}
        if vehicles[0].0 != 0 {
            assert forall|i: int|
                0 <= i < vehicles.len() && (#[trigger] vehicles[i]).0 == 0 && (forall|j: int|
                    0 <= j < i ==> (#[trigger] vehicles[j]).0 != 0) implies own_ship_of(vehicles)
                == Some(vehicles[i].1) by {
                assert(i > 0);
                assert(rest[i - 1] == vehicles[i]);
                assert forall|j: int| 0 <= j < i - 1 implies (#[trigger] rest[j]).0 != 0 by {
                    assert(rest[j] == vehicles[j + 1]);
                }
            }
            if own_ship_of(vehicles) is None {
                assert forall|i: int| 0 <= i < vehicles.len() implies (#[trigger] vehicles[i]).0 != 0 by {
                    if i > 0 {
                        assert(rest[i - 1] == vehicles[i]);
                    }
                }
            } else {
                let k = choose|k: int| 0 <= k < rest.len() && (#[trigger] rest[k]).0 == 0;
                assert(vehicles[k + 1] == rest[k]);
            }
        } else {
            assert forall|i: int|
                0 <= i < vehicles.len() && (#[trigger] vehicles[i]).0 == 0 && (forall|j: int|
                    0 <= j < i ==> (#[trigger] vehicles[j]).0 != 0) implies own_ship_of(vehicles)
                == Some(vehicles[i].1) by {
                if i > 0 {
                    assert(vehicles[0].0 != 0);
                }
            }
        }
    }
}

/// The ship id of the recording player's own vehicle, if the replay lists it.
pub fn own_ship(facts: &ReplayFacts) -> (r: Option<u64>)
    ensures
        r == own_ship_of(facts@.vehicles),
{
    let v = &facts.vehicles;
    let n = v.len();
    let mut i: usize = 0;
    assert(v@.subrange(0, n as int) == v@);
    while i < n
        invariant
            n == v@.len(),
            facts@.vehicles == v@,
            i <= n,
            own_ship_of(v@) == own_ship_of(v@.subrange(i as int, n as int)),
        decreases n - i,
    {
        let (relation, ship) = v[i];
        let ghost rest = v@.subrange(i as int, n as int);
        assert(rest[0] == v@[i as int]);
        assert(rest.len() > 0);
        if relation == 0 {
            assert(own_ship_of(rest) == Some(ship));
            return Some(ship);
        }
        assert(v@.subrange(i as int, n as int).drop_first() == v@.subrange(i + 1, n as int));
        i = i + 1;
    }
    None
}

/// The game file that holds the silhouette of the ship with index `index`.
pub open spec fn silhouette_path_of(index: Seq<char>) -> Seq<char> {
    "gui/ships_silhouettes/"@ + index + ".png"@
}

/// The game file that holds the silhouette of the ship with index `index`.
pub fn silhouette_path(index: &str) -> (p: String)
    ensures
        p@ == silhouette_path_of(index@),
{
    let mut p = String::from_str("gui/ships_silhouettes/");
    p.append(index);
    p.append(".png");
    p
}

/// The silhouette file of the recording player's ship: `None` where the
/// replay lists no own vehicle or the game parameters do not know its ship.
pub open spec fn own_silhouette_of(indices: Map<u64, Seq<char>>, vehicles: Seq<(u32, u64)>) -> Option<Seq<char>> {
    match own_ship_of(vehicles) {
        None => None,
        Some(id) => if indices.contains_key(id) {
            Some(silhouette_path_of(indices[id]))
        } else {
            None
        },
    }
}

/// The game file that holds the silhouette of the recording player's ship.
pub fn own_silhouette_path(game_params: &GameMetadataProvider, facts: &ReplayFacts) -> (r: Option<String>)
    ensures
        match (r, own_silhouette_of(param_indices(*game_params), facts@.vehicles)) {
            (Some(p), Some(q)) => p@ == q,
            (None, None) => true,
            _ => false,
        },
{
    match own_ship(facts) {
        None => None,
        Some(id) => match param_index_by_id(game_params, id) {
            None => None,
            Some(index) => Some(silhouette_path(index.as_str())),
        },
    }
}

} // verus!
