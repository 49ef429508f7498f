//! Settings read at start-up.
use vstd::prelude::*;

verus! {

/// Where the level files live.
pub struct MapConfig {
    pub map_path: String,
}

impl Default for MapConfig {
    /// The root directory.
    fn default() -> (r: MapConfig)
        ensures
            r.map_path@ == seq!['/'],
    {
        proof {
            reveal_strlit("/");
        }
        MapConfig { map_path: "/".to_owned() }
    }
}

/// All settings of the game.
pub struct GeneralConfig {
    pub map: MapConfig,
}

impl Default for GeneralConfig {
    fn default() -> (r: GeneralConfig)
        ensures
            r.map.map_path@ == seq!['/'],
    {
        GeneralConfig { map: MapConfig::default() }
    }
}

} // verus!
