//! The level tables: for each story branch, a fixed mapping from a numeric
//! level identifier to the configuration toggle that allows splitting on
//! completing that level. Keys are unique per branch; an unknown identifier
//! maps to "no split".

use vstd::prelude::*;
use crate::config::Config;

verus! {

/// The story-mode level table.
pub open spec fn spec_story_level_enabled(c: Config, level: u32) -> bool {
    match level {
        10100u32 => c.bridge_island_1,
        10200u32 => c.bridge_island_2,
        600102u32 => c.bridge_island_fruit,
        20100u32 => c.speed_jungle_1,
        20200u32 => c.speed_jungle_sonic,
        20300u32 => c.speed_jungle_2,
        30100u32 => c.sky_temple_1,
        40100u32 => c.pinball_carnival_1,
        40200u32 => c.pinball_carnival_2,
        600401u32 => c.pinball_carnival_fruit,
        50100u32 => c.lagoon_city_1,
        50200u32 => c.lagoon_city_amy,
        50300u32 => c.lagoon_city_2,
        60100u32 => c.sand_sanctuary_1,
        70100u32 => c.press_factory_1,
        70200u32 => c.press_factory_2,
        600702u32 => c.press_factory_fruit,
        80100u32 => c.golden_capital_1,
        80200u32 => c.golden_capital_knuckles,
        80300u32 => c.golden_capital_2,
        90100u32 => c.cyber_station_1,
        100100u32 => c.frozen_base_1,
        100200u32 => c.frozen_base_tails,
        100300u32 => c.frozen_base_2,
        110100u32 => c.egg_fortress_1,
        110200u32 => c.egg_fortress_2,
        _ => false,
    }
}

/// The level table of the alternate story branch.
pub open spec fn spec_trip_level_enabled(c: Config, level: u32) -> bool {
    match level {
        10100u32 => c.trip_bridge_island_1,
        10200u32 => c.trip_bridge_island_2,
        600102u32 => c.trip_bridge_island_fruit,
        20100u32 => c.trip_speed_jungle_1,
        20200u32 => c.trip_speed_jungle_2,
        20300u32 => c.trip_speed_jungle_3,
        30100u32 => c.trip_sky_temple_1,
        40100u32 => c.trip_pinball_carnival_1,
        40200u32 => c.trip_pinball_carnival_2,
        600401u32 => c.trip_pinball_carnival_fruit,
        50100u32 => c.trip_lagoon_city_1,
        50200u32 => c.trip_lagoon_city_2,
        50300u32 => c.trip_lagoon_city_3,
        60100u32 => c.trip_sand_sanctuary_1,
        70100u32 => c.trip_press_factory_1,
        70200u32 => c.trip_press_factory_2,
        600702u32 => c.trip_press_factory_fruit,
        80100u32 => c.trip_golden_capital_1,
        80200u32 => c.trip_golden_capital_2,
        80300u32 => c.trip_golden_capital_3,
        90100u32 => c.trip_cyber_station_1,
        100100u32 => c.trip_frozen_base_1,
        100200u32 => c.trip_frozen_base_2,
        100300u32 => c.trip_frozen_base_3,
        110100u32 => c.trip_egg_fortress_1,
        110200u32 => c.trip_egg_fortress_2,
        _ => false,
    }
}

/// Looks `level` up in the story-mode table.
pub fn story_level_enabled(c: &Config, level: u32) -> (r: bool)
    ensures
        r == spec_story_level_enabled(*c, level),
{
    match level {
        10100u32 => c.bridge_island_1,
        10200u32 => c.bridge_island_2,
        600102u32 => c.bridge_island_fruit,
        20100u32 => c.speed_jungle_1,
        20200u32 => c.speed_jungle_sonic,
        20300u32 => c.speed_jungle_2,
        30100u32 => c.sky_temple_1,
        40100u32 => c.pinball_carnival_1,
        40200u32 => c.pinball_carnival_2,
        600401u32 => c.pinball_carnival_fruit,
        50100u32 => c.lagoon_city_1,
        50200u32 => c.lagoon_city_amy,
        50300u32 => c.lagoon_city_2,
        60100u32 => c.sand_sanctuary_1,
        70100u32 => c.press_factory_1,
        70200u32 => c.press_factory_2,
        600702u32 => c.press_factory_fruit,
        80100u32 => c.golden_capital_1,
        80200u32 => c.golden_capital_knuckles,
        80300u32 => c.golden_capital_2,
        90100u32 => c.cyber_station_1,
        100100u32 => c.frozen_base_1,
        100200u32 => c.frozen_base_tails,
        100300u32 => c.frozen_base_2,
        110100u32 => c.egg_fortress_1,
        110200u32 => c.egg_fortress_2,
        _ => false,
    }
}

/// Looks `level` up in the alternate branch's table.
pub fn trip_level_enabled(c: &Config, level: u32) -> (r: bool)
    ensures
        r == spec_trip_level_enabled(*c, level),
{
    match level {
        10100u32 => c.trip_bridge_island_1,
        10200u32 => c.trip_bridge_island_2,
        600102u32 => c.trip_bridge_island_fruit,
        20100u32 => c.trip_speed_jungle_1,
        20200u32 => c.trip_speed_jungle_2,
        20300u32 => c.trip_speed_jungle_3,
        30100u32 => c.trip_sky_temple_1,
        40100u32 => c.trip_pinball_carnival_1,
        40200u32 => c.trip_pinball_carnival_2,
        600401u32 => c.trip_pinball_carnival_fruit,
        50100u32 => c.trip_lagoon_city_1,
        50200u32 => c.trip_lagoon_city_2,
        50300u32 => c.trip_lagoon_city_3,
        60100u32 => c.trip_sand_sanctuary_1,
        70100u32 => c.trip_press_factory_1,
        70200u32 => c.trip_press_factory_2,
        600702u32 => c.trip_press_factory_fruit,
        80100u32 => c.trip_golden_capital_1,
        80200u32 => c.trip_golden_capital_2,
        80300u32 => c.trip_golden_capital_3,
        90100u32 => c.trip_cyber_station_1,
        100100u32 => c.trip_frozen_base_1,
        100200u32 => c.trip_frozen_base_2,
        100300u32 => c.trip_frozen_base_3,
        110100u32 => c.trip_egg_fortress_1,
        110200u32 => c.trip_egg_fortress_2,
        _ => false,
    }
}

} // verus!
