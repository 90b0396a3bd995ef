//! The read-only configuration consulted by the decision engine: one toggle
//! per auto-start trigger, one per splittable level of each story branch, and
//! one for the final boss.
//!
//! The host re-reads its user-facing settings once per tick and hands them to
//! the engine as this plain struct; the engine never mutates it.

use vstd::prelude::*;

verus! {

/// Every toggle the decision engine consults.
#[derive(Clone, Copy)]
pub struct Config {
    pub start_story: bool,
    pub start_trip: bool,
    pub start_last_story: bool,
    pub bridge_island_1: bool,
    pub bridge_island_2: bool,
    pub bridge_island_fruit: bool,
    pub speed_jungle_1: bool,
    pub speed_jungle_sonic: bool,
    pub speed_jungle_2: bool,
    pub sky_temple_1: bool,
    pub pinball_carnival_1: bool,
    pub pinball_carnival_2: bool,
    pub pinball_carnival_fruit: bool,
    pub lagoon_city_1: bool,
    pub lagoon_city_amy: bool,
    pub lagoon_city_2: bool,
    pub sand_sanctuary_1: bool,
    pub press_factory_1: bool,
    pub press_factory_2: bool,
    pub press_factory_fruit: bool,
    pub golden_capital_1: bool,
    pub golden_capital_knuckles: bool,
    pub golden_capital_2: bool,
    pub cyber_station_1: bool,
    pub frozen_base_1: bool,
    pub frozen_base_tails: bool,
    pub frozen_base_2: bool,
    pub egg_fortress_1: bool,
    pub egg_fortress_2: bool,
    pub trip_bridge_island_1: bool,
    pub trip_bridge_island_2: bool,
    pub trip_bridge_island_fruit: bool,
    pub trip_speed_jungle_1: bool,
    pub trip_speed_jungle_2: bool,
    pub trip_speed_jungle_3: bool,
    pub trip_sky_temple_1: bool,
    pub trip_pinball_carnival_1: bool,
    pub trip_pinball_carnival_2: bool,
    pub trip_pinball_carnival_fruit: bool,
    pub trip_lagoon_city_1: bool,
    pub trip_lagoon_city_2: bool,
    pub trip_lagoon_city_3: bool,
    pub trip_sand_sanctuary_1: bool,
    pub trip_press_factory_1: bool,
    pub trip_press_factory_2: bool,
    pub trip_press_factory_fruit: bool,
    pub trip_golden_capital_1: bool,
    pub trip_golden_capital_2: bool,
    pub trip_golden_capital_3: bool,
    pub trip_cyber_station_1: bool,
    pub trip_frozen_base_1: bool,
    pub trip_frozen_base_2: bool,
    pub trip_frozen_base_3: bool,
    pub trip_egg_fortress_1: bool,
    pub trip_egg_fortress_2: bool,
    pub black_dragon: bool,
}

impl Config {
    /// The out-of-the-box configuration: every trigger and every split
    /// enabled.
    pub open spec fn spec_all_enabled() -> Config {
        Config {
            start_story: true,
            start_trip: true,
            start_last_story: true,
            bridge_island_1: true,
            bridge_island_2: true,
            bridge_island_fruit: true,
            speed_jungle_1: true,
            speed_jungle_sonic: true,
            speed_jungle_2: true,
            sky_temple_1: true,
            pinball_carnival_1: true,
            pinball_carnival_2: true,
            pinball_carnival_fruit: true,
            lagoon_city_1: true,
            lagoon_city_amy: true,
            lagoon_city_2: true,
            sand_sanctuary_1: true,
            press_factory_1: true,
            press_factory_2: true,
            press_factory_fruit: true,
            golden_capital_1: true,
            golden_capital_knuckles: true,
            golden_capital_2: true,
            cyber_station_1: true,
            frozen_base_1: true,
            frozen_base_tails: true,
            frozen_base_2: true,
            egg_fortress_1: true,
            egg_fortress_2: true,
            trip_bridge_island_1: true,
            trip_bridge_island_2: true,
            trip_bridge_island_fruit: true,
            trip_speed_jungle_1: true,
            trip_speed_jungle_2: true,
            trip_speed_jungle_3: true,
            trip_sky_temple_1: true,
            trip_pinball_carnival_1: true,
            trip_pinball_carnival_2: true,
            trip_pinball_carnival_fruit: true,
            trip_lagoon_city_1: true,
            trip_lagoon_city_2: true,
            trip_lagoon_city_3: true,
            trip_sand_sanctuary_1: true,
            trip_press_factory_1: true,
            trip_press_factory_2: true,
            trip_press_factory_fruit: true,
            trip_golden_capital_1: true,
            trip_golden_capital_2: true,
            trip_golden_capital_3: true,
            trip_cyber_station_1: true,
            trip_frozen_base_1: true,
            trip_frozen_base_2: true,
            trip_frozen_base_3: true,
            trip_egg_fortress_1: true,
            trip_egg_fortress_2: true,
            black_dragon: true,
        }
    }

    /// Builds the out-of-the-box configuration.
    pub fn all_enabled() -> (c: Config)
        ensures
            c == Config::spec_all_enabled(),
    {
        Config {
            start_story: true,
            start_trip: true,
            start_last_story: true,
            bridge_island_1: true,
            bridge_island_2: true,
            bridge_island_fruit: true,
            speed_jungle_1: true,
            speed_jungle_sonic: true,
            speed_jungle_2: true,
            sky_temple_1: true,
            pinball_carnival_1: true,
            pinball_carnival_2: true,
            pinball_carnival_fruit: true,
            lagoon_city_1: true,
            lagoon_city_amy: true,
            lagoon_city_2: true,
            sand_sanctuary_1: true,
            press_factory_1: true,
            press_factory_2: true,
            press_factory_fruit: true,
            golden_capital_1: true,
            golden_capital_knuckles: true,
            golden_capital_2: true,
            cyber_station_1: true,
            frozen_base_1: true,
            frozen_base_tails: true,
            frozen_base_2: true,
            egg_fortress_1: true,
            egg_fortress_2: true,
            trip_bridge_island_1: true,
            trip_bridge_island_2: true,
            trip_bridge_island_fruit: true,
            trip_speed_jungle_1: true,
            trip_speed_jungle_2: true,
            trip_speed_jungle_3: true,
            trip_sky_temple_1: true,
            trip_pinball_carnival_1: true,
            trip_pinball_carnival_2: true,
            trip_pinball_carnival_fruit: true,
            trip_lagoon_city_1: true,
            trip_lagoon_city_2: true,
            trip_lagoon_city_3: true,
            trip_sand_sanctuary_1: true,
            trip_press_factory_1: true,
            trip_press_factory_2: true,
            trip_press_factory_fruit: true,
            trip_golden_capital_1: true,
            trip_golden_capital_2: true,
            trip_golden_capital_3: true,
            trip_cyber_station_1: true,
            trip_frozen_base_1: true,
            trip_frozen_base_2: true,
            trip_frozen_base_3: true,
            trip_egg_fortress_1: true,
            trip_egg_fortress_2: true,
            black_dragon: true,
        }
    }
}

impl Default for Config {
    /// The defaults the host registers for its user-facing settings: all on.
    fn default() -> (c: Config)
        ensures
            c == Config::spec_all_enabled(),
    {
        Config::all_enabled()
    }
}

} // verus!
