//! Hash maps: key-value stores whose contents are tracked as a map from
//! keys to values.

use std::collections::HashMap;
use vstd::prelude::*;

verus! {

broadcast use vstd::std_specs::hash::group_hash_axioms;

/// Fills a map of scores keyed by player number, looks one up, removes
/// another, and pins the exact contents left behind.
pub fn hashmap_exercise_1() {
    let mut scores: HashMap<u64, i64> = HashMap::new();
    scores.insert(1, 98);
    scores.insert(2, 95);
    scores.insert(3, 69);
    scores.insert(4, 58);

    let score = scores.get(&1);
    assert(score matches Some(v) && *v == 98i64);

    if scores.contains_key(&2) {
        let removed = scores.remove(&2);
        assert(removed == Some(95i64));
    }

    assert(scores@ =~= map![1u64 => 98i64, 3u64 => 69i64, 4u64 => 58i64]);
    assert(scores@.len() == 3);
}

/// The map that holds each listed team's score, built pair by pair.
pub open spec fn team_map(s: Seq<(u64, i64)>) -> Map<u64, i64>
    decreases s.len(),
{
    if s.len() == 0 {
        Map::empty()
    } else {
        team_map(s.drop_last()).insert(s.last().0, s.last().1)
    }
}

/// Builds the same map twice, once by looping over an array of pairs and
/// once by direct insertion; both hold exactly the listed scores.
pub fn hashmap_exercise_2() {
    let teams: [(u64, i64); 3] = [(1, 100), (2, 10), (3, 50)];

    let mut teams_map1: HashMap<u64, i64> = HashMap::new();
    let mut i: usize = 0;
    while i < 3
        invariant
            i <= 3,
            teams@ =~= seq![(1u64, 100i64), (2u64, 10i64), (3u64, 50i64)],
            teams_map1@ =~= team_map(teams@.subrange(0, i as int)),
        decreases 3 - i,
    {
        proof {
            assert(teams@.subrange(0, i + 1 as int).drop_last() =~= teams@.subrange(0, i as int));
        }
        let team = teams[i];
        teams_map1.insert(team.0, team.1);
        i = i + 1;
    }

    let mut teams_map2: HashMap<u64, i64> = HashMap::new();
    teams_map2.insert(1, 100);
    teams_map2.insert(2, 10);
    teams_map2.insert(3, 50);

    proof {
        assert(teams@.subrange(0, 3) =~= teams@);
        reveal_with_fuel(team_map, 4);
    }
    assert(teams_map1@ =~= teams_map2@);
    assert(teams_map1@[1] == 100 && teams_map1@[2] == 10 && teams_map1@[3] == 50);
}

/// A warrior known by name and home country.
#[derive(Debug)]
pub struct Viking {
    pub name: String,
    pub country: String,
}

impl Viking {
    /// Builds a viking from borrowed name and country.
    pub fn new(name: &str, country: &str) -> (v: Self)
        ensures
            v.name@ == name@,
            v.country@ == country@,
    {
        Viking { name: String::from_str(name), country: String::from_str(country) }
    }
}

} // verus!
