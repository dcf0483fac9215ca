use colony::military::tower::{Orders, Tower, TowerMemory, TowerSight};
use colony::world::{Gauge, Structure};

fn structure(id: &str, level: u32, full: u32) -> Structure {
    Structure { id: id.to_string(), hits: Some(Gauge { level, full }), energy: None }
}

fn sight(
    target_alive: bool,
    nearest: Option<&str>,
    job_hits: Option<Gauge>,
    structures: Vec<Structure>,
) -> TowerSight {
    TowerSight {
        target_alive,
        nearest_hostile: nearest.map(|s| s.to_string()),
        job_hits,
        structures,
    }
}

fn tower(id: &str, target: Option<&str>, job: Option<&str>, sight: Option<TowerSight>) -> TowerMemory {
    TowerMemory {
        id: id.to_string(),
        target: target.map(|s| s.to_string()),
        job: job.map(|s| s.to_string()),
        sight,
    }
}

#[test]
fn healed_job_is_replaced_by_a_damaged_structure() {
    let zone = vec![structure("healed", 100, 100), structure("other", 40, 100)];
    let seen = sight(false, None, Some(Gauge { level: 100, full: 100 }), zone);
    let mut memory = tower("t", None, Some("healed"), Some(seen));
    let orders = Tower::run_tower(&mut memory);
    assert_eq!(memory.job, Some("other".to_string()));
    assert_eq!(orders.repair, Some("other".to_string()));
}

#[test]
fn healed_job_is_cleared_when_nothing_is_damaged() {
    let zone = vec![structure("healed", 100, 100), structure("fine", 7, 7)];
    let seen = sight(false, None, Some(Gauge { level: 100, full: 100 }), zone);
    let mut memory = tower("t", None, Some("healed"), Some(seen));
    let orders = Tower::run_tower(&mut memory);
    assert_eq!(memory.job, None);
    assert_eq!(orders.repair, None);
}

#[test]
fn damaged_job_is_kept() {
    let zone = vec![structure("first", 1, 100), structure("job", 40, 100)];
    let seen = sight(false, None, Some(Gauge { level: 40, full: 100 }), zone);
    let mut memory = tower("t", None, Some("job"), Some(seen));
    let orders = Tower::run_tower(&mut memory);
    assert_eq!(memory.job, Some("job".to_string()));
    assert_eq!(orders.repair, Some("job".to_string()));
}

#[test]
fn job_that_no_longer_resolves_is_replaced() {
    let zone = vec![structure("fine", 5, 5), structure("worn", 99, 100), structure("ruin", 1, 100)];
    let seen = sight(false, None, None, zone);
    let mut memory = tower("t", None, Some("gone"), Some(seen));
    Tower::run_tower(&mut memory);
    // First match in the order given, not the most damaged.
    assert_eq!(memory.job, Some("worn".to_string()));
}

#[test]
fn structures_without_durability_are_never_jobs() {
    let zone = vec![
        Structure { id: "plain".to_string(), hits: None, energy: Some(Gauge { level: 0, full: 9 }) },
        structure("worn", 1, 2),
    ];
    assert_eq!(Tower::new_job(&zone), Some(1));
    assert_eq!(Tower::new_job(&zone[..1].to_vec()), None);
    assert_eq!(Tower::new_job(&vec![]), None);
}

#[test]
fn live_target_is_kept() {
    let seen = sight(true, Some("nearer"), None, vec![]);
    let mut memory = tower("t", Some("old"), None, Some(seen));
    let orders = Tower::run_tower(&mut memory);
    assert_eq!(memory.target, Some("old".to_string()));
    assert_eq!(orders.attack, Some("old".to_string()));
}

#[test]
fn dead_target_is_replaced_by_the_nearest_hostile() {
    let seen = sight(false, Some("nearer"), None, vec![]);
    let mut memory = tower("t", Some("old"), None, Some(seen));
    let orders = Tower::run_tower(&mut memory);
    assert_eq!(memory.target, Some("nearer".to_string()));
    assert_eq!(orders.attack, Some("nearer".to_string()));
}

#[test]
fn dead_target_is_cleared_without_hostiles() {
    let seen = sight(false, None, None, vec![]);
    let mut memory = tower("t", Some("old"), None, Some(seen));
    let orders = Tower::run_tower(&mut memory);
    assert_eq!(memory.target, None);
    assert_eq!(
        orders,
        Orders { tower: "t".to_string(), attack: None, repair: None }
    );
}

#[test]
fn tower_without_target_picks_the_nearest_hostile() {
    // No target is remembered, so "alive" has nothing to speak of.
    let seen = sight(true, Some("h"), None, vec![]);
    let mut memory = tower("t", None, None, Some(seen));
    Tower::run_tower(&mut memory);
    assert_eq!(memory.target, Some("h".to_string()));
}

#[test]
fn run_drops_towers_that_no_longer_resolve() {
    let zone = vec![structure("worn", 1, 2)];
    let mut handler = Tower::new(
        vec![
            tower("gone", Some("x"), Some("y"), None),
            tower("a", None, None, Some(sight(false, Some("h"), None, zone.clone()))),
            tower("lost", None, None, None),
            tower("b", Some("old"), None, Some(sight(true, None, None, vec![]))),
        ],
    );
    let orders = handler.run().unwrap();
    assert_eq!(
        orders,
        vec![
            Orders {
                tower: "a".to_string(),
                attack: Some("h".to_string()),
                repair: Some("worn".to_string()),
            },
            Orders { tower: "b".to_string(), attack: Some("old".to_string()), repair: None },
        ]
    );
    let kept = handler.towers();
    assert_eq!(kept.len(), 2);
    assert_eq!(kept[0].id, "a");
    assert_eq!(kept[0].target, Some("h".to_string()));
    assert_eq!(kept[0].job, Some("worn".to_string()));
    assert_eq!(kept[1].id, "b");
    assert_eq!(kept[1].target, Some("old".to_string()));
    assert_eq!(kept[1].job, None);
}

#[test]
fn run_without_towers_does_nothing() {
    let mut handler = Tower::new(vec![]);
    assert_eq!(handler.run(), Ok(vec![]));
    assert!(handler.towers().is_empty());
}
