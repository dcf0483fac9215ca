use colony::tick::Roles;
use colony::position::Position;
use colony::roles::builder::Builder;
use colony::roles::engine::{resolve, resolve_gathering, run_task, TaskKind};
use colony::roles::harvester::Harvester;
use colony::roles::upgrader::Upgrader;
use colony::spawn::RoleKind;
use colony::tasks::construct::TaskBuild;
use colony::tasks::harvest::{Source, TaskHarvest};
use colony::tasks::refill::TaskRefill;
use colony::tasks::upgrade::TaskUpgrade;
use colony::traits::{FlagProcessor, Part, Role, Task};
use colony::world::{Creep, Failure, Gauge, Intent, Room, Sight, Status, Structure};

fn tile(x: u32, y: u32) -> Position {
    Position::from_packed((0x8080 << 16) | (x << 8) | y).unwrap()
}

fn agent(energy: u32, capacity: u32, harvesting: bool) -> Creep {
    Creep {
        name: "7".to_string(),
        id: 7,
        energy,
        carry_capacity: capacity,
        harvesting,
        source: None,
        pos: tile(30, 30),
    }
}

fn store(id: &str, level: u32, full: u32) -> Structure {
    Structure { id: id.to_string(), hits: None, energy: Some(Gauge { level, full }) }
}

fn wall(id: &str) -> Structure {
    Structure { id: id.to_string(), hits: Some(Gauge { level: 1, full: 100 }), energy: None }
}

fn room(sites: &[&str], structures: Vec<Structure>, controller: Option<&str>) -> Room {
    Room {
        construction_sites: sites.iter().map(|s| s.to_string()).collect(),
        structures,
        controller: controller.map(|c| c.to_string()),
    }
}

fn one_node() -> TaskHarvest {
    TaskHarvest::new(
        vec![
            Source {
                id: "a".to_string(),
                sight: Sight::Seen { energy: 10, pos: tile(5, 5) },
                creep_limit: None,
                counter: None,
                prev_counter: None,
                pos: None,
            },
        ],
    ).unwrap()
}

#[test]
fn empty_agent_gathers() {
    assert!(resolve_gathering(0, 50, false));
    assert!(resolve_gathering(0, 50, true));
    assert!(resolve_gathering(0, 0, false));
}

#[test]
fn full_agent_acts() {
    assert!(!resolve_gathering(50, 50, true));
    assert!(!resolve_gathering(60, 50, true));
    assert!(!resolve_gathering(50, 50, false));
}

#[test]
fn agent_in_between_keeps_its_mode() {
    for carried in 1..50 {
        assert!(resolve_gathering(carried, 50, true));
        assert!(!resolve_gathering(carried, 50, false));
    }
}

#[test]
fn run_count_is_zero_after_construction() {
    assert_eq!(Builder::new().run_count(), 0);
    assert_eq!(Harvester::new().run_count(), 0);
    assert_eq!(Upgrader::new().run_count(), 0);
    let roles = Roles::new();
    for c in roles.census() {
        assert_eq!(c.run_count, 0);
    }
}

#[test]
fn run_counts_each_agent_once() {
    let mut role = Upgrader::new();
    let mut harvest = one_node();
    let zone = room(&[], vec![], Some("ctrl"));
    for n in 1..=5 {
        let mut creep = agent(50, 50, false);
        role.run(&mut creep, &zone, &mut harvest).unwrap();
        assert_eq!(role.run_count(), n);
    }
    assert_eq!(Upgrader::new().run_count(), 0);
}

#[test]
fn failed_agent_is_counted_too() {
    let mut role = Upgrader::new();
    let mut harvest = one_node();
    let mut creep = agent(50, 50, false);
    assert_eq!(
        role.run(&mut creep, &room(&[], vec![], None), &mut harvest),
        Err(Failure::CapabilityUnavailable)
    );
    assert_eq!(role.run_count(), 1);
}

#[test]
fn role_names_limits_and_weights() {
    assert_eq!(Builder::new().name(), "builder");
    assert_eq!(Harvester::new().name(), "harvester");
    assert_eq!(Upgrader::new().name(), "upgrader");
    assert_eq!(Builder::new().limit(), 2);
    assert_eq!(Harvester::new().limit(), 2);
    assert_eq!(Upgrader::new().limit(), 2);
    assert_eq!(Builder::new().spawn_priority(), 15);
    assert_eq!(Harvester::new().spawn_priority(), 10);
    assert_eq!(Upgrader::new().spawn_priority(), 15);
    assert_eq!(Builder::new().next_creep(), vec![Part::Work, Part::Carry, Part::Move]);
    assert_eq!(Harvester::new().next_creep(), vec![Part::Work, Part::Carry, Part::Move]);
    assert_eq!(Upgrader::new().next_creep(), vec![Part::Work, Part::Carry, Part::Move]);
}

#[test]
fn gathering_agent_goes_to_the_gather_task() {
    let mut role = Builder::new();
    let mut harvest = one_node();
    let mut creep = agent(0, 50, false);
    let zone = room(&["site"], vec![store("ext", 0, 50)], Some("ctrl"));
    let done = role.run(&mut creep, &zone, &mut harvest);
    assert_eq!(done, Ok(Some(Intent::Travel { to: tile(5, 5) })));
    assert!(creep.harvesting);
    assert_eq!(creep.source, Some("a".to_string()));
    assert_eq!(harvest.sources()[0].counter, Some(1));
}

#[test]
fn gathering_agent_without_open_node_succeeds_with_nothing() {
    let mut role = Builder::new();
    let mut harvest = TaskHarvest::new(vec![]).unwrap();
    let mut creep = agent(0, 50, false);
    let zone = room(&["site"], vec![], Some("ctrl"));
    assert_eq!(role.run(&mut creep, &zone, &mut harvest), Ok(None));
    assert!(creep.harvesting);
}

#[test]
fn partly_loaded_gathering_agent_keeps_gathering() {
    let mut role = Harvester::new();
    let mut harvest = one_node();
    let mut creep = agent(20, 50, true);
    let zone = room(&["site"], vec![store("ext", 0, 50)], Some("ctrl"));
    let done = role.run(&mut creep, &zone, &mut harvest);
    assert_eq!(done, Ok(Some(Intent::Travel { to: tile(5, 5) })));
    assert!(creep.harvesting);
}

#[test]
fn partly_loaded_acting_agent_keeps_acting() {
    let mut role = Harvester::new();
    let mut harvest = one_node();
    let mut creep = agent(20, 50, false);
    let zone = room(&["site"], vec![store("ext", 0, 50)], Some("ctrl"));
    let done = role.run(&mut creep, &zone, &mut harvest);
    assert_eq!(done, Ok(Some(Intent::Transfer { target: "ext".to_string() })));
    assert!(!creep.harvesting);
    assert_eq!(harvest.sources()[0].counter, Some(0));
}

#[test]
fn builder_builds_first() {
    let mut role = Builder::new();
    let mut harvest = one_node();
    let mut creep = agent(50, 50, true);
    let zone = room(&["site", "other"], vec![store("ext", 0, 50)], Some("ctrl"));
    let done = role.run(&mut creep, &zone, &mut harvest);
    assert_eq!(done, Ok(Some(Intent::Build { site: "site".to_string() })));
    assert!(!creep.harvesting);
}

#[test]
fn builder_deposits_when_nothing_is_to_be_built() {
    let mut role = Builder::new();
    let mut harvest = one_node();
    let mut creep = agent(50, 50, false);
    let zone = room(&[], vec![store("full", 50, 50), store("ext", 10, 50)], Some("ctrl"));
    let done = role.run(&mut creep, &zone, &mut harvest);
    assert_eq!(done, Ok(Some(Intent::Transfer { target: "ext".to_string() })));
}

#[test]
fn builder_upgrades_last() {
    let mut role = Builder::new();
    let mut harvest = one_node();
    let mut creep = agent(50, 50, false);
    let zone = room(&[], vec![store("full", 50, 50), wall("w")], Some("ctrl"));
    let done = role.run(&mut creep, &zone, &mut harvest);
    assert_eq!(done, Ok(Some(Intent::Upgrade { controller: "ctrl".to_string() })));
}

#[test]
fn harvester_deposits_first() {
    let mut role = Harvester::new();
    let mut harvest = one_node();
    let mut creep = agent(50, 50, false);
    let zone = room(&["site"], vec![store("ext", 0, 50)], Some("ctrl"));
    let done = role.run(&mut creep, &zone, &mut harvest);
    assert_eq!(done, Ok(Some(Intent::Transfer { target: "ext".to_string() })));
}

#[test]
fn harvester_builds_when_nothing_takes_a_deposit() {
    let mut role = Harvester::new();
    let mut harvest = one_node();
    let mut creep = agent(50, 50, false);
    let zone = room(&["site"], vec![store("ext", 50, 50)], Some("ctrl"));
    let done = role.run(&mut creep, &zone, &mut harvest);
    assert_eq!(done, Ok(Some(Intent::Build { site: "site".to_string() })));
}

#[test]
fn upgrader_only_upgrades() {
    let mut role = Upgrader::new();
    let mut harvest = one_node();
    let mut creep = agent(50, 50, false);
    let zone = room(&["site"], vec![store("ext", 0, 50)], Some("ctrl"));
    let done = role.run(&mut creep, &zone, &mut harvest);
    assert_eq!(done, Ok(Some(Intent::Upgrade { controller: "ctrl".to_string() })));
}

#[test]
fn missing_controller_is_a_hard_failure() {
    let mut role = Builder::new();
    let mut harvest = one_node();
    let mut creep = agent(50, 50, false);
    let done = role.run(&mut creep, &room(&[], vec![], None), &mut harvest);
    assert_eq!(done, Err(Failure::CapabilityUnavailable));
}

#[test]
fn chain_in_which_every_task_declines_fails() {
    let mut harvest = one_node();
    let mut count = 0;
    let mut creep = agent(50, 50, false);
    let zone = room(&[], vec![store("ext", 50, 50)], Some("ctrl"));
    let chain = vec![TaskKind::Build, TaskKind::Refill];
    let done = resolve(&chain, &mut count, &mut creep, &zone, &mut harvest);
    assert_eq!(done, Err(Failure::AllTasksFailed));
    assert_eq!(count, 1);
}

#[test]
fn empty_chain_fails() {
    let mut harvest = one_node();
    let mut count = 4;
    let mut creep = agent(50, 50, false);
    let done = resolve(&vec![], &mut count, &mut creep, &room(&[], vec![], None), &mut harvest);
    assert_eq!(done, Err(Failure::AllTasksFailed));
    assert_eq!(count, 5);
}

#[test]
fn hard_failure_ends_the_chain() {
    let mut harvest = one_node();
    let mut count = 0;
    let mut creep = agent(50, 50, false);
    let zone = room(&["site"], vec![], None);
    let chain = vec![TaskKind::Upgrade, TaskKind::Build];
    let done = resolve(&chain, &mut count, &mut creep, &zone, &mut harvest);
    assert_eq!(done, Err(Failure::CapabilityUnavailable));
}

#[test]
fn tasks_decide_from_the_zone() {
    let mut creep = agent(50, 50, false);
    let zone = room(&["s1", "s2"], vec![wall("w"), store("e1", 5, 5), store("e2", 4, 5)], Some("c"));
    assert_eq!(
        run_task(TaskKind::Build, &mut creep, &zone),
        Ok(Some(Intent::Build { site: "s1".to_string() }))
    );
    assert_eq!(
        run_task(TaskKind::Refill, &mut creep, &zone),
        Ok(Some(Intent::Transfer { target: "e2".to_string() }))
    );
    assert_eq!(
        run_task(TaskKind::Upgrade, &mut creep, &zone),
        Ok(Some(Intent::Upgrade { controller: "c".to_string() }))
    );
    let bare = room(&[], vec![wall("w")], None);
    assert_eq!(TaskBuild::new().run(&mut creep, &bare), Ok(None));
    assert_eq!(TaskRefill::new().run(&mut creep, &bare), Ok(None));
    assert_eq!(TaskUpgrade::new().run(&mut creep, &bare), Err(Failure::CapabilityUnavailable));
}

#[test]
fn task_names() {
    assert_eq!(TaskBuild::new().name(), "build");
    assert_eq!(TaskRefill::new().name(), "refill");
    assert_eq!(TaskUpgrade::new().name(), "upgrade");
}

#[test]
fn nothing_takes_commands() {
    let words = vec!["now".to_string()];
    assert_eq!(Builder::new().flag(&words, tile(1, 1)), Ok(false));
    assert_eq!(Harvester::new().flag(&words, tile(1, 1)), Ok(false));
    assert_eq!(Upgrader::new().flag(&words, tile(1, 1)), Ok(false));
    assert_eq!(TaskBuild::new().flag(&words, tile(1, 1)), Ok(false));
    assert_eq!(TaskRefill::new().flag(&words, tile(1, 1)), Ok(false));
    assert_eq!(TaskUpgrade::new().flag(&words, tile(1, 1)), Ok(false));
    assert_eq!(one_node().flag(&words, tile(1, 1)), Ok(false));
}

#[test]
fn follow_up_moves_only_when_not_in_range() {
    let build = Intent::Build { site: "s".to_string() };
    assert_eq!(build.follow_up(Status::NotInRange), Some("s".to_string()));
    assert_eq!(build.follow_up(Status::Done), None);
    assert_eq!(build.follow_up(Status::Refused), None);
    let transfer = Intent::Transfer { target: "t".to_string() };
    assert_eq!(transfer.follow_up(Status::NotInRange), Some("t".to_string()));
    let upgrade = Intent::Upgrade { controller: "c".to_string() };
    assert_eq!(upgrade.follow_up(Status::NotInRange), Some("c".to_string()));
    assert_eq!(Intent::Idle.follow_up(Status::NotInRange), None);
    assert_eq!(Intent::Harvest { source: "a".to_string() }.follow_up(Status::NotInRange), None);
    assert_eq!(Intent::Travel { to: tile(1, 1) }.follow_up(Status::NotInRange), None);
}

#[test]
fn roles_are_found_by_name() {
    assert_eq!(Roles::kind_of("builder"), Some(RoleKind::Builder));
    assert_eq!(Roles::kind_of("harvester"), Some(RoleKind::Harvester));
    assert_eq!(Roles::kind_of("upgrader"), Some(RoleKind::Upgrader));
    assert_eq!(Roles::kind_of("missing"), None);
    assert_eq!(Roles::kind_of(""), None);
    let roles = Roles::new();
    assert_eq!(roles.name_of(RoleKind::Builder), "builder");
    assert_eq!(roles.name_of(RoleKind::Harvester), "harvester");
    assert_eq!(roles.name_of(RoleKind::Upgrader), "upgrader");
    assert_eq!(roles.body_of(RoleKind::Upgrader), vec![Part::Work, Part::Carry, Part::Move]);
}

#[test]
fn unknown_role_fails_and_counts_nothing() {
    let mut roles = Roles::new();
    let mut harvest = one_node();
    let mut creep = agent(0, 50, false);
    let zone = room(&[], vec![], Some("ctrl"));
    let done = roles.run("missing", &mut creep, &zone, &mut harvest);
    assert_eq!(done, Err(Failure::UnknownRole));
    assert!(!creep.harvesting);
    assert_eq!(harvest.sources()[0].counter, Some(0));
    for c in roles.census() {
        assert_eq!(c.run_count, 0);
    }
}

#[test]
fn census_counts_by_role() {
    let mut roles = Roles::new();
    let mut harvest = one_node();
    let zone = room(&[], vec![], Some("ctrl"));
    for name in ["builder", "upgrader", "upgrader", "harvester", "upgrader"] {
        let mut creep = agent(50, 50, false);
        roles.run(name, &mut creep, &zone, &mut harvest).unwrap();
    }
    let census = roles.census();
    assert_eq!(census.len(), 3);
    assert_eq!((census[0].role, census[0].run_count), (RoleKind::Builder, 1));
    assert_eq!((census[1].role, census[1].run_count), (RoleKind::Harvester, 1));
    assert_eq!((census[2].role, census[2].run_count), (RoleKind::Upgrader, 3));
    assert_eq!((census[0].limit, census[0].weight), (2, 15));
    assert_eq!((census[1].limit, census[1].weight), (2, 10));
    assert_eq!((census[2].limit, census[2].weight), (2, 15));
}
