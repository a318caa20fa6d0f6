use std::collections::BTreeMap;

use waitlist::data::fits::{DoctrineFit, FitDiff};
use waitlist::data::skills::{
    ShipRequirements, SkillData, SkillTier, SkillTiers, Skills, TieredRequirement,
};
use waitlist::tdf::fitcheck::{
    first_missing, first_status, implant_tag_shown, merge, types_known, FitChecker, Lookups,
    PilotData,
};
use waitlist::tdf::rules::WarStatus;
use waitlist::tdf::tags::TagSet;
use waitlist::typedb::{FitError, Fitting, KnownTypes, SkillRequirement, TypeDB, TypeInfo};

const NESTOR: i32 = 101;
const ONEIROS: i32 = 102;
const MEGATHRON: i32 = 103;
const NAVY_APOC: i32 = 104;
const KRONOS: i32 = 105;
const NIGHTMARE: i32 = 106;
const PALADIN: i32 = 107;
const VINDICATOR: i32 = 108;
const BASTION_MODULE: i32 = 201;
const T2_BLASTER: i32 = 202;
const T2_LASER: i32 = 203;
const EM_COMP: i32 = 301;
const THERMAL_COMP: i32 = 302;
const KINETIC_COMP: i32 = 303;
const EXPLOSIVE_COMP: i32 = 304;
const HULL_UPGRADES: i32 = 305;
const MECHANICS: i32 = 306;
const GUNNERY: i32 = 307;
const EM_806: i32 = 401;
const AMULETS: [i32; 5] = [402, 403, 404, 405, 406];
const HOUR: i64 = 3600;

fn ids() -> KnownTypes {
    KnownTypes {
        nestor: NESTOR,
        oneiros: ONEIROS,
        megathron: MEGATHRON,
        apocalypse_navy_issue: NAVY_APOC,
        kronos: KRONOS,
        nightmare: NIGHTMARE,
        paladin: PALADIN,
        vindicator: VINDICATOR,
        bastion_module: BASTION_MODULE,
        neutron_blaster_cannon_ii: T2_BLASTER,
        mega_pulse_laser_ii: T2_LASER,
        em_armor_compensation: EM_COMP,
        thermal_armor_compensation: THERMAL_COMP,
        kinetic_armor_compensation: KINETIC_COMP,
        explosive_armor_compensation: EXPLOSIVE_COMP,
        hull_upgrades: HULL_UPGRADES,
        mechanics: MECHANICS,
        em_806: EM_806,
        amulet_alpha: AMULETS[0],
        amulet_beta: AMULETS[1],
        amulet_delta: AMULETS[2],
        amulet_epsilon: AMULETS[3],
        amulet_gamma: AMULETS[4],
    }
}

struct Pilot {
    implants: Vec<i32>,
    time_in_fleet: i64,
    skills: Skills,
    access_keys: Vec<String>,
    id: i64,
}

impl Pilot {
    fn new() -> Pilot {
        Pilot {
            implants: Vec::new(),
            time_in_fleet: 0,
            skills: Skills { levels: BTreeMap::new() },
            access_keys: Vec::new(),
            id: 90000001,
        }
    }

    fn trained(mut self, skill: i32, level: i8) -> Pilot {
        self.skills.levels.insert(skill, level);
        self
    }

    fn comps(self, level: i8) -> Pilot {
        self.trained(EM_COMP, level)
            .trained(THERMAL_COMP, level)
            .trained(KINETIC_COMP, level)
            .trained(EXPLOSIVE_COMP, level)
    }

    fn wearing(mut self, implants: &[i32]) -> Pilot {
        self.implants.extend_from_slice(implants);
        self
    }

    fn after(mut self, seconds: i64) -> Pilot {
        self.time_in_fleet = seconds;
        self
    }

    fn with_key(mut self, key: &str) -> Pilot {
        self.access_keys.push(key.to_string());
        self
    }

    fn data(&self) -> PilotData<'_> {
        PilotData {
            implants: &self.implants,
            time_in_fleet: self.time_in_fleet,
            skills: &self.skills,
            access_keys: &self.access_keys,
            id: &self.id,
        }
    }
}

fn fit(hull: i32, modules: &[(i32, i64)]) -> Fitting {
    let mut fitted = BTreeMap::new();
    for (id, count) in modules {
        fitted.insert(*id, *count);
    }
    Fitting { hull, modules: fitted, cargo: BTreeMap::new() }
}

fn badges(list: &[&str]) -> Vec<String> {
    list.iter().map(|b| b.to_string()).collect()
}

fn no_diff() -> FitDiff {
    FitDiff {
        module_missing: BTreeMap::new(),
        module_extra: BTreeMap::new(),
        cargo_missing: BTreeMap::new(),
        module_upgraded: BTreeMap::new(),
        module_downgraded: BTreeMap::new(),
    }
}

fn swap(expected: i32, actual: i32, count: i64) -> BTreeMap<i32, BTreeMap<i32, i64>> {
    let mut inner = BTreeMap::new();
    inner.insert(actual, count);
    let mut outer = BTreeMap::new();
    outer.insert(expected, inner);
    outer
}

fn doctrine(name: &str, diff: FitDiff) -> Option<(DoctrineFit, FitDiff)> {
    Some((DoctrineFit { name: name.to_string() }, diff))
}

fn type_info(name: &str, requirements: &[(i32, i8)]) -> TypeInfo {
    TypeInfo {
        name: name.to_string(),
        skill_requirements: requirements
            .iter()
            .map(|(skill, level)| SkillRequirement { skill: *skill, level: *level })
            .collect(),
    }
}

fn type_db() -> TypeDB {
    let mut types = BTreeMap::new();
    types.insert(NESTOR, type_info("Nestor", &[]));
    types.insert(ONEIROS, type_info("Oneiros", &[]));
    types.insert(MEGATHRON, type_info("Megathron", &[]));
    types.insert(KRONOS, type_info("Kronos", &[(GUNNERY, 5), (MECHANICS, 5)]));
    types.insert(VINDICATOR, type_info("Vindicator", &[(GUNNERY, 3)]));
    types.insert(BASTION_MODULE, type_info("Bastion Module I", &[(HULL_UPGRADES, 5)]));
    types.insert(T2_BLASTER, type_info("Neutron Blaster Cannon II", &[(GUNNERY, 5)]));
    types.insert(T2_LASER, type_info("Mega Pulse Laser II", &[(GUNNERY, 4)]));
    TypeDB { types }
}

fn tiers(min: Option<i8>, elite: Option<i8>, gold: Option<i8>) -> SkillTiers {
    SkillTiers { min, elite, gold }
}

fn skill_data() -> SkillData {
    SkillData {
        requirements: vec![
            ShipRequirements {
                ship: "Vindicator".to_string(),
                skills: vec![
                    TieredRequirement { skill: GUNNERY, tiers: tiers(Some(3), Some(4), Some(5)) },
                    TieredRequirement { skill: MECHANICS, tiers: tiers(None, Some(4), Some(5)) },
                ],
            },
            ShipRequirements {
                ship: "Oneiros".to_string(),
                skills: vec![TieredRequirement {
                    skill: MECHANICS,
                    tiers: tiers(Some(3), Some(4), Some(5)),
                }],
            },
            ShipRequirements {
                ship: "Kronos".to_string(),
                skills: vec![TieredRequirement {
                    skill: GUNNERY,
                    tiers: tiers(Some(4), Some(5), None),
                }],
            },
        ],
    }
}

fn tags_of(checker: &FitChecker<'_>, expected: &[&str]) -> bool {
    checker.tags().len() == expected.len() && expected.iter().all(|t| checker.has_tag(t))
}

fn tag_set(tags: &[&str]) -> TagSet {
    let mut set = TagSet::new();
    for t in tags {
        set.insert(t);
    }
    set
}

fn holds_exactly(set: &TagSet, expected: &[&str]) -> bool {
    set.len() == expected.len() && expected.iter().all(|t| set.contains(t))
}

fn sorted(mut tags: Vec<String>) -> Vec<String> {
    tags.sort();
    tags
}

fn lookups<'a>(types: &'a TypeDB, skill_data: &'a SkillData) -> Lookups<'a> {
    Lookups {
        types,
        skill_data,
        fit_match: None,
        base_set: None,
        implant_set: None,
        slot10: false,
        category: None,
        war: None,
    }
}

// ---- skill tiers ----------------------------------------------------------------------

#[test]
fn pilot_below_every_tier_is_starter_by_skills() {
    let pilot = Pilot::new().trained(GUNNERY, 2);
    let data = pilot.data();
    let fitting = fit(VINDICATOR, &[]);
    let none = badges(&[]);
    let known = ids();
    let mut checker = FitChecker::new(&data, &fitting, &none, &known);
    assert_eq!(checker.check_skill_reqs(&type_db(), &skill_data()), Ok(()));
    assert!(tags_of(&checker, &["STARTER-SKILLS"]));
    assert!(checker.approved());
}

#[test]
fn each_bracket_gives_its_own_tag() {
    let known = ids();
    let none = badges(&[]);
    let fitting = fit(VINDICATOR, &[]);
    let cases: [(i8, i8, &[&str]); 4] = [
        (3, 0, &[]),
        (4, 4, &["ELITE-SKILLS"]),
        (5, 5, &["GOLD-SKILLS"]),
        (5, 3, &[]),
    ];
    for (gunnery, mechanics, expected) in cases {
        let pilot = Pilot::new().trained(GUNNERY, gunnery).trained(MECHANICS, mechanics);
        let data = pilot.data();
        let mut checker = FitChecker::new(&data, &fitting, &none, &known);
        assert_eq!(checker.check_skill_reqs(&type_db(), &skill_data()), Ok(()));
        assert!(tags_of(&checker, expected), "gunnery {} mechanics {}", gunnery, mechanics);
    }
}

#[test]
fn tier_without_a_requirement_is_met() {
    // The Kronos table asks nothing at gold: whoever flies one has gold skills.
    let pilot = Pilot::new();
    let data = pilot.data();
    let fitting = fit(KRONOS, &[]);
    let none = badges(&[]);
    let known = ids();
    let checker = FitChecker::new(&data, &fitting, &none, &known);
    assert_eq!(checker.check_skill_reqs_tier(&type_db(), &skill_data(), SkillTier::Gold), Ok(true));
    assert_eq!(
        checker.check_skill_reqs_tier(&type_db(), &skill_data(), SkillTier::Elite),
        Ok(false)
    );
    assert_eq!(checker.check_skill_reqs_tier(&type_db(), &skill_data(), SkillTier::Min), Ok(false));
}

#[test]
fn hull_without_a_table_is_starter() {
    let pilot = Pilot::new().trained(GUNNERY, 5).trained(MECHANICS, 5);
    let data = pilot.data();
    let fitting = fit(MEGATHRON, &[]);
    let none = badges(&[]);
    let known = ids();
    let mut checker = FitChecker::new(&data, &fitting, &none, &known);
    assert_eq!(
        checker.check_skill_reqs_tier(&type_db(), &skill_data(), SkillTier::Min),
        Ok(false)
    );
    assert_eq!(checker.check_skill_reqs(&type_db(), &skill_data()), Ok(()));
    assert!(tags_of(&checker, &["STARTER-SKILLS"]));
}

#[test]
fn unknown_hull_fails_the_skill_check() {
    let pilot = Pilot::new();
    let data = pilot.data();
    let fitting = fit(NIGHTMARE, &[]);
    let none = badges(&[]);
    let known = ids();
    let mut checker = FitChecker::new(&data, &fitting, &none, &known);
    assert_eq!(
        checker.check_skill_reqs(&type_db(), &skill_data()),
        Err(FitError::UnknownHull(NIGHTMARE))
    );
    assert!(tags_of(&checker, &[]));
}

// ---- module skills --------------------------------------------------------------------

#[test]
fn one_error_for_each_unmet_module_skill() {
    let pilot = Pilot::new().trained(GUNNERY, 4).trained(HULL_UPGRADES, 5);
    let data = pilot.data();
    let fitting = fit(KRONOS, &[(T2_LASER, 4), (T2_BLASTER, 4), (BASTION_MODULE, 1)]);
    let none = badges(&[]);
    let known = ids();
    let mut checker = FitChecker::new(&data, &fitting, &none, &known);
    assert_eq!(checker.check_module_skills(&type_db()), Ok(()));
    let expected = vec![
        "Missing skills to online/use 'Kronos'".to_string(),
        "Missing skills to online/use 'Kronos'".to_string(),
        "Missing skills to online/use 'Neutron Blaster Cannon II'".to_string(),
    ];
    assert_eq!(checker.errors(), &expected);
    assert!(checker.approved());
    assert!(tags_of(&checker, &[]));
}

#[test]
fn unknown_module_fails_and_notes_nothing() {
    let pilot = Pilot::new();
    let data = pilot.data();
    let fitting = fit(KRONOS, &[(T2_BLASTER, 4), (9999, 1), (9998, 1)]);
    let none = badges(&[]);
    let known = ids();
    let mut checker = FitChecker::new(&data, &fitting, &none, &known);
    assert_eq!(checker.check_module_skills(&type_db()), Err(FitError::UnknownModule(9998)));
    assert!(checker.errors().is_empty());
}

#[test]
fn unknown_hull_fails_the_module_check() {
    let pilot = Pilot::new();
    let data = pilot.data();
    let fitting = fit(PALADIN, &[(9999, 1)]);
    let none = badges(&[]);
    let known = ids();
    let mut checker = FitChecker::new(&data, &fitting, &none, &known);
    assert_eq!(checker.check_module_skills(&type_db()), Err(FitError::UnknownHull(PALADIN)));
}

// ---- doctrine fit ---------------------------------------------------------------------

#[test]
fn no_match_clears_approval_and_keeps_no_diff() {
    let pilot = Pilot::new();
    let data = pilot.data();
    let fitting = fit(VINDICATOR, &[]);
    let none = badges(&[]);
    let known = ids();
    let mut checker = FitChecker::new(&data, &fitting, &none, &known);
    checker.check_fit(None);
    assert!(!checker.approved());
    assert!(checker.analysis().is_none());
    assert!(tags_of(&checker, &[]));
}

#[test]
fn upgrades_alone_are_accepted_outside_antigank() {
    let pilot = Pilot::new();
    let data = pilot.data();
    let fitting = fit(VINDICATOR, &[]);
    let none = badges(&[]);
    let known = ids();
    let mut diff = no_diff();
    diff.module_upgraded = swap(500, 501, 2);
    let mut checker = FitChecker::new(&data, &fitting, &none, &known);
    checker.check_fit(doctrine("Vindicator Elite", diff));
    assert!(checker.approved());
    assert!(tags_of(&checker, &["ELITE-FIT"]));
    let analysis = checker.analysis().as_ref().unwrap();
    assert_eq!(analysis.name, "Vindicator Elite");
    assert!(analysis.downgraded.is_empty());
}

#[test]
fn upgrades_alone_are_rejected_under_antigank() {
    let pilot = Pilot::new();
    let data = pilot.data();
    let fitting = fit(VINDICATOR, &[]);
    let none = badges(&[]);
    let known = ids();
    let mut diff = no_diff();
    diff.module_upgraded = swap(500, 501, 2);
    let mut checker = FitChecker::new(&data, &fitting, &none, &known);
    checker.check_fit(doctrine("Vindicator Elite Antigank", diff));
    assert!(!checker.approved());
    assert!(tags_of(&checker, &["ANTIGANK"]));
    let analysis = checker.analysis().as_ref().unwrap();
    assert_eq!(analysis.downgraded, swap(500, 501, 2));
}

#[test]
fn antigank_upgrade_replaces_downgrade_of_same_module() {
    let pilot = Pilot::new();
    let data = pilot.data();
    let fitting = fit(VINDICATOR, &[]);
    let none = badges(&[]);
    let known = ids();
    let mut diff = no_diff();
    diff.module_downgraded = swap(500, 499, 1);
    diff.module_downgraded.insert(600, BTreeMap::new());
    diff.module_upgraded = swap(500, 501, 2);
    let mut checker = FitChecker::new(&data, &fitting, &none, &known);
    checker.check_fit(doctrine("Antigank Starter", diff));
    let mut expected = swap(500, 501, 2);
    expected.insert(600, BTreeMap::new());
    assert_eq!(checker.analysis().as_ref().unwrap().downgraded, expected);
    assert!(tags_of(&checker, &["ANTIGANK", "STARTER-FIT"]));
}

#[test]
fn missing_cargo_blocks_but_keeps_the_elite_fit() {
    let pilot = Pilot::new();
    let data = pilot.data();
    let fitting = fit(VINDICATOR, &[]);
    let none = badges(&[]);
    let known = ids();
    let mut diff = no_diff();
    diff.cargo_missing.insert(700, 3);
    diff.module_extra.insert(701, 1);
    let mut checker = FitChecker::new(&data, &fitting, &none, &known);
    checker.check_fit(doctrine("Vindicator Elite", diff));
    assert!(!checker.approved());
    assert!(tags_of(&checker, &["ELITE-FIT"]));
    let analysis = checker.analysis().as_ref().unwrap();
    assert_eq!(analysis.cargo_missing.get(&700), Some(&3));
    assert_eq!(analysis.extra.get(&701), Some(&1));
    assert!(analysis.missing.is_empty());
}

#[test]
fn web_specialist_is_elite_fit_even_when_rejected() {
    let pilot = Pilot::new();
    let data = pilot.data();
    let fitting = fit(VINDICATOR, &[]);
    let none = badges(&[]);
    let known = ids();
    let mut diff = no_diff();
    diff.module_missing.insert(800, 1);
    let mut checker = FitChecker::new(&data, &fitting, &none, &known);
    checker.check_fit(doctrine("Vindicator Web Specialist", diff));
    assert!(!checker.approved());
    assert!(tags_of(&checker, &["ELITE-FIT"]));

    let mut diff = no_diff();
    diff.module_missing.insert(800, 1);
    let mut checker = FitChecker::new(&data, &fitting, &none, &known);
    checker.check_fit(doctrine("Vindicator Elite", diff));
    assert!(!checker.approved());
    assert!(tags_of(&checker, &[]));
}

#[test]
fn doctrine_names_are_case_sensitive() {
    let pilot = Pilot::new();
    let data = pilot.data();
    let fitting = fit(VINDICATOR, &[]);
    let none = badges(&[]);
    let known = ids();
    let mut checker = FitChecker::new(&data, &fitting, &none, &known);
    checker.check_fit(doctrine("vindicator elite starter antigank", no_diff()));
    assert!(checker.approved());
    assert!(tags_of(&checker, &[]));
}

// ---- secondary requirements -----------------------------------------------------------

#[test]
fn compensation_level_four_without_a_doctrine() {
    let pilot = Pilot::new().comps(4).trained(KINETIC_COMP, 3);
    let data = pilot.data();
    let fitting = fit(VINDICATOR, &[]);
    let none = badges(&[]);
    let known = ids();
    let mut checker = FitChecker::new(&data, &fitting, &none, &known);
    checker.check_fit_reqs();
    let expected = vec!["Missing Armor Compensation skills: level 4 required".to_string()];
    assert_eq!(checker.errors(), &expected);
    assert!(checker.approved());
}

#[test]
fn compensation_level_two_for_starter_fits() {
    let known = ids();
    let none = badges(&[]);
    let fitting = fit(NIGHTMARE, &[]);
    for (name, level, expected) in [
        ("Nightmare Starter", 2, None),
        ("Nightmare Starter", 1, Some("Missing Armor Compensation skills: level 2 required")),
        ("Nightmare Basic", 2, None),
        ("Nightmare Basic", 1, Some("Missing Armor Compensation skills: level 2 required")),
        ("Nightmare Basic Amulet", 3, Some("Missing Armor Compensation skills: level 4 required")),
        ("Nightmare Elite", 4, None),
        ("Nightmare Elite", 3, Some("Missing Armor Compensation skills: level 4 required")),
    ] {
        let pilot = Pilot::new().comps(level);
        let data = pilot.data();
        let mut checker = FitChecker::new(&data, &fitting, &none, &known);
        checker.check_fit(doctrine(name, no_diff()));
        checker.check_fit_reqs();
        let noted: Vec<&str> = checker.errors().iter().map(|e| e.as_str()).collect();
        let wanted: Vec<&str> = expected.into_iter().collect();
        assert_eq!(noted, wanted, "{} at level {}", name, level);
    }
}

#[test]
fn bastion_module_asks_for_tank_skills() {
    let pilot = Pilot::new().comps(5).trained(HULL_UPGRADES, 4).trained(MECHANICS, 3);
    let data = pilot.data();
    let none = badges(&[]);
    let known = ids();
    let fitting = fit(KRONOS, &[(BASTION_MODULE, 1)]);
    let mut checker = FitChecker::new(&data, &fitting, &none, &known);
    checker.check_fit_reqs();
    let expected = vec![
        "Missing tank skill: Hull Upgrades 5 required".to_string(),
        "Missing tank skill: Mechanics 4 required".to_string(),
    ];
    assert_eq!(checker.errors(), &expected);

    let unfitted = fit(KRONOS, &[(BASTION_MODULE, 0)]);
    let mut checker = FitChecker::new(&data, &unfitted, &none, &known);
    checker.check_fit_reqs();
    assert!(checker.errors().is_empty());

    let skilled = Pilot::new().comps(5).trained(HULL_UPGRADES, 5).trained(MECHANICS, 4);
    let data = skilled.data();
    let mut checker = FitChecker::new(&data, &fitting, &none, &known);
    checker.check_fit_reqs();
    assert!(checker.errors().is_empty());
}

// ---- implants -------------------------------------------------------------------------

fn implant_errors(name: &str, base_set: Option<&str>, implants: &[i32]) -> Vec<String> {
    let pilot = Pilot::new().wearing(implants);
    let data = pilot.data();
    let fitting = fit(VINDICATOR, &[]);
    let none = badges(&[]);
    let known = ids();
    let mut checker = FitChecker::new(&data, &fitting, &none, &known);
    checker.check_fit(doctrine(name, no_diff()));
    checker.check_fit_implants_reqs(base_set);
    assert!(checker.approved());
    checker.errors().clone()
}

#[test]
fn ascendancy_fit_asks_for_warpspeed() {
    let wanted = vec!["Missing required implants to fly Ascendancy fit".to_string()];
    assert_eq!(implant_errors("Vindicator Ascendancy", None, &[]), wanted);
    assert_eq!(implant_errors("Vindicator Ascendancy", Some("AMULET"), &AMULETS), wanted);
    assert!(implant_errors("Vindicator Ascendancy", Some("WARPSPEED"), &[]).is_empty());
    assert!(implant_errors("Vindicator Ascendancy", Some("SAVIOR"), &[]).is_empty());
}

#[test]
fn amulet_fit_asks_for_the_set_or_all_five() {
    let wanted = vec!["Missing required implants to fly Amulet fit".to_string()];
    assert_eq!(implant_errors("Vindicator Amulet", None, &[]), wanted);
    assert_eq!(implant_errors("Vindicator Amulet", Some("HYBRID"), &AMULETS[..4]), wanted);
    assert!(implant_errors("Vindicator Amulet", Some("HYBRID"), &AMULETS).is_empty());
    assert!(implant_errors("Vindicator Amulet", Some("AMULET"), &[]).is_empty());
    assert!(implant_errors("Vindicator Amulet", Some("SAVIOR"), &[]).is_empty());
    assert!(implant_errors("Vindicator Elite", None, &[]).is_empty());
}

#[test]
fn no_implant_error_without_a_doctrine() {
    let pilot = Pilot::new();
    let data = pilot.data();
    let fitting = fit(VINDICATOR, &[]);
    let none = badges(&[]);
    let known = ids();
    let mut checker = FitChecker::new(&data, &fitting, &none, &known);
    checker.check_fit_implants_reqs(None);
    assert!(checker.errors().is_empty());
}

#[test]
fn nestor_without_its_implant_is_blocked() {
    let known = ids();
    let none = badges(&[]);
    let nestor = fit(NESTOR, &[]);
    let bare = Pilot::new();
    let data = bare.data();
    let mut checker = FitChecker::new(&data, &nestor, &none, &known);
    checker.check_logi_implants();
    assert!(!checker.approved());
    assert!(tags_of(&checker, &["NO-EM-806"]));

    let wearing = Pilot::new().wearing(&[EM_806]);
    let data = wearing.data();
    let mut checker = FitChecker::new(&data, &nestor, &none, &known);
    checker.check_logi_implants();
    assert!(checker.approved());
    assert!(tags_of(&checker, &[]));

    let oneiros = fit(ONEIROS, &[]);
    let data = bare.data();
    let mut checker = FitChecker::new(&data, &oneiros, &none, &known);
    checker.check_logi_implants();
    assert!(checker.approved());
}

// ---- category -------------------------------------------------------------------------

#[test]
fn starter_fit_in_logi_keeps_category_and_loses_approval() {
    let pilot = Pilot::new();
    let data = pilot.data();
    let fitting = fit(NESTOR, &[]);
    let none = badges(&[]);
    let known = ids();
    let mut checker = FitChecker::new(&data, &fitting, &none, &known);
    checker.check_fit(doctrine("Nestor Starter", no_diff()));
    assert!(checker.approved());
    checker.set_category(Some("logi".to_string()));
    assert!(!checker.approved());
    assert_eq!(checker.category(), &Some("logi".to_string()));
}

#[test]
fn starters_are_moved_to_the_starter_category() {
    let pilot = Pilot::new();
    let data = pilot.data();
    let fitting = fit(VINDICATOR, &[]);
    let none = badges(&[]);
    let known = ids();
    let mut checker = FitChecker::new(&data, &fitting, &none, &known);
    checker.check_fit(doctrine("Vindicator Starter", no_diff()));
    checker.set_category(Some("cqc".to_string()));
    assert!(checker.approved());
    assert_eq!(checker.category(), &Some("starter".to_string()));
}

#[test]
fn category_defaults_to_starter() {
    let pilot = Pilot::new();
    let data = pilot.data();
    let fitting = fit(VINDICATOR, &[]);
    let none = badges(&[]);
    let known = ids();
    let mut checker = FitChecker::new(&data, &fitting, &none, &known);
    checker.set_category(None);
    assert_eq!(checker.category(), &Some("starter".to_string()));
    let mut checker = FitChecker::new(&data, &fitting, &none, &known);
    checker.set_category(Some("sniper".to_string()));
    assert_eq!(checker.category(), &Some("sniper".to_string()));
    assert!(checker.approved());
}

// ---- badges ---------------------------------------------------------------------------

#[test]
fn commander_key_wins_over_trainee_key() {
    let known = ids();
    let none = badges(&[]);
    let fitting = fit(MEGATHRON, &[]);
    let both = Pilot::new().with_key("waitlist-tag:TRAINEE").with_key("waitlist-tag:HQ-FC");
    let data = both.data();
    let mut checker = FitChecker::new(&data, &fitting, &none, &known);
    checker.add_snowflake_tags();
    assert!(tags_of(&checker, &["HQ-FC"]));

    let trainee = Pilot::new().with_key("waitlist-tag:TRAINEE").with_key("HQ-FC");
    let data = trainee.data();
    let mut checker = FitChecker::new(&data, &fitting, &none, &known);
    checker.add_snowflake_tags();
    assert!(tags_of(&checker, &["TRAINEE"]));
}

#[test]
fn specialist_tags_need_hull_and_badge() {
    let known = ids();
    let pilot = Pilot::new();
    let data = pilot.data();
    let all = badges(&["LOGI", "RETIRED-LOGI", "WEB", "BASTION"]);
    let cases: [(i32, &[&str]); 6] = [
        (NESTOR, &["LOGI", "RETIRED-LOGI"]),
        (VINDICATOR, &["WEB-SPECIALIST"]),
        (KRONOS, &["BASTION-SPECIALIST"]),
        (PALADIN, &["BASTION-SPECIALIST"]),
        (ONEIROS, &[]),
        (NIGHTMARE, &[]),
    ];
    for (hull, expected) in cases {
        let fitting = fit(hull, &[]);
        let mut checker = FitChecker::new(&data, &fitting, &all, &known);
        checker.add_snowflake_tags();
        assert!(tags_of(&checker, expected), "hull {}", hull);
    }
    let none = badges(&["web", "Bastion"]);
    for hull in [NESTOR, VINDICATOR, KRONOS] {
        let fitting = fit(hull, &[]);
        let mut checker = FitChecker::new(&data, &fitting, &none, &known);
        checker.add_snowflake_tags();
        assert!(tags_of(&checker, &[]));
    }
}

// ---- implant tag ----------------------------------------------------------------------

fn implant_tag(name: Option<&str>, hull: i32, set: Option<&str>, slot10: bool) -> Vec<String> {
    let pilot = Pilot::new();
    let data = pilot.data();
    let fitting = fit(hull, &[]);
    let none = badges(&[]);
    let known = ids();
    let mut checker = FitChecker::new(&data, &fitting, &none, &known);
    if let Some(name) = name {
        checker.check_fit(doctrine(name, no_diff()));
    }
    let before = checker.tags().len();
    checker.add_implant_tag(set, slot10);
    let mut found = Vec::new();
    for tag in ["SAVIOR", "AMULET", "WARPSPEED", "HYBRID", "NO-SLOT10"] {
        if checker.has_tag(tag) {
            found.push(tag.to_string());
        }
    }
    assert_eq!(checker.tags().len(), before + found.len());
    found
}

#[test]
fn implant_set_is_shown_where_the_doctrine_names_it() {
    // The doctrine names the set in title case; the tag itself is in upper case.
    assert_eq!(implant_tag(Some("Vindicator Amulet"), VINDICATOR, Some("AMULET"), true), ["AMULET"]);
    assert_eq!(
        implant_tag(Some("Vindicator Amulet"), VINDICATOR, Some("AMULET"), false),
        ["AMULET", "NO-SLOT10"]
    );
    assert_eq!(implant_tag(Some("Vindicator Hybrid"), VINDICATOR, Some("HYBRID"), true), ["HYBRID"]);
    assert!(implant_tag(Some("Vindicator Elite"), VINDICATOR, Some("AMULET"), true).is_empty());
    assert!(implant_tag(Some("Vindicator AMULET"), VINDICATOR, Some("AMULET"), true).is_empty());
}

#[test]
fn warpspeed_is_shown_on_every_fit_but_amulet_ones() {
    assert_eq!(
        implant_tag(Some("Vindicator Elite"), VINDICATOR, Some("WARPSPEED"), true),
        ["WARPSPEED"]
    );
    assert!(implant_tag(Some("Vindicator Amulet"), VINDICATOR, Some("WARPSPEED"), true).is_empty());
}

#[test]
fn logistics_cruiser_shows_any_set() {
    assert_eq!(implant_tag(Some("Oneiros Elite"), ONEIROS, Some("AMULET"), true), ["AMULET"]);
    assert_eq!(
        implant_tag(Some("Oneiros Amulet"), ONEIROS, Some("WARPSPEED"), false),
        ["WARPSPEED", "NO-SLOT10"]
    );
}

#[test]
fn savior_is_always_shown_and_never_warns() {
    assert_eq!(implant_tag(Some("Vindicator Elite"), VINDICATOR, Some("SAVIOR"), false), ["SAVIOR"]);
}

#[test]
fn no_implant_tag_without_doctrine_or_set() {
    assert!(implant_tag(None, ONEIROS, Some("SAVIOR"), true).is_empty());
    assert!(implant_tag(Some("Oneiros Elite"), ONEIROS, None, false).is_empty());
}

#[test]
fn implant_tag_shown_takes_the_titled_name() {
    assert!(implant_tag_shown("Vindicator Amulet", "AMULET", "Amulet", false));
    assert!(!implant_tag_shown("Vindicator Amulet", "AMULET", "AMULET", false));
    assert!(implant_tag_shown("Vindicator Elite", "WARPSPEED", "Warpspeed", false));
    assert!(!implant_tag_shown("Vindicator Amulet", "WARPSPEED", "Warpspeed", false));
    assert!(implant_tag_shown("Vindicator Amulet", "WARPSPEED", "Warpspeed", true));
    assert!(!implant_tag_shown("Vindicator Elite", "HYBRID", "Hybrid", false));
}

// ---- war status -----------------------------------------------------------------------

#[test]
fn war_tags_follow_the_report() {
    let pilot = Pilot::new();
    let data = pilot.data();
    let fitting = fit(VINDICATOR, &[]);
    let none = badges(&[]);
    let known = ids();
    let cases: [(bool, bool, &[&str]); 4] = [
        (false, false, &[]),
        (true, false, &["AT-WAR"]),
        (false, true, &["FACTION-WAR"]),
        (true, true, &["AT-WAR", "FACTION-WAR"]),
    ];
    for (active_war, faction_war, expected) in cases {
        let mut checker = FitChecker::new(&data, &fitting, &none, &known);
        checker.add_war_tags(Some(WarStatus { active_war, faction_war }));
        assert!(tags_of(&checker, expected));
        assert!(checker.approved());
    }
}

#[test]
fn failed_war_lookup_sets_no_tag() {
    let pilot = Pilot::new();
    let data = pilot.data();
    let fitting = fit(VINDICATOR, &[]);
    let none = badges(&[]);
    let known = ids();
    let mut checker = FitChecker::new(&data, &fitting, &none, &known);
    checker.add_war_tags(None);
    assert!(tags_of(&checker, &[]));
    assert!(checker.approved());
    assert!(checker.errors().is_empty());
}

// ---- merge ----------------------------------------------------------------------------

fn merged(tags: &[&str]) -> TagSet {
    let mut set = tag_set(tags);
    merge(&mut set);
    set
}

#[test]
fn elite_fit_skills_and_implants_make_elite() {
    for implants in ["WARPSPEED", "HYBRID", "AMULET", "SAVIOR"] {
        let set = merged(&["ELITE-FIT", "ELITE-SKILLS", implants, "LOGI"]);
        assert!(holds_exactly(&set, &["ELITE", implants, "LOGI"]));
    }
}

#[test]
fn elite_needs_implants() {
    let set = merged(&["ELITE-FIT", "ELITE-SKILLS", "NO-SLOT10"]);
    assert!(holds_exactly(&set, &["ELITE-FIT", "ELITE-SKILLS", "NO-SLOT10"]));
    let set = merged(&["ELITE-SKILLS", "AMULET"]);
    assert!(holds_exactly(&set, &["ELITE-SKILLS", "AMULET"]));
}

#[test]
fn specialist_takes_the_place_of_elite() {
    let set = merged(&["ELITE-FIT", "ELITE-SKILLS", "AMULET", "BASTION-SPECIALIST"]);
    assert!(holds_exactly(&set, &["BASTION", "AMULET"]));
    let set = merged(&["ELITE-FIT", "ELITE-SKILLS", "AMULET", "WEB-SPECIALIST"]);
    assert!(holds_exactly(&set, &["WEB", "AMULET"]));
    let set =
        merged(&["ELITE-FIT", "ELITE-SKILLS", "AMULET", "WEB-SPECIALIST", "BASTION-SPECIALIST"]);
    assert!(holds_exactly(&set, &["BASTION", "WEB-SPECIALIST", "AMULET"]));
}

#[test]
fn gold_skills_make_elite_gold_and_keep_it() {
    let set = merged(&["ELITE-FIT", "GOLD-SKILLS", "WARPSPEED"]);
    assert!(holds_exactly(&set, &["ELITE-GOLD", "WARPSPEED"]));
    let set = merged(&["ELITE-FIT", "GOLD-SKILLS", "WARPSPEED", "WEB-SPECIALIST"]);
    assert!(holds_exactly(&set, &["ELITE-GOLD", "WEB", "WARPSPEED"]));
    let set = merged(&["ELITE-FIT", "GOLD-SKILLS", "WARPSPEED", "BASTION-SPECIALIST"]);
    assert!(holds_exactly(&set, &["ELITE-GOLD", "BASTION", "WARPSPEED"]));
}

#[test]
fn elite_skills_come_before_gold_skills() {
    let set = merged(&["ELITE-FIT", "ELITE-SKILLS", "GOLD-SKILLS", "SAVIOR"]);
    assert!(holds_exactly(&set, &["ELITE", "GOLD-SKILLS", "SAVIOR"]));
}

#[test]
fn antigank_drops_the_elite_fit() {
    let set = merged(&["ELITE-FIT", "ANTIGANK", "ELITE-SKILLS"]);
    assert!(holds_exactly(&set, &["ANTIGANK", "ELITE-SKILLS"]));
    let set = merged(&["ELITE-FIT", "ANTIGANK", "ELITE-SKILLS", "AMULET"]);
    assert!(holds_exactly(&set, &["ANTIGANK", "ELITE", "AMULET"]));
}

#[test]
fn starter_signals_collapse_into_one_badge() {
    let set = merged(&["STARTER-SKILLS", "STARTER-FIT", "TRAINEE"]);
    assert!(holds_exactly(&set, &["STARTER", "TRAINEE"]));
    let set = merged(&["STARTER-FIT"]);
    assert!(holds_exactly(&set, &["STARTER"]));
    let set = merged(&["STARTER-SKILLS", "AMULET"]);
    assert!(holds_exactly(&set, &["STARTER", "AMULET"]));
    let set = merged(&["GOLD-SKILLS"]);
    assert!(holds_exactly(&set, &["GOLD-SKILLS"]));
}

#[test]
fn starter_badge_waits_behind_the_other_two_rules() {
    let set = merged(&["STARTER-SKILLS", "ANTIGANK"]);
    assert!(holds_exactly(&set, &["STARTER-SKILLS", "ANTIGANK"]));
    let set = merged(&["STARTER-SKILLS", "ELITE-FIT"]);
    assert!(holds_exactly(&set, &["STARTER", "ELITE-FIT"]));
    let set = merged(&["STARTER-SKILLS", "ELITE-FIT", "HYBRID"]);
    assert!(holds_exactly(&set, &["STARTER-SKILLS", "ELITE-FIT", "HYBRID"]));
}

#[test]
fn merging_twice_is_merging_once() {
    let inputs: [&[&str]; 8] = [
        &[],
        &["ELITE-FIT", "ELITE-SKILLS", "AMULET", "BASTION-SPECIALIST"],
        &["ELITE-FIT", "GOLD-SKILLS", "WARPSPEED", "WEB-SPECIALIST"],
        &["ELITE-FIT", "ANTIGANK", "STARTER-SKILLS"],
        &["STARTER-SKILLS", "STARTER-FIT"],
        &["ELITE-FIT", "STARTER-FIT"],
        &["ELITE-FIT", "ELITE-SKILLS", "SAVIOR", "ANTIGANK", "STARTER-FIT"],
        &["ELITE", "ELITE-GOLD", "STARTER", "WEB", "BASTION"],
    ];
    for input in inputs {
        let once = merged(input);
        let mut twice = merged(input);
        merge(&mut twice);
        assert_eq!(sorted(once.into_vec()), sorted(twice.into_vec()), "{:?}", input);
    }
}

#[test]
fn second_merge_brings_the_starter_badge_to_an_elite_starter() {
    let mut set = merged(&["ELITE-FIT", "ELITE-SKILLS", "AMULET", "STARTER-FIT"]);
    assert!(holds_exactly(&set, &["ELITE", "AMULET", "STARTER-FIT"]));
    merge(&mut set);
    assert!(holds_exactly(&set, &["ELITE", "AMULET", "STARTER"]));
}

// ---- tenure ---------------------------------------------------------------------------

fn tenure(hull: i32, modules: &[(i32, i64)], seconds: i64, held: &[&str]) -> (bool, Vec<String>) {
    let pilot = Pilot::new().after(seconds);
    let data = pilot.data();
    let fitting = fit(hull, modules);
    let held = badges(held);
    let known = ids();
    let mut checker = FitChecker::new(&data, &fitting, &held, &known);
    checker.check_time_in_fleet();
    let mut found = Vec::new();
    for tag in ["ELITE-HOURS-REACHED", "UPGRADE-HOURS-REACHED"] {
        if checker.has_tag(tag) {
            found.push(tag.to_string());
        }
    }
    assert_eq!(checker.tags().len(), found.len());
    (checker.approved(), found)
}

#[test]
fn logistics_cruiser_reaches_elite_hours_at_105() {
    let (approved, tags) = tenure(ONEIROS, &[], 105 * HOUR, &[]);
    assert!(!approved);
    assert_eq!(tags, ["ELITE-HOURS-REACHED"]);
    let (approved, tags) = tenure(ONEIROS, &[], 104 * HOUR - 1, &[]);
    assert!(approved);
    assert!(tags.is_empty());
    let (approved, tags) = tenure(ONEIROS, &[], 105 * HOUR - 1, &[]);
    assert!(approved);
    assert!(tags.is_empty());
}

#[test]
fn entry_battleships_have_22_hours() {
    for hull in [MEGATHRON, NAVY_APOC] {
        assert_eq!(tenure(hull, &[], 22 * HOUR - 1, &[]), (true, vec![]));
        assert_eq!(
            tenure(hull, &[], 22 * HOUR, &[]),
            (false, vec!["UPGRADE-HOURS-REACHED".to_string()])
        );
    }
    assert_eq!(tenure(NESTOR, &[], 1000 * HOUR, &[]), (true, vec![]));
}

#[test]
fn damage_dealers_by_85_hours_need_a_marauder_or_t2_guns() {
    let upgrade = (false, vec!["UPGRADE-HOURS-REACHED".to_string()]);
    let fine = (true, vec![]);
    assert_eq!(tenure(VINDICATOR, &[], 85 * HOUR - 1, &[]), fine);
    assert_eq!(tenure(VINDICATOR, &[], 85 * HOUR, &[]), upgrade);
    assert_eq!(tenure(NIGHTMARE, &[], 85 * HOUR, &[]), upgrade);
    assert_eq!(tenure(VINDICATOR, &[(T2_BLASTER, 8)], 85 * HOUR, &[]), fine);
    assert_eq!(tenure(NIGHTMARE, &[(T2_LASER, 4)], 85 * HOUR, &[]), fine);
    assert_eq!(tenure(NIGHTMARE, &[(T2_LASER, 0)], 85 * HOUR, &[]), upgrade);
    assert_eq!(tenure(KRONOS, &[], 85 * HOUR, &[]), fine);
    assert_eq!(tenure(PALADIN, &[], 130 * HOUR - 1, &[]), fine);
}

#[test]
fn damage_dealers_by_130_hours_need_the_web_badge_or_t2_guns() {
    let upgrade = (false, vec!["UPGRADE-HOURS-REACHED".to_string()]);
    let fine = (true, vec![]);
    assert_eq!(tenure(VINDICATOR, &[(T2_BLASTER, 8)], 130 * HOUR, &[]), upgrade);
    assert_eq!(tenure(VINDICATOR, &[], 130 * HOUR, &["WEB"]), fine);
    assert_eq!(tenure(VINDICATOR, &[], 130 * HOUR - 1, &[]), upgrade);
    for hull in [KRONOS, PALADIN, NIGHTMARE] {
        assert_eq!(tenure(hull, &[], 130 * HOUR, &[]), upgrade);
        assert_eq!(tenure(hull, &[], 130 * HOUR, &["WEB"]), upgrade);
        assert_eq!(tenure(hull, &[(T2_LASER, 0), (T2_BLASTER, 0)], 130 * HOUR, &[]), upgrade);
        assert_eq!(tenure(hull, &[(T2_LASER, 4)], 130 * HOUR, &[]), fine);
        assert_eq!(tenure(hull, &[(T2_BLASTER, 4)], 130 * HOUR, &[]), fine);
        assert_eq!(tenure(hull, &[(T2_BLASTER, 4)], 220 * HOUR - 1, &[]), fine);
    }
}

#[test]
fn nightmare_with_t2_lasers_at_130_hours_stays_approved() {
    assert_eq!(tenure(NIGHTMARE, &[(T2_LASER, 4)], 130 * HOUR, &[]), (true, vec![]));
}

#[test]
fn first_status_is_the_first_record() {
    let at_war = WarStatus { active_war: true, faction_war: false };
    let in_militia = WarStatus { active_war: false, faction_war: true };
    assert_eq!(first_status(&vec![]), None);
    assert_eq!(first_status(&vec![at_war]), Some(at_war));
    assert_eq!(first_status(&vec![in_militia, at_war]), Some(in_militia));
}

#[test]
fn types_known_fails_as_the_check_does() {
    let types = type_db();
    assert_eq!(types_known(&fit(KRONOS, &[(T2_BLASTER, 4), (T2_LASER, 1)]), &types), Ok(()));
    assert_eq!(types_known(&fit(KRONOS, &[]), &types), Ok(()));
    assert_eq!(
        types_known(&fit(PALADIN, &[(7777, 1)]), &types),
        Err(FitError::UnknownHull(PALADIN))
    );
    assert_eq!(
        types_known(&fit(KRONOS, &[(T2_BLASTER, 4), (7777, 1), (7776, 1)]), &types),
        Err(FitError::UnknownModule(7776))
    );
}

#[test]
fn first_missing_is_the_first_unknown_in_order() {
    let types = type_db();
    assert_eq!(first_missing(&types, &vec![]), None);
    assert_eq!(first_missing(&types, &vec![KRONOS, T2_LASER]), None);
    assert_eq!(first_missing(&types, &vec![KRONOS, 9, T2_LASER, 8]), Some(9));
}

#[test]
fn damage_dealers_reach_elite_hours_at_220() {
    let elite = (false, vec!["ELITE-HOURS-REACHED".to_string()]);
    assert_eq!(tenure(KRONOS, &[(T2_BLASTER, 4)], 220 * HOUR - 1, &[]), (true, vec![]));
    assert_eq!(tenure(KRONOS, &[(T2_BLASTER, 4)], 220 * HOUR, &[]), elite);
    assert_eq!(tenure(VINDICATOR, &[], 220 * HOUR, &["WEB"]), elite);
}

fn run(
    hull: i32,
    modules: &[(i32, i64)],
    held: &[&str],
    pilot: Pilot,
    name: Option<&str>,
    set: Option<&str>,
) -> (bool, Vec<String>, String, Vec<String>) {
    let data = pilot.data();
    let fitting = fit(hull, modules);
    let held = badges(held);
    let known = ids();
    let types = type_db();
    let tables = skill_data();
    let mut found = lookups(&types, &tables);
    found.fit_match = name.and_then(|n| doctrine(n, no_diff()));
    found.base_set = set.map(String::from);
    found.implant_set = set.map(String::from);
    found.slot10 = true;
    found.category = Some("cqc".to_string());
    let out = FitChecker::check(&data, &fitting, &held, &known, found).unwrap();
    assert_eq!(out.analysis.is_some(), name.is_some());
    (out.approved, sorted(out.tags), out.category, out.errors)
}

fn texts(list: &[&str]) -> Vec<String> {
    list.iter().map(|t| t.to_string()).collect()
}

#[test]
fn elite_badge_lifts_the_elite_hours_on_the_logistics_cruiser() {
    let veteran = || Pilot::new().trained(MECHANICS, 4).comps(4).after(500 * HOUR);
    let (approved, tags, category, errors) =
        run(ONEIROS, &[], &[], veteran(), Some("Oneiros Elite"), Some("WARPSPEED"));
    assert!(approved);
    assert_eq!(tags, texts(&["ELITE", "WARPSPEED"]));
    assert_eq!(category, "cqc");
    assert!(errors.is_empty());

    // Without implants the same pilot holds no elite badge.
    let (approved, tags, _, _) = run(ONEIROS, &[], &[], veteran(), Some("Oneiros Elite"), None);
    assert!(!approved);
    assert_eq!(tags, texts(&["ELITE-FIT", "ELITE-HOURS-REACHED", "ELITE-SKILLS"]));
}

#[test]
fn elite_vindicator_still_needs_the_web_badge() {
    let veteran = || Pilot::new().trained(GUNNERY, 5).trained(MECHANICS, 4).comps(4).after(500 * HOUR);
    let (approved, tags, _, errors) =
        run(VINDICATOR, &[], &[], veteran(), Some("Vindicator Elite"), Some("WARPSPEED"));
    assert!(!approved);
    assert_eq!(tags, texts(&["ELITE", "UPGRADE-HOURS-REACHED", "WARPSPEED"]));
    assert!(errors.is_empty());

    let (approved, tags, _, _) =
        run(VINDICATOR, &[], &["WEB"], veteran(), Some("Vindicator Elite"), Some("WARPSPEED"));
    assert!(approved);
    assert_eq!(tags, texts(&["WARPSPEED", "WEB"]));
}

#[test]
fn gold_pilot_becomes_elite_gold() {
    let pilot = Pilot::new().trained(GUNNERY, 5).trained(MECHANICS, 5).comps(5);
    let (approved, tags, category, errors) =
        run(VINDICATOR, &[], &[], pilot, Some("Vindicator Elite Amulet"), Some("AMULET"));
    assert!(approved);
    assert_eq!(tags, texts(&["AMULET", "ELITE-GOLD"]));
    assert_eq!(category, "cqc");
    assert!(errors.is_empty());
}

#[test]
fn unmatched_fit_is_denied_but_judged_to_the_end() {
    let pilot = Pilot::new().trained(GUNNERY, 2).after(85 * HOUR);
    let (approved, tags, category, errors) = run(VINDICATOR, &[], &[], pilot, None, Some("AMULET"));
    assert!(!approved);
    assert_eq!(tags, texts(&["STARTER", "UPGRADE-HOURS-REACHED"]));
    assert_eq!(category, "starter");
    assert_eq!(
        errors,
        texts(&[
            "Missing skills to online/use 'Vindicator'",
            "Missing Armor Compensation skills: level 4 required",
        ])
    );
}

#[test]
fn check_runs_the_rules_in_order() {
    // A starter in a starter fit on the Nestor: flagged for the missing implant, moved
    // to the starter category, and the two starter signals merged into one badge.
    let pilot = Pilot::new().comps(2).with_key("waitlist-tag:TRAINEE");
    let data = pilot.data();
    let fitting = fit(NESTOR, &[]);
    let held = badges(&["LOGI"]);
    let known = ids();
    let types = type_db();
    let tables = skill_data();
    let mut diff = no_diff();
    diff.module_extra.insert(T2_LASER, 1);
    let mut found = lookups(&types, &tables);
    found.fit_match = doctrine("Nestor Starter", diff);
    found.category = Some("cqc".to_string());
    found.war = Some(WarStatus { active_war: true, faction_war: false });
    let out = FitChecker::check(&data, &fitting, &held, &known, found).unwrap();
    assert!(!out.approved);
    assert_eq!(out.tags, texts(&["AT-WAR", "LOGI", "NO-EM-806", "STARTER", "TRAINEE"]));
    assert_eq!(out.category, "starter");
    assert!(out.errors.is_empty());
    let analysis = out.analysis.unwrap();
    assert_eq!(analysis.name, "Nestor Starter");
    assert_eq!(analysis.extra.get(&T2_LASER), Some(&1));
}

#[test]
fn check_fails_on_unknown_types_only() {
    let pilot = Pilot::new();
    let data = pilot.data();
    let held = badges(&[]);
    let known = ids();
    let types = type_db();
    let tables = skill_data();

    let fitting = fit(PALADIN, &[]);
    let out = FitChecker::check(&data, &fitting, &held, &known, lookups(&types, &tables));
    assert_eq!(out.err(), Some(FitError::UnknownHull(PALADIN)));

    let fitting = fit(KRONOS, &[(T2_BLASTER, 4), (7777, 1)]);
    let out = FitChecker::check(&data, &fitting, &held, &known, lookups(&types, &tables));
    assert_eq!(out.err(), Some(FitError::UnknownModule(7777)));

    let fitting = fit(KRONOS, &[(T2_BLASTER, 4)]);
    let out = FitChecker::check(&data, &fitting, &held, &known, lookups(&types, &tables));
    assert!(out.is_ok());
}

#[test]
fn failed_war_lookup_does_not_fail_the_check() {
    let pilot = Pilot::new().trained(GUNNERY, 3).comps(4);
    let (approved, tags, category, errors) =
        run(VINDICATOR, &[], &[], pilot, Some("Vindicator Basic"), None);
    assert!(approved);
    assert!(tags.is_empty());
    assert_eq!(category, "cqc");
    assert!(errors.is_empty());
}

#[test]
fn finish_freezes_the_state() {
    let pilot = Pilot::new();
    let data = pilot.data();
    let fitting = fit(NESTOR, &[]);
    let none = badges(&[]);
    let known = ids();
    let mut checker = FitChecker::new(&data, &fitting, &none, &known);
    checker.check_logi_implants();
    checker.check_fit_reqs();
    checker.set_category(Some("logi".to_string()));
    let out = checker.finish().unwrap();
    assert!(!out.approved);
    assert_eq!(out.tags, texts(&["NO-EM-806"]));
    assert_eq!(out.category, "logi");
    assert_eq!(out.errors, texts(&["Missing Armor Compensation skills: level 4 required"]));
    assert!(out.analysis.is_none());
}
