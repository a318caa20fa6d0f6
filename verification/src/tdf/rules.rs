//! The rules of the fit check as functions on the shared state.
//!
//! Each `after_*` function is one rule: it takes the state that the earlier rules left
//! and says what the state is once the rule has run.

use vstd::prelude::*;
use crate::data::fits::DiffView;
use crate::data::skills::{level_in, meets_tier, SkillData, SkillTier, TieredRequirement};
use crate::tdf::fitcheck::{initial_state, AnalysisView, CheckState, Subject, Verdict};
use crate::text::{is_substring, title_case};
use crate::typedb::{count_in, FitError, KnownTypes, SkillLevel, SkillRequirement, TypeDB, TypeID};

verus! {

// ---------------------------------------------------------------------------------------
// Skill tiers
// ---------------------------------------------------------------------------------------
/// The bracket of skill that a pilot reaches on a hull.
#[derive(Debug, Clone, Copy, PartialEq, Eq, Structural)]
pub enum Bracket {
    Starter,
    Basic,
    Elite,
    Gold,
}

/// A tier is met where the hull has a table and the trained levels meet every line of
/// it that asks something at that tier. A hull without a table meets no tier.
pub open spec fn tier_met(
    levels: Map<TypeID, SkillLevel>,
    table: Option<Seq<TieredRequirement>>,
    tier: SkillTier,
) -> bool {
    match table {
        Some(t) => meets_tier(levels, t, tier),
        None => false,
    }
}

/// The highest bracket whose tier is met; starter where none is.
pub open spec fn bracket_reached(
    levels: Map<TypeID, SkillLevel>,
    table: Option<Seq<TieredRequirement>>,
) -> Bracket {
    if tier_met(levels, table, SkillTier::Gold) {
        Bracket::Gold
    } else if tier_met(levels, table, SkillTier::Elite) {
        Bracket::Elite
    } else if tier_met(levels, table, SkillTier::Min) {
        Bracket::Basic
    } else {
        Bracket::Starter
    }
}

/// The tag that stands for a bracket; basic has none.
pub open spec fn bracket_tag(bracket: Bracket) -> Option<Seq<char>> {
    match bracket {
        Bracket::Starter => Some("STARTER-SKILLS"@),
        Bracket::Basic => None,
        Bracket::Elite => Some("ELITE-SKILLS"@),
        Bracket::Gold => Some("GOLD-SKILLS"@),
    }
}

/// A set of tags with one more tag, or unchanged where there is none to add.
pub open spec fn with_tag(tags: Set<Seq<char>>, tag: Option<Seq<char>>) -> Set<Seq<char>> {
    match tag {
        Some(t) => tags.insert(t),
        None => tags,
    }
}

/// Skill-tier classification: tags the bracket that the pilot reaches on the hull.
/// Fails where the hull is no known type.
pub open spec fn after_skill_reqs(
    s: CheckState,
    who: Subject,
    types: &TypeDB,
    skill_data: &SkillData,
) -> Result<CheckState, FitError> {
    if !types.knows(who.hull) {
        Err(FitError::UnknownHull(who.hull))
    } else {
        let table = skill_data.table_of(types.info(who.hull).name@);
        Ok(CheckState { tags: with_tag(s.tags, bracket_tag(bracket_reached(who.levels, table))), ..s })
    }
}

// ---------------------------------------------------------------------------------------
// Module skills
// ---------------------------------------------------------------------------------------
/// The advisory error for a type that the pilot lacks a skill for.
pub open spec fn missing_skills_message(name: Seq<char>) -> Seq<char> {
    "Missing skills to online/use '"@ + name + "'"@
}

/// One advisory error for each requirement of a type that the trained levels fall short of.
pub open spec fn skill_errors_for(
    name: Seq<char>,
    levels: Map<TypeID, SkillLevel>,
    requirements: Seq<SkillRequirement>,
) -> Seq<Seq<char>>
    decreases requirements.len(),
{
    if requirements.len() == 0 {
        Seq::empty()
    } else {
        let earlier = skill_errors_for(name, levels, requirements.drop_last());
        let last = requirements.last();
        if level_in(levels, last.skill) < last.level {
            earlier.push(missing_skills_message(name))
        } else {
            earlier
        }
    }
}

/// The first of the identifiers that the type database does not know.
pub open spec fn first_unknown(types: &TypeDB, ids: Seq<TypeID>) -> Option<TypeID>
    decreases ids.len(),
{
    if ids.len() == 0 {
        None
    } else {
        match first_unknown(types, ids.drop_last()) {
            Some(id) => Some(id),
            None => if types.knows(ids.last()) {
                None
            } else {
                Some(ids.last())
            },
        }
    }
}

/// Once an unknown identifier has been met, it stays the first.
pub proof fn lemma_first_unknown_stays(types: &TypeDB, ids: Seq<TypeID>, k: int)
    requires
        0 <= k <= ids.len(),
        first_unknown(types, ids.take(k)) is Some,
    ensures
        first_unknown(types, ids) == first_unknown(types, ids.take(k)),
    decreases ids.len() - k,
{
    if k < ids.len() {
        assert(ids.take(k + 1).drop_last() =~= ids.take(k));
        lemma_first_unknown_stays(types, ids, k + 1);
    } else {
        assert(ids.take(k) =~= ids);
    }
}

/// The advisory errors of the fitted modules, module by module in the given order.
/// The hull is skipped: it is judged first, by itself.
pub open spec fn module_skill_errors(
    types: &TypeDB,
    levels: Map<TypeID, SkillLevel>,
    modules: Seq<TypeID>,
    hull: TypeID,
) -> Seq<Seq<char>>
    decreases modules.len(),
{
    if modules.len() == 0 {
        Seq::empty()
    } else {
        let earlier = module_skill_errors(types, levels, modules.drop_last(), hull);
        let id = modules.last();
        if id == hull {
            earlier
        } else {
            earlier + skill_errors_for(
                types.info(id).name@,
                levels,
                types.info(id).skill_requirements@,
            )
        }
    }
}

/// The lookup in the type database that fails first: the hull's, then those of the
/// modules in their order. Nothing else makes an evaluation fail.
pub open spec fn lookup_failure(types: &TypeDB, hull: TypeID, modules: Seq<TypeID>) -> Option<
    FitError,
> {
    if !types.knows(hull) {
        Some(FitError::UnknownHull(hull))
    } else {
        match first_unknown(types, modules) {
            Some(id) => Some(FitError::UnknownModule(id)),
            None => None,
        }
    }
}

/// Where no lookup fails, every identifier is known.
pub proof fn lemma_all_known(types: &TypeDB, ids: Seq<TypeID>)
    requires
        first_unknown(types, ids) is None,
    ensures
        forall|k: int| 0 <= k < ids.len() ==> types.knows(#[trigger] ids[k]),
    decreases ids.len(),
{
    if ids.len() > 0 {
        lemma_all_known(types, ids.drop_last());
        assert forall|k: int| 0 <= k < ids.len() implies types.knows(#[trigger] ids[k]) by {
            if k < ids.len() - 1 {
                assert(ids.drop_last()[k] == ids[k]);
            }
        }
    }
}

/// Module-skill verification: for the hull and every fitted module type, one advisory
/// error per requirement that the pilot does not meet. Fails, with the state untouched,
/// where the hull or a module is no known type.
pub open spec fn after_module_skills(s: CheckState, who: Subject, types: &TypeDB) -> Result<
    CheckState,
    FitError,
> {
    if !types.knows(who.hull) {
        Err(FitError::UnknownHull(who.hull))
    } else {
        match first_unknown(types, who.module_order) {
            Some(id) => Err(FitError::UnknownModule(id)),
            None => Ok(
                CheckState {
                    errors: s.errors + skill_errors_for(
                        types.info(who.hull).name@,
                        who.levels,
                        types.info(who.hull).skill_requirements@,
                    ) + module_skill_errors(types, who.levels, who.module_order, who.hull),
                    ..s
                },
            ),
        }
    }
}

// ---------------------------------------------------------------------------------------
// Doctrine fit
// ---------------------------------------------------------------------------------------
/// The downgrades that count against a fit. Under an antigank doctrine every upgrade
/// counts as a downgrade too.
pub open spec fn judged_downgrades(name: Seq<char>, diff: DiffView) -> Map<
    TypeID,
    Map<TypeID, i64>,
> {
    if is_substring(name, "Antigank"@) {
        diff.downgraded.union_prefer_right(diff.upgraded)
    } else {
        diff.downgraded
    }
}

/// The modules are acceptable: none is missing and none counts as downgraded.
pub open spec fn modules_acceptable(name: Seq<char>, diff: DiffView) -> bool {
    judged_downgrades(name, diff).is_empty() && diff.missing.is_empty()
}

/// The fit is acceptable: its modules are, and the cargo is complete.
pub open spec fn fit_acceptable(name: Seq<char>, diff: DiffView) -> bool {
    diff.cargo_missing.is_empty() && modules_acceptable(name, diff)
}

/// The tags that a matched doctrine fit gives.
pub open spec fn doctrine_tags(tags: Set<Seq<char>>, name: Seq<char>, diff: DiffView) -> Set<
    Seq<char>,
> {
    let t1 = if is_substring(name, "Antigank"@) {
        tags.insert("ANTIGANK"@)
    } else {
        tags
    };
    let t2 = if is_substring(name, "Starter"@) {
        t1.insert("STARTER-FIT"@)
    } else {
        t1
    };
    if modules_acceptable(name, diff) && is_substring(name, "Elite"@) || is_substring(
        name,
        "Web Specialist"@,
    ) {
        t2.insert("ELITE-FIT"@)
    } else {
        t2
    }
}

/// The diff as it is shown to the public: without the upgrades, but with those that an
/// antigank doctrine counts as downgrades.
pub open spec fn public_analysis(name: Seq<char>, diff: DiffView) -> AnalysisView {
    AnalysisView {
        name,
        missing: diff.missing,
        extra: diff.extra,
        cargo_missing: diff.cargo_missing,
        downgraded: judged_downgrades(name, diff),
    }
}

/// Reference-fit matching: without a match the approval is cleared and nothing else
/// changes; with one, the fit is judged, tagged and its diff kept.
pub open spec fn after_fit(s: CheckState, found: Option<(Seq<char>, DiffView)>) -> CheckState {
    match found {
        None => CheckState { approved: false, ..s },
        Some((name, diff)) => CheckState {
            approved: s.approved && fit_acceptable(name, diff),
            doctrine_fit: Some(name),
            tags: doctrine_tags(s.tags, name, diff),
            analysis: Some(public_analysis(name, diff)),
            ..s
        },
    }
}

// ---------------------------------------------------------------------------------------
// Secondary fit requirements
// ---------------------------------------------------------------------------------------
/// The armor compensation level that a doctrine fit asks for.
pub open spec fn compensation_needed(doctrine_fit: Option<Seq<char>>) -> SkillLevel {
    match doctrine_fit {
        Some(name) => if is_substring(name, "Starter"@) || name == "Nightmare Basic"@ {
            2
        } else {
            4
        },
        None => 4,
    }
}

/// The smaller of two levels.
pub open spec fn lower(a: SkillLevel, b: SkillLevel) -> SkillLevel {
    if a <= b {
        a
    } else {
        b
    }
}

/// The pilot's worst armor compensation skill.
pub open spec fn compensation_trained(levels: Map<TypeID, SkillLevel>, ids: KnownTypes) -> SkillLevel {
    lower(
        lower(
            level_in(levels, ids.em_armor_compensation),
            level_in(levels, ids.thermal_armor_compensation),
        ),
        lower(
            level_in(levels, ids.kinetic_armor_compensation),
            level_in(levels, ids.explosive_armor_compensation),
        ),
    )
}

/// The advisory error for armor compensation skills below the level asked.
pub open spec fn compensation_message(needed: SkillLevel) -> Seq<char> {
    if needed == 2 {
        "Missing Armor Compensation skills: level 2 required"@
    } else {
        "Missing Armor Compensation skills: level 4 required"@
    }
}

/// A list of errors with one more, where the condition holds.
pub open spec fn noting(errors: Seq<Seq<char>>, when: bool, message: Seq<char>) -> Seq<Seq<char>> {
    if when {
        errors.push(message)
    } else {
        errors
    }
}

/// Secondary fit requirements: advisory errors for armor compensation skills below the
/// level that the doctrine asks, and for the two tank skills of a fitted bastion module.
pub open spec fn after_fit_reqs(s: CheckState, who: Subject) -> CheckState {
    let needed = compensation_needed(s.doctrine_fit);
    let e1 = noting(
        s.errors,
        compensation_trained(who.levels, who.ids) < needed,
        compensation_message(needed),
    );
    let bastion = count_in(who.modules, who.ids.bastion_module) > 0;
    let e2 = noting(
        e1,
        bastion && level_in(who.levels, who.ids.hull_upgrades) < 5,
        "Missing tank skill: Hull Upgrades 5 required"@,
    );
    let e3 = noting(
        e2,
        bastion && level_in(who.levels, who.ids.mechanics) < 4,
        "Missing tank skill: Mechanics 4 required"@,
    );
    CheckState { errors: e3, ..s }
}

// ---------------------------------------------------------------------------------------
// Implants
// ---------------------------------------------------------------------------------------
/// All five high-grade Amulet implants are worn.
pub open spec fn wears_all_amulets(implants: Seq<TypeID>, ids: KnownTypes) -> bool {
    &&& implants.contains(ids.amulet_alpha)
    &&& implants.contains(ids.amulet_beta)
    &&& implants.contains(ids.amulet_delta)
    &&& implants.contains(ids.amulet_epsilon)
    &&& implants.contains(ids.amulet_gamma)
}

/// The text of an implant set that may have gone undetected: empty where none was found.
pub open spec fn set_text(set: Option<Seq<char>>) -> Seq<char> {
    match set {
        Some(t) => t,
        None => Seq::empty(),
    }
}

/// The implant family that the doctrine fit asks for and the pilot does not wear.
pub open spec fn implants_lacking(
    name: Seq<char>,
    base_set: Option<Seq<char>>,
    implants: Seq<TypeID>,
    ids: KnownTypes,
) -> Option<Seq<char>> {
    let set = set_text(base_set);
    if set == "SAVIOR"@ {
        None
    } else if is_substring(name, "Ascendancy"@) && set != "WARPSPEED"@ {
        Some("Ascendancy"@)
    } else if is_substring(name, "Amulet"@) && set != "AMULET"@ && !wears_all_amulets(
        implants,
        ids,
    ) {
        Some("Amulet"@)
    } else {
        None
    }
}

/// The advisory error for an implant family that is asked for and not worn.
pub open spec fn implants_message(family: Seq<char>) -> Seq<char> {
    "Missing required implants to fly "@ + family + " fit"@
}

/// Implant-set compliance: one advisory error where the matched doctrine fit asks for
/// an implant family that the pilot does not wear.
pub open spec fn after_fit_implants_reqs(
    s: CheckState,
    who: Subject,
    base_set: Option<Seq<char>>,
) -> CheckState {
    match s.doctrine_fit {
        Some(name) => match implants_lacking(name, base_set, who.implants, who.ids) {
            Some(family) => CheckState { errors: s.errors.push(implants_message(family)), ..s },
            None => s,
        },
        None => s,
    }
}

/// The hull that cannot fly without its implant is flown without it.
pub open spec fn lacks_mandatory_implant(who: Subject) -> bool {
    who.hull == who.ids.nestor && !who.implants.contains(who.ids.em_806)
}

/// Hull-specific mandatory implant: its absence clears the approval and is tagged.
pub open spec fn after_logi_implants(s: CheckState, who: Subject) -> CheckState {
    if lacks_mandatory_implant(who) {
        CheckState { approved: false, tags: s.tags.insert("NO-EM-806"@), ..s }
    } else {
        s
    }
}

// ---------------------------------------------------------------------------------------
// Category
// ---------------------------------------------------------------------------------------
/// The pilot counts as a starter, by skills or by fit.
pub open spec fn is_starter(tags: Set<Seq<char>>) -> bool {
    tags.contains("STARTER-SKILLS"@) || tags.contains("STARTER-FIT"@)
}

/// The category that the classifier found, or starter where it found none.
pub open spec fn classified(category: Option<Seq<char>>) -> Seq<char> {
    match category {
        Some(c) => c,
        None => "starter"@,
    }
}

/// Category assignment: starters go to the starter category, except that a starter
/// in a logi fit keeps the category and loses the approval.
pub open spec fn after_category(s: CheckState, category: Option<Seq<char>>) -> CheckState {
    let found = classified(category);
    if is_starter(s.tags) {
        if found == "logi"@ {
            CheckState { approved: false, category: Some(found), ..s }
        } else {
            CheckState { category: Some("starter"@), ..s }
        }
    } else {
        CheckState { category: Some(found), ..s }
    }
}

// ---------------------------------------------------------------------------------------
// Badges
// ---------------------------------------------------------------------------------------
/// The tag that the pilot's access keys give: commander before trainee, at most one.
pub open spec fn access_tag(access_keys: Seq<Seq<char>>) -> Option<Seq<char>> {
    if access_keys.contains("waitlist-tag:HQ-FC"@) {
        Some("HQ-FC"@)
    } else if access_keys.contains("waitlist-tag:TRAINEE"@) {
        Some("TRAINEE"@)
    } else {
        None
    }
}

/// A set of tags with one more, where the condition holds.
pub open spec fn tagging(tags: Set<Seq<char>>, when: bool, tag: Seq<char>) -> Set<Seq<char>> {
    if when {
        tags.insert(tag)
    } else {
        tags
    }
}

/// Snowflake tags: the access-key tag, and the specialist tags that a badge gives on
/// the hull that it belongs to.
pub open spec fn after_snowflake_tags(s: CheckState, who: Subject) -> CheckState {
    let t0 = with_tag(s.tags, access_tag(who.access_keys));
    let on_nestor = who.hull == who.ids.nestor;
    let t1 = tagging(t0, on_nestor && who.badges.contains("LOGI"@), "LOGI"@);
    let t2 = tagging(t1, on_nestor && who.badges.contains("RETIRED-LOGI"@), "RETIRED-LOGI"@);
    let t3 = tagging(
        t2,
        who.hull == who.ids.vindicator && who.badges.contains("WEB"@),
        "WEB-SPECIALIST"@,
    );
    let t4 = tagging(
        t3,
        (who.hull == who.ids.kronos || who.hull == who.ids.paladin) && who.badges.contains(
            "BASTION"@,
        ),
        "BASTION-SPECIALIST"@,
    );
    CheckState { tags: t4, ..s }
}

// ---------------------------------------------------------------------------------------
// Implant tag
// ---------------------------------------------------------------------------------------
/// Whether a detected implant set other than savior is shown on a fit: the doctrine's
/// name holds the set's name in title case, or the set is warpspeed and the doctrine no
/// Amulet one, or the hull is the logistics cruiser, which may wear any set.
pub open spec fn set_shown(
    name: Seq<char>,
    set: Seq<char>,
    titled: Seq<char>,
    on_logi_cruiser: bool,
) -> bool {
    ||| is_substring(name, titled)
    ||| (set == "WARPSPEED"@ && !is_substring(name, "Amulet"@))
    ||| on_logi_cruiser
}

/// The tags that a detected implant set gives on a matched fit.
pub open spec fn implant_tags(
    tags: Set<Seq<char>>,
    name: Seq<char>,
    set: Seq<char>,
    titled: Seq<char>,
    slot10: bool,
    on_logi_cruiser: bool,
) -> Set<Seq<char>> {
    if set == "SAVIOR"@ {
        tags.insert("SAVIOR"@)
    } else if set_shown(name, set, titled, on_logi_cruiser) {
        tagging(tags.insert(set), !slot10, "NO-SLOT10"@)
    } else {
        tags
    }
}

/// Implant display tag: on a matched fit, a detected implant set is tagged where the
/// fit shows it, with a warning where the tenth slot is empty.
pub open spec fn after_implant_tag(
    s: CheckState,
    who: Subject,
    set: Option<Seq<char>>,
    slot10: bool,
) -> CheckState {
    match (s.doctrine_fit, set) {
        (Some(name), Some(set)) => CheckState {
            tags: implant_tags(
                s.tags,
                name,
                set,
                title_case(set),
                slot10,
                who.hull == who.ids.oneiros,
            ),
            ..s
        },
        _ => s,
    }
}

// ---------------------------------------------------------------------------------------
// War status
// ---------------------------------------------------------------------------------------
/// What the war-status service said of a pilot.
#[derive(Debug, Clone, Copy, PartialEq, Eq, Structural)]
pub struct WarStatus {
    pub active_war: bool,
    pub faction_war: bool,
}

/// War-status enrichment: a lookup that failed adds nothing.
pub open spec fn after_war_tags(s: CheckState, war: Option<WarStatus>) -> CheckState {
    match war {
        Some(w) => CheckState {
            tags: tagging(tagging(s.tags, w.active_war, "AT-WAR"@), w.faction_war, "FACTION-WAR"@),
            ..s
        },
        None => s,
    }
}

// ---------------------------------------------------------------------------------------
// Tag merge
// ---------------------------------------------------------------------------------------
/// One of the implant-set tags is present.
pub open spec fn has_implant_tag(tags: Set<Seq<char>>) -> bool {
    ||| tags.contains("WARPSPEED"@)
    ||| tags.contains("HYBRID"@)
    ||| tags.contains("AMULET"@)
    ||| tags.contains("SAVIOR"@)
}

/// A specialist tag becomes the badge it stands for, bastion before web and only one
/// of them; without a specialist tag, `otherwise` is added.
pub open spec fn promoted(tags: Set<Seq<char>>, otherwise: Option<Seq<char>>) -> Set<Seq<char>> {
    if tags.contains("BASTION-SPECIALIST"@) {
        tags.remove("BASTION-SPECIALIST"@).insert("BASTION"@)
    } else if tags.contains("WEB-SPECIALIST"@) {
        tags.remove("WEB-SPECIALIST"@).insert("WEB"@)
    } else {
        with_tag(tags, otherwise)
    }
}

/// The tags after consolidation.
pub open spec fn merged(tags: Set<Seq<char>>) -> Set<Seq<char>> {
    if tags.contains("ELITE-FIT"@) && has_implant_tag(tags) {
        if tags.contains("ELITE-SKILLS"@) {
            promoted(tags.remove("ELITE-FIT"@).remove("ELITE-SKILLS"@), Some("ELITE"@))
        } else if tags.contains("GOLD-SKILLS"@) {
            promoted(
                tags.remove("ELITE-FIT"@).remove("GOLD-SKILLS"@).insert("ELITE-GOLD"@),
                None,
            )
        } else {
            tags
        }
    } else if tags.contains("ANTIGANK"@) {
        tags.remove("ELITE-FIT"@)
    } else if is_starter(tags) {
        tags.remove("STARTER-FIT"@).remove("STARTER-SKILLS"@).insert("STARTER"@)
    } else {
        tags
    }
}

/// Tag merge: overlapping signals collapse into the final badges.
pub open spec fn after_merge(s: CheckState) -> CheckState {
    CheckState { tags: merged(s.tags), ..s }
}

// ---------------------------------------------------------------------------------------
// Tenure
// ---------------------------------------------------------------------------------------
/// The pilot holds an elite badge.
pub open spec fn is_elite(tags: Set<Seq<char>>) -> bool {
    ||| tags.contains("ELITE"@)
    ||| tags.contains("ELITE-GOLD"@)
    ||| tags.contains("WEB"@)
    ||| tags.contains("BASTION"@)
}

/// Seconds in a number of hours.
pub open spec fn hours(n: int) -> int {
    n * 3600
}

/// The hull is one of the four damage dealers that tenure is counted on.
pub open spec fn is_dps_hull(hull: TypeID, ids: KnownTypes) -> bool {
    hull == ids.kronos || hull == ids.nightmare || hull == ids.paladin || hull == ids.vindicator
}

/// The escalation tag that the pilot's time in fleet calls for, if any.
///
/// The logistics cruiser is due for elite at 105 hours. The two entry battleships are
/// due for an upgrade at 22 hours. A damage dealer is due for elite at 220 hours; from
/// 130 hours on the Vindicator needs the web badge and every other damage dealer a
/// tier-2 weapon; from 85 hours on a damage dealer needs to be a marauder or to have a
/// tier-2 weapon. An elite badge lifts the two elite milestones and nothing else.
pub open spec fn tenure_tag(who: Subject, elite: bool) -> Option<Seq<char>> {
    let ids = who.ids;
    let time = who.time_in_fleet;
    let t2_blaster = count_in(who.modules, ids.neutron_blaster_cannon_ii) > 0;
    let t2_lasers = count_in(who.modules, ids.mega_pulse_laser_ii) > 0;
    if who.hull == ids.oneiros {
        if time >= hours(105) && !elite {
            Some("ELITE-HOURS-REACHED"@)
        } else {
            None
        }
    } else if who.hull == ids.megathron || who.hull == ids.apocalypse_navy_issue {
        if time >= hours(22) {
            Some("UPGRADE-HOURS-REACHED"@)
        } else {
            None
        }
    } else if is_dps_hull(who.hull, ids) {
        if time >= hours(220) && !elite {
            Some("ELITE-HOURS-REACHED"@)
        } else if time >= hours(130) {
            if who.hull == ids.vindicator {
                if !who.badges.contains("WEB"@) {
                    Some("UPGRADE-HOURS-REACHED"@)
                } else {
                    None
                }
            } else if !(t2_blaster || t2_lasers) {
                Some("UPGRADE-HOURS-REACHED"@)
            } else {
                None
            }
        } else if time >= hours(85) {
            if !(who.hull == ids.kronos || who.hull == ids.paladin || t2_blaster || t2_lasers) {
                Some("UPGRADE-HOURS-REACHED"@)
            } else {
                None
            }
        } else {
            None
        }
    } else {
        None
    }
}

/// An escalation tag is present.
pub open spec fn hours_reached(tags: Set<Seq<char>>) -> bool {
    tags.contains("ELITE-HOURS-REACHED"@) || tags.contains("UPGRADE-HOURS-REACHED"@)
}

/// Tenure escalation: the tag that the time in fleet calls for is added, and an
/// escalation tag clears the approval.
pub open spec fn after_time_in_fleet(s: CheckState, who: Subject) -> CheckState {
    let tags = with_tag(s.tags, tenure_tag(who, is_elite(s.tags)));
    CheckState { approved: s.approved && !hours_reached(tags), tags, ..s }
}

// ---------------------------------------------------------------------------------------
// Result
// ---------------------------------------------------------------------------------------
/// Result assembly: the state, frozen. Meant for a state whose category is assigned.
pub open spec fn finished(s: CheckState) -> Verdict
    recommends
        s.category is Some,
{
    Verdict {
        approved: s.approved,
        tags: s.tags,
        category: s.category->0,
        errors: s.errors,
        analysis: s.analysis,
    }
}

// ---------------------------------------------------------------------------------------
// The chain
// ---------------------------------------------------------------------------------------
/// What the collaborators of the fit check found for one pilot and fitting.
pub struct Findings {
    /// The closest doctrine fit and the diff against it, where one matched.
    pub fit_match: Option<(Seq<char>, DiffView)>,
    /// The implant set that the worn implants belong to, whatever the hull.
    pub base_set: Option<Seq<char>>,
    /// The implant set that is worn for this hull.
    pub implant_set: Option<Seq<char>>,
    /// The tenth implant slot is filled for this hull and set.
    pub slot10: bool,
    /// The category of the fitting.
    pub category: Option<Seq<char>>,
    /// The pilot's war status, where the service answered.
    pub war: Option<WarStatus>,
}

/// The state after the rules that come before the tag merge, given that no lookup failed.
pub open spec fn before_merge(s: CheckState, who: Subject, found: Findings) -> CheckState {
    let s3 = after_fit(s, found.fit_match);
    let s4 = after_fit_reqs(s3, who);
    let s5 = after_fit_implants_reqs(s4, who, found.base_set);
    let s6 = after_logi_implants(s5, who);
    let s7 = after_category(s6, found.category);
    let s8 = after_snowflake_tags(s7, who);
    let s9 = after_implant_tag(s8, who, found.implant_set, found.slot10);
    after_war_tags(s9, found.war)
}

/// The whole chain: every rule in its fixed order, from the initial state to the
/// verdict. It fails only where a lookup in the type database fails, and then at once.
pub open spec fn evaluation(who: Subject, types: &TypeDB, skill_data: &SkillData, found: Findings) -> Result<
    Verdict,
    FitError,
> {
    match after_skill_reqs(initial_state(), who, types, skill_data) {
        Err(e) => Err(e),
        Ok(s1) => match after_module_skills(s1, who, types) {
            Err(e) => Err(e),
            Ok(s2) => Ok(
                finished(after_time_in_fleet(after_merge(before_merge(s2, who, found)), who)),
            ),
        },
    }
}

} // verus!
