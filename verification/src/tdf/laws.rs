//! Laws of the fit check, proved from the rules.

use vstd::prelude::*;
use crate::data::fits::DiffView;
use crate::data::skills::{SkillData, SkillTier};
use crate::tdf::fitcheck::{initial_state, CheckState, Subject, Verdict};
use crate::tdf::rules::{
    after_category, after_fit, after_fit_implants_reqs, after_fit_reqs, after_implant_tag,
    after_logi_implants, after_merge, after_module_skills, after_skill_reqs,
    after_snowflake_tags, after_time_in_fleet, after_war_tags, before_merge, bracket_reached, classified, evaluation, first_unknown, fit_acceptable, has_implant_tag,
    hours_reached, is_dps_hull, lacks_mandatory_implant, lookup_failure,
    is_elite, is_starter, merged, tenure_tag, tier_met, with_tag, Bracket, Findings,
};
use crate::text::is_substring;
use crate::typedb::{count_in, FitError, TypeDB};

verus! {

/// A number for each tag that the rules write, 0 for any other text.
pub open spec fn tag_number(tag: Seq<char>) -> int {
    if tag == "STARTER-SKILLS"@ {
        1
    } else if tag == "ELITE-SKILLS"@ {
        2
    } else if tag == "GOLD-SKILLS"@ {
        3
    } else if tag == "ANTIGANK"@ {
        4
    } else if tag == "STARTER-FIT"@ {
        5
    } else if tag == "ELITE-FIT"@ {
        6
    } else if tag == "NO-EM-806"@ {
        7
    } else if tag == "HQ-FC"@ {
        8
    } else if tag == "TRAINEE"@ {
        9
    } else if tag == "LOGI"@ {
        10
    } else if tag == "RETIRED-LOGI"@ {
        11
    } else if tag == "WEB-SPECIALIST"@ {
        12
    } else if tag == "BASTION-SPECIALIST"@ {
        13
    } else if tag == "SAVIOR"@ {
        14
    } else if tag == "NO-SLOT10"@ {
        15
    } else if tag == "AT-WAR"@ {
        16
    } else if tag == "FACTION-WAR"@ {
        17
    } else if tag == "WARPSPEED"@ {
        18
    } else if tag == "HYBRID"@ {
        19
    } else if tag == "AMULET"@ {
        20
    } else if tag == "ELITE"@ {
        21
    } else if tag == "ELITE-GOLD"@ {
        22
    } else if tag == "WEB"@ {
        23
    } else if tag == "BASTION"@ {
        24
    } else if tag == "STARTER"@ {
        25
    } else if tag == "ELITE-HOURS-REACHED"@ {
        26
    } else if tag == "UPGRADE-HOURS-REACHED"@ {
        27
    } else {
        0
    }
}

/// The tags that the rules write are different texts: each has a number of its own.
pub proof fn lemma_tags_differ()
    ensures
        tag_number("STARTER-SKILLS"@) == 1,
        tag_number("ELITE-SKILLS"@) == 2,
        tag_number("GOLD-SKILLS"@) == 3,
        tag_number("ANTIGANK"@) == 4,
        tag_number("STARTER-FIT"@) == 5,
        tag_number("ELITE-FIT"@) == 6,
        tag_number("NO-EM-806"@) == 7,
        tag_number("HQ-FC"@) == 8,
        tag_number("TRAINEE"@) == 9,
        tag_number("LOGI"@) == 10,
        tag_number("RETIRED-LOGI"@) == 11,
        tag_number("WEB-SPECIALIST"@) == 12,
        tag_number("BASTION-SPECIALIST"@) == 13,
        tag_number("SAVIOR"@) == 14,
        tag_number("NO-SLOT10"@) == 15,
        tag_number("AT-WAR"@) == 16,
        tag_number("FACTION-WAR"@) == 17,
        tag_number("WARPSPEED"@) == 18,
        tag_number("HYBRID"@) == 19,
        tag_number("AMULET"@) == 20,
        tag_number("ELITE"@) == 21,
        tag_number("ELITE-GOLD"@) == 22,
        tag_number("WEB"@) == 23,
        tag_number("BASTION"@) == 24,
        tag_number("STARTER"@) == 25,
        tag_number("ELITE-HOURS-REACHED"@) == 26,
        tag_number("UPGRADE-HOURS-REACHED"@) == 27,
{
    reveal_strlit("STARTER-SKILLS");
    assert("STARTER-SKILLS"@.len() == 14 && "STARTER-SKILLS"@[0] == 'S');
    reveal_strlit("ELITE-SKILLS");
    assert("ELITE-SKILLS"@.len() == 12 && "ELITE-SKILLS"@[0] == 'E');
    reveal_strlit("GOLD-SKILLS");
    assert("GOLD-SKILLS"@.len() == 11 && "GOLD-SKILLS"@[0] == 'G');
    reveal_strlit("ANTIGANK");
    assert("ANTIGANK"@.len() == 8 && "ANTIGANK"@[0] == 'A');
    reveal_strlit("STARTER-FIT");
    assert("STARTER-FIT"@.len() == 11 && "STARTER-FIT"@[0] == 'S');
    reveal_strlit("ELITE-FIT");
    assert("ELITE-FIT"@.len() == 9 && "ELITE-FIT"@[0] == 'E' && "ELITE-FIT"@[3] == 'T');
    reveal_strlit("NO-EM-806");
    assert("NO-EM-806"@.len() == 9 && "NO-EM-806"@[0] == 'N' && "NO-EM-806"@[3] == 'E');
    reveal_strlit("HQ-FC");
    assert("HQ-FC"@.len() == 5 && "HQ-FC"@[0] == 'H');
    reveal_strlit("TRAINEE");
    assert("TRAINEE"@.len() == 7 && "TRAINEE"@[0] == 'T');
    reveal_strlit("LOGI");
    assert("LOGI"@.len() == 4 && "LOGI"@[0] == 'L');
    reveal_strlit("RETIRED-LOGI");
    assert("RETIRED-LOGI"@.len() == 12 && "RETIRED-LOGI"@[0] == 'R');
    reveal_strlit("WEB-SPECIALIST");
    assert("WEB-SPECIALIST"@.len() == 14 && "WEB-SPECIALIST"@[0] == 'W');
    reveal_strlit("BASTION-SPECIALIST");
    assert("BASTION-SPECIALIST"@.len() == 18 && "BASTION-SPECIALIST"@[0] == 'B');
    reveal_strlit("SAVIOR");
    assert("SAVIOR"@.len() == 6 && "SAVIOR"@[0] == 'S' && "SAVIOR"@[1] == 'A');
    reveal_strlit("NO-SLOT10");
    assert("NO-SLOT10"@.len() == 9 && "NO-SLOT10"@[0] == 'N' && "NO-SLOT10"@[3] == 'S');
    reveal_strlit("AT-WAR");
    assert("AT-WAR"@.len() == 6 && "AT-WAR"@[0] == 'A' && "AT-WAR"@[1] == 'T');
    reveal_strlit("FACTION-WAR");
    assert("FACTION-WAR"@.len() == 11 && "FACTION-WAR"@[0] == 'F');
    reveal_strlit("WARPSPEED");
    assert("WARPSPEED"@.len() == 9 && "WARPSPEED"@[0] == 'W' && "WARPSPEED"@[3] == 'P');
    reveal_strlit("HYBRID");
    assert("HYBRID"@.len() == 6 && "HYBRID"@[0] == 'H' && "HYBRID"@[1] == 'Y');
    reveal_strlit("AMULET");
    assert("AMULET"@.len() == 6 && "AMULET"@[0] == 'A' && "AMULET"@[1] == 'M');
    reveal_strlit("ELITE");
    assert("ELITE"@.len() == 5 && "ELITE"@[0] == 'E');
    reveal_strlit("ELITE-GOLD");
    assert("ELITE-GOLD"@.len() == 10 && "ELITE-GOLD"@[0] == 'E');
    reveal_strlit("WEB");
    assert("WEB"@.len() == 3 && "WEB"@[0] == 'W');
    reveal_strlit("BASTION");
    assert("BASTION"@.len() == 7 && "BASTION"@[0] == 'B');
    reveal_strlit("STARTER");
    assert("STARTER"@.len() == 7 && "STARTER"@[0] == 'S');
    reveal_strlit("ELITE-HOURS-REACHED");
    assert("ELITE-HOURS-REACHED"@.len() == 19 && "ELITE-HOURS-REACHED"@[0] == 'E');
    reveal_strlit("UPGRADE-HOURS-REACHED");
    assert("UPGRADE-HOURS-REACHED"@.len() == 21 && "UPGRADE-HOURS-REACHED"@[0] == 'U');
}

/// Antigank doctrine: a fit that differs from its doctrine by upgrades alone is
/// rejected under an antigank doctrine and accepted under any other.
pub proof fn law_antigank_counts_upgrades(s: CheckState, name: Seq<char>, diff: DiffView)
    requires
        s.approved,
        diff.missing.is_empty(),
        diff.cargo_missing.is_empty(),
        diff.downgraded.is_empty(),
        !diff.upgraded.is_empty(),
    ensures
        after_fit(s, Some((name, diff))).approved == !is_substring(name, "Antigank"@),
{
    if is_substring(name, "Antigank"@) {
        let merged = diff.downgraded.union_prefer_right(diff.upgraded);
        assert(merged.dom() =~= diff.upgraded.dom());
    }
}

/// The tag sets on which a second merge would change what the first one left: an elite
/// fit with implants and elite or gold skills that is also marked as a starter, outside
/// an antigank fleet. The first merge takes the fit away, and only then does the starter
/// rule apply.
pub open spec fn merge_unsettled(tags: Set<Seq<char>>) -> bool {
    &&& tags.contains("ELITE-FIT"@)
    &&& has_implant_tag(tags)
    &&& tags.contains("ELITE-SKILLS"@) || tags.contains("GOLD-SKILLS"@)
    &&& !tags.contains("ANTIGANK"@)
    &&& is_starter(tags)
}

/// Merging is idempotent: merging a merged tag set changes nothing.
pub proof fn law_merge_idempotent(tags: Set<Seq<char>>)
    requires
        !merge_unsettled(tags),
    ensures
        merged(merged(tags)) == merged(tags),
{
    lemma_tags_differ();
    assert(merged(merged(tags)) =~= merged(tags));
}

/// On every tag set that `law_merge_idempotent` leaves out, a second merge does change
/// the result: it brings the starter badge.
pub proof fn law_merge_unsettled_changes(tags: Set<Seq<char>>)
    requires
        merge_unsettled(tags),
    ensures
        merged(merged(tags)) != merged(tags),
{
    lemma_tags_differ();
    let once = merged(tags);
    assert(is_starter(once));
    assert(!merged(once).contains("STARTER-SKILLS"@));
    assert(!merged(once).contains("STARTER-FIT"@));
}

/// Tenure on the logistics cruiser: a pilot without an elite badge is escalated, and
/// loses the approval, from 105 hours in fleet on and not a second earlier.
pub proof fn law_logi_cruiser_tenure(s: CheckState, who: Subject)
    requires
        who.hull == who.ids.oneiros,
        !is_elite(s.tags),
        !hours_reached(s.tags),
    ensures
        who.time_in_fleet >= 105 * 3600 ==> {
            &&& after_time_in_fleet(s, who).tags.contains("ELITE-HOURS-REACHED"@)
            &&& !after_time_in_fleet(s, who).approved
        },
        who.time_in_fleet < 105 * 3600 ==> after_time_in_fleet(s, who) == s,
{
    lemma_tags_differ();
}

/// Tenure of the damage dealers other than the Vindicator between 130 hours and the
/// elite milestone: the upgrade is due exactly where no tier-2 weapon is fitted,
/// whichever of the two it is and whichever of the three hulls.
pub proof fn law_tier_two_weapon_at_130_hours(s: CheckState, who: Subject)
    requires
        is_dps_hull(who.hull, who.ids),
        who.hull != who.ids.vindicator,
        who.hull != who.ids.oneiros,
        who.hull != who.ids.megathron,
        who.hull != who.ids.apocalypse_navy_issue,
        who.time_in_fleet >= 130 * 3600,
        who.time_in_fleet < 220 * 3600 || is_elite(s.tags),
    ensures
        tenure_tag(who, is_elite(s.tags)) == if count_in(
            who.modules,
            who.ids.neutron_blaster_cannon_ii,
        ) > 0 || count_in(who.modules, who.ids.mega_pulse_laser_ii) > 0 {
            None
        } else {
            Some("UPGRADE-HOURS-REACHED"@)
        },
{
}

/// Starters do not fly logistics: a starter whose fit is classified as logi loses the
/// approval and keeps the logi category.
pub proof fn law_starter_keeps_logi(s: CheckState)
    requires
        is_starter(s.tags),
    ensures
        !after_category(s, Some("logi"@)).approved,
        after_category(s, Some("logi"@)).category == Some("logi"@),
{
}

/// Every other category of a starter becomes the starter category, and the approval
/// stays as it was.
pub proof fn law_starter_downgraded(s: CheckState, category: Option<Seq<char>>)
    requires
        is_starter(s.tags),
        classified(category) != "logi"@,
    ensures
        after_category(s, category).approved == s.approved,
        after_category(s, category).category == Some("starter"@),
{
}

/// A war-status lookup that failed changes nothing.
pub proof fn law_failed_war_lookup_adds_nothing(s: CheckState)
    ensures
        after_war_tags(s, None) == s,
{
}

/// Skill-tier classification from the start of the chain: a pilot who meets no tier is
/// tagged as a starter by skills, and no pilot gets more than one skill-tier tag.
pub proof fn law_one_skill_tier_tag(who: Subject, types: &TypeDB, skill_data: &SkillData)
    requires
        types.knows(who.hull),
    ensures
        ({
            let tags = after_skill_reqs(initial_state(), who, types, skill_data)->Ok_0.tags;
            let table = skill_data.table_of(types.info(who.hull).name@);
            let starter = tags.contains("STARTER-SKILLS"@);
            let elite = tags.contains("ELITE-SKILLS"@);
            let gold = tags.contains("GOLD-SKILLS"@);
            &&& !(starter && elite) && !(starter && gold) && !(elite && gold)
            &&& !tier_met(who.levels, table, SkillTier::Min) && !tier_met(
                who.levels,
                table,
                SkillTier::Elite,
            ) && !tier_met(who.levels, table, SkillTier::Gold) ==> starter
        }),
{
    lemma_tags_differ();
}

/// The chain fails exactly where the type database does not know the hull or one of
/// the fitted modules; nothing that the other collaborators found makes it fail.
pub proof fn law_fails_only_on_unknown_types(
    who: Subject,
    types: &TypeDB,
    skill_data: &SkillData,
    found: Findings,
)
    ensures
        evaluation(who, types, skill_data, found) is Ok <==> types.knows(who.hull) && first_unknown(
            types,
            who.module_order,
        ) is None,
        match lookup_failure(types, who.hull, who.module_order) {
            Some(e) => evaluation(who, types, skill_data, found) == Err::<Verdict, FitError>(e),
            None => evaluation(who, types, skill_data, found) is Ok,
        },
{
}

/// Without a matching doctrine fit the pilot is never approved and no diff is shown,
/// and yet the chain runs to its end: the category is assigned by its rule, and the
/// escalation that the time in fleet calls for is tagged.
pub proof fn law_unmatched_fit_runs_on(
    who: Subject,
    types: &TypeDB,
    skill_data: &SkillData,
    found: Findings,
)
    requires
        found.fit_match is None,
        evaluation(who, types, skill_data, found) is Ok,
    ensures
        ({
            let verdict = evaluation(who, types, skill_data, found)->Ok_0;
            let bracket = bracket_reached(
                who.levels,
                skill_data.table_of(types.info(who.hull).name@),
            );
            &&& !verdict.approved
            &&& verdict.analysis is None
            &&& verdict.category == if bracket == Bracket::Starter && classified(found.category)
                != "logi"@ {
                "starter"@
            } else {
                classified(found.category)
            }
            &&& with_tag(Set::empty(), tenure_tag(who, false)).subset_of(verdict.tags)
        }),
{
    lemma_tags_differ();
}

/// The pilot counts as a starter when the category is assigned: by the bracket of skill
/// reached, or by a matched doctrine fit for starters.
pub open spec fn starter_at_category(
    who: Subject,
    types: &TypeDB,
    skill_data: &SkillData,
    found: Findings,
) -> bool {
    ||| bracket_reached(who.levels, skill_data.table_of(types.info(who.hull).name@))
        == Bracket::Starter
    ||| found.fit_match matches Some((name, _)) && is_substring(name, "Starter"@)
}

/// Every denial has one of four reasons: the fitting matches no doctrine fit or is not
/// acceptable against the one it matches, the hull's mandatory implant is absent, a
/// starter flies a logi fit, or an escalation tag is present. Advisory errors deny nothing.
pub proof fn law_denial_has_a_reason(
    who: Subject,
    types: &TypeDB,
    skill_data: &SkillData,
    found: Findings,
)
    requires
        evaluation(who, types, skill_data, found) is Ok,
    ensures
        ({
            let verdict = evaluation(who, types, skill_data, found)->Ok_0;
            verdict.approved <==> {
                &&& found.fit_match matches Some((name, diff)) && fit_acceptable(name, diff)
                &&& !lacks_mandatory_implant(who)
                &&& !(starter_at_category(who, types, skill_data, found) && classified(
                    found.category,
                ) == "logi"@)
                &&& !hours_reached(verdict.tags)
            }
        }),
{
    lemma_tags_differ();
    let s1 = after_skill_reqs(initial_state(), who, types, skill_data)->Ok_0;
    let s2 = after_module_skills(s1, who, types)->Ok_0;
    let s3 = after_fit(s2, found.fit_match);
    let s6 = after_logi_implants(
        after_fit_implants_reqs(after_fit_reqs(s3, who), who, found.base_set),
        who,
    );
    assert(is_starter(s6.tags) == starter_at_category(who, types, skill_data, found));
    let s7 = after_category(s6, found.category);
    let s10 = after_war_tags(
        after_implant_tag(after_snowflake_tags(s7, who), who, found.implant_set, found.slot10),
        found.war,
    );
    assert(s10 == before_merge(s2, who, found));
    assert(s10.approved == s7.approved);
}

/// No rule gives back an approval that an earlier rule has cleared, and no rule takes
/// an advisory error back: each rule's errors begin with those it found.
pub proof fn law_rules_only_add(
    s: CheckState,
    who: Subject,
    types: &TypeDB,
    skill_data: &SkillData,
    found: Findings,
)
    ensures
        after_skill_reqs(s, who, types, skill_data) matches Ok(t) ==> kept(s, t),
        after_module_skills(s, who, types) matches Ok(t) ==> kept(s, t),
        kept(s, after_fit(s, found.fit_match)),
        kept(s, after_fit_reqs(s, who)),
        kept(s, after_fit_implants_reqs(s, who, found.base_set)),
        kept(s, after_logi_implants(s, who)),
        kept(s, after_category(s, found.category)),
        kept(s, after_snowflake_tags(s, who)),
        kept(s, after_implant_tag(s, who, found.implant_set, found.slot10)),
        kept(s, after_war_tags(s, found.war)),
        kept(s, after_merge(s)),
        kept(s, after_time_in_fleet(s, who)),
{
}

/// What a later state keeps of an earlier one: a cleared approval stays cleared, and
/// the errors noted stay, in their order, at the head of the list.
pub open spec fn kept(earlier: CheckState, later: CheckState) -> bool {
    &&& later.approved ==> earlier.approved
    &&& earlier.errors.is_prefix_of(later.errors)
}

/// Neither war tag is present.
pub open spec fn war_free(tags: Set<Seq<char>>) -> bool {
    !tags.contains("AT-WAR"@) && !tags.contains("FACTION-WAR"@)
}

/// A war-status lookup that failed does not keep the chain from its verdict, and the
/// verdict holds no war tag. Left out are implant sets that are named like a war tag.
pub proof fn law_failed_war_lookup_tags_no_war(
    who: Subject,
    types: &TypeDB,
    skill_data: &SkillData,
    found: Findings,
)
    requires
        found.war is None,
        found.implant_set != Some("AT-WAR"@),
        found.implant_set != Some("FACTION-WAR"@),
        evaluation(who, types, skill_data, found) is Ok,
    ensures
        war_free(evaluation(who, types, skill_data, found)->Ok_0.tags),
{
    lemma_tags_differ();
    let s1 = after_skill_reqs(initial_state(), who, types, skill_data)->Ok_0;
    assert(war_free(s1.tags));
    let s2 = after_module_skills(s1, who, types)->Ok_0;
    let s3 = after_fit(s2, found.fit_match);
    assert(war_free(s3.tags));
    let s6 = after_logi_implants(
        after_fit_implants_reqs(after_fit_reqs(s3, who), who, found.base_set),
        who,
    );
    assert(war_free(s6.tags));
    let s8 = after_snowflake_tags(after_category(s6, found.category), who);
    assert(war_free(s8.tags));
    let s9 = after_implant_tag(s8, who, found.implant_set, found.slot10);
    assert(war_free(s9.tags));
    let s10 = after_war_tags(s9, found.war);
    assert(s10 == before_merge(s2, who, found));
    let s11 = after_merge(s10);
    assert(war_free(s11.tags));
    let s12 = after_time_in_fleet(s11, who);
    assert(war_free(s12.tags));
}

} // verus!
