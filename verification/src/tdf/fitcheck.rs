//! The fit checker: an ordered chain of rules over one pilot, one fitting and one badge list.
//!
//! Every rule is a function from the state so far to the next state. The executable
//! rules are methods of [`FitChecker`]; each one is specified by a `spec` function on
//! [`CheckState`] of the same meaning, and [`evaluation`] chains them.

use vstd::prelude::*;
use vstd::string::StringExecFns;
use std::collections::BTreeMap;
use crate::data::fits::{swaps, DiffView, DoctrineFit, FitDiff};
use crate::data::skills::{level_in, table_met, SkillData, SkillTier, Skills};
use crate::tdf::rules::{
    after_category, after_fit, after_fit_implants_reqs, after_fit_reqs, after_implant_tag,
    after_logi_implants, after_merge, after_snowflake_tags, after_time_in_fleet, after_war_tags,
    after_module_skills, after_skill_reqs, evaluation, finished, first_unknown,
    lemma_all_known, lemma_first_unknown_stays, lookup_failure, lower, merged, module_skill_errors, promoted, set_shown,
    modules_acceptable, skill_errors_for, tier_met, Findings, WarStatus,
};
use crate::tdf::tags::{ascending, TagSet};
use crate::text::{contains, same_text, texts, to_title_case};
use crate::typedb::{
    key_order, keys_of, FitError, Fitting, KnownTypes, SkillLevel, TypeDB, TypeID, TypeInfo,
};

verus! {

/// What the pilot brings to an evaluation.
#[derive(Debug)]
pub struct PilotData<'a> {
    pub implants: &'a [TypeID],
    pub time_in_fleet: i64,
    pub skills: &'a Skills,
    pub access_keys: &'a Vec<String>,
    pub id: &'a i64,
}

/// The diff against the matched doctrine fit, as it is shown to the public.
#[derive(Debug, Clone)]
pub struct PubAnalysis {
    pub name: String,
    pub missing: BTreeMap<TypeID, i64>,
    pub extra: BTreeMap<TypeID, i64>,
    pub cargo_missing: BTreeMap<TypeID, i64>,
    pub downgraded: BTreeMap<TypeID, BTreeMap<TypeID, i64>>,
}

/// A public diff as mathematical maps.
pub struct AnalysisView {
    pub name: Seq<char>,
    pub missing: Map<TypeID, i64>,
    pub extra: Map<TypeID, i64>,
    pub cargo_missing: Map<TypeID, i64>,
    pub downgraded: Map<TypeID, Map<TypeID, i64>>,
}

impl View for PubAnalysis {
    type V = AnalysisView;

    open spec fn view(&self) -> AnalysisView {
        AnalysisView {
            name: self.name@,
            missing: self.missing@,
            extra: self.extra@,
            cargo_missing: self.cargo_missing@,
            downgraded: swaps(self.downgraded@),
        }
    }
}

/// The outcome of an evaluation.
#[derive(Debug)]
pub struct Output {
    pub approved: bool,
    pub tags: Vec<String>,
    pub category: String,
    pub errors: Vec<String>,
    pub analysis: Option<PubAnalysis>,
}

/// The view of an optional public diff.
pub open spec fn analysis_view(analysis: Option<PubAnalysis>) -> Option<AnalysisView> {
    match analysis {
        Some(a) => Some(a@),
        None => None,
    }
}

/// An outcome as mathematical values. The tags are a set; an outcome lists them in
/// ascending order.
pub struct Verdict {
    pub approved: bool,
    pub tags: Set<Seq<char>>,
    pub category: Seq<char>,
    pub errors: Seq<Seq<char>>,
    pub analysis: Option<AnalysisView>,
}

impl View for Output {
    type V = Verdict;

    open spec fn view(&self) -> Verdict {
        Verdict {
            approved: self.approved,
            tags: texts(self.tags@).to_set(),
            category: self.category@,
            errors: texts(self.errors@),
            analysis: analysis_view(self.analysis),
        }
    }
}

/// What is evaluated, as mathematical values: the pilot, the fitting, the badges, and the
/// identifiers of the types that the rules name.
pub struct Subject {
    pub hull: TypeID,
    pub modules: Map<TypeID, i64>,
    pub module_order: Seq<TypeID>,
    pub implants: Seq<TypeID>,
    pub time_in_fleet: i64,
    pub levels: Map<TypeID, SkillLevel>,
    pub access_keys: Seq<Seq<char>>,
    pub badges: Seq<Seq<char>>,
    pub ids: KnownTypes,
}

/// The subject that a pilot, a fitting and a badge list make up.
pub open spec fn subject_of(
    pilot: &PilotData<'_>,
    fit: &Fitting,
    badges: &Vec<String>,
    ids: &KnownTypes,
) -> Subject {
    Subject {
        hull: fit.hull,
        modules: fit.modules@,
        module_order: crate::typedb::key_order(&fit.modules),
        implants: pilot.implants@,
        time_in_fleet: pilot.time_in_fleet,
        levels: pilot.skills.levels@,
        access_keys: texts(pilot.access_keys@),
        badges: texts(badges@),
        ids: *ids,
    }
}

/// The state that the rules share and change, one after the other.
pub struct CheckState {
    pub approved: bool,
    pub category: Option<Seq<char>>,
    pub doctrine_fit: Option<Seq<char>>,
    pub tags: Set<Seq<char>>,
    pub errors: Seq<Seq<char>>,
    pub analysis: Option<AnalysisView>,
}

/// The state before the first rule: approved, with nothing noted.
pub open spec fn initial_state() -> CheckState {
    CheckState {
        approved: true,
        category: None,
        doctrine_fit: None,
        tags: Set::empty(),
        errors: Seq::empty(),
        analysis: None,
    }
}

/// Whether a list of strings holds a text.
pub fn has_text(list: &Vec<String>, text: &str) -> (r: bool)
    ensures
        r == texts(list@).contains(text@),
{
    let mut i: usize = 0;
    while i < list.len()
        invariant
            i <= list@.len(),
            forall|k: int| 0 <= k < i ==> texts(list@)[k] != text@,
        decreases list@.len() - i,
    {
        if same_text(list[i].as_str(), text) {
            assert(texts(list@)[i as int] == text@);
            return true;
        }
        i += 1;
    }
    false
}

/// Whether a list of identifiers holds one.
pub fn has_id(list: &[TypeID], id: TypeID) -> (r: bool)
    ensures
        r == list@.contains(id),
{
    let mut i: usize = 0;
    while i < list.len()
        invariant
            i <= list@.len(),
            forall|k: int| 0 <= k < i ==> list@[k] != id,
        decreases list@.len() - i,
    {
        if list[i] == id {
            return true;
        }
        i += 1;
    }
    false
}

/// What the collaborators of the fit check found for one pilot and fitting.
pub struct Lookups<'a> {
    /// The type database.
    pub types: &'a TypeDB,
    /// The skill tables of the hulls.
    pub skill_data: &'a SkillData,
    /// The closest doctrine fit and the diff against it, where one matched.
    pub fit_match: Option<(DoctrineFit, FitDiff)>,
    /// The implant set that the worn implants belong to, whatever the hull.
    pub base_set: Option<String>,
    /// The implant set that is worn for this hull.
    pub implant_set: Option<String>,
    /// The tenth implant slot is filled for this hull and set.
    pub slot10: bool,
    /// The category of the fitting.
    pub category: Option<String>,
    /// The pilot's war status, where the service answered.
    pub war: Option<WarStatus>,
}

impl<'a> Lookups<'a> {
    /// The findings as mathematical values.
    pub open spec fn findings(&self) -> Findings {
        Findings {
            fit_match: match_view(self.fit_match),
            base_set: string_view(self.base_set),
            implant_set: string_view(self.implant_set),
            slot10: self.slot10,
            category: string_view(self.category),
            war: self.war,
        }
    }
}

/// The rule engine for one evaluation.
pub struct FitChecker<'a> {
    approved: bool,
    category: Option<String>,
    badges: &'a Vec<String>,
    fit: &'a Fitting,
    doctrine_fit: Option<DoctrineFit>,
    pilot: &'a PilotData<'a>,
    ids: &'a KnownTypes,
    tags: TagSet,
    errors: Vec<String>,
    analysis: Option<PubAnalysis>,
}

impl<'a> FitChecker<'a> {
    /// The internal invariant: the tag set is well formed.
    pub closed spec fn wf(&self) -> bool {
        self.tags.wf()
    }

    /// What this checker evaluates. No rule changes it.
    pub closed spec fn subject(&self) -> Subject {
        subject_of(self.pilot, self.fit, self.badges, self.ids)
    }

    /// The state that the rules have reached.
    pub closed spec fn state(&self) -> CheckState {
        CheckState {
            approved: self.approved,
            category: match self.category {
                Some(c) => Some(c@),
                None => None,
            },
            doctrine_fit: match self.doctrine_fit {
                Some(d) => Some(d.name@),
                None => None,
            },
            tags: self.tags@,
            errors: texts(self.errors@),
            analysis: analysis_view(self.analysis),
        }
    }

    /// A checker at the start of the chain.
    pub fn new(
        pilot: &'a PilotData<'a>,
        fit: &'a Fitting,
        badges: &'a Vec<String>,
        ids: &'a KnownTypes,
    ) -> (checker: FitChecker<'a>)
        ensures
            checker.wf(),
            checker.subject() == subject_of(pilot, fit, badges, ids),
            checker.state() == initial_state(),
    {
        let checker = FitChecker {
            approved: true,
            category: None,
            badges,
            fit,
            doctrine_fit: None,
            pilot,
            ids,
            tags: TagSet::new(),
            errors: Vec::new(),
            analysis: None,
        };
        assert(texts(checker.errors@) =~= Seq::<Seq<char>>::empty());
        checker
    }

    /// Runs the whole chain on one pilot, fitting and badge list, with what the
    /// collaborators found for them. Fails only where the type database does not know
    /// the hull or a fitted module.
    pub fn check(
        pilot: &PilotData<'_>,
        fit: &Fitting,
        badges: &Vec<String>,
        ids: &KnownTypes,
        lookups: Lookups<'_>,
    ) -> (r: Result<Output, FitError>)
        ensures
            match evaluation(
                subject_of(pilot, fit, badges, ids),
                lookups.types,
                lookups.skill_data,
                lookups.findings(),
            ) {
                Ok(verdict) => r is Ok && r->Ok_0@ == verdict && ascending(
                    texts(r->Ok_0.tags@),
                ),
                Err(e) => r is Err && r->Err_0 == e,
            },
    {
        let mut checker = FitChecker::new(pilot, fit, badges, ids);
        let Lookups { types, skill_data, fit_match, base_set, implant_set, slot10, category, war } =
            lookups;
        match checker.check_skill_reqs(types, skill_data) {
            Ok(()) => {},
            Err(e) => {
                return Err(e);
            },
        }
        match checker.check_module_skills(types) {
            Ok(()) => {},
            Err(e) => {
                return Err(e);
            },
        }
        checker.check_fit(fit_match);
        checker.check_fit_reqs();
        checker.check_fit_implants_reqs(
            match &base_set {
                Some(s) => Some(s.as_str()),
                None => None,
            },
        );
        checker.check_logi_implants();
        checker.set_category(category);
        checker.add_snowflake_tags();
        checker.add_implant_tag(
            match &implant_set {
                Some(s) => Some(s.as_str()),
                None => None,
            },
            slot10,
        );
        checker.add_war_tags(war);
        checker.merge_tags();
        checker.check_time_in_fleet();
        checker.finish()
    }

    /// Whether the pilot meets one tier of the hull's skill table. A hull without a
    /// table meets none. Fails where the hull is no known type.
    pub fn check_skill_reqs_tier(&self, types: &TypeDB, skill_data: &SkillData, tier: SkillTier) -> (r:
        Result<bool, FitError>)
        ensures
            match r {
                Ok(met) => types.knows(self.subject().hull) && met == tier_met(
                    self.subject().levels,
                    skill_data.table_of(types.info(self.subject().hull).name@),
                    tier,
                ),
                Err(e) => !types.knows(self.subject().hull) && e == FitError::UnknownHull(
                    self.subject().hull,
                ),
            },
    {
        let info = match types.get(self.fit.hull) {
            Some(info) => info,
            None => {
                return Err(FitError::UnknownHull(self.fit.hull));
            },
        };
        match skill_data.find(info.name.as_str()) {
            Some(table) => Ok(table_met(self.pilot.skills, &table.skills, tier)),
            None => Ok(false),
        }
    }

    /// Skill-tier classification: tags the highest bracket of skill that the pilot
    /// reaches on the hull. On failure the state is untouched.
    pub fn check_skill_reqs(&mut self, types: &TypeDB, skill_data: &SkillData) -> (r: Result<
        (),
        FitError,
    >)
        requires
            old(self).wf(),
        ensures
            final(self).wf(),
            final(self).subject() == old(self).subject(),
            match after_skill_reqs(old(self).state(), old(self).subject(), types, skill_data) {
                Ok(s) => r is Ok && final(self).state() == s,
                Err(e) => r == Err::<(), FitError>(e) && final(self).state() == old(self).state(),
            },
    {
        if self.check_skill_reqs_tier(types, skill_data, SkillTier::Gold)? {
            self.tag("GOLD-SKILLS");
        } else if self.check_skill_reqs_tier(types, skill_data, SkillTier::Elite)? {
            self.tag("ELITE-SKILLS");
        } else if self.check_skill_reqs_tier(types, skill_data, SkillTier::Min)? {
        } else {
            self.tag("STARTER-SKILLS");
        }
        Ok(())
    }

    /// Module-skill verification: for the hull and for every fitted module type, notes
    /// each skill requirement that the pilot does not meet. Fails, with the state
    /// untouched, where the hull or a module is no known type.
    pub fn check_module_skills(&mut self, types: &TypeDB) -> (r: Result<(), FitError>)
        requires
            old(self).wf(),
        ensures
            final(self).wf(),
            final(self).subject() == old(self).subject(),
            match after_module_skills(old(self).state(), old(self).subject(), types) {
                Ok(s) => r is Ok && final(self).state() == s,
                Err(e) => r == Err::<(), FitError>(e) && final(self).state() == old(self).state(),
            },
    {
        let hull = self.fit.hull;
        let hull_info = match types.get(hull) {
            Some(info) => info,
            None => {
                return Err(FitError::UnknownHull(hull));
            },
        };
        let module_ids = keys_of(&self.fit.modules);
        let ghost levels = self.subject().levels;
        let ghost before = self.state();

        match first_missing(types, &module_ids) {
            Some(id) => {
                return Err(FitError::UnknownModule(id));
            },
            None => {},
        }
        proof {
            lemma_all_known(types, module_ids@);
        }

        self.note_missing_skills(hull_info);
        let ghost base = self.state().errors;
        let mut j: usize = 0;
        assert(base + module_skill_errors(types, levels, module_ids@.take(0), hull) =~= base);
        while j < module_ids.len()
            invariant
                j <= module_ids@.len(),
                self.wf(),
                self.subject() == old(self).subject(),
                levels == old(self).subject().levels,
                hull == old(self).subject().hull,
                before == old(self).state(),
                forall|k: int| 0 <= k < module_ids@.len() ==> types.knows(#[trigger] module_ids@[k]),
                self.state() == (CheckState {
                    errors: base + module_skill_errors(
                        types,
                        levels,
                        module_ids@.take(j as int),
                        hull,
                    ),
                    ..before
                }),
            decreases module_ids@.len() - j,
        {
            let id = module_ids[j];
            proof {
                let next = module_ids@.take(j + 1);
                assert(next.drop_last() =~= module_ids@.take(j as int));
                assert(next.last() == id);
            }
            if id != hull {
                match types.get(id) {
                    Some(info) => {
                        self.note_missing_skills(info);
                        assert(self.state().errors =~= base + module_skill_errors(
                            types,
                            levels,
                            module_ids@.take(j + 1),
                            hull,
                        ));
                    },
                    None => {},
                }
            }
            j += 1;
        }
        assert(module_ids@.take(j as int) =~= module_ids@);
        assert(self.state().errors =~= before.errors + skill_errors_for(
            hull_info.name@,
            levels,
            hull_info.skill_requirements@,
        ) + module_skill_errors(types, levels, module_ids@, hull));
        Ok(())
    }

    /// Reference-fit matching: judges the fitting by the diff against the doctrine fit
    /// that matched it, tags it and keeps the public diff. Without a match the approval
    /// is cleared.
    pub fn check_fit(&mut self, found: Option<(DoctrineFit, FitDiff)>)
        requires
            old(self).wf(),
        ensures
            final(self).wf(),
            final(self).subject() == old(self).subject(),
            final(self).state() == after_fit(old(self).state(), match_view(found)),
    {
        match found {
            Some((doctrine_fit, diff)) => {
                let mut diff = diff;
                let ghost given = diff@;
                let name = doctrine_fit.name.as_str();
                if contains(name, "Antigank") {
                    // Under an antigank doctrine price matters: an upgrade is no better
                    // than a downgrade.
                    diff.count_upgrades_as_downgrades();
                    self.tag("ANTIGANK");
                }
                let fit_ok = diff.module_downgraded.is_empty() && diff.module_missing.is_empty();
                proof {
                    assert(swaps(diff.module_downgraded@).dom() =~= diff.module_downgraded@.dom());
                    assert(fit_ok == modules_acceptable(
                        doctrine_fit.name@,
                        given,
                    ));
                }
                if !(diff.cargo_missing.is_empty() && fit_ok) {
                    self.deny();
                }
                if contains(name, "Starter") {
                    self.tag("STARTER-FIT");
                }
                if fit_ok && contains(name, "Elite") || contains(name, "Web Specialist") {
                    self.tag("ELITE-FIT");
                }
                self.analysis = Some(
                    PubAnalysis {
                        name: doctrine_fit.name.clone(),
                        missing: diff.module_missing,
                        extra: diff.module_extra,
                        downgraded: diff.module_downgraded,
                        cargo_missing: diff.cargo_missing,
                    },
                );
                self.doctrine_fit = Some(doctrine_fit);
            },
            None => {
                self.deny();
            },
        }
    }

    /// Secondary fit requirements: notes armor compensation skills below the level that
    /// the doctrine asks for, and the tank skills that a fitted bastion module needs.
    pub fn check_fit_reqs(&mut self)
        requires
            old(self).wf(),
        ensures
            final(self).wf(),
            final(self).subject() == old(self).subject(),
            final(self).state() == after_fit_reqs(old(self).state(), old(self).subject()),
    {
        let comp_reqs: SkillLevel = match &self.doctrine_fit {
            Some(fit) => {
                if contains(fit.name.as_str(), "Starter") || same_text(
                    fit.name.as_str(),
                    "Nightmare Basic",
                ) {
                    2
                } else {
                    4
                }
            },
            None => 4,
        };
        let ids = self.ids;
        let have_comps = lower_of(
            lower_of(
                self.level(ids.em_armor_compensation),
                self.level(ids.thermal_armor_compensation),
            ),
            lower_of(
                self.level(ids.kinetic_armor_compensation),
                self.level(ids.explosive_armor_compensation),
            ),
        );
        if have_comps < comp_reqs {
            if comp_reqs == 2 {
                self.note("Missing Armor Compensation skills: level 2 required".to_owned());
            } else {
                self.note("Missing Armor Compensation skills: level 4 required".to_owned());
            }
        }
        if self.fit.fitted(ids.bastion_module) > 0 {
            if self.level(ids.hull_upgrades) < 5 {
                self.note("Missing tank skill: Hull Upgrades 5 required".to_owned());
            }
            if self.level(ids.mechanics) < 4 {
                self.note("Missing tank skill: Mechanics 4 required".to_owned());
            }
        }
    }

    /// Implant-set compliance: notes the implant family that the matched doctrine fit
    /// asks for and the pilot does not wear. `base_set` is the set that the worn
    /// implants belong to, whatever the hull.
    pub fn check_fit_implants_reqs(&mut self, base_set: Option<&str>)
        requires
            old(self).wf(),
        ensures
            final(self).wf(),
            final(self).subject() == old(self).subject(),
            final(self).state() == after_fit_implants_reqs(
                old(self).state(),
                old(self).subject(),
                text_of(base_set),
            ),
    {
        let ids = self.ids;
        let family: Option<&str> = match &self.doctrine_fit {
            Some(doctrine_fit) => {
                let set_tag = match base_set {
                    Some(t) => t,
                    None => "",
                };
                proof {
                    reveal_strlit("");
                    assert(""@ =~= Seq::<char>::empty());
                }
                if same_text(set_tag, "SAVIOR") {
                    None
                } else if contains(doctrine_fit.name.as_str(), "Ascendancy") && !same_text(
                    set_tag,
                    "WARPSPEED",
                ) {
                    Some("Ascendancy")
                } else if contains(doctrine_fit.name.as_str(), "Amulet") && !same_text(
                    set_tag,
                    "AMULET",
                ) {
                    let implants = self.pilot.implants;
                    let all_worn = has_id(implants, ids.amulet_alpha) && has_id(
                        implants,
                        ids.amulet_beta,
                    ) && has_id(implants, ids.amulet_delta) && has_id(
                        implants,
                        ids.amulet_epsilon,
                    ) && has_id(implants, ids.amulet_gamma);
                    if all_worn {
                        None
                    } else {
                        Some("Amulet")
                    }
                } else {
                    None
                }
            },
            None => None,
        };
        match family {
            Some(name) => {
                let mut message = "Missing required implants to fly ".to_owned();
                message.append(name);
                message.append(" fit");
                self.note(message);
            },
            None => {},
        }
    }

    /// Hull-specific mandatory implant: its absence clears the approval and is tagged.
    pub fn check_logi_implants(&mut self)
        requires
            old(self).wf(),
        ensures
            final(self).wf(),
            final(self).subject() == old(self).subject(),
            final(self).state() == after_logi_implants(old(self).state(), old(self).subject()),
    {
        if self.fit.hull == self.ids.nestor && !has_id(self.pilot.implants, self.ids.em_806) {
            self.deny();
            self.tag("NO-EM-806");
        }
    }

    /// Category assignment. `category` is what the classifier found for the fitting.
    pub fn set_category(&mut self, category: Option<String>)
        requires
            old(self).wf(),
        ensures
            final(self).wf(),
            final(self).subject() == old(self).subject(),
            final(self).state() == after_category(old(self).state(), string_view(category)),
    {
        let mut category = match category {
            Some(c) => c,
            None => "starter".to_owned(),
        };
        if self.has_tag("STARTER-SKILLS") || self.has_tag("STARTER-FIT") {
            if same_text(category.as_str(), "logi") {
                self.deny();
            } else {
                category = "starter".to_owned();
            }
        }
        self.category = Some(category);
    }

    /// Snowflake tags: the access-key tag and the specialist tags of hull and badge.
    pub fn add_snowflake_tags(&mut self)
        requires
            old(self).wf(),
        ensures
            final(self).wf(),
            final(self).subject() == old(self).subject(),
            final(self).state() == after_snowflake_tags(old(self).state(), old(self).subject()),
    {
        let ids = self.ids;
        let hull = self.fit.hull;
        if has_text(self.pilot.access_keys, "waitlist-tag:HQ-FC") {
            self.tag("HQ-FC");
        } else if has_text(self.pilot.access_keys, "waitlist-tag:TRAINEE") {
            self.tag("TRAINEE");
        }
        if hull == ids.nestor {
            if self.has_badge("LOGI") {
                self.tag("LOGI");
            }
            if self.has_badge("RETIRED-LOGI") {
                self.tag("RETIRED-LOGI");
            }
        }
        if hull == ids.vindicator && self.has_badge("WEB") {
            self.tag("WEB-SPECIALIST");
        }
        if (hull == ids.kronos || hull == ids.paladin) && self.has_badge("BASTION") {
            self.tag("BASTION-SPECIALIST");
        }
    }

    /// Implant display tag: on a matched fit, tags the implant set that is worn for the
    /// hull where the fit shows it, and warns where the tenth slot is not filled.
    pub fn add_implant_tag(&mut self, set_tag: Option<&str>, slot10: bool)
        requires
            old(self).wf(),
        ensures
            final(self).wf(),
            final(self).subject() == old(self).subject(),
            final(self).state() == after_implant_tag(
                old(self).state(),
                old(self).subject(),
                text_of(set_tag),
                slot10,
            ),
    {
        let on_logi_cruiser = self.fit.hull == self.ids.oneiros;
        let shown: Option<bool> = match (&self.doctrine_fit, set_tag) {
            (Some(doctrine_fit), Some(set)) => {
                if same_text(set, "SAVIOR") {
                    None
                } else {
                    let titled = to_title_case(set);
                    Some(
                        implant_tag_shown(
                            doctrine_fit.name.as_str(),
                            set,
                            titled.as_str(),
                            on_logi_cruiser,
                        ),
                    )
                }
            },
            _ => Some(false),
        };
        match (shown, set_tag) {
            (None, _) => {
                self.tag("SAVIOR");
            },
            (Some(true), Some(set)) => {
                self.tag(set);
                if !slot10 {
                    self.tag("NO-SLOT10");
                }
            },
            _ => {},
        }
    }

    /// War-status enrichment: tags the wars that the service reported. A lookup that
    /// failed is handed in as `None` and changes nothing.
    pub fn add_war_tags(&mut self, war: Option<WarStatus>)
        requires
            old(self).wf(),
        ensures
            final(self).wf(),
            final(self).subject() == old(self).subject(),
            final(self).state() == after_war_tags(old(self).state(), war),
    {
        match war {
            Some(status) => {
                if status.active_war {
                    self.tag("AT-WAR");
                }
                if status.faction_war {
                    self.tag("FACTION-WAR");
                }
            },
            None => {},
        }
    }

    /// Tag merge: collapses overlapping signals into the final badges.
    pub fn merge_tags(&mut self)
        requires
            old(self).wf(),
        ensures
            final(self).wf(),
            final(self).subject() == old(self).subject(),
            final(self).state() == after_merge(old(self).state()),
    {
        merge(&mut self.tags);
    }

    /// Tenure escalation: tags the pilot whose time in fleet calls for an upgrade, and
    /// clears the approval where an escalation tag is present.
    pub fn check_time_in_fleet(&mut self)
        requires
            old(self).wf(),
        ensures
            final(self).wf(),
            final(self).subject() == old(self).subject(),
            final(self).state() == after_time_in_fleet(old(self).state(), old(self).subject()),
    {
        let pilot_is_elite = self.has_tag("ELITE") || self.has_tag("ELITE-GOLD") || self.has_tag(
            "WEB",
        ) || self.has_tag("BASTION");
        let ids = self.ids;
        let hull = self.fit.hull;
        let time = self.pilot.time_in_fleet;
        let has_t2_blaster = self.fit.fitted(ids.neutron_blaster_cannon_ii) > 0;
        let has_t2_lasers = self.fit.fitted(ids.mega_pulse_laser_ii) > 0;

        if hull == ids.oneiros {
            // Logistics cruisers have one milestone: elite.
            if time >= 105 * 3600 && !pilot_is_elite {
                self.tag("ELITE-HOURS-REACHED");
            }
        } else if hull == ids.megathron || hull == ids.apocalypse_navy_issue {
            // The entry battleships have one milestone: leaving the hull.
            if time >= 22 * 3600 {
                self.tag("UPGRADE-HOURS-REACHED");
            }
        } else if hull == ids.kronos || hull == ids.nightmare || hull == ids.paladin || hull
            == ids.vindicator {
            if time >= 220 * 3600 && !pilot_is_elite {
                self.tag("ELITE-HOURS-REACHED");
            } else if time >= 130 * 3600 {
                if hull == ids.vindicator {
                    if !self.has_badge("WEB") {
                        self.tag("UPGRADE-HOURS-REACHED");
                    }
                } else if !(has_t2_blaster || has_t2_lasers) {
                    self.tag("UPGRADE-HOURS-REACHED");
                }
            } else if time >= 85 * 3600 {
                if !(hull == ids.kronos || hull == ids.paladin || has_t2_blaster || has_t2_lasers) {
                    self.tag("UPGRADE-HOURS-REACHED");
                }
            }
        }
        if self.has_tag("ELITE-HOURS-REACHED") || self.has_tag("UPGRADE-HOURS-REACHED") {
            self.deny();
        }
    }

    /// Result assembly: freezes the state into the outcome.
    pub fn finish(self) -> (r: Result<Output, FitError>)
        requires
            self.wf(),
            self.state().category is Some,
        ensures
            r is Ok,
            r->Ok_0@ == finished(self.state()),
            ascending(texts(r->Ok_0.tags@)),
    {
        Ok(
            Output {
                approved: self.approved,
                tags: self.tags.into_vec(),
                errors: self.errors,
                category: self.category.unwrap(),
                analysis: self.analysis,
            },
        )
    }

    /// Whether the rules so far have left the pilot approved.
    pub fn approved(&self) -> (r: bool)
        ensures
            r == self.state().approved,
    {
        self.approved
    }

    /// Whether a tag is set.
    pub fn has_tag(&self, tag: &str) -> (r: bool)
        ensures
            r == self.state().tags.contains(tag@),
    {
        self.tags.contains(tag)
    }

    /// The tags that are set.
    pub fn tags(&self) -> (tags: &TagSet)
        ensures
            tags@ == self.state().tags,
            self.wf() ==> tags.wf(),
    {
        &self.tags
    }

    /// The advisory errors noted so far.
    pub fn errors(&self) -> (errors: &Vec<String>)
        ensures
            texts(errors@) == self.state().errors,
    {
        &self.errors
    }

    /// The category, once it is assigned.
    pub fn category(&self) -> (category: &Option<String>)
        ensures
            string_view(*category) == self.state().category,
    {
        &self.category
    }

    /// The public diff, once a doctrine fit has matched.
    pub fn analysis(&self) -> (analysis: &Option<PubAnalysis>)
        ensures
            analysis_view(*analysis) == self.state().analysis,
    {
        &self.analysis
    }

    fn note(&mut self, message: String)
        requires
            old(self).wf(),
        ensures
            final(self).wf(),
            final(self).subject() == old(self).subject(),
            final(self).state() == (CheckState {
                errors: old(self).state().errors.push(message@),
                ..old(self).state()
            }),
    {
        self.errors.push(message);
        assert(texts(self.errors@) =~= texts(old(self).errors@).push(message@));
    }

    fn tag(&mut self, tag: &str)
        requires
            old(self).wf(),
        ensures
            final(self).wf(),
            final(self).subject() == old(self).subject(),
            final(self).state() == (CheckState {
                tags: old(self).state().tags.insert(tag@),
                ..old(self).state()
            }),
    {
        self.tags.insert(tag);
    }

    fn untag(&mut self, tag: &str)
        requires
            old(self).wf(),
        ensures
            final(self).wf(),
            final(self).subject() == old(self).subject(),
            final(self).state() == (CheckState {
                tags: old(self).state().tags.remove(tag@),
                ..old(self).state()
            }),
    {
        self.tags.remove(tag);
    }

    fn deny(&mut self)
        ensures
            final(self).wf() == old(self).wf(),
            final(self).subject() == old(self).subject(),
            final(self).state() == (CheckState { approved: false, ..old(self).state() }),
    {
        self.approved = false;
    }

    fn level(&self, skill: TypeID) -> (level: SkillLevel)
        ensures
            level == level_in(self.subject().levels, skill),
    {
        self.pilot.skills.get(skill)
    }

    fn has_badge(&self, badge: &str) -> (r: bool)
        ensures
            r == self.subject().badges.contains(badge@),
    {
        has_text(self.badges, badge)
    }

    fn note_missing_skills(&mut self, info: &TypeInfo)
        requires
            old(self).wf(),
        ensures
            final(self).wf(),
            final(self).subject() == old(self).subject(),
            final(self).state() == (CheckState {
                errors: old(self).state().errors + skill_errors_for(
                    info.name@,
                    old(self).subject().levels,
                    info.skill_requirements@,
                ),
                ..old(self).state()
            }),
    {
        let ghost levels = self.subject().levels;
        let ghost before = self.state();
        let mut i: usize = 0;
        assert(before.errors + skill_errors_for(
            info.name@,
            levels,
            info.skill_requirements@.take(0),
        ) =~= before.errors);
        while i < info.skill_requirements.len()
            invariant
                i <= info.skill_requirements@.len(),
                self.wf(),
                self.subject() == old(self).subject(),
                levels == old(self).subject().levels,
                before == old(self).state(),
                self.state() == (CheckState {
                    errors: before.errors + skill_errors_for(
                        info.name@,
                        levels,
                        info.skill_requirements@.take(i as int),
                    ),
                    ..before
                }),
            decreases info.skill_requirements@.len() - i,
        {
            let requirement = info.skill_requirements[i];
            proof {
                let next = info.skill_requirements@.take(i + 1);
                assert(next.drop_last() =~= info.skill_requirements@.take(i as int));
                assert(next.last() == requirement);
            }
            if self.level(requirement.skill) < requirement.level {
                let mut message = "Missing skills to online/use '".to_owned();
                message.append(info.name.as_str());
                message.append("'");
                self.note(message);
                assert(self.state().errors =~= before.errors + skill_errors_for(
                    info.name@,
                    levels,
                    info.skill_requirements@.take(i + 1),
                ));
            }
            i += 1;
        }
        assert(info.skill_requirements@.take(i as int) =~= info.skill_requirements@);
    }
}

/// The text of an optional string slice.
pub open spec fn text_of(s: Option<&str>) -> Option<Seq<char>> {
    match s {
        Some(t) => Some(t@),
        None => None,
    }
}

/// The text of an optional string.
pub open spec fn string_view(s: Option<String>) -> Option<Seq<char>> {
    match s {
        Some(t) => Some(t@),
        None => None,
    }
}

/// The view of what the matcher found.
pub open spec fn match_view(found: Option<(DoctrineFit, FitDiff)>) -> Option<(Seq<char>, DiffView)> {
    match found {
        Some((fit, diff)) => Some((fit.name@, diff@)),
        None => None,
    }
}

/// The first of the identifiers that the type database does not know.
pub fn first_missing(types: &TypeDB, ids: &Vec<TypeID>) -> (missing: Option<TypeID>)
    ensures
        missing == first_unknown(types, ids@),
{
    let mut i: usize = 0;
    while i < ids.len()
        invariant
            i <= ids@.len(),
            first_unknown(types, ids@.take(i as int)) is None,
        decreases ids@.len() - i,
    {
        proof {
            assert(ids@.take(i + 1).drop_last() =~= ids@.take(i as int));
        }
        if types.get(ids[i]).is_none() {
            proof {
                lemma_first_unknown_stays(types, ids@, i + 1);
            }
            return Some(ids[i]);
        }
        i += 1;
    }
    assert(ids@.take(i as int) =~= ids@);
    None
}

/// Whether the type database knows the hull and every fitted module of a fitting. An
/// evaluation of the fitting fails with the same error, and succeeds where this does,
/// so a caller can tell before it asks any other service.
pub fn types_known(fit: &Fitting, types: &TypeDB) -> (r: Result<(), FitError>)
    ensures
        match lookup_failure(types, fit.hull, key_order(&fit.modules)) {
            Some(e) => r == Err::<(), FitError>(e),
            None => r is Ok,
        },
{
    if types.get(fit.hull).is_none() {
        return Err(FitError::UnknownHull(fit.hull));
    }
    let module_ids = keys_of(&fit.modules);
    match first_missing(types, &module_ids) {
        Some(id) => Err(FitError::UnknownModule(id)),
        None => Ok(()),
    }
}

/// The war status that counts among the records that the service sent: the first.
/// An answer without a record tells nothing.
pub fn first_status(records: &Vec<WarStatus>) -> (status: Option<WarStatus>)
    ensures
        status == (if records@.len() == 0 {
            None
        } else {
            Some(records@[0])
        }),
{
    if records.len() == 0 {
        None
    } else {
        Some(records[0])
    }
}

/// Whether a detected implant set other than savior is shown on a fit. `titled` is the
/// set's name in title case.
pub fn implant_tag_shown(name: &str, set: &str, titled: &str, on_logi_cruiser: bool) -> (r: bool)
    ensures
        r == set_shown(name@, set@, titled@, on_logi_cruiser),
{
    contains(name, titled) || (same_text(set, "WARPSPEED") && !contains(name, "Amulet"))
        || on_logi_cruiser
}

fn promote(tags: &mut TagSet, otherwise: Option<&str>)
    requires
        old(tags).wf(),
    ensures
        final(tags).wf(),
        final(tags)@ == promoted(old(tags)@, text_of(otherwise)),
{
    if tags.contains("BASTION-SPECIALIST") {
        tags.remove("BASTION-SPECIALIST");
        tags.insert("BASTION");
    } else if tags.contains("WEB-SPECIALIST") {
        tags.remove("WEB-SPECIALIST");
        tags.insert("WEB");
    } else {
        match otherwise {
            Some(t) => {
                tags.insert(t);
            },
            None => {},
        }
    }
}

/// Collapses overlapping signals of a tag set into the final badges.
pub fn merge(tags: &mut TagSet)
    requires
        old(tags).wf(),
    ensures
        final(tags).wf(),
        final(tags)@ == merged(old(tags)@),
{
    let implants = tags.contains("WARPSPEED") || tags.contains("HYBRID") || tags.contains("AMULET")
        || tags.contains("SAVIOR");
    if tags.contains("ELITE-FIT") && implants {
        if tags.contains("ELITE-SKILLS") {
            tags.remove("ELITE-FIT");
            tags.remove("ELITE-SKILLS");
            promote(tags, Some("ELITE"));
        } else if tags.contains("GOLD-SKILLS") {
            tags.remove("ELITE-FIT");
            tags.remove("GOLD-SKILLS");
            tags.insert("ELITE-GOLD");
            promote(tags, None);
        }
    } else if tags.contains("ANTIGANK") {
        // Antigank fleets do not show the fit badge.
        tags.remove("ELITE-FIT");
    } else if tags.contains("STARTER-SKILLS") || tags.contains("STARTER-FIT") {
        tags.remove("STARTER-FIT");
        tags.remove("STARTER-SKILLS");
        tags.insert("STARTER");
    }
}

/// The smaller of two levels.
fn lower_of(a: SkillLevel, b: SkillLevel) -> (l: SkillLevel)
    ensures
        l == lower(a, b),
{
    if a <= b {
        a
    } else {
        b
    }
}

} // verus!
