//! The layout of a fleet: its wings and squads.

use vstd::prelude::*;
use vstd::string::StringExecFns;
use crate::text::{decimal, decimal_text, replace_all, replaced};

verus! {

/// A wing of a fleet.
#[derive(Debug)]
pub struct Wing {
    pub name: String,
    pub squads: Vec<Squad>,
}

/// A squad of a wing. `map_to` names the waitlist category whose pilots it takes.
#[derive(Debug)]
pub struct Squad {
    pub name: String,
    pub map_to: Option<String>,
}

/// A fleet and the character that commands it.
#[derive(Debug)]
pub struct FleetInfo {
    pub fleet_id: i64,
    pub fleet_boss_id: i64,
}

/// A squad as mathematical values.
pub struct SquadView {
    pub name: Seq<char>,
    pub map_to: Option<Seq<char>>,
}

/// A wing as mathematical values.
pub struct WingView {
    pub name: Seq<char>,
    pub squads: Seq<SquadView>,
}

impl View for Squad {
    type V = SquadView;

    open spec fn view(&self) -> SquadView {
        SquadView {
            name: self.name@,
            map_to: match self.map_to {
                Some(c) => Some(c@),
                None => None,
            },
        }
    }
}

impl View for Wing {
    type V = WingView;

    open spec fn view(&self) -> WingView {
        WingView { name: self.name@, squads: self.squads@.map_values(|s: Squad| s@) }
    }
}

/// A squad that takes the pilots of a category.
pub open spec fn mapped(name: Seq<char>, category: Seq<char>) -> SquadView {
    SquadView { name, map_to: Some(category) }
}

/// A squad that no category is mapped to.
pub open spec fn unmapped(name: Seq<char>) -> SquadView {
    SquadView { name, map_to: None }
}

/// The wings that a new fleet is given: one on grid, with a squad for each category
/// and four boxes, and one off grid.
pub open spec fn default_wings() -> Seq<WingView> {
    seq![
        WingView {
            name: "On Grid"@,
            squads: seq![
                mapped("Logistics"@, "logi"@),
                mapped("Bastion"@, "bastion"@),
                mapped("CQC"@, "cqc"@),
                mapped("Sniper"@, "sniper"@),
                mapped("Starter"@, "starter"@),
                mapped("Alts"@, "alt"@),
                unmapped("Box 1"@),
                unmapped("Box 2"@),
                unmapped("Box 3"@),
                unmapped("Box 4"@),
            ],
        },
        WingView {
            name: "Off Grid"@,
            squads: seq![unmapped("Scout 1"@), unmapped("Scout 2"@), unmapped("Other"@)],
        },
    ]
}

fn mapped_squad(name: &str, category: &str) -> (s: Squad)
    ensures
        s@ == mapped(name@, category@),
{
    Squad { name: name.to_owned(), map_to: Some(category.to_owned()) }
}

fn unmapped_squad(name: &str) -> (s: Squad)
    ensures
        s@ == unmapped(name@),
{
    Squad { name: name.to_owned(), map_to: None }
}

/// The views of a list of wings.
pub open spec fn wing_views(wings: Seq<Wing>) -> Seq<WingView> {
    wings.map_values(|w: Wing| w@)
}

/// The default layout of a fleet.
pub fn load_default_squads() -> (wings: Vec<Wing>)
    ensures
        wing_views(wings@) == default_wings(),
{
    let mut on_grid_squads: Vec<Squad> = Vec::new();
    on_grid_squads.push(mapped_squad("Logistics", "logi"));
    on_grid_squads.push(mapped_squad("Bastion", "bastion"));
    on_grid_squads.push(mapped_squad("CQC", "cqc"));
    on_grid_squads.push(mapped_squad("Sniper", "sniper"));
    on_grid_squads.push(mapped_squad("Starter", "starter"));
    on_grid_squads.push(mapped_squad("Alts", "alt"));
    on_grid_squads.push(unmapped_squad("Box 1"));
    on_grid_squads.push(unmapped_squad("Box 2"));
    on_grid_squads.push(unmapped_squad("Box 3"));
    on_grid_squads.push(unmapped_squad("Box 4"));
    let on_grid = Wing { name: "On Grid".to_owned(), squads: on_grid_squads };
    assert(on_grid@.squads =~= default_wings()[0].squads);

    let mut off_grid_squads: Vec<Squad> = Vec::new();
    off_grid_squads.push(unmapped_squad("Scout 1"));
    off_grid_squads.push(unmapped_squad("Scout 2"));
    off_grid_squads.push(unmapped_squad("Other"));
    let off_grid = Wing { name: "Off Grid".to_owned(), squads: off_grid_squads };
    assert(off_grid@.squads =~= default_wings()[1].squads);

    let mut wings: Vec<Wing> = Vec::new();
    wings.push(on_grid);
    wings.push(off_grid);
    assert(wing_views(wings@) =~= default_wings());
    wings
}

/// A member of a fleet and the solar system that the member is in.
#[derive(Debug, Clone, Copy, PartialEq, Eq, Structural)]
pub struct FleetMember {
    pub character_id: i64,
    pub solar_system_id: i64,
}

/// The solar system of the first member at or after `from` that is the character.
pub open spec fn system_of(members: Seq<FleetMember>, character: i64, from: int) -> Option<i64>
    decreases members.len() - from,
{
    if from < 0 || from >= members.len() {
        None
    } else if members[from].character_id == character {
        Some(members[from].solar_system_id)
    } else {
        system_of(members, character, from + 1)
    }
}

/// The solar system that the fleet's boss is in, where the boss is among the members.
pub fn boss_system(members: &Vec<FleetMember>, fleet: &FleetInfo) -> (system: Option<i64>)
    ensures
        system == system_of(members@, fleet.fleet_boss_id, 0),
{
    let mut i: usize = 0;
    while i < members.len()
        invariant
            i <= members@.len(),
            system_of(members@, fleet.fleet_boss_id, 0) == system_of(
                members@,
                fleet.fleet_boss_id,
                i as int,
            ),
        decreases members@.len() - i,
    {
        if members[i].character_id == fleet.fleet_boss_id {
            return Some(members[i].solar_system_id);
        }
        i += 1;
    }
    None
}

/// The name under which a solar system is shown; one without a known name is "Unknown".
pub open spec fn shown_system(name: Option<Seq<char>>) -> Seq<char> {
    match name {
        Some(n) => n,
        None => "Unknown"@,
    }
}

/// The message of the day: the template with its placeholders filled in. The
/// commander's placeholders are filled only where the commander's name is known.
pub open spec fn motd_text(
    template: Seq<char>,
    fc_name: Option<Seq<char>>,
    boss: i64,
    system: i64,
    system_name: Option<Seq<char>>,
) -> Seq<char> {
    let named = match fc_name {
        Some(name) => replaced(
            replaced(template, "{fc_id}"@, "1379//"@ + decimal(boss as int)),
            "{fc_name}"@,
            name,
        ),
        None => template,
    };
    replaced(
        replaced(named, "{fc_system_id}"@, decimal(system as int)),
        "{fc_system_name}"@,
        shown_system(system_name),
    )
}

/// Fills the template of the message of the day for a fleet whose boss is in `system`.
pub fn render_motd(
    template: &str,
    fc_name: Option<&str>,
    fleet: &FleetInfo,
    system: i64,
    system_name: Option<&str>,
) -> (motd: String)
    ensures
        motd@ == motd_text(
            template@,
            match fc_name {
                Some(n) => Some(n@),
                None => None,
            },
            fleet.fleet_boss_id,
            system,
            match system_name {
                Some(n) => Some(n@),
                None => None,
            },
        ),
{
    let mut result = template.to_owned();
    match fc_name {
        Some(name) => {
            let mut link = "1379//".to_owned();
            link.append(decimal_text(fleet.fleet_boss_id).as_str());
            result = replace_all(result.as_str(), "{fc_id}", link.as_str());
            result = replace_all(result.as_str(), "{fc_name}", name);
        },
        None => {},
    }
    let shown = match system_name {
        Some(name) => name,
        None => "Unknown",
    };
    result = replace_all(result.as_str(), "{fc_system_id}", decimal_text(system).as_str());
    replace_all(result.as_str(), "{fc_system_name}", shown)
}

/// The path under which a fleet is reached.
pub open spec fn fleet_path_text(fleet: i64) -> Seq<char> {
    "/v1/fleets/"@ + decimal(fleet as int)
}

/// The path under which a fleet is reached.
pub fn fleet_path(fleet: &FleetInfo) -> (path: String)
    ensures
        path@ == fleet_path_text(fleet.fleet_id),
{
    let mut path = "/v1/fleets/".to_owned();
    path.append(decimal_text(fleet.fleet_id).as_str());
    path
}

/// The path under which the wings of a fleet are listed.
pub fn wings_path(fleet: &FleetInfo) -> (path: String)
    ensures
        path@ == fleet_path_text(fleet.fleet_id) + "/wings"@,
{
    let mut path = fleet_path(fleet);
    path.append("/wings");
    path
}

/// The path under which one wing of a fleet is reached.
pub fn wing_path(fleet: &FleetInfo, wing: i64) -> (path: String)
    ensures
        path@ == fleet_path_text(fleet.fleet_id) + "/wings/"@ + decimal(wing as int),
{
    let mut path = fleet_path(fleet);
    path.append("/wings/");
    path.append(decimal_text(wing).as_str());
    path
}

} // verus!
