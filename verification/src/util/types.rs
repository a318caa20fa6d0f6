//! Records of characters, their corporations and their bans.

use vstd::prelude::*;
use crate::typedb::TypeID;

verus! {

#[derive(Debug, Clone)]
pub struct Character {
    pub id: i64,
    pub name: String,
    pub corporation_id: Option<i64>,
}

#[derive(Debug)]
pub struct Hull {
    pub id: TypeID,
    pub name: String,
}

#[derive(Debug, Clone)]
pub struct WaitlistCategory {
    pub id: String,
    pub name: String,
    pub auto_detect_names: Option<Vec<String>>,
}

#[derive(Debug, Clone)]
pub struct CharacterAndLevel {
    pub id: i64,
    pub name: String,
    pub tags: Vec<String>,
    pub active_bans: Option<Vec<Ban>>,
}

#[derive(Debug)]
pub struct Empty {}

#[derive(Debug, Clone)]
pub struct Entity {
    pub id: i64,
    pub name: Option<String>,
    pub category: String,
}

#[derive(Debug, Clone)]
pub struct System {
    pub id: i64,
    pub name: String,
}

#[derive(Debug, Clone)]
pub struct Ban {
    pub id: Option<i64>,
    pub entity: Option<Entity>,
    pub issued_at: Option<i64>,
    pub issued_by: Option<Character>,
    pub public_reason: Option<String>,
    pub reason: String,
    pub revoked_at: Option<i64>,
    pub revoked_by: Option<Character>,
}

#[derive(Debug)]
pub struct Alliance {
    pub id: i64,
    pub name: String,
}

#[derive(Debug)]
pub struct Corporation {
    pub id: i64,
    pub name: String,
    pub alliance: Option<Alliance>,
    pub last_updated: Option<i64>,
}

} // verus!
