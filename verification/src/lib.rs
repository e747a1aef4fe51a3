use vstd::prelude::*;

pub mod constants;
pub mod error;
pub mod key;
pub mod num;
pub mod planet;
pub mod formulas;
pub mod requirements;
pub mod economy;
pub mod flight;
pub mod launch;
pub mod combat;
pub mod attack;
pub mod espionage;
pub mod missions;
pub mod address;
pub mod market;
pub mod offers;
pub mod listings;
pub mod accounts;
pub mod trade;
pub mod private_state;
pub mod bytes;
pub mod planet_bytes;
pub mod live;
pub mod ship_bytes;
pub mod alliance;
pub mod vault;
pub mod deposit;
pub mod store;
pub mod creation;
pub mod quests;
pub mod quest_claims;
pub mod laws;
pub mod accelerate;
pub mod alliance_create;
pub mod public_planet;
pub mod components;
pub mod system_produce;
pub mod system_session;
pub mod system_resolve_colonize;
pub mod system_resolve_transport;
pub mod system_registry;
pub mod system_launch;
pub mod system_build;
pub mod system_research;
pub mod system_shipyard;
pub mod system_initialize;
pub mod system_initialize_new_colony;
pub mod system_attack;
pub mod resolution;
pub mod vault_actions;
pub mod quest_actions;
pub mod config;
pub mod duration_laws;
pub mod production_laws;
