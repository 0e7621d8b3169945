//! Decision logic of a mod installer: package identifiers, archive entry
//! filtering, plugin detection, conflict resolution and the install session,
//! with the checks made before launching the game.
pub mod mod_string;
pub mod entries;
pub mod session;
pub mod laws;
pub mod northstar;
pub mod mod_json;
