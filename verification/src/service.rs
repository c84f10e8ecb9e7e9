//! Small service operations around the store, exposed to the marshalling
//! layer: bulk clearing with a confirmation message, and the shallow
//! validation of incoming payload strings.

use crate::store::{MemoryRecord, MemoryStore};
use vstd::prelude::*;
use vstd::string::StringExecFns;

verus! {

/// Empty an entity's history (a no-op for an unknown entity) and report
/// the confirmation message the marshalling layer forwards.
pub fn clear_memory(store: &mut MemoryStore, npc_id: &str) -> (r: String)
    requires
        old(store).wf(),
    ensures
        final(store).wf(),
        final(store)@ == if old(store)@.contains_key(npc_id@) {
            old(store)@.insert(npc_id@, Seq::<MemoryRecord>::empty())
        } else {
            old(store)@
        },
        r@ == "Memory cleared successfully"@,
{
    store.clear(npc_id);
    String::from_str("Memory cleared successfully")
}

/// A configuration payload must at least be non-empty before it is handed
/// to the parser; the parse itself happens at the marshalling boundary.
pub fn validate_config_json(config_str: &str) -> (r: Result<(), String>)
    ensures
        r is Ok <==> config_str@.len() > 0,
        r matches Err(m) ==> m@ == "Config string is empty"@,
{
    if config_str.is_empty() {
        Err(String::from_str("Config string is empty"))
    } else {
        Ok(())
    }
}

/// A memory payload may be empty — an empty string means "no records to
/// import" — so every string passes this shallow check.
pub fn validate_memory_json(memory_str: &str) -> (r: Result<(), String>)
    ensures
        r is Ok,
{
    let _ = memory_str;
    Ok(())
}

} // verus!
