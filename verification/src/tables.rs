//! Postgres object names for bootnode storage. Keep `migrations/*.sql` in sync.

use vstd::prelude::*;

verus! {

/// Table that records which schema migrations have been applied.
pub const SCHEMA_MIGRATIONS: &'static str = "bootnode_schema_migrations";

/// Table that holds the indexer's progress.
pub const INDEXER_STATE: &'static str = "bootnode_indexer_state";

/// Table that holds cached pages of events.
pub const GET_EVENTS_PAGES: &'static str = "bootnode_get_events_pages";

} // verus!
