//! Data model of a classified statement: the peer it may route to, the
//! routing association the analyzer attached, and cursor events.

use vstd::prelude::*;

verus! {

/// Backend-specific connection settings of a peer. The session logic reads
/// only the variant tag; the settings text is opaque connection data that
/// the executor construction (outside the library) interprets.
pub enum PeerConfig {
    /// An analytical-warehouse backend.
    BigQuery { settings: String },
    /// A relational-engine backend.
    Postgres { settings: String },
    /// A configured backend kind this gateway cannot construct an executor
    /// for; `kind` names it for the error surfaced to the client.
    Other { kind: String, settings: String },
}

impl PeerConfig {
    /// An executor can be constructed exactly for the supported variants.
    pub open spec fn spec_supported(&self) -> bool {
        match self {
            PeerConfig::BigQuery { .. } => true,
            PeerConfig::Postgres { .. } => true,
            PeerConfig::Other { .. } => false,
        }
    }

    pub fn supported(&self) -> (r: bool)
        ensures
            r == self.spec_supported(),
    {
        match self {
            PeerConfig::BigQuery { .. } => true,
            PeerConfig::Postgres { .. } => true,
            PeerConfig::Other { .. } => false,
        }
    }

    /// The name of the variant, for the error surfaced when no executor
    /// can be constructed for it.
    pub open spec fn spec_kind_name(&self) -> Seq<char> {
        match self {
            PeerConfig::BigQuery { .. } => "BIGQUERY"@,
            PeerConfig::Postgres { .. } => "POSTGRES"@,
            PeerConfig::Other { kind, .. } => kind@,
        }
    }

    pub fn kind_name(&self) -> (r: String)
        ensures
            r@ == self.spec_kind_name(),
    {
        match self {
            PeerConfig::BigQuery { .. } => "BIGQUERY".to_owned(),
            PeerConfig::Postgres { .. } => "POSTGRES".to_owned(),
            PeerConfig::Other { kind, .. } => kind.clone(),
        }
    }
}

impl Clone for PeerConfig {
    fn clone(&self) -> (r: Self)
        ensures
            r == *self,
    {
        match self {
            PeerConfig::BigQuery { settings } => PeerConfig::BigQuery { settings: settings.clone() },
            PeerConfig::Postgres { settings } => PeerConfig::Postgres { settings: settings.clone() },
            PeerConfig::Other { kind, settings } => PeerConfig::Other {
                kind: kind.clone(),
                settings: settings.clone(),
            },
        }
    }
}

/// A configured external data system the gateway can route queries to.
pub struct Peer {
    /// Unique identifier of the peer within the catalog.
    pub name: String,
    /// Connection settings, dispatched on by variant when an executor is
    /// constructed.
    pub config: PeerConfig,
}

impl Clone for Peer {
    fn clone(&self) -> (r: Self)
        ensures
            r == *self,
    {
        Peer { name: self.name.clone(), config: self.config.clone() }
    }
}

/// Routing decision attached to a query by the analyzer.
pub enum Association {
    /// The query targets one configured peer.
    Peer(Peer),
    /// The query targets the catalog's built-in executor.
    Catalog,
}

/// A cursor operation carried by a cursor statement.
pub enum CursorEvent {
    /// Fetch up to the given number of rows from the named cursor.
    Fetch(String, u64),
    /// Close the named cursor.
    Close(String),
    /// Close every cursor tracked by the session.
    CloseAll,
}

/// Data-definition statements the gateway itself understands.
pub enum PeerDdl {
    /// Persist a new peer definition in the catalog.
    CreatePeer { peer: Peer, if_not_exists: bool },
}

/// A classified statement as the analyzer hands it to the dispatcher.
/// `stmt` is the statement text forwarded to the chosen executor.
pub enum Statement {
    PeerDdl { ddl: PeerDdl },
    PeerQuery { stmt: String, assoc: Association },
    PeerCursor { stmt: String, cursor: CursorEvent },
}

} // verus!
