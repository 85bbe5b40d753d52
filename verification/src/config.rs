//! Settings consumed by the workload: where the cluster is and what topology
//! and load each use case asks for.

use vstd::prelude::*;

verus! {

/// The whole settings file.
#[derive(Debug, Clone)]
pub struct Config {
    pub version: String,
    pub database: DatabaseConfig,
    pub active_usecases: ActiveUseCases,
    pub metrics_port: u16,
    pub crud: CrudConfig,
    pub graph: GraphConfig,
    pub comment: Option<String>,
}

/// How to reach the cluster. Entry points are interchangeable: any of them
/// may serve any request.
#[derive(Debug, Clone)]
pub struct DatabaseConfig {
    pub endpoints: Vec<String>,
    pub username: String,
    pub password: String,
    pub prefix: String,
}

#[derive(Debug, Clone)]
pub struct ActiveUseCases {
    pub crud: UseCaseConfig,
    pub graph: UseCaseConfig,
}

#[derive(Debug, Clone)]
pub struct UseCaseConfig {
    pub on: bool,
    pub threads: u32,
}

/// Topology and load of the document workload.
#[derive(Debug, Clone)]
pub struct CrudConfig {
    pub number_of_collections: u32,
    pub number_of_shards: u32,
    pub replication_factor: u32,
    pub number_of_documents: u32,
    pub document_size: u32,
    pub drop_first: bool,
    pub comment: Option<String>,
    pub insert_concurrency: u32,
}

#[derive(Debug, Clone)]
pub struct GraphConfig {
    pub number_of_vertices: u32,
    pub number_of_edges: u32,
    pub number_of_shards: u32,
    pub replication_factor: u32,
    pub smart: bool,
    pub vertex_size: u32,
    pub edge_size: u32,
    pub drop_first: bool,
    pub comment: Option<String>,
}

impl DatabaseConfig {
    /// A cluster description is usable when it names at least one entry point.
    pub open spec fn well_formed(&self) -> bool {
        self.endpoints@.len() > 0
    }

    pub fn is_well_formed(&self) -> (ok: bool)
        ensures
            ok == self.well_formed(),
    {
        self.endpoints.len() > 0
    }
}

impl CrudConfig {
    /// Every collection has at least one shard and at least one copy of it.
    pub open spec fn well_formed(&self) -> bool {
        self.number_of_shards >= 1 && self.replication_factor >= 1
    }

    pub fn is_well_formed(&self) -> (ok: bool)
        ensures
            ok == self.well_formed(),
    {
        self.number_of_shards >= 1 && self.replication_factor >= 1
    }
}

} // verus!
