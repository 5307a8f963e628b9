//! Persistence layer: the stored rows and the inputs of the queries that read
//! and write them, plus the in-memory logic those queries share.
pub mod agent_release;
pub mod batch;
pub mod ca;
pub mod canvas;
pub mod certificate;
pub mod connection;
pub mod decode;
pub mod dns;
pub mod edge;
pub mod exit;
pub mod fence;
pub mod graph;
pub mod group;
pub mod health;
pub mod job_run;
pub mod node;
pub mod pod;
pub mod port;
pub mod server;
pub mod topology;
pub mod tree;
pub mod view;
