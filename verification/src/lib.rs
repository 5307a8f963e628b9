//! Orchestration control plane: the canvas tree, the pod graph's stored rows,
//! rollout bookkeeping and the scheduling decisions of the periodic jobs.
pub mod clock;
pub mod config;
pub mod decimal;
pub mod entities;
pub mod events;
pub mod hooks;
pub mod net;
pub mod rpc;
pub mod text;
pub mod vecs;
