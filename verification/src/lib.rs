//! Options for submitting an extrinsic to a node, and the policy that decides
//! which chain those options target.
//!
//! An [`ExtrinsicOptsBuilder`] collects the settings one by one and is
//! finished into an [`ExtrinsicOpts`], which is read-only. Besides handing the
//! settings back, the options resolve the [`Chain`] that they target and the
//! endpoint at which it is reached: a production chain that was named, a
//! production chain whose endpoint the node URL is, or a custom chain at the
//! node URL itself.

pub mod artifacts;
pub mod node_url;
pub mod opts;
pub mod prod_chains;
pub mod verbosity;

pub use artifacts::ContractArtifacts;
pub use node_url::{NodeUrl, UrlError, LOCAL_NODE_URL};
pub use opts::{Chain, ExtrinsicOpts, ExtrinsicOptsBuilder};
pub use prod_chains::{ChainRegistry, ProductionChain};
pub use verbosity::Verbosity;
