//! DepRadar off-chain toolkit: typosquat detection for package names, the
//! data and decisions of an OSV vulnerability query, and the decisions of the
//! on-chain bounty router.

pub mod cve;
pub mod deprader_router;
pub mod typosquat;
