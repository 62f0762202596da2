//! Aggregation of circom-plonk proofs: the public-input layout of the
//! aggregation circuit, its witnesses, the calldata of its EVM verifier, and the
//! decisions of the command line tool that drives the provers.

pub mod bytes;
pub mod field;
pub mod limbs;
pub mod value;
pub mod witness;
pub mod accumulation;
pub mod circuit;
pub mod calldata;
pub mod text;
pub mod failure;
pub mod files;
pub mod params;
pub mod paths;
pub mod inputs;
pub mod proving;
pub mod evm;
pub mod report;
pub mod saving;
pub mod workflow;
