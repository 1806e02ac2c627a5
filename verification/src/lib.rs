use vstd::prelude::*;
pub mod fnv;
pub mod float_bits;
pub mod text;
pub mod config;
pub mod run_config;
pub mod presets;
pub mod signature;
pub mod validation;
pub mod numbers;
pub mod cli_table;
pub mod cli;
pub mod paths;
pub mod derived;
pub mod training;
pub mod develop;
pub mod benchmark;
pub mod experiment;
pub mod gradient;
pub mod dynamics;
pub mod device;
pub mod artifacts;
pub mod corpus;
pub mod digits;
pub mod comparison;
