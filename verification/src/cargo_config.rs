use vstd::prelude::*;
use std::collections::HashMap;
use crate::bobbin_config::BobbinConfig;

verus! {

/// The parts of a cargo configuration file this tool reads.
#[derive(Debug)]
pub struct CargoConfig {
    pub build: Option<BuildConfig>,
    pub target: Option<HashMap<String, Target>>,
}

/// The build section: the default compilation target.
#[derive(Debug)]
pub struct BuildConfig {
    pub target: Option<String>,
}

/// A per-target section; nothing of it is read yet.
#[derive(Debug)]
pub struct Target {}

/// Where the compilation target comes from: the project's own
/// configuration wins over the cargo configuration, and either may be
/// silent.
pub open spec fn spec_build_target<'a>(
    bobbin: &'a Option<BobbinConfig>,
    cargo: &'a Option<CargoConfig>,
) -> Option<&'a String> {
    match bobbin {
        Some(b) => match &b.builder {
            Some(builder) => match &builder.target {
                Some(t) => Some(t),
                None => spec_cargo_target(cargo),
            },
            None => spec_cargo_target(cargo),
        },
        None => spec_cargo_target(cargo),
    }
}

/// The compilation target the cargo configuration names, if any.
pub open spec fn spec_cargo_target<'a>(cargo: &'a Option<CargoConfig>) -> Option<&'a String> {
    match cargo {
        Some(c) => match &c.build {
            Some(build) => match &build.target {
                Some(t) => Some(t),
                None => None,
            },
            None => None,
        },
        None => None,
    }
}

/// Select the compilation target from the two configuration files.
pub fn build_target<'a>(
    bobbin: &'a Option<BobbinConfig>,
    cargo: &'a Option<CargoConfig>,
) -> (r: Option<&'a String>)
    ensures
        r == spec_build_target(bobbin, cargo),
{
    if let Some(b) = bobbin {
        if let Some(builder) = &b.builder {
            if let Some(t) = &builder.target {
                return Some(t);
            }
        }
    }
    if let Some(c) = cargo {
        if let Some(build) = &c.build {
            if let Some(t) = &build.target {
                return Some(t);
            }
        }
    }
    None
}

} // verus!
