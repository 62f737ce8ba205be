use vstd::prelude::*;

verus! {

/// The project's own configuration file, every section optional.
#[derive(Debug)]
pub struct BobbinConfig {
    pub filter: Option<FilterConfig>,
    pub console: Option<ConsoleConfig>,
    pub builder: Option<BuilderConfig>,
    pub loader: Option<LoaderConfig>,
    pub itm: Option<ItmConfig>,
}

/// Device-selection defaults.
#[derive(Debug)]
pub struct FilterConfig {
    pub host: Option<String>,
    pub device: Option<String>,
}

/// Build defaults.
#[derive(Debug)]
pub struct BuilderConfig {
    pub target: Option<String>,
}

/// Serial-console defaults.
#[derive(Debug)]
pub struct ConsoleConfig {
    pub device: Option<String>,
    pub path: Option<String>,
    pub speed: Option<u32>,
}

/// Trace defaults: the target's core clock.
#[derive(Debug)]
pub struct ItmConfig {
    pub target_clock: Option<u32>,
}

/// Loader defaults.
#[derive(Debug)]
pub struct LoaderConfig {
    pub jlink_device: Option<String>,
    pub teensy_mcu: Option<String>,
    pub blackmagic_mode: Option<String>,
    pub offset: Option<String>,
}

impl BobbinConfig {
    /// The configured target core clock for trace capture, if any.
    pub fn itm_target_clock(&self) -> (r: Option<u32>)
        ensures
            r == match self.itm {
                Some(itm) => itm.target_clock,
                None => None::<u32>,
            },
    {
        match &self.itm {
            Some(itm) => itm.target_clock,
            None => None,
        }
    }

    /// The configured J-Link device name, if any.
    pub fn jlink_device(&self) -> (r: Option<&String>)
        ensures
            r == match self.loader {
                Some(ref l) => match l.jlink_device {
                    Some(ref d) => Some(d),
                    None => None::<&String>,
                },
                None => None::<&String>,
            },
    {
        match &self.loader {
            Some(l) => l.jlink_device.as_ref(),
            None => None,
        }
    }

    /// The configured Teensy MCU name, if any.
    pub fn teensy_mcu(&self) -> (r: Option<&String>)
        ensures
            r == match self.loader {
                Some(ref l) => match l.teensy_mcu {
                    Some(ref d) => Some(d),
                    None => None::<&String>,
                },
                None => None::<&String>,
            },
    {
        match &self.loader {
            Some(l) => l.teensy_mcu.as_ref(),
            None => None,
        }
    }

    /// The configured scan mode of a Black Magic probe, if any.
    pub fn blackmagic_mode(&self) -> (r: Option<&String>)
        ensures
            r == match self.loader {
                Some(ref l) => match l.blackmagic_mode {
                    Some(ref d) => Some(d),
                    None => None::<&String>,
                },
                None => None::<&String>,
            },
    {
        match &self.loader {
            Some(l) => l.blackmagic_mode.as_ref(),
            None => None,
        }
    }
}

} // verus!
