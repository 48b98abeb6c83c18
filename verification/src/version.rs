//! Versions of the slate format.
use crate::error::{outcome, Error, ErrorView};
use vstd::prelude::*;

verus! {

/// The version of the slate format that new slates have.
pub const CURRENT_SLATE_VERSION: u16 = 4;

/// The version of the block headers that new slates are made for.
pub const GRIN_BLOCK_HEADER_VERSION: u16 = 3;

/// Versioning and compatibility info about this slate.
#[derive(Clone, Copy, Debug, PartialEq, Eq, Structural)]
pub struct VersionCompatInfo {
    /// The current version of the slate format
    pub version: u16,
    /// Original version this slate was converted from
    pub orig_version: u16,
    /// The grin block header version this slate is intended for
    pub block_header_version: u16,
}

/// What of a serialized slate tells its version: the version info that slates
/// have had since version 2, and the bare number that was there before.
#[derive(Clone, Copy, Debug, PartialEq, Eq, Structural)]
pub struct SlateVersionProbe {
    pub version: Option<u64>,
    pub version_info: Option<VersionCompatInfo>,
}

/// The version that a probe tells.
pub open spec fn probed_version(probe: SlateVersionProbe) -> u16 {
    match probe.version_info {
        Some(info) => info.version,
        None => if probe.version is Some {
            1
        } else {
            0
        },
    }
}

impl SlateVersionProbe {
    /// The version of the slate: the one in its version info, or 1 where there is
    /// only a bare version number, or 0 where there is neither.
    pub fn version(&self) -> (r: u16)
        ensures
            r == probed_version(*self),
    {
        match &self.version_info {
            Some(v) => v.version,
            None => match self.version {
                Some(_) => 1,
                None => 0,
            },
        }
    }
}

/// A form in which a slate can be read and written.
#[derive(Clone, Copy, Debug, PartialEq, Eq, Structural)]
pub enum SlateFormat {
    V3,
    V4,
}

/// The format of a version, if there is one.
pub open spec fn format_of(version: u16) -> Result<SlateFormat, ErrorView> {
    if version == 4 {
        Ok(SlateFormat::V4)
    } else if version == 3 {
        Ok(SlateFormat::V3)
    } else {
        Err(ErrorView::SlateVersion(version))
    }
}

impl SlateFormat {
    /// Picks the format of a version; only versions 3 and 4 have one.
    pub fn for_version(version: u16) -> (r: Result<SlateFormat, Error>)
        ensures
            outcome(r) == format_of(version),
    {
        match version {
            4 => Ok(SlateFormat::V4),
            3 => Ok(SlateFormat::V3),
            _ => Err(Error::SlateVersion(version)),
        }
    }
}

} // verus!
