use vstd::prelude::*;

use crate::error::Error;
use crate::text::str_eq;

verus! {

/// The build mode whose profile a compilation uses.
#[derive(Debug, Clone, Copy, PartialEq, Eq, Structural)]
pub enum ProfileType {
    Debug,
    Release,
}

impl ProfileType {
    /// The profile named by `ty`, if `ty` is one of `debug` and `release`.
    pub open spec fn spec_parse(ty: Seq<char>) -> Result<ProfileType, Error> {
        if ty == "release"@ {
            Ok(ProfileType::Release)
        } else if ty == "debug"@ {
            Ok(ProfileType::Debug)
        } else {
            Err(Error::UnknownProfileType)
        }
    }

    pub fn parse(ty: &str) -> (r: Result<ProfileType, Error>)
        ensures
            r == Self::spec_parse(ty@),
    {
        if str_eq(ty, "release") {
            Ok(ProfileType::Release)
        } else if str_eq(ty, "debug") {
            Ok(ProfileType::Debug)
        } else {
            Err(Error::UnknownProfileType)
        }
    }
}

impl core::str::FromStr for ProfileType {
    type Err = Error;

    fn from_str(ty: &str) -> Result<ProfileType, Error> {
        ProfileType::parse(ty)
    }
}

} // verus!
