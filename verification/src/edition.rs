//! The firmware edition: one of three tiers, parsed from six accepted
//! literal tokens and displayed in a canonical uppercase form.

use vstd::prelude::*;
use crate::text::str_eq;

verus! {

/// One of the three firmware editions.
#[derive(Debug, Clone, Copy, PartialEq, Eq, Structural)]
pub enum FirmwareEdition {
    Standard,
    Plus,
    Premium,
}

/// The failure outcome of parsing an edition token.
#[derive(Debug, Clone, Copy, PartialEq, Eq, Structural)]
pub enum ParseFirmwareEditionError {
    ParseEditionError,
}

impl Default for FirmwareEdition {
    fn default() -> (r: Self)
        ensures
            r == FirmwareEdition::Standard,
    {
        FirmwareEdition::Standard
    }
}

/// Which edition, if any, a token denotes: an exact match against the six
/// accepted literals, with no case folding beyond them.
pub open spec fn edition_from_spec(s: Seq<char>) -> Result<
    FirmwareEdition,
    ParseFirmwareEditionError,
> {
    if s == "STANDARD"@ || s == "Standard"@ {
        Ok(FirmwareEdition::Standard)
    } else if s == "PLUS"@ || s == "Plus"@ {
        Ok(FirmwareEdition::Plus)
    } else if s == "PREMIUM"@ || s == "Premium"@ {
        Ok(FirmwareEdition::Premium)
    } else {
        Err(ParseFirmwareEditionError::ParseEditionError)
    }
}

/// The canonical display form of an edition: its uppercase token.
pub open spec fn edition_display_spec(e: FirmwareEdition) -> Seq<char> {
    match e {
        FirmwareEdition::Standard => "STANDARD"@,
        FirmwareEdition::Plus => "PLUS"@,
        FirmwareEdition::Premium => "PREMIUM"@,
    }
}

impl FirmwareEdition {
    /// Parses an edition token: exactly the six literals are accepted.
    pub fn from_str(input: &str) -> (r: Result<FirmwareEdition, ParseFirmwareEditionError>)
        ensures
            r == edition_from_spec(input@),
    {
        if str_eq(input, "STANDARD") || str_eq(input, "Standard") {
            Ok(FirmwareEdition::Standard)
        } else if str_eq(input, "PLUS") || str_eq(input, "Plus") {
            Ok(FirmwareEdition::Plus)
        } else if str_eq(input, "PREMIUM") || str_eq(input, "Premium") {
            Ok(FirmwareEdition::Premium)
        } else {
            Err(ParseFirmwareEditionError::ParseEditionError)
        }
    }

    /// The canonical uppercase display form.
    pub fn to_display_string(&self) -> (r: String)
        ensures
            r@ == edition_display_spec(*self),
    {
        match self {
            FirmwareEdition::Standard => "STANDARD".to_owned(),
            FirmwareEdition::Plus => "PLUS".to_owned(),
            FirmwareEdition::Premium => "PREMIUM".to_owned(),
        }
    }
}

impl core::str::FromStr for FirmwareEdition {
    type Err = ParseFirmwareEditionError;

    fn from_str(input: &str) -> Result<FirmwareEdition, ParseFirmwareEditionError> {
        FirmwareEdition::from_str(input)
    }
}

} // verus!
