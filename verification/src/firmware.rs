//! The firmware descriptor: the validated aggregate of serial number,
//! size, compile timestamp, edition and version, assembled atomically from
//! raw inputs and formatted as a fixed single-line display.

use vstd::prelude::*;
use vstd::string::*;
use crate::edition::{FirmwareEdition, edition_from_spec, edition_display_spec};
use crate::version::{FirmwareVersion, parse_version_spec, version_display_spec};
use crate::text::dec_str;
use crate::time::{
    rfc3339_utc_secs, utc_display, parse_rfc3339_utc, format_utc, RFC3339_MIN_SECS,
    RFC3339_MAX_SECS,
};

verus! {

/// A validated firmware descriptor. `compile_time` holds the compile
/// timestamp as UTC epoch seconds.
#[derive(Clone)]
pub struct Firmware {
    pub serial_number: String,
    pub size: u64,
    pub compile_time: i64,
    pub edition: FirmwareEdition,
    pub version: FirmwareVersion,
}

impl Firmware {
    /// Every field is individually valid: the serial number is non-empty,
    /// the size is positive, and the compile time lies in the range an
    /// RFC 3339 timestamp can denote.
    pub open spec fn wf(&self) -> bool {
        &&& self.serial_number@.len() > 0
        &&& self.size > 0
        &&& RFC3339_MIN_SECS <= self.compile_time <= RFC3339_MAX_SECS
    }
}

/// Whether raw inputs assemble into a descriptor: the serial number must
/// be non-empty, the size nonzero, the compile time a valid RFC 3339
/// timestamp, and the edition and version tokens must parse.
pub open spec fn assemble_ok(
    serial_number: Seq<char>,
    size: u64,
    compile_time: Seq<char>,
    edition: Seq<char>,
    version: Seq<char>,
) -> bool {
    &&& serial_number.len() > 0
    &&& size != 0
    &&& rfc3339_utc_secs(compile_time) is Some
    &&& edition_from_spec(edition) is Ok
    &&& parse_version_spec(version) is Ok
}

/// The fixed single-line display form of a descriptor. The size is
/// reported in kilobytes by integer division.
pub open spec fn firmware_display_spec(f: Firmware) -> Seq<char> {
    "Serial Number: "@ + f.serial_number@ + "  Size(KB): "@ + dec_str((f.size / 1024) as nat)
        + "    Compile Time: "@ + utc_display(f.compile_time) + "    Version: "@
        + version_display_spec(f.version) + "    Edition: "@ + edition_display_spec(f.edition)
}

impl Default for Firmware {
    fn default() -> (r: Self)
        ensures
            r.serial_number@ == Seq::<char>::empty(),
            r.size == 0,
            r.compile_time == 0,
            r.edition == FirmwareEdition::Standard,
            r.version == (FirmwareVersion { major: 0, minor: 0, patch: 0 }),
    {
        Firmware {
            serial_number: String::new(),
            size: 0,
            compile_time: 0,
            edition: FirmwareEdition::Standard,
            version: FirmwareVersion { major: 0, minor: 0, patch: 0 },
        }
    }
}

impl Firmware {
    /// Assembles a descriptor from raw inputs, validating every field and
    /// failing atomically: the result is `Some` exactly when every field
    /// is valid, and then holds the parsed values.
    pub fn from(
        serial_number: String,
        size: u64,
        compile_time: String,
        edition: String,
        version: String,
    ) -> (r: Option<Firmware>)
        ensures
            r is Some <==> assemble_ok(serial_number@, size, compile_time@, edition@, version@),
            r matches Some(f) ==> {
                &&& f.serial_number@ == serial_number@
                &&& f.size == size
                &&& Some(f.compile_time) == rfc3339_utc_secs(compile_time@)
                &&& edition_from_spec(edition@) == Ok::<FirmwareEdition, crate::edition::ParseFirmwareEditionError>(f.edition)
                &&& parse_version_spec(version@) == Ok::<FirmwareVersion, crate::version::ParseFirmwareVersionError>(f.version)
                &&& f.wf()
            },
    {
        if serial_number.as_str().is_empty() {
            return None;
        }
        if size == 0 {
            return None;
        }
        let compile_time_secs = match parse_rfc3339_utc(compile_time.as_str()) {
            Some(t) => t,
            None => {
                return None;
            },
        };
        let edition_value = match FirmwareEdition::from_str(edition.as_str()) {
            Ok(e) => e,
            Err(_) => {
                return None;
            },
        };
        let version_value = match FirmwareVersion::parse(version.as_str()) {
            Ok(v) => v,
            Err(_) => {
                return None;
            },
        };
        Some(
            Firmware {
                serial_number,
                size,
                compile_time: compile_time_secs,
                edition: edition_value,
                version: version_value,
            },
        )
    }

    /// The serial number.
    pub fn serial_number(&self) -> (r: &String)
        ensures
            r@ == self.serial_number@,
    {
        &self.serial_number
    }

    /// The size in bytes.
    pub fn size(&self) -> (r: &u64)
        ensures
            *r == self.size,
    {
        &self.size
    }

    /// The compile timestamp as UTC epoch seconds.
    pub fn compile_time(&self) -> (r: &i64)
        ensures
            *r == self.compile_time,
    {
        &self.compile_time
    }

    /// The edition.
    pub fn edition(&self) -> (r: &FirmwareEdition)
        ensures
            *r == self.edition,
    {
        &self.edition
    }

    /// The version.
    pub fn version(&self) -> (r: &FirmwareVersion)
        ensures
            *r == self.version,
    {
        &self.version
    }

    /// The fixed single-line human-readable form.
    pub fn to_display_string(&self) -> (r: String)
        requires
            RFC3339_MIN_SECS <= self.compile_time <= RFC3339_MAX_SECS,
        ensures
            r@ == firmware_display_spec(*self),
    {
        let mut out = "Serial Number: ".to_owned();
        out.append(self.serial_number.as_str());
        out.append("  Size(KB): ");
        let kb = crate::text::fmt_u64(self.size / 1024);
        out.append(kb.as_str());
        out.append("    Compile Time: ");
        let ct = format_utc(self.compile_time);
        out.append(ct.as_str());
        out.append("    Version: ");
        let ver = self.version.to_display_string();
        out.append(ver.as_str());
        out.append("    Edition: ");
        let ed = self.edition.to_display_string();
        out.append(ed.as_str());
        out
    }
}

} // verus!
