//! The recency record: a lightweight snapshot of a firmware's serial
//! number and a capture timestamp, ordered by descending timestamp so that
//! sorting places the most recent record first.

use vstd::prelude::*;
use core::cmp::Ordering;
use vstd::std_specs::cmp::{PartialEqSpec, PartialOrdSpec};
use crate::firmware::Firmware;
use crate::time::now_epoch_secs;

verus! {

/// A snapshot of a firmware's serial number and a capture timestamp, in
/// epoch seconds.
#[derive(Debug, Clone)]
pub struct BinaryFirmware {
    pub timestamp: i64,
    pub serial_number: String,
}

/// How two records compare: by timestamp alone, descending, so the most
/// recent record orders first. The serial number never participates.
pub open spec fn recency_order(a: BinaryFirmware, b: BinaryFirmware) -> Ordering {
    if b.timestamp < a.timestamp {
        Ordering::Less
    } else if b.timestamp == a.timestamp {
        Ordering::Equal
    } else {
        Ordering::Greater
    }
}

impl Default for BinaryFirmware {
    fn default() -> (r: Self)
        ensures
            r.timestamp == 0,
            r.serial_number@ == Seq::<char>::empty(),
    {
        BinaryFirmware { timestamp: 0, serial_number: String::new() }
    }
}

impl PartialEq for BinaryFirmware {
    fn eq(&self, other: &Self) -> (r: bool) {
        self.timestamp == other.timestamp && self.serial_number == other.serial_number
    }
}

impl vstd::std_specs::cmp::PartialEqSpecImpl for BinaryFirmware {
    open spec fn obeys_eq_spec() -> bool {
        true
    }

    open spec fn eq_spec(&self, other: &Self) -> bool {
        self.timestamp == other.timestamp && self.serial_number@ == other.serial_number@
    }
}

impl PartialOrd for BinaryFirmware {
    fn partial_cmp(&self, other: &Self) -> (r: Option<Ordering>) {
        if other.timestamp < self.timestamp {
            Some(Ordering::Less)
        } else if other.timestamp == self.timestamp {
            Some(Ordering::Equal)
        } else {
            Some(Ordering::Greater)
        }
    }
}

impl vstd::std_specs::cmp::PartialOrdSpecImpl for BinaryFirmware {
    open spec fn obeys_partial_cmp_spec() -> bool {
        true
    }

    open spec fn partial_cmp_spec(&self, other: &Self) -> Option<Ordering> {
        Some(recency_order(*self, *other))
    }
}

impl BinaryFirmware {
    /// Builds a record from a timestamp and a serial number.
    pub fn new(timestamp: i64, serial_number: String) -> (r: Self)
        ensures
            r.timestamp == timestamp,
            r.serial_number@ == serial_number@,
    {
        BinaryFirmware { timestamp, serial_number }
    }

    /// Captures a snapshot of a descriptor: its serial number together
    /// with the current wall-clock time, not the descriptor's compile
    /// time. Nothing is promised of the captured timestamp.
    pub fn from_firmware(firmware: &Firmware) -> (r: Self)
        ensures
            r.serial_number@ == firmware.serial_number@,
    {
        BinaryFirmware {
            timestamp: now_epoch_secs(),
            serial_number: firmware.serial_number.clone(),
        }
    }

    /// The capture timestamp.
    pub fn timestamp(&self) -> (r: &i64)
        ensures
            *r == self.timestamp,
    {
        &self.timestamp
    }

    /// The serial number.
    pub fn serial_number(&self) -> (r: &String)
        ensures
            r@ == self.serial_number@,
    {
        &self.serial_number
    }
}

/// Records form a total order by timestamp alone, most recent first:
/// comparing always yields a verdict; a record orders strictly before
/// another exactly when its timestamp is strictly greater; two records
/// compare equal exactly when their timestamps agree, whatever their
/// serial numbers; and equality of records is structural, both fields
/// agreeing.
pub proof fn lemma_recency_order(a: BinaryFirmware, b: BinaryFirmware)
    ensures
        a.partial_cmp_spec(&b) is Some,
        a.partial_cmp_spec(&b) == Some(Ordering::Less) <==> b.timestamp < a.timestamp,
        a.partial_cmp_spec(&b) == Some(Ordering::Equal) <==> b.timestamp == a.timestamp,
        a.partial_cmp_spec(&b) == Some(Ordering::Greater) <==> b.timestamp > a.timestamp,
        a.eq_spec(&b) <==> a.timestamp == b.timestamp && a.serial_number@ == b.serial_number@,
{
}

} // verus!
