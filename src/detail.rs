//! The driver detail record. Its true size is variable; it is read into a
//! scratch record of fixed maximum capacity and decoded field by field, the
//! compatible-ID list by its explicit offset and length.

use vstd::prelude::*;
use crate::status::Error;
use crate::wide::{decodes_wide, wide_to_string};

verus! {

/// Capacity, in UTF-16 units, of the section-name field.
pub const SECTION_NAME_UNITS: usize = 256;

/// Capacity, in UTF-16 units, of the INF file path field.
pub const INF_FILE_NAME_UNITS: usize = 260;

/// Capacity, in UTF-16 units, of the description field.
pub const DESCRIPTION_UNITS: usize = 256;

/// Capacity, in UTF-16 units, of the hardware-ID area of the scratch record
/// (the hardware ID followed by the compatible-ID list).
pub const HARDWARE_ID_UNITS: usize = 512;

/// The fields of one driver detail record, as the facility filled them.
pub struct DriverInfoDetail {
    /// Date of the INF file, in 100-nanosecond ticks.
    pub inf_date: u64,
    /// Offset, in units from the start of `hardware_id`, of the compatible-ID list.
    pub compat_ids_offset: u32,
    /// Length, in units, of the compatible-ID list, terminators included.
    pub compat_ids_length: u32,
    pub section_name: Vec<u16>,
    pub inf_file_name: Vec<u16>,
    pub drv_description: Vec<u16>,
    /// The hardware ID (null-terminated), then the compatible-ID list.
    pub hardware_id: Vec<u16>,
}

/// The units of the compatible-ID list, when offset and length lie inside
/// the hardware-ID area.
pub open spec fn compat_ids_of(area: Seq<u16>, offset: u32, length: u32) -> Option<Seq<u16>> {
    if offset as int + length as int <= area.len() {
        Some(area.subrange(offset as int, offset as int + length as int))
    } else {
        None
    }
}

impl DriverInfoDetail {
    /// The name of the INF section that installs the driver.
    pub fn section_name_text(&self) -> (r: Result<String, Error>)
        ensures
            decodes_wide(self.section_name@, r),
    {
        wide_to_string(self.section_name.as_slice())
    }

    /// The path of the driver's INF file.
    pub fn inf_file_name_text(&self) -> (r: Result<String, Error>)
        ensures
            decodes_wide(self.inf_file_name@, r),
    {
        wide_to_string(self.inf_file_name.as_slice())
    }

    /// The driver's description.
    pub fn description_text(&self) -> (r: Result<String, Error>)
        ensures
            decodes_wide(self.drv_description@, r),
    {
        wide_to_string(self.drv_description.as_slice())
    }

    /// The driver's hardware ID: the first string of the hardware-ID area.
    pub fn hardware_id_text(&self) -> (r: Result<String, Error>)
        ensures
            decodes_wide(self.hardware_id@, r),
    {
        wide_to_string(self.hardware_id.as_slice())
    }

    /// The units of the compatible-ID list (a list of null-terminated
    /// strings), or `None` when the recorded offset and length point outside
    /// the hardware-ID area.
    pub fn compat_ids(&self) -> (r: Option<Vec<u16>>)
        ensures
            match compat_ids_of(self.hardware_id@, self.compat_ids_offset, self.compat_ids_length) {
                Some(units) => r is Some && r->Some_0@ == units,
                None => r is None,
            },
    {
        let offset = self.compat_ids_offset as usize;
        let length = self.compat_ids_length as usize;
        if offset > self.hardware_id.len() || length > self.hardware_id.len() - offset {
            return None;
        }
        let mut units: Vec<u16> = Vec::new();
        let mut i: usize = 0;
        while i < length
            invariant
                offset + length <= self.hardware_id.len(),
                offset == self.compat_ids_offset,
                length == self.compat_ids_length,
                0 <= i <= length,
                units@ == self.hardware_id@.subrange(offset as int, offset + i),
            decreases length - i,
        {
            units.push(self.hardware_id[offset + i]);
            i = i + 1;
            assert(units@ =~= self.hardware_id@.subrange(offset as int, offset + i));
        }
        Some(units)
    }
}

} // verus!
