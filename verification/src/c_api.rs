//! The integer-valued entry points that the C side of Rufus calls.
use vstd::prelude::*;
use crate::drive::{
    PhysicalDiskNumber, UiDriveIndex, ascii_bytes, drive_path_text, is_supported_disk,
    is_ui_drive_index, PHYSICAL_DRIVE_PATH_CAPACITY, UI_DRIVE_INDEX_OFFSET,
};
use crate::write::{
    image_fits, image_fits_target, is_drive_large_enough, large_enough, IMAGE_FOOTER_MARGIN,
    MIN_TARGET_SIZE,
};

verus! {

/// Returned when a UI drive index has no physical disk.
pub const INVALID_PHYSICAL_DRIVE: i32 = -1;

/// Returned when a physical disk has no UI drive index.
pub const INVALID_UI_DRIVE_INDEX: i32 = -1;

pub const PHYSICAL_DRIVE_PATH_CAPACITY_C: usize = PHYSICAL_DRIVE_PATH_CAPACITY;

pub const MIN_TARGET_SIZE_C: u64 = MIN_TARGET_SIZE;

pub const IMAGE_FOOTER_MARGIN_C: u64 = IMAGE_FOOTER_MARGIN;

/// What decoding a UI drive index gives on the C side.
pub open spec fn c_decoded(ui_drive_index: u32) -> int {
    if is_ui_drive_index(ui_drive_index) {
        ui_drive_index - UI_DRIVE_INDEX_OFFSET
    } else {
        INVALID_PHYSICAL_DRIVE as int
    }
}

/// What encoding a physical disk number gives on the C side.
pub open spec fn c_encoded(physical_disk_number: u32) -> int {
    if is_supported_disk(physical_disk_number) {
        physical_disk_number + UI_DRIVE_INDEX_OFFSET
    } else {
        INVALID_UI_DRIVE_INDEX as int
    }
}

/// Decodes a UI drive index into its physical disk number, or `-1`.
pub fn rufus_decode_ui_drive_index(ui_drive_index: u32) -> (r: i32)
    ensures
        r == c_decoded(ui_drive_index),
{
    match UiDriveIndex::try_from(ui_drive_index) {
        Ok(index) => {
            let number = PhysicalDiskNumber::from(index).get();
            number as i32
        },
        Err(_) => INVALID_PHYSICAL_DRIVE,
    }
}

/// Encodes a physical disk number into the UI index space.
///
/// Returns the UI index, or `-1` when the disk is outside the supported `[0, 64)` table.
pub fn rufus_encode_ui_drive_index(physical_disk_number: u32) -> (r: i32)
    ensures
        r == c_encoded(physical_disk_number),
{
    match UiDriveIndex::try_from(PhysicalDiskNumber::new(physical_disk_number)) {
        Ok(index) => index.get() as i32,
        Err(_) => INVALID_UI_DRIVE_INDEX,
    }
}

/// Returns `1` when `disk_size` meets the 8 MiB listing threshold, else `0`.
pub fn rufus_is_drive_large_enough(disk_size: u64) -> (r: i32)
    ensures
        r == (if large_enough(disk_size) { 1int } else { 0int }),
{
    if is_drive_large_enough(disk_size) {
        1
    } else {
        0
    }
}

/// Returns `1` when `projected_size` fits `disk_size` plus the footer margin, else `0`.
pub fn rufus_image_fits_target(projected_size: u64, disk_size: u64) -> (r: i32)
    ensures
        r == (if image_fits(projected_size, disk_size) { 1int } else { 0int }),
{
    if image_fits_target(projected_size, disk_size) {
        1
    } else {
        0
    }
}

/// Encoding a supported disk number and decoding the result gives the number back;
/// decoding a valid UI index and encoding the result gives the index back.
pub proof fn lemma_c_round_trip(physical_disk_number: u32, ui_drive_index: u32)
    ensures
        is_supported_disk(physical_disk_number) ==> c_decoded(
            c_encoded(physical_disk_number) as u32,
        ) == physical_disk_number,
        is_ui_drive_index(ui_drive_index) ==> c_encoded(c_decoded(ui_drive_index) as u32)
            == ui_drive_index,
        c_encoded(physical_disk_number) == -1 <==> !is_supported_disk(physical_disk_number),
        c_decoded(ui_drive_index) == -1 <==> !is_ui_drive_index(ui_drive_index),
{
}

/// Writes `\\.\PhysicalDriveN` and a terminating NUL into `buffer`.
///
/// Returns the number of path bytes written (without the NUL), or `-1` when
/// there is no buffer or it is shorter than needed; a short buffer is left as it was.
pub fn rufus_format_physical_drive_path(physical_disk_number: u32, buffer: Option<&mut [u8]>) -> (r: i32)
    ensures
        match buffer {
            None => r == -1,
            Some(b) => {
                let text = drive_path_text(physical_disk_number);
                if text.len() < b@.len() {
                    &&& r == text.len()
                    &&& final(b)@ == ascii_bytes(text).push(0u8) + b@.skip(text.len() + 1int)
                } else {
                    &&& r == -1
                    &&& final(b)@ == b@
                }
            },
        },
{
    match buffer {
        None => -1,
        Some(bytes) => {
            if bytes.len() == 0 {
                return -1;
            }
            match PhysicalDiskNumber::new(physical_disk_number).device_path().write_cstr(bytes) {
                Some(len) => {
                    proof { crate::drive::lemma_drive_path_ascii_and_short(physical_disk_number); }
                    len as i32
                },
                None => -1,
            }
        },
    }
}

} // verus!
