//! Safety rules that Rufus checks before it writes to a physical disk, and the
//! integer-valued entry points that its C side calls.
pub mod c_api;
pub mod drive;
pub mod target;
pub mod text;
pub mod write;

pub use c_api::{
    rufus_decode_ui_drive_index, rufus_encode_ui_drive_index, rufus_format_physical_drive_path,
    rufus_image_fits_target, rufus_is_drive_large_enough, IMAGE_FOOTER_MARGIN_C,
    INVALID_PHYSICAL_DRIVE, INVALID_UI_DRIVE_INDEX, MIN_TARGET_SIZE_C,
    PHYSICAL_DRIVE_PATH_CAPACITY_C,
};
pub use drive::{
    DriveIndexError, PhysicalDiskNumber, PhysicalDrivePath, UiDriveIndex, MAX_DRIVES,
    PHYSICAL_DRIVE_PATH_CAPACITY, UI_DRIVE_INDEX_OFFSET,
};
pub use target::{TargetDisk, TargetDiskError};
pub use write::{
    authorize_write, image_fits_target, is_drive_large_enough, SourceImage, WriteAuthorization,
    WritePlan, WriteRejection, IMAGE_FOOTER_MARGIN, MIN_TARGET_SIZE,
};
