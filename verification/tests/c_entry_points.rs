use rufus_core::{
    rufus_decode_ui_drive_index, rufus_encode_ui_drive_index, rufus_format_physical_drive_path,
    rufus_image_fits_target, rufus_is_drive_large_enough, IMAGE_FOOTER_MARGIN_C,
    INVALID_PHYSICAL_DRIVE, INVALID_UI_DRIVE_INDEX, MIN_TARGET_SIZE_C,
    PHYSICAL_DRIVE_PATH_CAPACITY_C,
};

#[test]
fn decodes_every_supported_ui_drive_index() {
    for physical_disk in 0..64 {
        assert_eq!(
            rufus_decode_ui_drive_index(0x80 + physical_disk),
            physical_disk as i32
        );
    }
}

#[test]
fn rejects_values_outside_the_ui_drive_table() {
    for ui_index in [0, 0x7f, 0xc0, 0xc1, u32::MAX] {
        assert_eq!(
            rufus_decode_ui_drive_index(ui_index),
            INVALID_PHYSICAL_DRIVE
        );
    }
}

#[test]
fn encodes_every_supported_physical_disk_number() {
    for physical_disk in 0..64 {
        assert_eq!(
            rufus_encode_ui_drive_index(physical_disk),
            (0x80 + physical_disk) as i32
        );
        assert_eq!(
            rufus_decode_ui_drive_index(0x80 + physical_disk),
            physical_disk as i32
        );
    }
}

#[test]
fn rejects_physical_disk_numbers_outside_the_ui_table() {
    for physical_disk in [64, 65, u32::MAX] {
        assert_eq!(
            rufus_encode_ui_drive_index(physical_disk),
            INVALID_UI_DRIVE_INDEX
        );
    }
}

#[test]
fn formats_physical_drive_paths_for_c_callers() {
    let mut buffer = [0u8; PHYSICAL_DRIVE_PATH_CAPACITY_C];
    let written = rufus_format_physical_drive_path(7, Some(&mut buffer[..]));
    assert_eq!(written, 18);
    assert_eq!(buffer[18], 0);
    assert!(!buffer[..18].contains(&0));
    assert_eq!(&buffer[..18], br"\\.\PhysicalDrive7");
}

#[test]
fn rejects_null_or_undersized_path_buffers() {
    let mut tiny = [0u8; 4];
    assert_eq!(rufus_format_physical_drive_path(7, None), -1);
    assert_eq!(
        rufus_format_physical_drive_path(7, Some(&mut tiny[..])),
        -1
    );
}

#[test]
fn reports_the_existing_drive_size_threshold() {
    assert_eq!(rufus_is_drive_large_enough(MIN_TARGET_SIZE_C - 1), 0);
    assert_eq!(rufus_is_drive_large_enough(MIN_TARGET_SIZE_C), 1);
}

#[test]
fn reports_whether_an_image_fits_with_the_footer_margin() {
    let disk = 16 * 1024 * 1024;
    assert_eq!(
        rufus_image_fits_target(disk + IMAGE_FOOTER_MARGIN_C, disk),
        1
    );
    assert_eq!(
        rufus_image_fits_target(disk + IMAGE_FOOTER_MARGIN_C + 1, disk),
        0
    );
}
