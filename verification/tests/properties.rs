use rufus_core::text::{char_is_white_space, push_decimal, str_eq, str_is_blank};
use rufus_core::{
    authorize_write, image_fits_target, is_drive_large_enough, rufus_format_physical_drive_path,
    DriveIndexError, PhysicalDiskNumber, SourceImage, TargetDisk, TargetDiskError, UiDriveIndex,
    WritePlan, WriteRejection, IMAGE_FOOTER_MARGIN, MIN_TARGET_SIZE,
    PHYSICAL_DRIVE_PATH_CAPACITY,
};

fn target(number: u32, id: &'static str, size: u64, system: bool) -> TargetDisk<'static> {
    TargetDisk::new(PhysicalDiskNumber::new(number), id, size, 512, system).unwrap()
}

#[test]
fn safe_write_is_authorized_for_the_observed_snapshot() {
    let selected = target(3, "ID", MIN_TARGET_SIZE, false);
    let observed = target(3, "ID", MIN_TARGET_SIZE, false);
    let source = SourceImage::new(MIN_TARGET_SIZE, Some(PhysicalDiskNumber::new(4)));
    let authorization = authorize_write(&WritePlan::new(selected, Some(source)), &observed, true)
        .unwrap();
    assert_eq!(authorization.target(), &observed);
    assert!(!authorization.target().contains_system_volume());
    assert!(authorization.target().disk_size() >= MIN_TARGET_SIZE);
    assert_eq!(authorization.clone(), authorization);
}

#[test]
fn changed_target_is_reported_before_any_other_problem() {
    let selected = target(3, "ID", 0, true);
    let observed = target(3, "OTHER", 0, true);
    let source = SourceImage::new(u64::MAX, Some(PhysicalDiskNumber::new(3)));
    assert_eq!(
        authorize_write(&WritePlan::new(selected, Some(source)), &observed, false),
        Err(WriteRejection::TargetChanged)
    );
}

#[test]
fn system_volume_in_the_plan_alone_refuses_the_write() {
    let selected = target(3, "ID", 0, true);
    let observed = target(3, "ID", 0, false);
    assert_eq!(
        authorize_write(&WritePlan::new(selected, None), &observed, false),
        Err(WriteRejection::SystemDisk)
    );
}

#[test]
fn confirmation_is_checked_last() {
    let small = target(3, "ID", MIN_TARGET_SIZE - 1, false);
    assert_eq!(
        authorize_write(&WritePlan::new(small.clone(), None), &small, false),
        Err(WriteRejection::TargetTooSmall)
    );
    let big = target(3, "ID", MIN_TARGET_SIZE, false);
    assert_eq!(
        authorize_write(&WritePlan::new(big.clone(), None), &big, false),
        Err(WriteRejection::ConfirmationMissing)
    );
    assert!(authorize_write(&WritePlan::new(big.clone(), None), &big, true).is_ok());
}

#[test]
fn source_on_target_is_reported_before_a_too_large_image() {
    let disk = target(5, "ID", MIN_TARGET_SIZE, false);
    let source = SourceImage::new(u64::MAX, Some(PhysicalDiskNumber::new(5)));
    assert_eq!(
        authorize_write(&WritePlan::new(disk.clone(), Some(source)), &disk, true),
        Err(WriteRejection::SourceOnTarget)
    );
}

#[test]
fn footer_margin_saturates_at_the_largest_size() {
    let huge = target(5, "ID", u64::MAX - 1, false);
    let source = SourceImage::new(u64::MAX, None);
    assert!(authorize_write(&WritePlan::new(huge.clone(), Some(source)), &huge, true).is_ok());
    assert!(image_fits_target(u64::MAX, u64::MAX - IMAGE_FOOTER_MARGIN));
    assert!(!image_fits_target(u64::MAX, u64::MAX - IMAGE_FOOTER_MARGIN - 1));
    assert!(image_fits_target(100 + IMAGE_FOOTER_MARGIN, 100));
    assert!(!image_fits_target(101 + IMAGE_FOOTER_MARGIN, 100));
    assert!(image_fits_target(101 + IMAGE_FOOTER_MARGIN, 101));
}

#[test]
fn size_threshold_is_eight_mebibytes() {
    assert_eq!(MIN_TARGET_SIZE, 8 * 1024 * 1024);
    assert_eq!(IMAGE_FOOTER_MARGIN, 4096);
    assert!(is_drive_large_enough(8 * 1024 * 1024));
    assert!(!is_drive_large_enough(8 * 1024 * 1024 - 1));
    assert!(!is_drive_large_enough(0));
}

#[test]
fn instance_ids_made_of_unicode_white_space_are_blank() {
    assert_eq!(
        TargetDisk::new(PhysicalDiskNumber::new(1), "\u{3000}\t\u{2028} \u{85}", 1, 512, false),
        Err(TargetDiskError::MissingInstanceId)
    );
    assert_eq!(
        TargetDisk::new(PhysicalDiskNumber::new(1), "", 1, 0, false),
        Err(TargetDiskError::MissingInstanceId)
    );
    let disk = TargetDisk::new(PhysicalDiskNumber::new(1), " \u{200B} ", 1, 4096, true).unwrap();
    assert_eq!(disk.device_instance_id(), " \u{200B} ");
    assert_eq!(disk.device_number(), PhysicalDiskNumber::new(1));
    assert_eq!(disk.disk_size(), 1);
    assert_eq!(disk.sector_size(), 4096);
    assert!(disk.contains_system_volume());
}

#[test]
fn identity_ignores_the_system_volume_flag_only() {
    let a = target(2, "Ä-ID", 100, false);
    assert!(a.has_same_identity(&target(2, "Ä-ID", 100, true)));
    assert!(!a.has_same_identity(&target(2, "A-ID", 100, false)));
    assert!(!a.has_same_identity(&target(2, "Ä-ID-", 100, false)));
    assert!(!a.has_same_identity(&target(2, "Ä-ID", 101, false)));
}

#[test]
fn text_helpers_follow_the_standard_library() {
    for c in ['\t', '\n', '\u{b}', '\u{c}', '\r', ' ', '\u{85}', '\u{a0}', '\u{1680}', '\u{2000}', '\u{200a}', '\u{2028}', '\u{2029}', '\u{202f}', '\u{205f}', '\u{3000}', 'a', '\u{200b}', '\u{180e}', '\0'] {
        assert_eq!(char_is_white_space(c), c.is_whitespace());
    }
    for s in ["", " ", " x ", "\u{3000}", "\u{feff}"] {
        assert_eq!(str_is_blank(s), s.trim().is_empty());
    }
    assert!(str_eq("héllo", "héllo"));
    assert!(!str_eq("héllo", "hello"));
    let mut out = String::from("n=");
    push_decimal(&mut out, 0);
    push_decimal(&mut out, 4294967295);
    assert_eq!(out, "n=04294967295");
}

#[test]
fn drive_paths_render_every_digit() {
    assert_eq!(PhysicalDiskNumber::new(0).device_path().to_string(), r"\\.\PhysicalDrive0");
    assert_eq!(
        PhysicalDiskNumber::new(u32::MAX).device_path().to_string(),
        r"\\.\PhysicalDrive4294967295"
    );
    assert_eq!(PhysicalDiskNumber::new(105).get(), 105);
}

#[test]
fn path_buffers_must_hold_the_path_and_its_nul() {
    let path = PhysicalDiskNumber::new(7).device_path();
    let mut short = [0xAAu8; 18];
    assert_eq!(path.write_cstr(&mut short), None);
    assert_eq!(short, [0xAAu8; 18]);
    let mut exact = [0xAAu8; 19];
    assert_eq!(path.write_cstr(&mut exact), Some(18));
    assert_eq!(&exact[..], b"\\\\.\\PhysicalDrive7\0");
    let mut longer = [0xAAu8; 21];
    assert_eq!(path.write_cstr(&mut longer), Some(18));
    assert_eq!(&longer[19..], &[0xAA, 0xAA]);
    let mut largest = [0u8; PHYSICAL_DRIVE_PATH_CAPACITY];
    let written = PhysicalDiskNumber::new(u32::MAX).device_path().write_cstr(&mut largest);
    assert_eq!(written, Some(27));
    assert_eq!(&largest[..], b"\\\\.\\PhysicalDrive4294967295\0");
    let mut empty: [u8; 0] = [];
    assert_eq!(rufus_format_physical_drive_path(7, Some(&mut empty[..])), -1);
}

#[test]
fn error_messages_match_each_variant() {
    assert_eq!(
        DriveIndexError::InvalidUiIndex(127).to_string(),
        "invalid Rufus UI drive index: 127"
    );
    assert_eq!(
        DriveIndexError::UnsupportedPhysicalDisk(64).to_string(),
        "physical disk number is outside Rufus range: 64"
    );
    assert_eq!(
        TargetDiskError::MissingInstanceId.to_string(),
        "target disk has no stable instance ID"
    );
    assert_eq!(
        TargetDiskError::InvalidSectorSize.to_string(),
        "target disk has an invalid sector size"
    );
    let expected = [
        (WriteRejection::TargetChanged, "the selected target disk changed"),
        (WriteRejection::SystemDisk, "the target contains a system volume"),
        (WriteRejection::TargetTooSmall, "the target disk is too small"),
        (WriteRejection::SourceOnTarget, "the source image is on the target disk"),
        (WriteRejection::ImageTooLarge, "the source image does not fit on the target"),
        (WriteRejection::ConfirmationMissing, "destructive write was not confirmed"),
    ];
    for (rejection, message) in expected {
        assert_eq!(rejection.to_string(), message);
    }
}

#[test]
fn ui_index_table_bounds() {
    assert_eq!(UiDriveIndex::try_from(0x80u32).map(|i| i.get()), Ok(0x80));
    assert_eq!(UiDriveIndex::try_from(0xBFu32).map(|i| i.get()), Ok(0xBF));
    assert_eq!(
        UiDriveIndex::try_from(0xC0u32),
        Err(DriveIndexError::InvalidUiIndex(0xC0))
    );
    assert_eq!(
        UiDriveIndex::try_from(PhysicalDiskNumber::new(63)).map(|i| i.get()),
        Ok(0xBF)
    );
    assert_eq!(
        UiDriveIndex::try_from(PhysicalDiskNumber::new(u32::MAX)),
        Err(DriveIndexError::UnsupportedPhysicalDisk(u32::MAX))
    );
    let index = UiDriveIndex::try_from(0xBFu32).unwrap();
    assert_eq!(PhysicalDiskNumber::from(index).get(), 63);
}
