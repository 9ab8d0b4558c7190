//! The plan of a destructive write and its final revalidation.
use vstd::prelude::*;
use crate::drive::PhysicalDiskNumber;
use crate::target::{TargetDisk, TargetDiskView, same_identity};

verus! {

/// Rufus rejects drives smaller than 8 MiB.
pub const MIN_TARGET_SIZE: u64 = 8 * 1024 * 1024;

/// Rufus permits this margin when it compares an image with its target.
pub const IMAGE_FOOTER_MARGIN: u64 = 4 * 1024;

/// Whether a disk of `disk_size` bytes is large enough to be listed and written.
pub open spec fn large_enough(disk_size: u64) -> bool {
    disk_size >= MIN_TARGET_SIZE
}

/// Whether an image of `projected_size` bytes fits a disk of `disk_size` bytes,
/// allowing the footer margin (the sum saturates at `u64::MAX`).
pub open spec fn image_fits(projected_size: u64, disk_size: u64) -> bool {
    projected_size <= disk_size.saturating_add(IMAGE_FOOTER_MARGIN)
}

/// Returns whether `disk_size` meets the 8 MiB threshold.
pub fn is_drive_large_enough(disk_size: u64) -> (r: bool)
    ensures
        r == large_enough(disk_size),
{
    disk_size >= MIN_TARGET_SIZE
}

/// Returns whether `projected_size` fits `disk_size` plus the footer margin.
pub fn image_fits_target(projected_size: u64, disk_size: u64) -> (r: bool)
    ensures
        r == image_fits(projected_size, disk_size),
{
    projected_size <= disk_size.saturating_add(IMAGE_FOOTER_MARGIN)
}

/// The properties of a source image, as values.
pub struct SourceImageView {
    pub projected_size: u64,
    pub physical_disk_number: Option<u32>,
}

/// The disk number in an optional disk number, as a value.
pub open spec fn disk_number_view(number: Option<PhysicalDiskNumber>) -> Option<u32> {
    match number {
        Some(n) => Some(n@),
        None => None,
    }
}

/// Image information needed before a destructive operation can begin.
#[derive(Clone, Copy, Debug, PartialEq, Eq)]
pub struct SourceImage {
    projected_size: u64,
    physical_disk_number: Option<PhysicalDiskNumber>,
}

impl View for SourceImage {
    type V = SourceImageView;

    closed spec fn view(&self) -> SourceImageView {
        SourceImageView {
            projected_size: self.projected_size,
            physical_disk_number: disk_number_view(self.physical_disk_number),
        }
    }
}

impl SourceImage {
    pub fn new(projected_size: u64, physical_disk_number: Option<PhysicalDiskNumber>) -> (r: Self)
        ensures
            r@ == (SourceImageView {
                projected_size,
                physical_disk_number: disk_number_view(physical_disk_number),
            }),
    {
        Self { projected_size, physical_disk_number }
    }
}

/// The properties of a write plan, as values.
pub struct WritePlanView {
    pub target: TargetDiskView,
    pub source: Option<SourceImageView>,
}

/// The optional source image of a plan, as a value.
pub open spec fn source_view(source: Option<SourceImage>) -> Option<SourceImageView> {
    match source {
        Some(s) => Some(s@),
        None => None,
    }
}

/// An immutable plan created before Rufus asks the user for final confirmation.
#[derive(Debug, PartialEq, Eq)]
pub struct WritePlan<'id> {
    target: TargetDisk<'id>,
    source: Option<SourceImage>,
}

impl<'id> View for WritePlan<'id> {
    type V = WritePlanView;

    closed spec fn view(&self) -> WritePlanView {
        WritePlanView { target: self.target@, source: source_view(self.source) }
    }
}

impl<'id> WritePlan<'id> {
    pub fn new(target: TargetDisk<'id>, source: Option<SourceImage>) -> (r: Self)
        ensures
            r@ == (WritePlanView { target: target@, source: source_view(source) }),
    {
        Self { target, source }
    }
}

impl<'id> Clone for WritePlan<'id> {
    fn clone(&self) -> (r: Self)
        ensures
            r@ == self@,
    {
        Self { target: self.target.clone(), source: self.source }
    }
}

/// Why a destructive write was refused.
#[derive(Clone, Copy, Debug, PartialEq, Eq, Structural)]
pub enum WriteRejection {
    TargetChanged,
    SystemDisk,
    TargetTooSmall,
    SourceOnTarget,
    ImageTooLarge,
    ConfirmationMissing,
}

/// Whether the plan's source image lives on the observed disk.
pub open spec fn source_on_target(plan: WritePlanView, observed: TargetDiskView) -> bool {
    plan.source matches Some(s) && s.physical_disk_number == Some(observed.device_number)
}

/// Whether the plan's source image is too large for the observed disk.
pub open spec fn image_too_large(plan: WritePlanView, observed: TargetDiskView) -> bool {
    plan.source matches Some(s) && !image_fits(s.projected_size, observed.disk_size)
}

/// The first check, in order, that a write fails; `None` when it may go ahead.
pub open spec fn write_rejection(
    plan: WritePlanView,
    observed: TargetDiskView,
    user_confirmed: bool,
) -> Option<WriteRejection> {
    if !same_identity(plan.target, observed) {
        Some(WriteRejection::TargetChanged)
    } else if plan.target.contains_system_volume || observed.contains_system_volume {
        Some(WriteRejection::SystemDisk)
    } else if !large_enough(observed.disk_size) {
        Some(WriteRejection::TargetTooSmall)
    } else if source_on_target(plan, observed) {
        Some(WriteRejection::SourceOnTarget)
    } else if image_too_large(plan, observed) {
        Some(WriteRejection::ImageTooLarge)
    } else if !user_confirmed {
        Some(WriteRejection::ConfirmationMissing)
    } else {
        None
    }
}

/// Every safety property that a destructive write needs, taken together.
pub open spec fn safe_to_write(
    plan: WritePlanView,
    observed: TargetDiskView,
    user_confirmed: bool,
) -> bool {
    &&& observed.device_number == plan.target.device_number
    &&& observed.device_instance_id == plan.target.device_instance_id
    &&& observed.disk_size == plan.target.disk_size
    &&& observed.sector_size == plan.target.sector_size
    &&& !plan.target.contains_system_volume
    &&& !observed.contains_system_volume
    &&& observed.disk_size >= MIN_TARGET_SIZE
    &&& plan.source matches Some(s) ==> {
        &&& s.physical_disk_number != Some(observed.device_number)
        &&& s.projected_size <= observed.disk_size.saturating_add(IMAGE_FOOTER_MARGIN)
    }
    &&& user_confirmed
}

/// Proof that the target was revalidated immediately before destructive I/O.
///
/// Its field is private: only [`authorize_write`] makes one.
#[derive(Debug, PartialEq, Eq)]
pub struct WriteAuthorization<'id> {
    target: TargetDisk<'id>,
}

impl<'id> WriteAuthorization<'id> {
    /// An authorized target holds no system volume and meets the size threshold.
    #[verifier::type_invariant]
    closed spec fn authorized(self) -> bool {
        &&& !self.target@.contains_system_volume
        &&& large_enough(self.target@.disk_size)
    }

    /// The target disk whose write was authorized.
    pub closed spec fn authorized_target(self) -> TargetDiskView {
        self.target@
    }

    pub fn target(&self) -> (r: &TargetDisk<'id>)
        ensures
            r@ == self.authorized_target(),
            !r@.contains_system_volume,
            r@.disk_size >= MIN_TARGET_SIZE,
    {
        proof {
            use_type_invariant(self);
        }
        &self.target
    }
}

impl<'id> Clone for WriteAuthorization<'id> {
    fn clone(&self) -> (r: Self)
        ensures
            r.authorized_target() == self.authorized_target(),
    {
        proof {
            use_type_invariant(self);
        }
        Self { target: self.target.clone() }
    }
}

/// Revalidates all safety properties immediately before destructive disk I/O.
///
/// The checks run in a fixed order and the first that fails is reported.
pub fn authorize_write<'id>(
    plan: &WritePlan<'_>,
    observed_target: &TargetDisk<'id>,
    user_confirmed: bool,
) -> (r: Result<WriteAuthorization<'id>, WriteRejection>)
    ensures
        match r {
            Ok(authorization) => {
                &&& write_rejection(plan@, observed_target@, user_confirmed) is None
                &&& authorization.authorized_target() == observed_target@
            },
            Err(rejection) => write_rejection(plan@, observed_target@, user_confirmed) == Some(
                rejection,
            ),
        },
{
    if !plan.target.has_same_identity(observed_target) {
        return Err(WriteRejection::TargetChanged);
    }
    if plan.target.contains_system_volume() || observed_target.contains_system_volume() {
        return Err(WriteRejection::SystemDisk);
    }
    if !is_drive_large_enough(observed_target.disk_size()) {
        return Err(WriteRejection::TargetTooSmall);
    }
    if let Some(source) = plan.source {
        if let Some(number) = source.physical_disk_number {
            if number.get() == observed_target.device_number().get() {
                return Err(WriteRejection::SourceOnTarget);
            }
        }
    }
    if let Some(source) = plan.source {
        if !image_fits_target(source.projected_size, observed_target.disk_size()) {
            return Err(WriteRejection::ImageTooLarge);
        }
    }
    if !user_confirmed {
        return Err(WriteRejection::ConfirmationMissing);
    }
    Ok(WriteAuthorization { target: observed_target.clone() })
}

impl WriteRejection {
    /// The message that describes the rejection.
    pub fn to_string(&self) -> (r: String)
        ensures
            r@ == write_rejection_text(*self),
    {
        match self {
            WriteRejection::TargetChanged => String::from_str("the selected target disk changed"),
            WriteRejection::SystemDisk => String::from_str("the target contains a system volume"),
            WriteRejection::TargetTooSmall => String::from_str("the target disk is too small"),
            WriteRejection::SourceOnTarget => String::from_str(
                "the source image is on the target disk",
            ),
            WriteRejection::ImageTooLarge => String::from_str(
                "the source image does not fit on the target",
            ),
            WriteRejection::ConfirmationMissing => String::from_str(
                "destructive write was not confirmed",
            ),
        }
    }
}

/// The message of a [`WriteRejection`].
pub open spec fn write_rejection_text(e: WriteRejection) -> Seq<char> {
    match e {
        WriteRejection::TargetChanged => "the selected target disk changed"@,
        WriteRejection::SystemDisk => "the target contains a system volume"@,
        WriteRejection::TargetTooSmall => "the target disk is too small"@,
        WriteRejection::SourceOnTarget => "the source image is on the target disk"@,
        WriteRejection::ImageTooLarge => "the source image does not fit on the target"@,
        WriteRejection::ConfirmationMissing => "destructive write was not confirmed"@,
    }
}

/// A write is allowed exactly when every safety property holds: the target is
/// unchanged, neither snapshot holds a system volume, the target meets the size
/// threshold, the source image is neither on the target nor too large for it,
/// and the user confirmed.
pub proof fn lemma_write_allowed_iff_safe(
    plan: WritePlanView,
    observed: TargetDiskView,
    user_confirmed: bool,
)
    ensures
        write_rejection(plan, observed, user_confirmed) is None <==> safe_to_write(
            plan,
            observed,
            user_confirmed,
        ),
{
}

/// Confirmation is checked last: without it, a write that would otherwise be
/// allowed is refused for want of confirmation, and any other refusal stays as it is.
pub proof fn lemma_confirmation_checked_last(plan: WritePlanView, observed: TargetDiskView)
    ensures
        write_rejection(plan, observed, false) == if write_rejection(plan, observed, true) is None {
            Some(WriteRejection::ConfirmationMissing)
        } else {
            write_rejection(plan, observed, true)
        },
{
}

/// A target whose identity changed is refused as changed, whatever else holds; a
/// system volume on either snapshot of an unchanged target refuses the write.
pub proof fn lemma_identity_and_system_volume_first(
    plan: WritePlanView,
    observed: TargetDiskView,
    user_confirmed: bool,
)
    ensures
        !same_identity(plan.target, observed) ==> write_rejection(plan, observed, user_confirmed)
            == Some(WriteRejection::TargetChanged),
        same_identity(plan.target, observed) && (plan.target.contains_system_volume
            || observed.contains_system_volume) ==> write_rejection(plan, observed, user_confirmed)
            == Some(WriteRejection::SystemDisk),
        plan.target == observed ==> write_rejection(plan, observed, user_confirmed) != Some(
            WriteRejection::TargetChanged,
        ),
{
}

/// An image fits exactly when it is at most the disk size plus the footer margin
/// (every image fits when that sum exceeds `u64::MAX`), and an image that fits a
/// disk fits every larger disk.
pub proof fn lemma_image_fits_margin(projected_size: u64, disk_size: u64, larger_disk_size: u64)
    ensures
        disk_size + IMAGE_FOOTER_MARGIN <= u64::MAX ==> (image_fits(projected_size, disk_size)
            <==> projected_size <= disk_size + IMAGE_FOOTER_MARGIN),
        disk_size + IMAGE_FOOTER_MARGIN > u64::MAX ==> image_fits(projected_size, disk_size),
        image_fits(projected_size, disk_size) && disk_size <= larger_disk_size ==> image_fits(
            projected_size,
            larger_disk_size,
        ),
{
}

/// Each rejection names a property that fails, and every check before it passed:
/// a changed disk number, instance ID, size or sector size; then a system volume
/// on either snapshot; then a target under 8 MiB; then a source image on the
/// target; then an image larger than the target plus the footer margin; then a
/// missing confirmation.
pub proof fn lemma_rejection_reasons(
    plan: WritePlanView,
    observed: TargetDiskView,
    user_confirmed: bool,
)
    ensures
        ({
            let unchanged = {
                &&& observed.device_number == plan.target.device_number
                &&& observed.device_instance_id == plan.target.device_instance_id
                &&& observed.disk_size == plan.target.disk_size
                &&& observed.sector_size == plan.target.sector_size
            };
            let no_system = !plan.target.contains_system_volume
                && !observed.contains_system_volume;
            let on_target = plan.source matches Some(s) && s.physical_disk_number == Some(
                observed.device_number,
            );
            let too_large = plan.source matches Some(s) && s.projected_size
                > observed.disk_size.saturating_add(IMAGE_FOOTER_MARGIN);
            let r = write_rejection(plan, observed, user_confirmed);
            &&& r == Some(WriteRejection::TargetChanged) <==> !unchanged
            &&& r == Some(WriteRejection::SystemDisk) <==> unchanged && !no_system
            &&& r == Some(WriteRejection::TargetTooSmall) <==> unchanged && no_system
                && observed.disk_size < MIN_TARGET_SIZE
            &&& r == Some(WriteRejection::SourceOnTarget) <==> unchanged && no_system
                && observed.disk_size >= MIN_TARGET_SIZE && on_target
            &&& r == Some(WriteRejection::ImageTooLarge) <==> unchanged && no_system
                && observed.disk_size >= MIN_TARGET_SIZE && !on_target && too_large
            &&& r == Some(WriteRejection::ConfirmationMissing) <==> unchanged && no_system
                && observed.disk_size >= MIN_TARGET_SIZE && !on_target && !too_large
                && !user_confirmed
        }),
{
}

} // verus!
