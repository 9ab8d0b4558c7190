//! The snapshot of a physical target disk that a write is checked against.
use vstd::prelude::*;
use crate::drive::PhysicalDiskNumber;
use crate::text::{is_blank, is_white_space, str_eq, str_is_blank};

verus! {

/// The properties of a target disk, as values.
pub struct TargetDiskView {
    pub device_number: u32,
    pub device_instance_id: Seq<char>,
    pub disk_size: u64,
    pub sector_size: u32,
    pub contains_system_volume: bool,
}

/// Whether two snapshots describe the same disk: same disk number, instance ID,
/// size and sector size. Whether it holds a system volume is not part of it.
pub open spec fn same_identity(a: TargetDiskView, b: TargetDiskView) -> bool {
    &&& a.device_number == b.device_number
    &&& a.device_instance_id == b.device_instance_id
    &&& a.disk_size == b.disk_size
    &&& a.sector_size == b.sector_size
}

/// Why a target disk snapshot was refused.
#[derive(Clone, Copy, Debug, PartialEq, Eq, Structural)]
pub enum TargetDiskError {
    MissingInstanceId,
    InvalidSectorSize,
}

/// What checking the properties of a new snapshot gives: the first problem, if any.
pub open spec fn target_disk_problem(device_instance_id: Seq<char>, sector_size: u32) -> Option<
    TargetDiskError,
> {
    if is_blank(device_instance_id) {
        Some(TargetDiskError::MissingInstanceId)
    } else if sector_size == 0 {
        Some(TargetDiskError::InvalidSectorSize)
    } else {
        None
    }
}

/// A snapshot of the properties used to identify a physical target disk.
#[derive(Debug, PartialEq, Eq)]
pub struct TargetDisk<'id> {
    device_number: PhysicalDiskNumber,
    device_instance_id: &'id str,
    disk_size: u64,
    sector_size: u32,
    contains_system_volume: bool,
}

impl<'id> View for TargetDisk<'id> {
    type V = TargetDiskView;

    closed spec fn view(&self) -> TargetDiskView {
        TargetDiskView {
            device_number: self.device_number@,
            device_instance_id: self.device_instance_id@,
            disk_size: self.disk_size,
            sector_size: self.sector_size,
            contains_system_volume: self.contains_system_volume,
        }
    }
}

impl<'id> TargetDisk<'id> {
    /// Every snapshot has a non-blank instance ID and a non-zero sector size.
    #[verifier::type_invariant]
    closed spec fn well_formed(self) -> bool {
        target_disk_problem(self.device_instance_id@, self.sector_size) is None
    }

    pub fn new(
        device_number: PhysicalDiskNumber,
        device_instance_id: &'id str,
        disk_size: u64,
        sector_size: u32,
        contains_system_volume: bool,
    ) -> (r: Result<Self, TargetDiskError>)
        ensures
            match r {
                Ok(disk) => {
                    &&& target_disk_problem(device_instance_id@, sector_size) is None
                    &&& disk@ == (TargetDiskView {
                        device_number: device_number@,
                        device_instance_id: device_instance_id@,
                        disk_size,
                        sector_size,
                        contains_system_volume,
                    })
                },
                Err(e) => target_disk_problem(device_instance_id@, sector_size) == Some(e),
            },
    {
        if str_is_blank(device_instance_id) {
            return Err(TargetDiskError::MissingInstanceId);
        }
        if sector_size == 0 {
            return Err(TargetDiskError::InvalidSectorSize);
        }
        Ok(Self { device_number, device_instance_id, disk_size, sector_size, contains_system_volume })
    }

    pub fn device_number(&self) -> (r: PhysicalDiskNumber)
        ensures
            r@ == self@.device_number,
    {
        self.device_number
    }

    pub fn device_instance_id(&self) -> (r: &'id str)
        ensures
            r@ == self@.device_instance_id,
            !is_blank(r@),
    {
        proof {
            use_type_invariant(self);
        }
        self.device_instance_id
    }

    pub fn disk_size(&self) -> (r: u64)
        ensures
            r == self@.disk_size,
    {
        self.disk_size
    }

    pub fn sector_size(&self) -> (r: u32)
        ensures
            r == self@.sector_size,
            r != 0,
    {
        proof {
            use_type_invariant(self);
        }
        self.sector_size
    }

    pub fn contains_system_volume(&self) -> (r: bool)
        ensures
            r == self@.contains_system_volume,
    {
        self.contains_system_volume
    }

    /// Whether `other` describes the same disk as `self`.
    pub fn has_same_identity(&self, other: &TargetDisk<'_>) -> (r: bool)
        ensures
            r == same_identity(self@, other@),
    {
        self.device_number.get() == other.device_number.get() && str_eq(
            self.device_instance_id,
            other.device_instance_id,
        ) && self.disk_size == other.disk_size && self.sector_size == other.sector_size
    }

}

impl<'id> Clone for TargetDisk<'id> {
    fn clone(&self) -> (r: Self)
        ensures
            r@ == self@,
    {
        proof {
            use_type_invariant(self);
        }
        Self {
            device_number: self.device_number,
            device_instance_id: self.device_instance_id,
            disk_size: self.disk_size,
            sector_size: self.sector_size,
            contains_system_volume: self.contains_system_volume,
        }
    }
}

impl TargetDiskError {
    /// The message that describes the error.
    pub fn to_string(&self) -> (r: String)
        ensures
            r@ == target_disk_error_text(*self),
    {
        match self {
            TargetDiskError::MissingInstanceId => String::from_str(
                "target disk has no stable instance ID",
            ),
            TargetDiskError::InvalidSectorSize => String::from_str(
                "target disk has an invalid sector size",
            ),
        }
    }
}

/// The message of a [`TargetDiskError`].
pub open spec fn target_disk_error_text(e: TargetDiskError) -> Seq<char> {
    match e {
        TargetDiskError::MissingInstanceId => "target disk has no stable instance ID"@,
        TargetDiskError::InvalidSectorSize => "target disk has an invalid sector size"@,
    }
}

/// Snapshots with the same identity agree on disk number, instance ID (character
/// for character), disk size and sector size.
pub proof fn lemma_same_identity_fields(a: TargetDiskView, b: TargetDiskView)
    ensures
        same_identity(a, b) ==> {
            &&& a.device_number == b.device_number
            &&& a.device_instance_id.len() == b.device_instance_id.len()
            &&& forall|i: int|
                0 <= i < a.device_instance_id.len() ==> a.device_instance_id[i]
                    == b.device_instance_id[i]
            &&& a.disk_size == b.disk_size
            &&& a.sector_size == b.sector_size
        },
{
}

/// Identity ignores only the system-volume flag: two snapshots that differ in
/// nothing else have the same identity, and identity is an equivalence.
pub proof fn lemma_same_identity_ignores_system_volume(
    a: TargetDiskView,
    b: TargetDiskView,
    c: TargetDiskView,
    flag: bool,
)
    ensures
        same_identity(a, TargetDiskView { contains_system_volume: flag, ..a }),
        same_identity(a, a),
        same_identity(a, b) ==> same_identity(b, a),
        same_identity(a, b) && same_identity(b, c) ==> same_identity(a, c),
{
}

/// A snapshot is refused only for an instance ID with no character other than
/// white space (the empty ID among them) or for a zero sector size, and the
/// missing ID is reported first.
pub proof fn lemma_target_disk_problem_cases(device_instance_id: Seq<char>, sector_size: u32)
    ensures
        (exists|i: int|
            0 <= i < device_instance_id.len() && !is_white_space(#[trigger] device_instance_id[i]))
            && sector_size != 0 ==> target_disk_problem(device_instance_id, sector_size) is None,
        (forall|i: int|
            0 <= i < device_instance_id.len() ==> is_white_space(#[trigger] device_instance_id[i]))
            ==> target_disk_problem(device_instance_id, sector_size) == Some(
            TargetDiskError::MissingInstanceId,
        ),
        (exists|i: int|
            0 <= i < device_instance_id.len() && !is_white_space(#[trigger] device_instance_id[i]))
            && sector_size == 0 ==> target_disk_problem(device_instance_id, sector_size) == Some(
            TargetDiskError::InvalidSectorSize,
        ),
{
}

} // verus!
