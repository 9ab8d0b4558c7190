//! Physical disk numbers and the drive indexes that the Rufus UI stores for them.
use vstd::prelude::*;
use vstd::std_specs::convert::FromSpecImpl;
use vstd::std_specs::convert::TryFromSpecImpl;
use crate::text::{
    decimal, digits_value, lemma_decimal_denotes, lemma_decimal_digits, lemma_decimal_len_u32,
    push_decimal,
};

verus! {

/// Offset that the Rufus UI adds to a physical disk number.
pub const UI_DRIVE_INDEX_OFFSET: u32 = 0x80;

/// Number of physical disks that the Rufus UI drive table can hold.
pub const MAX_DRIVES: u32 = 0x40;

/// Whether `value` lies in the drive table of the Rufus UI.
pub open spec fn is_ui_drive_index(value: u32) -> bool {
    UI_DRIVE_INDEX_OFFSET <= value < UI_DRIVE_INDEX_OFFSET + MAX_DRIVES
}

/// Whether a physical disk number has a slot in the Rufus UI drive table.
pub open spec fn is_supported_disk(number: u32) -> bool {
    number < MAX_DRIVES
}

/// The unmodified disk number that Windows reports for `PhysicalDriveN`.
///
/// It is kept apart from the offset values that the UI stores.
#[derive(Clone, Copy, Debug, PartialEq, Eq, Structural)]
pub struct PhysicalDiskNumber(u32);

impl View for PhysicalDiskNumber {
    type V = u32;

    closed spec fn view(&self) -> u32 {
        self.0
    }
}

impl PhysicalDiskNumber {
    pub fn new(value: u32) -> (r: Self)
        ensures
            r@ == value,
    {
        Self(value)
    }

    pub fn get(self) -> (r: u32)
        ensures
            r == self@,
    {
        self.0
    }

    pub fn device_path(self) -> (r: PhysicalDrivePath)
        ensures
            r@ == self@,
    {
        PhysicalDrivePath(self)
    }
}

/// A physical disk number encoded for the drive controls of the Rufus UI.
#[derive(Clone, Copy, Debug, PartialEq, Eq, Structural)]
pub struct UiDriveIndex(u32);

impl View for UiDriveIndex {
    type V = u32;

    closed spec fn view(&self) -> u32 {
        self.0
    }
}

impl UiDriveIndex {
    #[verifier::type_invariant]
    closed spec fn in_table(self) -> bool {
        is_ui_drive_index(self.0)
    }

    pub fn get(self) -> (r: u32)
        ensures
            r == self@,
            is_ui_drive_index(r),
    {
        proof {
            use_type_invariant(&self);
        }
        self.0
    }
}

/// Why a value could not be turned into a [`UiDriveIndex`].
#[derive(Clone, Copy, Debug, PartialEq, Eq, Structural)]
pub enum DriveIndexError {
    InvalidUiIndex(u32),
    UnsupportedPhysicalDisk(u32),
}

/// What decoding a raw UI value gives: the value itself when it lies in the table.
pub open spec fn ui_index_from_raw(value: u32) -> Result<u32, DriveIndexError> {
    if is_ui_drive_index(value) {
        Ok(value)
    } else {
        Err(DriveIndexError::InvalidUiIndex(value))
    }
}

/// What encoding a physical disk number gives.
pub open spec fn ui_index_from_disk(number: u32) -> Result<u32, DriveIndexError> {
    if is_supported_disk(number) {
        Ok((number + UI_DRIVE_INDEX_OFFSET) as u32)
    } else {
        Err(DriveIndexError::UnsupportedPhysicalDisk(number))
    }
}

/// The physical disk number that a UI drive index stands for.
pub open spec fn disk_from_ui_index(value: u32) -> u32 {
    (value - UI_DRIVE_INDEX_OFFSET) as u32
}

/// The view of a conversion result: the value of the index, or the error.
pub open spec fn index_result_view(r: Result<UiDriveIndex, DriveIndexError>) -> Result<u32, DriveIndexError> {
    match r {
        Ok(index) => Ok(index@),
        Err(e) => Err(e),
    }
}

impl TryFrom<u32> for UiDriveIndex {
    type Error = DriveIndexError;

    fn try_from(value: u32) -> (r: Result<Self, Self::Error>)
        ensures
            index_result_view(r) == ui_index_from_raw(value),
    {
        if UI_DRIVE_INDEX_OFFSET <= value && value < UI_DRIVE_INDEX_OFFSET + MAX_DRIVES {
            Ok(Self(value))
        } else {
            Err(DriveIndexError::InvalidUiIndex(value))
        }
    }
}

impl TryFromSpecImpl<u32> for UiDriveIndex {
    open spec fn obeys_try_from_spec() -> bool {
        true
    }

    closed spec fn try_from_spec(value: u32) -> Result<Self, Self::Error> {
        if is_ui_drive_index(value) {
            Ok(UiDriveIndex(value))
        } else {
            Err(DriveIndexError::InvalidUiIndex(value))
        }
    }
}

impl TryFrom<PhysicalDiskNumber> for UiDriveIndex {
    type Error = DriveIndexError;

    fn try_from(value: PhysicalDiskNumber) -> (r: Result<Self, Self::Error>)
        ensures
            index_result_view(r) == ui_index_from_disk(value@),
    {
        if value.0 < MAX_DRIVES {
            Ok(Self(value.0 + UI_DRIVE_INDEX_OFFSET))
        } else {
            Err(DriveIndexError::UnsupportedPhysicalDisk(value.0))
        }
    }
}

impl TryFromSpecImpl<PhysicalDiskNumber> for UiDriveIndex {
    open spec fn obeys_try_from_spec() -> bool {
        true
    }

    closed spec fn try_from_spec(value: PhysicalDiskNumber) -> Result<Self, Self::Error> {
        if is_supported_disk(value.0) {
            Ok(UiDriveIndex((value.0 + UI_DRIVE_INDEX_OFFSET) as u32))
        } else {
            Err(DriveIndexError::UnsupportedPhysicalDisk(value.0))
        }
    }
}

impl From<UiDriveIndex> for PhysicalDiskNumber {
    fn from(value: UiDriveIndex) -> (r: Self)
        ensures
            r@ == disk_from_ui_index(value@),
            is_supported_disk(r@),
    {
        proof {
            use_type_invariant(&value);
        }
        Self(value.0 - UI_DRIVE_INDEX_OFFSET)
    }
}

impl FromSpecImpl<UiDriveIndex> for PhysicalDiskNumber {
    open spec fn obeys_from_spec() -> bool {
        true
    }

    closed spec fn from_spec(value: UiDriveIndex) -> Self {
        PhysicalDiskNumber((value.0 - UI_DRIVE_INDEX_OFFSET) as u32)
    }
}

impl DriveIndexError {
    /// The message that describes the error.
    pub fn to_string(&self) -> (r: String)
        ensures
            r@ == drive_index_error_text(*self),
    {
        proof {
            reveal_strlit("invalid Rufus UI drive index: ");
            reveal_strlit("physical disk number is outside Rufus range: ");
        }
        match self {
            DriveIndexError::InvalidUiIndex(value) => {
                let mut text = String::from_str("invalid Rufus UI drive index: ");
                push_decimal(&mut text, *value);
                text
            },
            DriveIndexError::UnsupportedPhysicalDisk(value) => {
                let mut text = String::from_str("physical disk number is outside Rufus range: ");
                push_decimal(&mut text, *value);
                text
            },
        }
    }
}

/// The message of a [`DriveIndexError`].
pub open spec fn drive_index_error_text(e: DriveIndexError) -> Seq<char> {
    match e {
        DriveIndexError::InvalidUiIndex(value) => "invalid Rufus UI drive index: "@ + decimal(
            value as nat,
        ),
        DriveIndexError::UnsupportedPhysicalDisk(value) =>
            "physical disk number is outside Rufus range: "@ + decimal(value as nat),
    }
}

/// Capacity of a buffer that holds any `\\.\PhysicalDriveN` path and its NUL.
pub const PHYSICAL_DRIVE_PATH_CAPACITY: usize = 28;

/// The characters `\\.\PhysicalDrive` that start every physical drive path.
pub open spec fn drive_path_prefix() -> Seq<char> {
    seq!['\u{5c}', '\u{5c}', '.', '\u{5c}', 'P', 'h', 'y', 's', 'i', 'c', 'a', 'l', 'D', 'r', 'i', 'v', 'e']
}

/// The Windows path of a physical drive: `\\.\PhysicalDriveN`.
pub open spec fn drive_path_text(number: u32) -> Seq<char> {
    drive_path_prefix() + decimal(number as nat)
}

/// The bytes of an ASCII text.
pub open spec fn ascii_bytes(s: Seq<char>) -> Seq<u8> {
    s.map_values(|c: char| c as u8)
}

/// The Windows `\\.\PhysicalDriveN` path of a physical disk.
#[derive(Clone, Copy, Debug, PartialEq, Eq, Structural)]
pub struct PhysicalDrivePath(PhysicalDiskNumber);

impl View for PhysicalDrivePath {
    type V = u32;

    closed spec fn view(&self) -> u32 {
        self.0@
    }
}

impl PhysicalDrivePath {
    /// The path as text.
    pub fn to_string(&self) -> (r: String)
        ensures
            r@ == drive_path_text(self@),
    {
        proof {
            reveal_strlit("\\\\.\\PhysicalDrive");
        }
        let mut text = String::from_str("\\\\.\\PhysicalDrive");
        assert(text@ =~= drive_path_prefix());
        push_decimal(&mut text, self.0.get());
        text
    }

    /// Writes the path and a terminating NUL to the start of `buffer`, and
    /// returns the length of the path; leaves `buffer` as it was and returns
    /// `None` when it is too short.
    pub fn write_cstr(&self, buffer: &mut [u8]) -> (r: Option<usize>)
        ensures
            match r {
                Some(len) => {
                    &&& len == drive_path_text(self@).len()
                    &&& len < old(buffer)@.len()
                    &&& final(buffer)@ == ascii_bytes(drive_path_text(self@)).push(0u8) + old(
                        buffer,
                    )@.skip(len + 1)
                },
                None => {
                    &&& old(buffer)@.len() <= drive_path_text(self@).len()
                    &&& final(buffer)@ == old(buffer)@
                },
            },
    {
        let ghost original = buffer@;
        let text = self.to_string();
        let bytes = text.as_str().as_bytes();
        proof {
            lemma_drive_path_ascii_and_short(self@);
            vstd::utf8::is_ascii_chars_encode_utf8(text@);
            assert(bytes@ =~= ascii_bytes(text@));
        }
        let len = bytes.len();
        if len >= buffer.len() {
            return None;
        }
        let mut i: usize = 0;
        while i < len
            invariant
                bytes@ == ascii_bytes(drive_path_text(self@)),
                len == bytes@.len(),
                len < original.len(),
                buffer@.len() == original.len(),
                i <= len,
                forall|j: int| 0 <= j < i ==> buffer@[j] == bytes@[j],
                forall|j: int| i <= j < original.len() ==> buffer@[j] == original[j],
            decreases len - i,
        {
            buffer[i] = bytes[i];
            i = i + 1;
        }
        buffer[len] = 0;
        assert(buffer@ =~= ascii_bytes(drive_path_text(self@)).push(0u8) + original.skip(len + 1));
        Some(len)
    }
}

/// A physical drive path is ASCII, and at most 27 characters long.
pub proof fn lemma_drive_path_ascii_and_short(number: u32)
    ensures
        vstd::utf8::is_ascii_chars(drive_path_text(number)),
        drive_path_text(number).len() <= 27,
        drive_path_text(number).len() < PHYSICAL_DRIVE_PATH_CAPACITY,
{
    lemma_decimal_digits(number as nat);
    lemma_decimal_len_u32(number);
    let t = drive_path_text(number);
    assert forall|i: int| 0 <= i < t.len() implies '\0' <= #[trigger] t[i] <= '\u{7f}' by {
        if i >= 17 {
            assert(t[i] == decimal(number as nat)[i - 17]);
        }
    }
}

/// Every supported disk number encodes into the UI drive table and decodes back
/// to itself; every value in the table decodes to a supported disk number that
/// encodes back to that value.
pub proof fn lemma_ui_index_round_trip(number: u32, value: u32)
    ensures
        is_supported_disk(number) ==> {
            let encoded = (number + UI_DRIVE_INDEX_OFFSET) as u32;
            &&& ui_index_from_disk(number) == Ok::<u32, DriveIndexError>(encoded)
            &&& ui_index_from_raw(encoded) == Ok::<u32, DriveIndexError>(encoded)
            &&& disk_from_ui_index(encoded) == number
        },
        is_ui_drive_index(value) ==> {
            &&& is_supported_disk(disk_from_ui_index(value))
            &&& ui_index_from_disk(disk_from_ui_index(value)) == Ok::<u32, DriveIndexError>(value)
        },
{
}

/// A physical drive path names exactly one disk: after the 17 characters of
/// `\\.\PhysicalDrive` come the decimal digits that denote the disk number.
pub proof fn lemma_drive_path_names_disk(number: u32, other: u32)
    ensures
        drive_path_text(number).len() > 17,
        drive_path_text(number).take(17) == drive_path_prefix(),
        digits_value(drive_path_text(number).skip(17)) == number,
        drive_path_text(number) == drive_path_text(other) ==> number == other,
{
    lemma_decimal_denotes(number as nat, other as nat);
    lemma_decimal_digits(number as nat);
    assert(drive_path_text(number).skip(17) =~= decimal(number as nat));
    assert(drive_path_text(number).take(17) =~= drive_path_prefix());
    if drive_path_text(number) == drive_path_text(other) {
        assert(drive_path_text(other).skip(17) =~= decimal(other as nat));
    }
}

/// The UI drive table holds the 64 values `0x80..=0xBF`, for disks `0..=63`;
/// every other value or disk is refused with the error that names it.
pub proof fn lemma_ui_table_bounds(number: u32, value: u32)
    ensures
        ui_index_from_raw(value) is Ok <==> 0x80 <= value <= 0xBF,
        !(0x80 <= value <= 0xBF) ==> ui_index_from_raw(value) == Err::<u32, DriveIndexError>(
            DriveIndexError::InvalidUiIndex(value),
        ),
        ui_index_from_disk(number) is Ok <==> number <= 63,
        number > 63 ==> ui_index_from_disk(number) == Err::<u32, DriveIndexError>(
            DriveIndexError::UnsupportedPhysicalDisk(number),
        ),
        number <= 63 ==> ui_index_from_disk(number) == Ok::<u32, DriveIndexError>(
            (number + 0x80) as u32,
        ),
        0x80 <= value <= 0xBF ==> disk_from_ui_index(value) == value - 0x80,
{
}

} // verus!
