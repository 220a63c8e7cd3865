//! Save-state bookkeeping: the format version and the checks made on a
//! decoded snapshot, numbered save slots, and the rewind ring.
//!
//! The snapshot blobs themselves are encoded and decoded by the program
//! (`bincode` over the machine state); here they are opaque byte strings.

pub mod rewind;
pub mod slots;

use vstd::prelude::*;

use crate::mappers::MapperState;
use crate::rom_manager::RomHeader;
use crate::text::{decimal, push_decimal};

pub use self::rewind::{RewindBuffer, DEFAULT_REWIND_CAPACITY};
pub use self::slots::{SaveStateSlots, SAVE_STATE_SLOT_COUNT};

verus! {

/// Snapshot format version. A snapshot of another version is refused.
pub const SAVE_STATE_VERSION: u32 = 4;

/// Size of the console's internal RAM held in a snapshot (2 KB).
pub const RAM_SIZE: usize = 2048;

/// Why saving or restoring a snapshot failed.
#[derive(Debug, Clone, PartialEq, Eq)]
pub enum SaveStateError {
    /// The snapshot could not be encoded.
    Encode(String),
    /// The snapshot could not be decoded (corrupt or truncated).
    Decode(String),
    /// The snapshot was made by another format version.
    VersionMismatch { expected: u32, found: u32 },
    /// A slot index past the last slot.
    SlotOutOfRange { requested: usize, max: usize },
    /// A load from a slot holding no snapshot.
    SlotEmpty { slot: usize },
}

/// The message shown for `e`.
pub open spec fn error_message(e: SaveStateError) -> Seq<char> {
    match e {
        SaveStateError::Encode(m) => "save state encode error: "@ + m@,
        SaveStateError::Decode(m) => "save state decode error: "@ + m@,
        SaveStateError::VersionMismatch { expected, found } => "save state version mismatch: expected "@
            + decimal(expected as nat) + ", found "@ + decimal(found as nat),
        SaveStateError::SlotOutOfRange { requested, max } => "save state slot "@ + decimal(requested as nat)
            + " out of range (max "@ + decimal(max as nat) + ")"@,
        SaveStateError::SlotEmpty { slot } => "save state slot "@ + decimal(slot as nat) + " is empty"@,
    }
}

impl SaveStateError {
    /// The message shown for this error (see [`error_message`]).
    pub fn message(&self) -> (r: String)
        ensures
            r@ == error_message(*self),
    {
        match self {
            SaveStateError::Encode(m) => {
                let mut s: String = String::from_str("save state encode error: ");
                s.append(m.as_str());
                s
            },
            SaveStateError::Decode(m) => {
                let mut s: String = String::from_str("save state decode error: ");
                s.append(m.as_str());
                s
            },
            SaveStateError::VersionMismatch { expected, found } => {
                let mut s: String = String::from_str("save state version mismatch: expected ");
                push_decimal(&mut s, *expected as u128);
                s.append(", found ");
                push_decimal(&mut s, *found as u128);
                s
            },
            SaveStateError::SlotOutOfRange { requested, max } => {
                let mut s: String = String::from_str("save state slot ");
                push_decimal(&mut s, *requested as u128);
                s.append(" out of range (max ");
                push_decimal(&mut s, *max as u128);
                s.append(")");
                s
            },
            SaveStateError::SlotEmpty { slot } => {
                let mut s: String = String::from_str("save state slot ");
                push_decimal(&mut s, *slot as u128);
                s.append(" is empty");
                s
            },
        }
    }
}

/// A cartridge as a snapshot holds it: its header and its mapper's whole
/// state.
pub struct CartridgeSnapshot {
    pub header: RomHeader,
    pub mapper_state: MapperState,
}

/// The message of the error for a snapshot holding `ram_len` bytes of RAM.
pub open spec fn ram_mismatch_message(ram_len: usize) -> Seq<char> {
    "RAM length mismatch: expected "@ + decimal(RAM_SIZE as nat) + ", got "@ + decimal(ram_len as nat)
}

/// Check a decoded snapshot of format `version` holding `ram_len` bytes of
/// RAM before it is restored: the version is checked first, then the RAM
/// size.
pub fn check_snapshot(version: u32, ram_len: usize) -> (r: Result<(), SaveStateError>)
    ensures
        version != SAVE_STATE_VERSION ==> r == Err::<(), SaveStateError>(
            SaveStateError::VersionMismatch { expected: SAVE_STATE_VERSION, found: version },
        ),
        version == SAVE_STATE_VERSION && ram_len != RAM_SIZE ==> (r matches Err(SaveStateError::Decode(m))
            && m@ == ram_mismatch_message(ram_len)),
        version == SAVE_STATE_VERSION && ram_len == RAM_SIZE ==> r == Ok::<(), SaveStateError>(()),
{
    if version != SAVE_STATE_VERSION {
        return Err(SaveStateError::VersionMismatch { expected: SAVE_STATE_VERSION, found: version });
    }
    if ram_len != RAM_SIZE {
        let mut m: String = String::from_str("RAM length mismatch: expected ");
        push_decimal(&mut m, RAM_SIZE as u128);
        m.append(", got ");
        push_decimal(&mut m, ram_len as u128);
        return Err(SaveStateError::Decode(m));
    }
    Ok(())
}

} // verus!
