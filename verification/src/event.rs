//! Event records and their closed category / status enumerations.
//!
//! An event is immutable once appended to the graph. Category and status
//! tags cross the boundary from the tracing facility as raw bytes; decoding
//! is total, with an explicit fallback for out-of-range codes.

use vstd::prelude::*;

verus! {

/// Event category classification.
#[derive(Clone, Copy, Debug, PartialEq, Eq, Structural)]
pub enum Category {
    FileSystem,
    Registry,
    Network,
    Process,
    Scheduler,
    Input,
    Image,
    Thread,
    Memory,
    Script,
    Amsi,
    Dns,
    Security,
    Service,
    Wmi,
    Clr,
}

/// Operation result status.
#[derive(Clone, Copy, Debug, PartialEq, Eq, Structural)]
pub enum Status {
    Success,
    Denied,
    Pending,
    Error,
    Suspicious,
}

/// A single event from the event graph, immutable once appended.
#[derive(Clone, Copy, Debug, PartialEq, Eq, Structural)]
pub struct Event {
    /// Strictly increasing identifier, assigned at append time.
    pub id: u64,
    /// 0 for a root event; otherwise the id of an earlier-appended event.
    pub parent_id: u64,
    /// Nanoseconds since session start.
    pub timestamp: u64,
    pub category: Category,
    pub status: Status,
    /// Category-scoped opcode.
    pub operation: u8,
}

/// A raw trace record as the tracing facility delivers it, before
/// decoding: category and status are still boundary-encoded bytes, and no
/// id has been assigned yet.
#[derive(Clone, Copy, Debug, PartialEq, Eq, Structural)]
pub struct RawRecord {
    /// Claimed parent event id; 0 for a root event.
    pub parent_id: u64,
    /// Nanoseconds since session start.
    pub timestamp: u64,
    /// Boundary-encoded category byte.
    pub category: u8,
    /// Boundary-encoded status byte.
    pub status: u8,
    /// Category-scoped opcode.
    pub operation: u8,
}

/// Wire code of each category, as the tracing boundary encodes it.
pub open spec fn spec_category_code(c: Category) -> u8 {
    match c {
        Category::FileSystem => 0,
        Category::Registry => 1,
        Category::Network => 2,
        Category::Process => 3,
        Category::Scheduler => 4,
        Category::Input => 5,
        Category::Image => 6,
        Category::Thread => 7,
        Category::Memory => 8,
        Category::Script => 9,
        Category::Amsi => 10,
        Category::Dns => 11,
        Category::Security => 12,
        Category::Service => 13,
        Category::Wmi => 14,
        Category::Clr => 15,
    }
}

/// Decoding of a raw category byte; out-of-range codes fall back to
/// `FileSystem` rather than faulting.
pub open spec fn spec_category_from_u8(val: u8) -> Category {
    if val == 0 {
        Category::FileSystem
    } else if val == 1 {
        Category::Registry
    } else if val == 2 {
        Category::Network
    } else if val == 3 {
        Category::Process
    } else if val == 4 {
        Category::Scheduler
    } else if val == 5 {
        Category::Input
    } else if val == 6 {
        Category::Image
    } else if val == 7 {
        Category::Thread
    } else if val == 8 {
        Category::Memory
    } else if val == 9 {
        Category::Script
    } else if val == 10 {
        Category::Amsi
    } else if val == 11 {
        Category::Dns
    } else if val == 12 {
        Category::Security
    } else if val == 13 {
        Category::Service
    } else if val == 14 {
        Category::Wmi
    } else if val == 15 {
        Category::Clr
    } else {
        Category::FileSystem
    }
}

/// Wire code of each status, as the tracing boundary encodes it.
pub open spec fn spec_status_code(s: Status) -> u8 {
    match s {
        Status::Success => 0,
        Status::Denied => 1,
        Status::Pending => 2,
        Status::Error => 3,
        Status::Suspicious => 4,
    }
}

/// Decoding of a raw status byte; out-of-range codes fall back to `Error`
/// rather than faulting.
pub open spec fn spec_status_from_u8(val: u8) -> Status {
    if val == 0 {
        Status::Success
    } else if val == 1 {
        Status::Denied
    } else if val == 2 {
        Status::Pending
    } else if val == 3 {
        Status::Error
    } else if val == 4 {
        Status::Suspicious
    } else {
        Status::Error
    }
}

/// Convert a raw byte received from the tracing boundary to a `Category`.
///
/// Every byte decodes to some category: unknown values fall back to
/// `FileSystem` so that a malformed record can never fault the consumer.
pub fn category_from_u8(val: u8) -> (c: Category)
    ensures
        c == spec_category_from_u8(val),
{
    match val {
        0 => Category::FileSystem,
        1 => Category::Registry,
        2 => Category::Network,
        3 => Category::Process,
        4 => Category::Scheduler,
        5 => Category::Input,
        6 => Category::Image,
        7 => Category::Thread,
        8 => Category::Memory,
        9 => Category::Script,
        10 => Category::Amsi,
        11 => Category::Dns,
        12 => Category::Security,
        13 => Category::Service,
        14 => Category::Wmi,
        15 => Category::Clr,
        _ => Category::FileSystem,
    }
}

/// Convert a raw byte received from the tracing boundary to a `Status`.
///
/// Every byte decodes to some status: unknown values fall back to `Error`
/// so that a malformed record can never fault the consumer.
pub fn status_from_u8(val: u8) -> (s: Status)
    ensures
        s == spec_status_from_u8(val),
{
    match val {
        0 => Status::Success,
        1 => Status::Denied,
        2 => Status::Pending,
        3 => Status::Error,
        4 => Status::Suspicious,
        _ => Status::Error,
    }
}

/// Wire code of a category; inverse of `category_from_u8` on valid codes.
pub fn category_code(c: Category) -> (val: u8)
    ensures
        val == spec_category_code(c),
{
    match c {
        Category::FileSystem => 0,
        Category::Registry => 1,
        Category::Network => 2,
        Category::Process => 3,
        Category::Scheduler => 4,
        Category::Input => 5,
        Category::Image => 6,
        Category::Thread => 7,
        Category::Memory => 8,
        Category::Script => 9,
        Category::Amsi => 10,
        Category::Dns => 11,
        Category::Security => 12,
        Category::Service => 13,
        Category::Wmi => 14,
        Category::Clr => 15,
    }
}

/// Wire code of a status; inverse of `status_from_u8` on valid codes.
pub fn status_code(s: Status) -> (val: u8)
    ensures
        val == spec_status_code(s),
{
    match s {
        Status::Success => 0,
        Status::Denied => 1,
        Status::Pending => 2,
        Status::Error => 3,
        Status::Suspicious => 4,
    }
}

/// Law: encoding a category and decoding the byte yields the category
/// back, and every category's code is in range.
pub proof fn lemma_category_round_trip(c: Category)
    ensures
        spec_category_from_u8(spec_category_code(c)) == c,
        spec_category_code(c) < 16,
{
}

/// Law: encoding a status and decoding the byte yields the status back,
/// and every status's code is in range.
pub proof fn lemma_status_round_trip(s: Status)
    ensures
        spec_status_from_u8(spec_status_code(s)) == s,
        spec_status_code(s) < 5,
{
}

} // verus!
