use vstd::prelude::*;

verus! {

/// The kind of a journal record.
#[derive(Debug, Clone, Copy, PartialEq, Eq, Structural)]
pub enum RecordType {
    BeginWrite,
    CommitWrite,
    AbortWrite,
    BeginDelete,
    CommitDelete,
    BeginRename,
    CommitRename,
    Checkpoint,
    CleanShutdown,
}

/// The byte that stands for a record type on disk.
pub open spec fn spec_record_type_byte(t: RecordType) -> u8 {
    match t {
        RecordType::BeginWrite => 1,
        RecordType::CommitWrite => 2,
        RecordType::AbortWrite => 3,
        RecordType::BeginDelete => 4,
        RecordType::CommitDelete => 5,
        RecordType::BeginRename => 6,
        RecordType::CommitRename => 7,
        RecordType::Checkpoint => 8,
        RecordType::CleanShutdown => 9,
    }
}

/// The record type that a byte stands for, if any.
pub open spec fn spec_record_type_from_byte(b: u8) -> Option<RecordType> {
    if b == 1 { Some(RecordType::BeginWrite) }
    else if b == 2 { Some(RecordType::CommitWrite) }
    else if b == 3 { Some(RecordType::AbortWrite) }
    else if b == 4 { Some(RecordType::BeginDelete) }
    else if b == 5 { Some(RecordType::CommitDelete) }
    else if b == 6 { Some(RecordType::BeginRename) }
    else if b == 7 { Some(RecordType::CommitRename) }
    else if b == 8 { Some(RecordType::Checkpoint) }
    else if b == 9 { Some(RecordType::CleanShutdown) }
    else { None }
}

impl RecordType {
    pub open spec fn spec_is_begin(self) -> bool {
        self is BeginWrite || self is BeginDelete || self is BeginRename
    }

    pub open spec fn spec_is_commit(self) -> bool {
        self is CommitWrite || self is CommitDelete || self is CommitRename
    }

    /// Decodes a record type byte; bytes outside 1..=9 give `None`.
    pub fn from_byte(b: u8) -> (r: Option<Self>)
        ensures
            r == spec_record_type_from_byte(b),
            r is Some <==> 1 <= b <= 9,
            r matches Some(t) ==> spec_record_type_byte(t) == b,
    {
        match b {
            1 => Some(RecordType::BeginWrite),
            2 => Some(RecordType::CommitWrite),
            3 => Some(RecordType::AbortWrite),
            4 => Some(RecordType::BeginDelete),
            5 => Some(RecordType::CommitDelete),
            6 => Some(RecordType::BeginRename),
            7 => Some(RecordType::CommitRename),
            8 => Some(RecordType::Checkpoint),
            9 => Some(RecordType::CleanShutdown),
            _ => None,
        }
    }

    /// The on-disk byte of this record type.
    pub fn to_byte(&self) -> (b: u8)
        ensures
            b == spec_record_type_byte(*self),
    {
        match self {
            RecordType::BeginWrite => 1,
            RecordType::CommitWrite => 2,
            RecordType::AbortWrite => 3,
            RecordType::BeginDelete => 4,
            RecordType::CommitDelete => 5,
            RecordType::BeginRename => 6,
            RecordType::CommitRename => 7,
            RecordType::Checkpoint => 8,
            RecordType::CleanShutdown => 9,
        }
    }

    /// Whether this record opens an operation.
    pub fn is_begin(&self) -> (r: bool)
        ensures
            r == self.spec_is_begin(),
    {
        matches!(self, RecordType::BeginWrite | RecordType::BeginDelete | RecordType::BeginRename)
    }

    /// Whether this record commits an operation.
    pub fn is_commit(&self) -> (r: bool)
        ensures
            r == self.spec_is_commit(),
    {
        matches!(self, RecordType::CommitWrite | RecordType::CommitDelete | RecordType::CommitRename)
    }
}

/// Every record type survives the trip through its byte.
pub proof fn lemma_record_type_byte_roundtrip(t: RecordType)
    ensures
        spec_record_type_from_byte(spec_record_type_byte(t)) == Some(t),
        1 <= spec_record_type_byte(t) <= 9,
{
}

} // verus!
