use vstd::prelude::*;
use vstd::bytes::*;
use vstd::slice::slice_subrange;
use vstd::utf8::*;

use crate::util::bytes::{le32_at, lemma_le_bytes};
use crate::journal::record::{
    JournalRecord, RecordView, RECORD_MAGIC, spec_parse_record, spec_record_bytes,
    spec_record_size, spec_record_well_formed, spec_record_body, lemma_record_roundtrip,
};

verus! {

broadcast use vstd::seq_lib::group_seq_properties;

/// Sequential reader over the bytes of a write-ahead log.
pub struct WalReader {
    data: Vec<u8>,
    pos: usize,
}

/// One step of reading a log at `pos`: the record found there and the
/// position after it, or `None` where reading stops (end of data, fewer than
/// four bytes, a wrong magic number, or bytes that are not a record).
pub open spec fn spec_read_step(data: Seq<u8>, pos: int) -> Option<(RecordView, int)> {
    if pos >= data.len() {
        None
    } else if data.len() - pos < 4 {
        None
    } else if le32_at(data, pos) != RECORD_MAGIC {
        None
    } else {
        match spec_parse_record(data.subrange(pos, data.len() as int)) {
            Ok(r) => Some((r, pos + spec_record_size(r))),
            Err(_) => None,
        }
    }
}

/// All records read from `pos` on, in order, up to the first place where
/// reading stops.
pub open spec fn spec_read_all(data: Seq<u8>, pos: int) -> Seq<RecordView>
    decreases data.len() - pos,
{
    if pos < 0 || pos >= data.len() {
        Seq::empty()
    } else {
        match spec_read_step(data, pos) {
            None => Seq::empty(),
            Some((r, next)) => if pos < next <= data.len() {
                seq![r] + spec_read_all(data, next)
            } else {
                Seq::empty()
            },
        }
    }
}

/// The bytes of a log holding the given records, one after another.
pub open spec fn spec_wal_bytes(rs: Seq<RecordView>) -> Seq<u8>
    decreases rs.len(),
{
    if rs.len() == 0 {
        Seq::empty()
    } else {
        spec_record_bytes(rs[0]) + spec_wal_bytes(rs.drop_first())
    }
}

/// A record read from the front of bytes takes its serialized size of them,
/// and those bytes are its serialization.
pub proof fn lemma_parse_prefix(d: Seq<u8>)
    requires
        spec_parse_record(d) is Ok,
    ensures
        ({
            let r = spec_parse_record(d)->Ok_0;
            &&& 66 <= spec_record_size(r) <= d.len()
            &&& d.subrange(0, spec_record_size(r)) == spec_record_bytes(r)
            &&& spec_record_well_formed(r)
        }),
{
    let r = spec_parse_record(d)->Ok_0;
    let plen = le32_at(d, 22) as int;
    let pb = d.subrange(26, 26 + plen);
    decode_utf8_encode_utf8(pb);
    lemma_auto_spec_u32_to_from_le_bytes();
    lemma_auto_spec_u64_to_from_le_bytes();
    assert(encode_utf8(r.path) == pb);
    let dlen = le32_at(d, 26 + plen) as int;
    assert(pb.len() == plen);
    assert((plen as u32) as int == plen);
    assert((dlen as u32) as int == dlen);
    assert(d.subrange(22, 26).len() == 4);
    assert(spec_u32_to_le_bytes(spec_u32_from_le_bytes(d.subrange(22, 26))) == d.subrange(22, 26));
    assert(spec_u32_to_le_bytes(spec_u32_from_le_bytes(d.subrange(26 + plen, 30 + plen))) == d.subrange(26 + plen, 30 + plen));
    assert(spec_u32_to_le_bytes(spec_u32_from_le_bytes(d.subrange(0, 4))) == d.subrange(0, 4));
    assert(spec_u64_to_le_bytes(spec_u64_from_le_bytes(d.subrange(6, 14))) == d.subrange(6, 14));
    assert(spec_u64_to_le_bytes(spec_u64_from_le_bytes(d.subrange(14, 22))) == d.subrange(14, 22));
    let off = 30 + plen;
    assert(spec_u32_to_le_bytes(spec_u32_from_le_bytes(d.subrange(off + dlen + 32, off + dlen + 36))) == d.subrange(off + dlen + 32, off + dlen + 36));
    assert(d.subrange(0, spec_record_size(r)) =~= spec_record_bytes(r));
}

/// Reading a log made of well-formed records gives back exactly those
/// records, in the order they were written.
pub proof fn lemma_wal_reads_back(rs: Seq<RecordView>)
    requires
        forall|i: int| 0 <= i < rs.len() ==> spec_record_well_formed(#[trigger] rs[i]),
    ensures
        spec_read_all(spec_wal_bytes(rs), 0) == rs,
    decreases rs.len(),
{
    lemma_wal_reads_back_from(Seq::empty(), rs);
    assert(Seq::<u8>::empty() + spec_wal_bytes(rs) =~= spec_wal_bytes(rs));
}

proof fn lemma_wal_reads_back_from(prefix: Seq<u8>, rs: Seq<RecordView>)
    requires
        forall|i: int| 0 <= i < rs.len() ==> spec_record_well_formed(#[trigger] rs[i]),
    ensures
        spec_read_all(prefix + spec_wal_bytes(rs), prefix.len() as int) == rs,
    decreases rs.len(),
{
    let d = prefix + spec_wal_bytes(rs);
    let pos = prefix.len() as int;
    if rs.len() == 0 {
        assert(d.len() == pos);
    } else {
        let r = rs[0];
        assert(spec_record_well_formed(r));
        let tail = spec_wal_bytes(rs.drop_first());
        lemma_record_roundtrip(r, tail);
        assert(d.subrange(pos, d.len() as int) =~= spec_record_bytes(r) + tail);
        assert(le32_at(d, pos) == RECORD_MAGIC) by {
            lemma_le_bytes();
            assert(spec_record_bytes(r).subrange(0, 4) =~= spec_u32_to_le_bytes(r.magic));
            assert(d.subrange(pos, pos + 4) =~= spec_record_bytes(r).subrange(0, 4));
        }
        let next = pos + spec_record_size(r);
        assert(spec_read_step(d, pos) == Some((r, next)));
        let prefix2 = prefix + spec_record_bytes(r);
        assert(d =~= prefix2 + tail);
        lemma_wal_reads_back_from(prefix2, rs.drop_first());
        assert(seq![r] + rs.drop_first() =~= rs);
    }
}

impl WalReader {
    pub closed spec fn spec_data(&self) -> Seq<u8> {
        self.data@
    }

    pub closed spec fn spec_pos(&self) -> int {
        self.pos as int
    }

    /// A reader positioned at the start of the given log bytes.
    pub fn from_bytes(data: Vec<u8>) -> (r: Self)
        ensures
            r.spec_data() == data@,
            r.spec_pos() == 0,
    {
        WalReader { data, pos: 0 }
    }

    /// Reads the next record, or `None` where reading stops: at the end of
    /// the data, before fewer than four bytes, at a wrong magic number or at
    /// bytes that are not a valid record. The position advances past a record
    /// read and stays put otherwise.
    pub fn read_record(&mut self) -> (r: Option<JournalRecord>)
        requires
            old(self).spec_pos() <= old(self).spec_data().len(),
        ensures
            final(self).spec_data() == old(self).spec_data(),
            final(self).spec_pos() <= final(self).spec_data().len(),
            match spec_read_step(old(self).spec_data(), old(self).spec_pos()) {
                None => r is None && final(self).spec_pos() == old(self).spec_pos(),
                Some((v, next)) => r matches Some(rec) && rec@ == v && final(self).spec_pos() == next,
            },
    {
        let len = self.data.len();
        if self.pos >= len {
            return None;
        }
        if len - self.pos < 4 {
            return None;
        }
        let magic = u32_from_le_bytes(slice_subrange(self.data.as_slice(), self.pos, self.pos + 4));
        if magic != RECORD_MAGIC {
            return None;
        }
        let rest = slice_subrange(self.data.as_slice(), self.pos, len);
        match JournalRecord::from_bytes(rest) {
            Ok(record) => {
                proof {
                    lemma_parse_prefix(rest@);
                }
                let size = record.size();
                self.pos = self.pos + size;
                Some(record)
            },
            Err(_) => None,
        }
    }

    /// Bytes not yet read.
    pub fn remaining(&self) -> (n: usize)
        ensures
            n == if self.spec_pos() <= self.spec_data().len() { self.spec_data().len() - self.spec_pos() } else { 0 },
    {
        if self.data.len() >= self.pos { self.data.len() - self.pos } else { 0 }
    }

    /// Total size of the log data.
    pub fn total_bytes(&self) -> (n: usize)
        ensures
            n == self.spec_data().len(),
    {
        self.data.len()
    }

    /// Reads every record from the current position on, until reading stops.
    pub fn read_all(&mut self) -> (records: Vec<JournalRecord>)
        requires
            old(self).spec_pos() <= old(self).spec_data().len(),
        ensures
            records@.map_values(|r: JournalRecord| r@) == spec_read_all(old(self).spec_data(), old(self).spec_pos()),
    {
        let mut records: Vec<JournalRecord> = Vec::new();
        let ghost start = self.spec_pos();
        loop
            invariant
                self.spec_data() == old(self).spec_data(),
                0 <= self.spec_pos() <= self.spec_data().len(),
                start == old(self).spec_pos(),
                spec_read_all(self.spec_data(), start)
                    == records@.map_values(|r: JournalRecord| r@) + spec_read_all(self.spec_data(), self.spec_pos()),
            decreases self.spec_data().len() - self.spec_pos(),
        {
            let ghost before = self.spec_pos();
            match self.read_record() {
                Some(rec) => {
                    proof {
                        let d = self.spec_data();
                        let (v, next) = spec_read_step(d, before)->Some_0;
                        lemma_parse_prefix(d.subrange(before, d.len() as int));
                        assert(next > before);
                        assert(spec_read_all(d, before) == seq![v] + spec_read_all(d, next));
                    }
                    let ghost old_records = records@;
                    records.push(rec);
                    proof {
                        assert(records@.map_values(|r: JournalRecord| r@)
                            =~= old_records.map_values(|r: JournalRecord| r@) + seq![rec@]);
                    }
                },
                None => {
                    proof {
                        assert(spec_read_all(self.spec_data(), before) =~= Seq::<RecordView>::empty());
                        assert(records@.map_values(|r: JournalRecord| r@) + Seq::<RecordView>::empty()
                            =~= records@.map_values(|r: JournalRecord| r@));
                    }
                    return records;
                },
            }
        }
    }
}

} // verus!
