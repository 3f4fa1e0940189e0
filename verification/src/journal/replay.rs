use vstd::prelude::*;

use crate::common::error::VumError;
use crate::common::result::VumResult;
use crate::journal::record::{JournalRecord, RecordView, spec_record_checksum};
use crate::journal::record_type::RecordType;
use crate::util::text::{spec_trim_start, trim_start_char};

verus! {

/// Replays a journal onto the backing store: committed writes and deletes
/// are applied, aborted writes rolled back, incomplete operations skipped.
pub struct JournalReplay {
    pub records_replayed: u64,
    pub writes_applied: u64,
    pub writes_rolled_back: u64,
    pub last_record_id: u64,
}

/// What replay does to the backing store for one record. Paths are relative
/// to the backing store (the record's path without leading '/').
pub enum ReplayAction {
    WriteFile { rel_path: String, data: Vec<u8> },
    RemoveFile { rel_path: String },
    RollBackFile { rel_path: String },
}

/// The mathematical content of a replay action.
pub enum ReplayActionView {
    WriteFile { rel_path: Seq<char>, data: Seq<u8> },
    RemoveFile { rel_path: Seq<char> },
    RollBackFile { rel_path: Seq<char> },
}

impl View for ReplayAction {
    type V = ReplayActionView;

    open spec fn view(&self) -> ReplayActionView {
        match self {
            ReplayAction::WriteFile { rel_path, data } => ReplayActionView::WriteFile { rel_path: rel_path@, data: data@ },
            ReplayAction::RemoveFile { rel_path } => ReplayActionView::RemoveFile { rel_path: rel_path@ },
            ReplayAction::RollBackFile { rel_path } => ReplayActionView::RollBackFile { rel_path: rel_path@ },
        }
    }
}

pub open spec fn records_view(rs: Seq<JournalRecord>) -> Seq<RecordView> {
    rs.map_values(|r: JournalRecord| r@)
}

/// Some record commits or aborts the operation with this id.
pub open spec fn spec_completed(all: Seq<RecordView>, id: u64) -> bool {
    exists|j: int| 0 <= j < all.len() && #[trigger] all[j].record_id == id
        && (all[j].record_type.spec_is_commit() || all[j].record_type is AbortWrite)
}

/// The record at `i` begins an operation that nothing completes.
pub open spec fn spec_is_incomplete_begin(all: Seq<RecordView>, i: int) -> bool {
    all[i].record_type.spec_is_begin() && !spec_completed(all, all[i].record_id)
}

/// The incomplete begin records among the first `n`, in order.
pub open spec fn spec_incomplete_prefix(all: Seq<RecordView>, n: int) -> Seq<RecordView>
    decreases n,
{
    if n <= 0 {
        Seq::empty()
    } else if spec_is_incomplete_begin(all, n - 1) {
        spec_incomplete_prefix(all, n - 1).push(all[n - 1])
    } else {
        spec_incomplete_prefix(all, n - 1)
    }
}

/// Every begin record that no commit or abort record completes, in order.
pub open spec fn spec_incomplete(all: Seq<RecordView>) -> Seq<RecordView> {
    spec_incomplete_prefix(all, all.len() as int)
}

/// Some begin record with this id is incomplete.
pub open spec fn spec_incomplete_id(all: Seq<RecordView>, id: u64) -> bool {
    exists|k: int| 0 <= k < all.len() && #[trigger] all[k].record_id == id && spec_is_incomplete_begin(all, k)
}

/// The index of the last begin record with this id among the first `n`.
pub open spec fn spec_last_begin(all: Seq<RecordView>, id: u64, n: int) -> Option<int>
    decreases n,
{
    if n <= 0 {
        None
    } else if all[n - 1].record_type.spec_is_begin() && all[n - 1].record_id == id {
        Some(n - 1)
    } else {
        spec_last_begin(all, id, n - 1)
    }
}

/// What replay does for the record at `i`.
pub open spec fn spec_replay_action(all: Seq<RecordView>, i: int) -> Option<ReplayActionView> {
    let r = all[i];
    let b = spec_last_begin(all, r.record_id, all.len() as int);
    match r.record_type {
        RecordType::CommitWrite | RecordType::CommitRename => {
            if spec_incomplete_id(all, r.record_id) {
                None
            } else {
                match b {
                    Some(j) => Some(ReplayActionView::WriteFile { rel_path: spec_trim_start(all[j].path, '/'), data: all[j].data }),
                    None => None,
                }
            }
        },
        RecordType::CommitDelete => {
            if spec_incomplete_id(all, r.record_id) {
                None
            } else {
                match b {
                    Some(j) => Some(ReplayActionView::RemoveFile { rel_path: spec_trim_start(all[j].path, '/') }),
                    None => None,
                }
            }
        },
        RecordType::AbortWrite => {
            match b {
                Some(j) => Some(ReplayActionView::RollBackFile { rel_path: spec_trim_start(all[j].path, '/') }),
                None => None,
            }
        },
        _ => None,
    }
}

/// The record completes (commits or aborts) an operation.
pub open spec fn spec_completes(r: RecordView) -> bool {
    r.record_type.spec_is_commit() || r.record_type is AbortWrite
}

/// Some record among the first `n` completes the operation with this id.
pub open spec fn spec_completed_upto(all: Seq<RecordView>, id: u64, n: int) -> bool {
    exists|j: int| 0 <= j < n && #[trigger] all[j].record_id == id && spec_completes(all[j])
}

fn completed_ids(records: &[JournalRecord]) -> (ids: Vec<u64>)
    ensures
        forall|id: u64| #[trigger] ids@.contains(id) <==> spec_completed(records_view(records@), id),
{
    let ghost all = records_view(records@);
    let mut ids: Vec<u64> = Vec::new();
    let mut i: usize = 0;
    while i < records.len()
        invariant
            i <= records@.len(),
            all == records_view(records@),
            forall|id: u64| #[trigger] ids@.contains(id) <==> spec_completed_upto(all, id, i as int),
        decreases records@.len() - i,
    {
        let ghost old_ids = ids@;
        let t = records[i].record_type;
        let pushed = t.is_commit() || t == RecordType::AbortWrite;
        if pushed {
            ids.push(records[i].record_id);
        }
        i = i + 1;
        proof {
            let r = all[i - 1];
            assert(r == records@[i - 1]@);
            assert forall|id: u64| #[trigger] ids@.contains(id) <==> spec_completed_upto(all, id, i as int) by {
                assert(old_ids.contains(id) <==> spec_completed_upto(all, id, i - 1));
                if ids@.contains(id) {
                    let k = choose|k: int| 0 <= k < ids@.len() && ids@[k] == id;
                    if k < old_ids.len() {
                        assert(old_ids[k] == id);
                        assert(old_ids.contains(id));
                    } else {
                        assert(all[i - 1].record_id == id);
                    }
                }
                if spec_completed_upto(all, id, i as int) {
                    let j = choose|j: int| 0 <= j < i && #[trigger] all[j].record_id == id && spec_completes(all[j]);
                    if j < i - 1 {
                        assert(spec_completed_upto(all, id, i - 1));
                        let k = choose|k: int| 0 <= k < old_ids.len() && old_ids[k] == id;
                        assert(ids@[k] == id);
                    } else {
                        assert(ids@[ids@.len() - 1] == id);
                    }
                }
            }
        }
    }
    proof {
        assert forall|id: u64| #[trigger] ids@.contains(id) <==> spec_completed(all, id) by {
            assert(spec_completed_upto(all, id, all.len() as int) == spec_completed(all, id));
        }
    }
    ids
}

fn contains_id(ids: &Vec<u64>, id: u64) -> (r: bool)
    ensures
        r == ids@.contains(id),
{
    let mut i: usize = 0;
    while i < ids.len()
        invariant
            i <= ids@.len(),
            forall|j: int| 0 <= j < i ==> ids@[j] != id,
        decreases ids@.len() - i,
    {
        if ids[i] == id {
            return true;
        }
        i = i + 1;
    }
    false
}

fn last_begin_index(records: &[JournalRecord], id: u64) -> (r: Option<usize>)
    ensures
        r matches Some(j) ==> j < records@.len() && spec_last_begin(records_view(records@), id, records@.len() as int) == Some(j as int),
        r is None ==> spec_last_begin(records_view(records@), id, records@.len() as int) is None,
{
    let ghost all = records_view(records@);
    let mut n: usize = records.len();
    while n > 0
        invariant
            n <= records@.len(),
            all == records_view(records@),
            spec_last_begin(all, id, records@.len() as int) == spec_last_begin(all, id, n as int),
        decreases n,
    {
        if records[n - 1].record_type.is_begin() && records[n - 1].record_id == id {
            return Some(n - 1);
        }
        n = n - 1;
    }
    None
}

impl JournalReplay {
    /// A replay that has done nothing yet.
    pub fn new() -> (r: Self)
        ensures
            r.records_replayed == 0,
            r.writes_applied == 0,
            r.writes_rolled_back == 0,
            r.last_record_id == 0,
    {
        JournalReplay { records_replayed: 0, writes_applied: 0, writes_rolled_back: 0, last_record_id: 0 }
    }

    /// The begin records that no commit or abort record completes, in the
    /// order they appear.
    pub fn find_incomplete<'a>(&self, records: &'a [JournalRecord]) -> (r: Vec<&'a JournalRecord>)
        ensures
            r@.map_values(|x: &JournalRecord| x@) == spec_incomplete(records_view(records@)),
    {
        let ghost all = records_view(records@);
        let completed = completed_ids(records);
        let mut result: Vec<&'a JournalRecord> = Vec::new();
        let mut i: usize = 0;
        while i < records.len()
            invariant
                i <= records@.len(),
                all == records_view(records@),
                forall|id: u64| #[trigger] completed@.contains(id) <==> spec_completed(all, id),
                result@.map_values(|x: &JournalRecord| x@) == spec_incomplete_prefix(all, i as int),
            decreases records@.len() - i,
        {
            let rec = &records[i];
            let ghost old_result = result@;
            if rec.record_type.is_begin() && !contains_id(&completed, rec.record_id) {
                result.push(rec);
                assert(result@.map_values(|x: &JournalRecord| x@)
                    =~= old_result.map_values(|x: &JournalRecord| x@).push(rec@));
            }
            i = i + 1;
        }
        result
    }

    /// Starts a replay of `records`: counts them and decides, for each, the
    /// action replay takes (if any). The decisions are those of
    /// `spec_replay_action`.
    pub fn plan(&mut self, records: &[JournalRecord]) -> (actions: Vec<Option<ReplayAction>>)
        ensures
            final(self).records_replayed == records@.len() as u64,
            final(self).writes_applied == old(self).writes_applied,
            final(self).writes_rolled_back == old(self).writes_rolled_back,
            final(self).last_record_id == old(self).last_record_id,
            actions@.len() == records@.len(),
            forall|i: int| 0 <= i < actions@.len() ==>
                (match #[trigger] actions@[i] {
                    Some(a) => Some(a@),
                    None => None,
                }) == spec_replay_action(records_view(records@), i),
    {
        let ghost all = records_view(records@);
        self.records_replayed = records.len() as u64;
        let incomplete = self.find_incomplete(records);
        let mut incomplete_ids: Vec<u64> = Vec::new();
        let mut k: usize = 0;
        while k < incomplete.len()
            invariant
                k <= incomplete@.len(),
                incomplete@.map_values(|x: &JournalRecord| x@) == spec_incomplete(all),
                all == records_view(records@),
                incomplete_ids@.len() == k,
                forall|m: int| 0 <= m < k ==> #[trigger] incomplete_ids@[m] == incomplete@[m].record_id,
                forall|id: u64| #[trigger] incomplete_ids@.contains(id) <==>
                    spec_has_id(incomplete@.map_values(|x: &JournalRecord| x@).take(k as int), id),
            decreases incomplete@.len() - k,
        {
            let ghost old_ids = incomplete_ids@;
            incomplete_ids.push(incomplete[k].record_id);
            k = k + 1;
            proof {
                let iv = incomplete@.map_values(|x: &JournalRecord| x@);
                assert forall|id: u64| #[trigger] incomplete_ids@.contains(id) <==> spec_has_id(iv.take(k as int), id) by {
                    assert(spec_has_id(iv.take(k - 1), id) <==> old_ids.contains(id));
                    if incomplete_ids@.contains(id) {
                        let q = choose|q: int| 0 <= q < incomplete_ids@.len() && incomplete_ids@[q] == id;
                        if q < old_ids.len() {
                            assert(old_ids.contains(id));
                            let m = choose|m: int| 0 <= m < k - 1 && #[trigger] iv.take(k - 1)[m].record_id == id;
                            assert(iv.take(k as int)[m] == iv.take(k - 1)[m]);
                        } else {
                            assert(iv.take(k as int)[k - 1] == incomplete@[k - 1]@);
                            assert(iv.take(k as int)[k - 1].record_id == id);
                        }
                    }
                    if spec_has_id(iv.take(k as int), id) {
                        let m = choose|m: int| 0 <= m < k && #[trigger] iv.take(k as int)[m].record_id == id;
                        if m < k - 1 {
                            assert(iv.take(k - 1)[m] == iv.take(k as int)[m]);
                            assert(spec_has_id(iv.take(k - 1), id));
                            assert(old_ids.contains(id));
                            let q = choose|q: int| 0 <= q < old_ids.len() && old_ids[q] == id;
                            assert(incomplete_ids@[q] == id);
                        } else {
                            assert(iv.take(k as int)[m] == incomplete@[k - 1]@);
                            assert(incomplete_ids@[k - 1] == id);
                        }
                    }
                }
            }
        }
        proof {
            lemma_incomplete_ids(all);
            let iv = incomplete@.map_values(|x: &JournalRecord| x@);
            assert(iv.take(k as int) =~= iv);
        }
        let mut actions: Vec<Option<ReplayAction>> = Vec::new();
        let mut i: usize = 0;
        while i < records.len()
            invariant
                i <= records@.len(),
                all == records_view(records@),
                actions@.len() == i,
                forall|id: u64| #[trigger] incomplete_ids@.contains(id) <==> spec_incomplete_id(all, id),
                forall|j: int| 0 <= j < actions@.len() ==>
                    (match #[trigger] actions@[j] {
                        Some(a) => Some(a@),
                        None => None,
                    }) == spec_replay_action(all, j),
            decreases records@.len() - i,
        {
            let rec = &records[i];
            let action = match rec.record_type {
                RecordType::CommitWrite | RecordType::CommitRename => {
                    if contains_id(&incomplete_ids, rec.record_id) {
                        None
                    } else {
                        match last_begin_index(records, rec.record_id) {
                            Some(j) => Some(ReplayAction::WriteFile {
                                rel_path: trim_start_char(records[j].path.as_str(), '/'),
                                data: copy_bytes(&records[j].data),
                            }),
                            None => None,
                        }
                    }
                },
                RecordType::CommitDelete => {
                    if contains_id(&incomplete_ids, rec.record_id) {
                        None
                    } else {
                        match last_begin_index(records, rec.record_id) {
                            Some(j) => Some(ReplayAction::RemoveFile {
                                rel_path: trim_start_char(records[j].path.as_str(), '/'),
                            }),
                            None => None,
                        }
                    }
                },
                RecordType::AbortWrite => {
                    match last_begin_index(records, rec.record_id) {
                        Some(j) => Some(ReplayAction::RollBackFile {
                            rel_path: trim_start_char(records[j].path.as_str(), '/'),
                        }),
                        None => None,
                    }
                },
                _ => None,
            };
            actions.push(action);
            i = i + 1;
        }
        actions
    }

    /// Accepts the next record to replay: a record whose checksum does not
    /// match stops the replay with `JournalChecksumFailed`; otherwise the
    /// highest record id seen is updated.
    pub fn accept_record(&mut self, record: &JournalRecord) -> (r: VumResult<()>)
        ensures
            r is Ok <==> record.checksum == spec_record_checksum(record@),
            r matches Err(e) ==> e is JournalChecksumFailed,
            r is Err ==> *final(self) == *old(self),
            r is Ok ==> *final(self) == spec_after_accept(*old(self), record@),
            final(self).records_replayed == old(self).records_replayed,
            final(self).writes_applied == old(self).writes_applied,
            final(self).writes_rolled_back == old(self).writes_rolled_back,
    {
        if !record.verify_checksum() {
            return Err(VumError::JournalChecksumFailed);
        }
        if record.record_id > self.last_record_id {
            self.last_record_id = record.record_id;
        }
        Ok(())
    }

    /// Counts an action that has been carried out: writes and deletes as
    /// applied, roll-backs as rolled back (saturating at `u64::MAX`).
    pub fn action_done(&mut self, action: &ReplayAction)
        ensures
            *final(self) == spec_after_action(*old(self), Some(action@)),
            final(self).records_replayed == old(self).records_replayed,
            final(self).last_record_id == old(self).last_record_id,
            match action {
                ReplayAction::RollBackFile { .. } => {
                    &&& final(self).writes_rolled_back == if old(self).writes_rolled_back < u64::MAX { (old(self).writes_rolled_back + 1) as u64 } else { u64::MAX }
                    &&& final(self).writes_applied == old(self).writes_applied
                },
                _ => {
                    &&& final(self).writes_applied == if old(self).writes_applied < u64::MAX { (old(self).writes_applied + 1) as u64 } else { u64::MAX }
                    &&& final(self).writes_rolled_back == old(self).writes_rolled_back
                },
            },
    {
        match action {
            ReplayAction::RollBackFile { .. } => {
                self.writes_rolled_back = self.writes_rolled_back.saturating_add(1);
            },
            _ => {
                self.writes_applied = self.writes_applied.saturating_add(1);
            },
        }
    }
}

/// A copy of a byte vector.
pub fn copy_bytes(v: &Vec<u8>) -> (r: Vec<u8>)
    ensures
        r@ == v@,
{
    let mut r: Vec<u8> = Vec::new();
    crate::util::bytes::append_bytes(&mut r, v.as_slice());
    r
}

/// Some record of `s` has this id.
pub open spec fn spec_has_id(s: Seq<RecordView>, id: u64) -> bool {
    exists|m: int| 0 <= m < s.len() && #[trigger] s[m].record_id == id
}

/// Some begin among the first `n` records with this id is incomplete.
pub open spec fn spec_incomplete_id_upto(all: Seq<RecordView>, id: u64, n: int) -> bool {
    exists|k: int| 0 <= k < n && #[trigger] all[k].record_id == id && spec_is_incomplete_begin(all, k)
}

/// The ids of the incomplete begins are exactly the ids for which some
/// begin is incomplete.
proof fn lemma_incomplete_ids(all: Seq<RecordView>)
    ensures
        forall|id: u64| #[trigger] spec_has_id(spec_incomplete(all), id) <==> spec_incomplete_id(all, id),
{
    lemma_incomplete_prefix_members(all, all.len() as int);
    assert forall|id: u64| #[trigger] spec_has_id(spec_incomplete(all), id) <==> spec_incomplete_id(all, id) by {
        assert(spec_incomplete_id_upto(all, id, all.len() as int) == spec_incomplete_id(all, id));
    }
}

proof fn lemma_incomplete_prefix_members(all: Seq<RecordView>, n: int)
    requires
        0 <= n <= all.len(),
    ensures
        forall|id: u64| #[trigger] spec_has_id(spec_incomplete_prefix(all, n), id) <==> spec_incomplete_id_upto(all, id, n),
    decreases n,
{
    if n > 0 {
        lemma_incomplete_prefix_members(all, n - 1);
        let p = spec_incomplete_prefix(all, n - 1);
        let q = spec_incomplete_prefix(all, n);
        assert forall|id: u64| #[trigger] spec_has_id(q, id) <==> spec_incomplete_id_upto(all, id, n) by {
            assert(spec_has_id(p, id) <==> spec_incomplete_id_upto(all, id, n - 1));
            if spec_has_id(q, id) {
                let m = choose|m: int| 0 <= m < q.len() && #[trigger] q[m].record_id == id;
                if m < p.len() {
                    assert(p[m] == q[m]);
                    assert(spec_has_id(p, id));
                } else {
                    assert(all[n - 1].record_id == id);
                }
            }
            if spec_incomplete_id_upto(all, id, n) {
                let k = choose|k: int| 0 <= k < n && #[trigger] all[k].record_id == id && spec_is_incomplete_begin(all, k);
                if k < n - 1 {
                    assert(spec_incomplete_id_upto(all, id, n - 1));
                    let m = choose|m: int| 0 <= m < p.len() && #[trigger] p[m].record_id == id;
                    assert(q[m] == p[m]);
                } else {
                    assert(q[q.len() - 1] == all[n - 1]);
                }
            }
        }
    }
}

} // verus!

verus! {

/// Replay only writes or deletes what a commit record completes: when the
/// action for record `i` writes or removes a file, record `i` commits its
/// operation, and the begin record whose path and data the action uses
/// carries the same id and is not an incomplete begin.
pub proof fn law_replay_applies_only_committed(all: Seq<RecordView>, i: int)
    requires
        0 <= i < all.len(),
        spec_replay_action(all, i) matches Some(a) && !(a is RollBackFile),
    ensures
        all[i].record_type.spec_is_commit(),
        spec_completed(all, all[i].record_id),
        !spec_incomplete_id(all, all[i].record_id),
        spec_last_begin(all, all[i].record_id, all.len() as int) matches Some(j)
            && 0 <= j < all.len()
            && all[j].record_type.spec_is_begin()
            && all[j].record_id == all[i].record_id
            && !spec_is_incomplete_begin(all, j),
{
    let id = all[i].record_id;
    assert(all[i].record_id == id);
    lemma_last_begin_found(all, id, all.len() as int);
}

proof fn lemma_last_begin_found(all: Seq<RecordView>, id: u64, n: int)
    requires
        n <= all.len(),
    ensures
        spec_last_begin(all, id, n) matches Some(j) ==> 0 <= j < n && all[j].record_type.spec_is_begin()
            && all[j].record_id == id,
    decreases n,
{
    if n > 0 {
        lemma_last_begin_found(all, id, n - 1);
    }
}

/// An aborted operation is never written: when the action for record `i`
/// rolls a file back, record `i` is an abort record.
pub proof fn law_replay_rolls_back_only_aborts(all: Seq<RecordView>, i: int)
    requires
        0 <= i < all.len(),
        spec_replay_action(all, i) matches Some(a) && a is RollBackFile,
    ensures
        all[i].record_type is AbortWrite,
{
}

} // verus!

verus! {

/// The record's stored checksum matches the CRC-32 of its body.
pub open spec fn spec_record_ok(r: RecordView) -> bool {
    r.checksum == spec_record_checksum(r)
}

/// `x` held at `u64::MAX`.
pub open spec fn spec_saturate(x: int) -> u64 {
    if x < u64::MAX { x as u64 } else { u64::MAX }
}

/// The replay after it accepts `r`: the highest record id seen is updated.
pub open spec fn spec_after_accept(s: JournalReplay, r: RecordView) -> JournalReplay {
    JournalReplay {
        records_replayed: s.records_replayed,
        writes_applied: s.writes_applied,
        writes_rolled_back: s.writes_rolled_back,
        last_record_id: if r.record_id > s.last_record_id { r.record_id } else { s.last_record_id },
    }
}

/// The replay after the action `a` (if any) is carried out: a write or a
/// delete counts as applied, a roll-back as rolled back.
pub open spec fn spec_after_action(s: JournalReplay, a: Option<ReplayActionView>) -> JournalReplay {
    match a {
        None => s,
        Some(ReplayActionView::RollBackFile { .. }) => JournalReplay {
            records_replayed: s.records_replayed,
            writes_applied: s.writes_applied,
            writes_rolled_back: spec_saturate(s.writes_rolled_back + 1),
            last_record_id: s.last_record_id,
        },
        Some(_) => JournalReplay {
            records_replayed: s.records_replayed,
            writes_applied: spec_saturate(s.writes_applied + 1),
            writes_rolled_back: s.writes_rolled_back,
            last_record_id: s.last_record_id,
        },
    }
}

/// Replaying the first `n` records of `all` from `s`, one after the other:
/// each is accepted and its planned action carried out. `Err` holds the
/// replay as it stood when a record failed its checksum, which stops it.
pub open spec fn spec_replay_upto(s: JournalReplay, all: Seq<RecordView>, n: int) -> Result<JournalReplay, JournalReplay>
    decreases n,
{
    if n <= 0 {
        Ok(s)
    } else {
        match spec_replay_upto(s, all, n - 1) {
            Err(t) => Err(t),
            Ok(t) => if spec_record_ok(all[n - 1]) {
                Ok(spec_after_action(spec_after_accept(t, all[n - 1]), spec_replay_action(all, n - 1)))
            } else {
                Err(t)
            },
        }
    }
}

/// How many of the first `n` records write or remove a file.
pub open spec fn spec_count_applied(all: Seq<RecordView>, n: int) -> nat
    decreases n,
{
    if n <= 0 {
        0
    } else {
        spec_count_applied(all, n - 1) + if (spec_replay_action(all, n - 1) matches Some(a) && !(a is RollBackFile)) {
            1nat
        } else {
            0nat
        }
    }
}

/// How many of the first `n` records roll a file back.
pub open spec fn spec_count_rolled_back(all: Seq<RecordView>, n: int) -> nat
    decreases n,
{
    if n <= 0 {
        0
    } else {
        spec_count_rolled_back(all, n - 1) + if (spec_replay_action(all, n - 1) matches Some(a) && a is RollBackFile) {
            1nat
        } else {
            0nat
        }
    }
}

/// The highest of `start` and the ids of the first `n` records.
pub open spec fn spec_max_id(start: u64, all: Seq<RecordView>, n: int) -> u64
    decreases n,
{
    if n <= 0 {
        start
    } else {
        let m = spec_max_id(start, all, n - 1);
        if all[n - 1].record_id > m { all[n - 1].record_id } else { m }
    }
}

proof fn lemma_replay_upto(s: JournalReplay, all: Seq<RecordView>, n: int)
    requires
        0 <= n <= all.len(),
    ensures
        spec_replay_upto(s, all, n) is Err <==> exists|i: int| 0 <= i < n && !spec_record_ok(#[trigger] all[i]),
        spec_replay_upto(s, all, n) matches Ok(t) ==> {
            &&& t.records_replayed == s.records_replayed
            &&& t.writes_applied == spec_saturate(s.writes_applied + spec_count_applied(all, n))
            &&& t.writes_rolled_back == spec_saturate(s.writes_rolled_back + spec_count_rolled_back(all, n))
            &&& t.last_record_id == spec_max_id(s.last_record_id, all, n)
        },
    decreases n,
{
    if n > 0 {
        lemma_replay_upto(s, all, n - 1);
        if spec_replay_upto(s, all, n - 1) is Err {
            let i = choose|i: int| 0 <= i < n - 1 && !spec_record_ok(#[trigger] all[i]);
            assert(0 <= i < n && !spec_record_ok(all[i]));
        } else if !spec_record_ok(all[n - 1]) {
            assert(0 <= n - 1 < n && !spec_record_ok(all[n - 1]));
        } else {
            assert forall|i: int| 0 <= i < n implies spec_record_ok(#[trigger] all[i]) by {
                if i < n - 1 {
                    assert(!(0 <= i < n - 1 && !spec_record_ok(all[i])));
                }
            }
        }
    }
}

proof fn lemma_replay_stops(s: JournalReplay, all: Seq<RecordView>, i: int, n: int)
    requires
        0 <= i < n <= all.len(),
        !spec_record_ok(all[i]),
        forall|j: int| 0 <= j < i ==> spec_record_ok(#[trigger] all[j]),
    ensures
        spec_replay_upto(s, all, i) is Ok,
        spec_replay_upto(s, all, n) == Err::<JournalReplay, JournalReplay>(spec_replay_upto(s, all, i)->Ok_0),
    decreases n,
{
    lemma_replay_upto(s, all, i);
    if n > i + 1 {
        lemma_replay_stops(s, all, i, n - 1);
    }
}

/// Replaying a whole journal from the state `plan` leaves: it fails exactly
/// when some record's checksum does not match, and then stops at the first
/// such record, with the counts of the records before it. When it succeeds,
/// `records_replayed` is unchanged, `writes_applied` and
/// `writes_rolled_back` have grown by the number of write or delete actions
/// and of roll-back actions (each held at `u64::MAX`), and `last_record_id`
/// is the highest of its start value and every record id.
pub proof fn law_replay_outcome(s: JournalReplay, all: Seq<RecordView>)
    ensures
        spec_replay_upto(s, all, all.len() as int) is Err <==> exists|i: int| 0 <= i < all.len() && !spec_record_ok(#[trigger] all[i]),
        forall|i: int| 0 <= i < all.len() && !spec_record_ok(#[trigger] all[i])
            && (forall|j: int| 0 <= j < i ==> spec_record_ok(#[trigger] all[j]))
            ==> spec_replay_upto(s, all, i) is Ok
            && spec_replay_upto(s, all, all.len() as int) == Err::<JournalReplay, JournalReplay>(spec_replay_upto(s, all, i)->Ok_0),
        spec_replay_upto(s, all, all.len() as int) matches Ok(t) ==> {
            &&& t.records_replayed == s.records_replayed
            &&& t.writes_applied == spec_saturate(s.writes_applied + spec_count_applied(all, all.len() as int))
            &&& t.writes_rolled_back == spec_saturate(s.writes_rolled_back + spec_count_rolled_back(all, all.len() as int))
            &&& t.last_record_id == spec_max_id(s.last_record_id, all, all.len() as int)
        },
{
    lemma_replay_upto(s, all, all.len() as int);
    assert forall|i: int| 0 <= i < all.len() && !spec_record_ok(#[trigger] all[i])
        && (forall|j: int| 0 <= j < i ==> spec_record_ok(#[trigger] all[j]))
        implies spec_replay_upto(s, all, i) is Ok
        && spec_replay_upto(s, all, all.len() as int) == Err::<JournalReplay, JournalReplay>(spec_replay_upto(s, all, i)->Ok_0) by {
        lemma_replay_stops(s, all, i, all.len() as int);
    }
}

} // verus!

verus! {

/// The record is a begin record: it opens a write, a delete or a rename.
pub open spec fn spec_opens(r: RecordView) -> bool {
    r.record_type is BeginWrite || r.record_type is BeginDelete || r.record_type is BeginRename
}

/// `j` is the last begin record of the operation with this id.
pub open spec fn spec_is_last_begin(all: Seq<RecordView>, id: u64, j: int) -> bool {
    &&& 0 <= j < all.len()
    &&& spec_opens(all[j])
    &&& all[j].record_id == id
    &&& forall|k: int| j < k < all.len() && spec_opens(#[trigger] all[k]) ==> all[k].record_id != id
}

proof fn lemma_last_begin_is(all: Seq<RecordView>, id: u64, j: int, n: int)
    requires
        0 <= j < n <= all.len(),
        spec_opens(all[j]),
        all[j].record_id == id,
        forall|k: int| j < k < n && spec_opens(#[trigger] all[k]) ==> all[k].record_id != id,
    ensures
        spec_last_begin(all, id, n) == Some(j),
    decreases n,
{
    if n > j + 1 {
        assert(!(spec_opens(all[n - 1]) && all[n - 1].record_id == id));
        lemma_last_begin_is(all, id, j, n - 1);
    }
}

proof fn lemma_no_begin(all: Seq<RecordView>, id: u64, n: int)
    requires
        0 <= n <= all.len(),
        forall|k: int| 0 <= k < n && spec_opens(#[trigger] all[k]) ==> all[k].record_id != id,
    ensures
        spec_last_begin(all, id, n) is None,
    decreases n,
{
    if n > 0 {
        assert(!(spec_opens(all[n - 1]) && all[n - 1].record_id == id));
        lemma_no_begin(all, id, n - 1);
    }
}

/// A record that commits or aborts its operation leaves no begin of that
/// operation incomplete.
proof fn lemma_completed_not_incomplete(all: Seq<RecordView>, i: int)
    requires
        0 <= i < all.len(),
        all[i].record_type is CommitWrite || all[i].record_type is CommitDelete
            || all[i].record_type is CommitRename || all[i].record_type is AbortWrite,
    ensures
        !spec_incomplete_id(all, all[i].record_id),
{
    assert(spec_completed(all, all[i].record_id));
}

/// A committed delete removes the file its operation began on: for a
/// `CommitDelete` record `i` whose operation was last begun at record `j`,
/// replay removes `j`'s path, without its leading '/'.
pub proof fn law_replay_commit_delete_removes(all: Seq<RecordView>, i: int, j: int)
    requires
        0 <= i < all.len(),
        all[i].record_type is CommitDelete,
        spec_is_last_begin(all, all[i].record_id, j),
    ensures
        spec_replay_action(all, i) == Some(ReplayActionView::RemoveFile { rel_path: spec_trim_start(all[j].path, '/') }),
{
    lemma_completed_not_incomplete(all, i);
    lemma_last_begin_is(all, all[i].record_id, j, all.len() as int);
}

/// A committed write or rename writes the data its operation began with:
/// for a `CommitWrite` or `CommitRename` record `i` whose operation was last
/// begun at record `j`, replay writes `j`'s data to `j`'s path, without its
/// leading '/'.
pub proof fn law_replay_commit_write_writes(all: Seq<RecordView>, i: int, j: int)
    requires
        0 <= i < all.len(),
        all[i].record_type is CommitWrite || all[i].record_type is CommitRename,
        spec_is_last_begin(all, all[i].record_id, j),
    ensures
        spec_replay_action(all, i) == Some(ReplayActionView::WriteFile {
            rel_path: spec_trim_start(all[j].path, '/'),
            data: all[j].data,
        }),
{
    lemma_completed_not_incomplete(all, i);
    lemma_last_begin_is(all, all[i].record_id, j, all.len() as int);
}

/// An aborted write rolls back the file its operation began on: for an
/// `AbortWrite` record `i` whose operation was last begun at record `j`,
/// replay rolls back `j`'s path, without its leading '/'.
pub proof fn law_replay_abort_rolls_back(all: Seq<RecordView>, i: int, j: int)
    requires
        0 <= i < all.len(),
        all[i].record_type is AbortWrite,
        spec_is_last_begin(all, all[i].record_id, j),
    ensures
        spec_replay_action(all, i) == Some(ReplayActionView::RollBackFile { rel_path: spec_trim_start(all[j].path, '/') }),
{
    lemma_last_begin_is(all, all[i].record_id, j, all.len() as int);
}

/// A commit or abort whose operation no record began does nothing.
pub proof fn law_replay_without_begin_does_nothing(all: Seq<RecordView>, i: int)
    requires
        0 <= i < all.len(),
        forall|k: int| 0 <= k < all.len() && spec_opens(#[trigger] all[k]) ==> all[k].record_id != all[i].record_id,
    ensures
        spec_replay_action(all, i) is None,
{
    lemma_no_begin(all, all[i].record_id, all.len() as int);
}

/// Begin records, checkpoints and shutdown markers do nothing themselves.
pub proof fn law_replay_other_records_do_nothing(all: Seq<RecordView>, i: int)
    requires
        0 <= i < all.len(),
        !(all[i].record_type is CommitWrite || all[i].record_type is CommitDelete
            || all[i].record_type is CommitRename || all[i].record_type is AbortWrite),
    ensures
        spec_replay_action(all, i) is None,
{
}

} // verus!
