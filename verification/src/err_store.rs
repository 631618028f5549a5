//! The error history of a child: a ring of its most recent I/O errors.

use vstd::prelude::*;

verus! {

/// What kind of I/O error a record is about.
#[derive(Clone, Copy, Debug, PartialEq, Eq, Structural)]
pub enum IoErrorKind {
    Read,
    Write,
    InvalidDescriptor,
}

/// One I/O error and the time at which it was seen.
#[derive(Clone, Copy, Debug, PartialEq, Eq, Structural)]
pub struct ErrRecord {
    pub kind: IoErrorKind,
    pub timestamp: u64,
}

/// The mathematical value of an error history: its capacity and its
/// records, oldest first.
pub ghost struct ErrStoreModel {
    pub capacity: nat,
    pub records: Seq<ErrRecord>,
}

impl ErrStoreModel {
    /// The history with no records.
    pub open spec fn empty(capacity: nat) -> ErrStoreModel {
        ErrStoreModel { capacity, records: Seq::empty() }
    }

    /// The history after one more record: the new record is the newest, and
    /// the oldest leaves where the history was full. A history without
    /// capacity stays empty.
    pub open spec fn added(self, record: ErrRecord) -> ErrStoreModel {
        if self.capacity == 0 {
            self
        } else if self.records.len() < self.capacity {
            ErrStoreModel { records: self.records.push(record), ..self }
        } else {
            ErrStoreModel { records: self.records.drop_first().push(record), ..self }
        }
    }

    /// A history never holds more records than its capacity.
    pub open spec fn wf(self) -> bool {
        self.records.len() <= self.capacity
    }
}

/// A ring of fixed capacity that keeps the most recent I/O errors.
#[derive(Debug)]
pub struct NexusErrStore {
    records: Vec<ErrRecord>,
    capacity: usize,
    /// Index of the oldest record once the ring is full.
    head: usize,
}

impl View for NexusErrStore {
    type V = ErrStoreModel;

    closed spec fn view(&self) -> ErrStoreModel {
        ErrStoreModel {
            capacity: self.capacity as nat,
            records: self.records@.subrange(self.head as int, self.records@.len() as int)
                + self.records@.subrange(0, self.head as int),
        }
    }
}

impl NexusErrStore {
    /// The ring is in order: it is not over its capacity, and its oldest
    /// record is where the next one will go once it is full.
    pub closed spec fn wf(&self) -> bool {
        &&& self.records@.len() <= self.capacity
        &&& self.head <= self.records@.len()
        &&& self.records@.len() < self.capacity ==> self.head == 0
        &&& self.head < self.capacity || self.head == 0
    }

    /// An empty history for `capacity` records.
    pub fn new(capacity: usize) -> (store: NexusErrStore)
        ensures
            store.wf(),
            store@ == ErrStoreModel::empty(capacity as nat),
    {
        let store = NexusErrStore { records: Vec::new(), capacity, head: 0 };
        assert(store@.records =~= Seq::empty());
        store
    }

    /// A ring in order holds no more records than its capacity.
    pub proof fn lemma_wf_view(&self)
        requires
            self.wf(),
        ensures
            self@.wf(),
    {
    }

    /// The number of records that the history can hold.
    pub fn capacity(&self) -> (n: usize)
        ensures
            n == self@.capacity,
    {
        self.capacity
    }

    /// The number of records in the history.
    pub fn len(&self) -> (n: usize)
        requires
            self.wf(),
        ensures
            n == self@.records.len(),
            self@.wf(),
    {
        self.records.len()
    }

    /// The record at `index`, counted from the oldest.
    pub fn get(&self, index: usize) -> (record: Option<ErrRecord>)
        requires
            self.wf(),
        ensures
            record == if index < self@.records.len() {
                Some(self@.records[index as int])
            } else {
                None::<ErrRecord>
            },
    {
        let n = self.records.len();
        if index >= n {
            return None;
        }
        let tail: usize = n - self.head;
        if index < tail {
            Some(self.records[self.head + index])
        } else {
            Some(self.records[index - tail])
        }
    }

    /// Records one more error.
    pub fn add_record(&mut self, kind: IoErrorKind, timestamp: u64)
        requires
            old(self).wf(),
        ensures
            final(self).wf(),
            final(self)@ == old(self)@.added(ErrRecord { kind, timestamp }),
    {
        let record = ErrRecord { kind, timestamp };
        if self.capacity == 0 {
            return ;
        }
        if self.records.len() < self.capacity {
            self.records.push(record);
            assert(self@.records =~= old(self)@.records.push(record));
        } else {
            let head = self.head;
            self.records.set(head, record);
            self.head = if head + 1 == self.capacity {
                0
            } else {
                head + 1
            };
            assert(self@.records =~= old(self)@.records.drop_first().push(record));
        }
    }
}

} // verus!
