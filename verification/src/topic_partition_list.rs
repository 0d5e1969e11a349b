//! Ordered lists of (topic, partition, offset) entries, and their form at the
//! session's boundary.

use vstd::prelude::*;

verus! {

/// The partition number by which the session marks "no partition given".
pub const PARTITION_UNASSIGNED: i32 = -1;

/// The offset by which the session marks "no offset given".
pub const OFFSET_INVALID: i64 = -1001;

/// One entry: a topic name or pattern, and optionally a partition and an offset.
#[derive(Debug, Clone, PartialEq, Eq)]
pub struct TopicPartition {
    pub topic: String,
    pub partition: Option<i32>,
    pub offset: Option<i64>,
}

/// The mathematical value of a [`TopicPartition`].
pub struct TopicPartitionModel {
    pub topic: Seq<char>,
    pub partition: Option<i32>,
    pub offset: Option<i64>,
}

impl View for TopicPartition {
    type V = TopicPartitionModel;

    open spec fn view(&self) -> TopicPartitionModel {
        TopicPartitionModel { topic: self.topic@, partition: self.partition, offset: self.offset }
    }
}

/// One entry as the session holds it: partition and offset are always
/// present, with [`PARTITION_UNASSIGNED`] and [`OFFSET_INVALID`] for "none".
#[derive(Debug, Clone, PartialEq, Eq)]
pub struct NativeEntry {
    pub topic: String,
    pub partition: i32,
    pub offset: i64,
}

/// The mathematical value of a [`NativeEntry`].
pub struct NativeEntryModel {
    pub topic: Seq<char>,
    pub partition: i32,
    pub offset: i64,
}

impl View for NativeEntry {
    type V = NativeEntryModel;

    open spec fn view(&self) -> NativeEntryModel {
        NativeEntryModel { topic: self.topic@, partition: self.partition, offset: self.offset }
    }
}

/// The values of a list of native entries, in order.
pub open spec fn native_view(entries: Seq<NativeEntry>) -> Seq<NativeEntryModel> {
    Seq::new(entries.len(), |i: int| entries[i]@)
}

/// The session's form of one entry.
pub open spec fn entry_to_native(e: TopicPartitionModel) -> NativeEntryModel {
    NativeEntryModel {
        topic: e.topic,
        partition: match e.partition {
            Some(p) => p,
            None => PARTITION_UNASSIGNED,
        },
        offset: match e.offset {
            Some(o) => o,
            None => OFFSET_INVALID,
        },
    }
}

/// The entry that the session's form stands for.
pub open spec fn entry_from_native(n: NativeEntryModel) -> TopicPartitionModel {
    TopicPartitionModel {
        topic: n.topic,
        partition: if n.partition == PARTITION_UNASSIGNED {
            None
        } else {
            Some(n.partition)
        },
        offset: if n.offset == OFFSET_INVALID {
            None
        } else {
            Some(n.offset)
        },
    }
}

/// The session's form of a list: entry by entry, in order.
pub open spec fn list_to_native(l: Seq<TopicPartitionModel>) -> Seq<NativeEntryModel> {
    Seq::new(l.len(), |i: int| entry_to_native(l[i]))
}

/// The list that the session's form stands for: entry by entry, in order.
pub open spec fn list_from_native(n: Seq<NativeEntryModel>) -> Seq<TopicPartitionModel> {
    Seq::new(n.len(), |i: int| entry_from_native(n[i]))
}

/// An entry that names neither the "none" partition nor the "none" offset
/// as a value that is present.
pub open spec fn entry_representable(e: TopicPartitionModel) -> bool {
    e.partition != Some(PARTITION_UNASSIGNED) && e.offset != Some(OFFSET_INVALID)
}

/// A list of representable entries.
pub open spec fn list_representable(l: Seq<TopicPartitionModel>) -> bool {
    forall|i: int| 0 <= i < l.len() ==> entry_representable(#[trigger] l[i])
}

/// The list that subscribes to the given topic names or patterns: one entry
/// per name, in order, with neither partition nor offset.
pub open spec fn topics_model(topics: Seq<&str>) -> Seq<TopicPartitionModel> {
    Seq::new(
        topics.len(),
        |i: int| TopicPartitionModel { topic: topics[i]@, partition: None, offset: None },
    )
}

/// An ordered list of entries. Its view is the sequence of its entries' values.
#[derive(Debug, Clone, PartialEq, Eq)]
pub struct TopicPartitionList {
    entries: Vec<TopicPartition>,
}

impl View for TopicPartitionList {
    type V = Seq<TopicPartitionModel>;

    closed spec fn view(&self) -> Seq<TopicPartitionModel> {
        Seq::new(self.entries@.len(), |i: int| self.entries@[i]@)
    }
}

impl TopicPartitionList {
    /// The empty list.
    pub fn new() -> (r: TopicPartitionList)
        ensures
            r@ == Seq::<TopicPartitionModel>::empty(),
    {
        let r = TopicPartitionList { entries: Vec::new() };
        assert(r@ =~= Seq::<TopicPartitionModel>::empty());
        r
    }

    /// The list with one entry per topic name or pattern, in the order given.
    pub fn with_topics(topics: &Vec<&str>) -> (r: TopicPartitionList)
        ensures
            r@ == topics_model(topics@),
    {
        let mut entries: Vec<TopicPartition> = Vec::new();
        let mut i: usize = 0;
        while i < topics.len()
            invariant
                i <= topics.len(),
                entries@.len() == i,
                forall|j: int|
                    0 <= j < i ==> (#[trigger] entries@[j])@ == topics_model(topics@)[j],
            decreases topics.len() - i,
        {
            entries.push(TopicPartition { topic: topics[i].to_owned(), partition: None, offset: None });
            i += 1;
        }
        let r = TopicPartitionList { entries };
        assert(r@ =~= topics_model(topics@));
        r
    }

    /// Appends one entry.
    fn push_entry(&mut self, topic: &str, partition: Option<i32>, offset: Option<i64>)
        ensures
            final(self)@ == old(self)@.push(
                TopicPartitionModel { topic: topic@, partition, offset },
            ),
    {
        self.entries.push(TopicPartition { topic: topic.to_owned(), partition, offset });
        assert(self@ =~= old(self)@.push(TopicPartitionModel { topic: topic@, partition, offset }));
    }

    /// Appends a topic with neither partition nor offset.
    pub fn add_topic(&mut self, topic: &str)
        ensures
            final(self)@ == old(self)@.push(
                TopicPartitionModel { topic: topic@, partition: None, offset: None },
            ),
    {
        self.push_entry(topic, None, None);
    }

    /// Appends one partition of a topic, with no offset.
    pub fn add_partition(&mut self, topic: &str, partition: i32)
        ensures
            final(self)@ == old(self)@.push(
                TopicPartitionModel { topic: topic@, partition: Some(partition), offset: None },
            ),
    {
        self.push_entry(topic, Some(partition), None);
    }

    /// Appends one partition of a topic with the offset to start from.
    pub fn add_partition_offset(&mut self, topic: &str, partition: i32, offset: i64)
        ensures
            final(self)@ == old(self)@.push(
                TopicPartitionModel {
                    topic: topic@,
                    partition: Some(partition),
                    offset: Some(offset),
                },
            ),
    {
        self.push_entry(topic, Some(partition), Some(offset));
    }

    /// The number of entries.
    pub fn len(&self) -> (r: usize)
        ensures
            r == self@.len(),
    {
        self.entries.len()
    }

    /// The entry at `index`, if there is one.
    pub fn get(&self, index: usize) -> (r: Option<&TopicPartition>)
        ensures
            r.is_some() <==> index < self@.len(),
            r.is_some() ==> r.unwrap()@ == self@[index as int],
    {
        if index < self.entries.len() {
            Some(&self.entries[index])
        } else {
            None
        }
    }

    /// The list in the session's form: entry by entry, in order, an absent
    /// partition as [`PARTITION_UNASSIGNED`] and an absent offset as
    /// [`OFFSET_INVALID`].
    pub fn to_native(&self) -> (r: Vec<NativeEntry>)
        ensures
            native_view(r@) == list_to_native(self@),
    {
        let mut out: Vec<NativeEntry> = Vec::new();
        let mut i: usize = 0;
        while i < self.entries.len()
            invariant
                i <= self.entries@.len(),
                out@.len() == i,
                forall|j: int|
                    0 <= j < i ==> (#[trigger] out@[j])@ == entry_to_native(self.entries@[j]@),
            decreases self.entries@.len() - i,
        {
            let e = &self.entries[i];
            let partition: i32 = match e.partition {
                Some(p) => p,
                None => PARTITION_UNASSIGNED,
            };
            let offset: i64 = match e.offset {
                Some(o) => o,
                None => OFFSET_INVALID,
            };
            out.push(NativeEntry { topic: e.topic.clone(), partition, offset });
            i += 1;
        }
        assert(native_view(out@) =~= list_to_native(self@));
        out
    }

    /// The list that the session's form stands for: entry by entry, in
    /// order, [`PARTITION_UNASSIGNED`] as an absent partition and
    /// [`OFFSET_INVALID`] as an absent offset.
    pub fn from_native(native: &Vec<NativeEntry>) -> (r: TopicPartitionList)
        ensures
            r@ == list_from_native(native_view(native@)),
    {
        let mut entries: Vec<TopicPartition> = Vec::new();
        let mut i: usize = 0;
        while i < native.len()
            invariant
                i <= native@.len(),
                entries@.len() == i,
                forall|j: int|
                    0 <= j < i ==> (#[trigger] entries@[j])@ == entry_from_native(native@[j]@),
            decreases native@.len() - i,
        {
            let n = &native[i];
            let partition: Option<i32> = if n.partition == PARTITION_UNASSIGNED {
                None
            } else {
                Some(n.partition)
            };
            let offset: Option<i64> = if n.offset == OFFSET_INVALID {
                None
            } else {
                Some(n.offset)
            };
            entries.push(TopicPartition { topic: n.topic.clone(), partition, offset });
            i += 1;
        }
        let r = TopicPartitionList { entries };
        assert(r@ =~= list_from_native(native_view(native@)));
        r
    }
}

/// Exactly the representable lists survive the trip through the session's
/// form: what the session is handed, read back unchanged, is the list itself
/// if and only if no entry gives a marker of absence as a value.
pub proof fn lemma_native_round_trip(l: Seq<TopicPartitionModel>)
    ensures
        list_representable(l) <==> list_from_native(list_to_native(l)) == l,
{
    if list_representable(l) {
        assert forall|i: int| 0 <= i < l.len() implies entry_from_native(entry_to_native(l[i]))
            == l[i] by {
            assert(entry_representable(l[i]));
        }
        assert(list_from_native(list_to_native(l)) =~= l);
    }
    if list_from_native(list_to_native(l)) == l {
        lemma_native_form_is_exact(list_to_native(l));
    }
}

/// Every list in the session's form is the form of the list it stands for,
/// and that list is representable.
pub proof fn lemma_native_form_is_exact(n: Seq<NativeEntryModel>)
    ensures
        list_representable(list_from_native(n)),
        list_to_native(list_from_native(n)) == n,
{
    assert(list_to_native(list_from_native(n)) =~= n);
}

/// A list of topic names is representable, so a subscription that the
/// session reports back as it was handed reads as the topics subscribed to.
pub proof fn lemma_topics_round_trip(topics: Seq<&str>)
    ensures
        list_representable(topics_model(topics)),
        list_from_native(list_to_native(topics_model(topics))) == topics_model(topics),
{
    lemma_native_round_trip(topics_model(topics));
}

} // verus!
