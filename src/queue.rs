use vstd::prelude::*;

verus! {

/// What loading a file gave: its text, or the reason it could not be read.
#[derive(Debug)]
pub enum Body {
    Loaded(String),
    Failed(String),
}

impl Body {
    pub fn duplicate(&self) -> (r: Body)
        ensures
            r == *self,
    {
        match self {
            Body::Loaded(t) => Body::Loaded(t.clone()),
            Body::Failed(e) => Body::Failed(e.clone()),
        }
    }
}

/// One file of the session: its identifier and what loading it gave.
#[derive(Debug)]
pub struct Document {
    pub identifier: String,
    pub body: Body,
}

impl Document {
    pub fn duplicate(&self) -> (r: Document)
        ensures
            r == *self,
    {
        Document { identifier: self.identifier.clone(), body: self.body.duplicate() }
    }
}

/// The documents loaded so far, in the order their loads completed, with the
/// cursor of the next one to hand to the viewer.
pub struct QueueView {
    pub docs: Seq<Document>,
    pub cursor: nat,
    /// How many files the session was asked to show.
    pub total: nat,
}

pub open spec fn queue_wf(q: QueueView) -> bool {
    1 <= q.docs.len() <= q.total && q.cursor <= q.docs.len()
}

/// A slot is filled when its total is not yet reached; otherwise nothing changes.
pub open spec fn append_spec(q: QueueView, d: Document) -> QueueView {
    if q.docs.len() < q.total {
        QueueView { docs: q.docs.push(d), ..q }
    } else {
        q
    }
}

pub open spec fn advance_spec(q: QueueView) -> (QueueView, Option<Document>) {
    if q.cursor < q.docs.len() {
        (QueueView { cursor: q.cursor + 1, ..q }, Some(q.docs[q.cursor as int]))
    } else {
        (q, None)
    }
}

/// Every file has been loaded and handed out.
pub open spec fn exhausted_spec(q: QueueView) -> bool {
    q.cursor == q.docs.len() && q.docs.len() == q.total
}

/// Documents appended one after another.
pub open spec fn append_all(q: QueueView, ds: Seq<Document>) -> QueueView
    decreases ds.len(),
{
    if ds.len() == 0 {
        q
    } else {
        append_spec(append_all(q, ds.drop_last()), ds.last())
    }
}

/// `k` calls of `advance`, with what each returned.
pub open spec fn advance_times(q: QueueView, k: nat) -> (QueueView, Seq<Option<Document>>)
    decreases k,
{
    if k == 0 {
        (q, Seq::empty())
    } else {
        let (q1, out) = advance_times(q, (k - 1) as nat);
        let (q2, r) = advance_spec(q1);
        (q2, out.push(r))
    }
}

proof fn lemma_append_all(first: Document, ds: Seq<Document>, total: nat, k: nat)
    requires
        ds.len() + 1 == total,
        k <= ds.len(),
    ensures
        append_all(QueueView { docs: seq![first], cursor: 1, total }, ds.take(k as int)) == (
        QueueView { docs: seq![first] + ds.take(k as int), cursor: 1, total }),
    decreases k,
{
    let q0 = QueueView { docs: seq![first], cursor: 1, total };
    if k == 0 {
        assert(ds.take(0) =~= Seq::<Document>::empty());
        assert(seq![first] + ds.take(0) =~= seq![first]);
    } else {
        lemma_append_all(first, ds, total, (k - 1) as nat);
        assert(ds.take(k as int).drop_last() =~= ds.take(k - 1));
        assert(seq![first] + ds.take(k as int) =~= (seq![first] + ds.take(k - 1)).push(ds[k - 1]));
    }
}

proof fn lemma_advance_times(q: QueueView, k: nat)
    requires
        q.cursor + k <= q.docs.len(),
    ensures
        advance_times(q, k).0 == (QueueView { cursor: q.cursor + k, ..q }),
        advance_times(q, k).1 == q.docs.subrange(q.cursor as int, (q.cursor + k) as int).map_values(
            |d: Document| Some(d),
        ),
    decreases k,
{
    if k == 0 {
        assert(q.docs.subrange(q.cursor as int, q.cursor as int).map_values(|d: Document| Some(d))
            =~= Seq::<Option<Document>>::empty());
    } else {
        lemma_advance_times(q, (k - 1) as nat);
        assert(q.docs.subrange(q.cursor as int, (q.cursor + k) as int).map_values(|d: Document| Some(d))
            =~= q.docs.subrange(q.cursor as int, (q.cursor + k - 1) as int).map_values(
            |d: Document| Some(d),
        ).push(Some(q.docs[q.cursor + k - 1])));
    }
}

/// A session of several files starts with the first one in hand. The others,
/// appended in whatever order their loads complete, end up all held; advancing
/// hands out each of them exactly once, in the order they were appended, and
/// then nothing: the queue is exhausted.
pub proof fn lemma_each_file_once(first: Document, loaded: Seq<Document>)
    ensures
        ({
            let total = loaded.len() + 1;
            let q = append_all(QueueView { docs: seq![first], cursor: 1, total }, loaded);
            let (q2, out) = advance_times(q, loaded.len());
            &&& q.docs == seq![first] + loaded
            &&& out == loaded.map_values(|d: Document| Some(d))
            &&& exhausted_spec(q2)
            &&& advance_spec(q2) == (q2, None::<Document>)
        }),
{
    let total = loaded.len() + 1;
    lemma_append_all(first, loaded, total, loaded.len());
    assert(loaded.take(loaded.len() as int) =~= loaded);
    let q = append_all(QueueView { docs: seq![first], cursor: 1, total }, loaded);
    lemma_advance_times(q, loaded.len());
    assert(q.docs.subrange(1, (1 + loaded.len()) as int) =~= loaded);
}

/// The session's documents, shared between the viewer, which advances
/// through them, and the loaders, which append to them.
pub struct DocumentQueue {
    docs: Vec<Document>,
    cursor: usize,
    total: usize,
}

impl View for DocumentQueue {
    type V = QueueView;

    closed spec fn view(&self) -> QueueView {
        QueueView { docs: self.docs@, cursor: self.cursor as nat, total: self.total as nat }
    }
}

impl DocumentQueue {
    pub open spec fn wf(&self) -> bool {
        queue_wf(self@)
    }

    /// A queue for `total` files, holding the first one, which is handed to
    /// the viewer at once: the cursor stands after it.
    pub fn new(first: Document, total: usize) -> (r: DocumentQueue)
        requires
            total >= 1,
        ensures
            r.wf(),
            r@ == (QueueView { docs: seq![first], cursor: 1, total: total as nat }),
    {
        let mut docs: Vec<Document> = Vec::new();
        docs.push(first);
        proof {
            assert(docs@ =~= seq![first]);
        }
        DocumentQueue { docs, cursor: 1, total }
    }

    /// The document shown when the session starts.
    pub fn first(&self) -> (r: &Document)
        requires
            self.wf(),
        ensures
            *r == self@.docs[0],
    {
        &self.docs[0]
    }

    /// Adds a loaded (or failed) file at the tail; returns whether it was
    /// taken, which it is exactly while fewer than `total` files are held.
    pub fn append(&mut self, doc: Document) -> (r: bool)
        requires
            old(self).wf(),
        ensures
            final(self).wf(),
            r == (old(self)@.docs.len() < old(self)@.total),
            final(self)@ == append_spec(old(self)@, doc),
    {
        if self.docs.len() < self.total {
            self.docs.push(doc);
            true
        } else {
            false
        }
    }

    /// Hands out the next loaded document, if one is waiting.
    pub fn advance(&mut self) -> (r: Option<Document>)
        requires
            old(self).wf(),
        ensures
            final(self).wf(),
            (final(self)@, r) == advance_spec(old(self)@),
    {
        if self.cursor < self.docs.len() {
            let d = self.docs[self.cursor].duplicate();
            self.cursor = self.cursor + 1;
            Some(d)
        } else {
            None
        }
    }

    /// Some files are still being loaded.
    pub fn pending(&self) -> (r: bool)
        ensures
            r == (self@.docs.len() < self@.total),
    {
        self.docs.len() < self.total
    }

    /// Every file has been loaded and handed out.
    pub fn exhausted(&self) -> (r: bool)
        ensures
            r == exhausted_spec(self@),
    {
        self.cursor == self.docs.len() && self.docs.len() == self.total
    }

    /// The position of the next document to hand out.
    pub fn cursor(&self) -> (r: usize)
        ensures
            r == self@.cursor,
    {
        self.cursor
    }

    pub fn len(&self) -> (r: usize)
        ensures
            r == self@.docs.len(),
    {
        self.docs.len()
    }

    pub fn total(&self) -> (r: usize)
        ensures
            r == self@.total,
    {
        self.total
    }
}

} // verus!
