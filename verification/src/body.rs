//! Capturing a request body piece by piece under a size cap.

use vstd::prelude::*;

verus! {

/// Mathematical content of a [`CapturedBody`].
pub ghost struct CaptureView {
    /// The bytes kept so far. Empty once the body is rejected.
    pub bytes: Seq<u8>,
    /// Whether the body went over the cap.
    pub rejected: bool,
    /// The cap on the total number of bytes.
    pub limit: nat,
}

impl CaptureView {
    /// What always holds of a capture: it never keeps more than the cap, and a
    /// rejected body keeps nothing.
    pub open spec fn wf(self) -> bool {
        &&& self.bytes.len() <= self.limit
        &&& self.rejected ==> self.bytes.len() == 0
    }

    /// A capture that has seen nothing yet.
    pub open spec fn empty(limit: nat) -> CaptureView {
        CaptureView { bytes: Seq::empty(), rejected: false, limit }
    }

    /// The capture after one more piece. A piece that takes the total over the cap
    /// rejects the whole body; nothing is cut to fit. A rejected capture stays rejected.
    pub open spec fn push(self, chunk: Seq<u8>) -> CaptureView {
        if self.rejected {
            self
        } else if self.bytes.len() + chunk.len() > self.limit {
            CaptureView { bytes: Seq::empty(), rejected: true, limit: self.limit }
        } else {
            CaptureView { bytes: self.bytes + chunk, rejected: false, limit: self.limit }
        }
    }

    /// The capture after a run of pieces, first to last.
    pub open spec fn push_all(self, chunks: Seq<Seq<u8>>) -> CaptureView
        decreases chunks.len(),
    {
        if chunks.len() == 0 {
            self
        } else {
            self.push(chunks.first()).push_all(chunks.drop_first())
        }
    }
}

/// A body under capture: the bytes read so far, the cap, and whether the cap was exceeded.
#[derive(Debug)]
pub struct CapturedBody {
    bytes: Vec<u8>,
    rejected: bool,
    limit: usize,
}

impl View for CapturedBody {
    type V = CaptureView;

    closed spec fn view(&self) -> CaptureView {
        CaptureView { bytes: self.bytes@, rejected: self.rejected, limit: self.limit as nat }
    }
}

impl CapturedBody {
    #[verifier::type_invariant]
    spec fn inv(&self) -> bool {
        self@.wf()
    }

    /// Starts a capture with the given cap.
    pub fn new(limit: usize) -> (body: CapturedBody)
        ensures
            body@ == CaptureView::empty(limit as nat),
    {
        CapturedBody { bytes: Vec::new(), rejected: false, limit }
    }

    /// Takes in the next piece of the body.
    pub fn push(&mut self, chunk: &[u8])
        ensures
            final(self)@ == old(self)@.push(chunk@),
            final(self)@.wf(),
    {
        proof {
            use_type_invariant(&*self);
        }
        if self.rejected {
            return ;
        }
        if chunk.len() > self.limit - self.bytes.len() {
            self.bytes = Vec::new();
            self.rejected = true;
        } else {
            let mut kept: Vec<u8> = Vec::new();
            core::mem::swap(&mut self.bytes, &mut kept);
            let mut piece = vstd::slice::slice_to_vec(chunk);
            kept.append(&mut piece);
            self.bytes = kept;
        }
    }

    /// Whether the body went over the cap.
    pub fn is_rejected(&self) -> (rejected: bool)
        ensures
            rejected == self@.rejected,
    {
        self.rejected
    }

    /// The bytes kept so far.
    pub fn bytes(&self) -> (bytes: &[u8])
        ensures
            bytes@ == self@.bytes,
            self@.wf(),
    {
        proof {
            use_type_invariant(self);
        }
        self.bytes.as_slice()
    }

    /// The cap this capture was started with.
    pub fn limit(&self) -> (limit: usize)
        ensures
            limit == self@.limit,
    {
        self.limit
    }
}

/// Whatever the pieces hold, a capture never changes its cap and stays well formed.
pub proof fn lemma_push_all_wf(start: CaptureView, chunks: Seq<Seq<u8>>)
    requires
        start.wf(),
    ensures
        start.push_all(chunks).wf(),
        start.push_all(chunks).limit == start.limit,
    decreases chunks.len(),
{
    if chunks.len() > 0 {
        lemma_push_all_wf(start.push(chunks.first()), chunks.drop_first());
    }
}

/// How the pieces are cut does not matter: a body read from the start is rejected
/// exactly when its total size is over the cap, and is otherwise kept whole and in order.
pub proof fn lemma_capture_depends_on_total(limit: nat, chunks: Seq<Seq<u8>>)
    ensures
        CaptureView::empty(limit).push_all(chunks).rejected <==> chunks.flatten().len() > limit,
        chunks.flatten().len() <= limit ==> CaptureView::empty(limit).push_all(chunks).bytes
            == chunks.flatten(),
{
    lemma_capture_from(CaptureView::empty(limit), chunks);
}

/// The same, from any capture that is not rejected yet.
pub proof fn lemma_capture_from(start: CaptureView, chunks: Seq<Seq<u8>>)
    requires
        start.wf(),
        !start.rejected,
    ensures
        start.push_all(chunks).rejected <==> start.bytes.len() + chunks.flatten().len()
            > start.limit,
        start.bytes.len() + chunks.flatten().len() <= start.limit ==> start.push_all(chunks).bytes
            == start.bytes + chunks.flatten(),
    decreases chunks.len(),
{
    if chunks.len() > 0 {
        let next = start.push(chunks.first());
        let rest = chunks.drop_first();
        if next.rejected {
            lemma_rejected_stays(next, rest);
        } else {
            lemma_capture_from(next, rest);
        }
    }
}

/// Once rejected, a capture stays as it is.
pub proof fn lemma_rejected_stays(start: CaptureView, chunks: Seq<Seq<u8>>)
    requires
        start.rejected,
    ensures
        start.push_all(chunks) == start,
    decreases chunks.len(),
{
    if chunks.len() > 0 {
        lemma_rejected_stays(start.push(chunks.first()), chunks.drop_first());
    }
}

} // verus!
