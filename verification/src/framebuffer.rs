//! Framebuffer discovery: the request, the loader's response and the
//! entries it lists.

use crate::ptr::{LiminePtr, Located, NonNullPtr};
use vstd::prelude::*;

verus! {

/// One display surface, as the loader describes it.
#[derive(Debug, Clone, Copy)]
pub struct LimineFramebuffer {
    /// Address of the first byte of the surface.
    pub address: usize,
    pub width: u64,
    pub height: u64,
    /// Bytes from the start of one row to the start of the next.
    pub pitch: u64,
    /// Bits per pixel.
    pub bpp: u16,
    pub memory_model: u8,
    pub red_mask_size: u8,
    pub red_mask_shift: u8,
    pub green_mask_size: u8,
    pub green_mask_shift: u8,
    pub blue_mask_size: u8,
    pub blue_mask_shift: u8,
    pub reserved: [u8; 7],
    pub edid_size: u64,
    /// Address of the EDID blob, or zero if there is none.
    pub edid: usize,
}

impl LimineFramebuffer {
    /// Bytes that the surface occupies: pitch times height times whole
    /// bytes per pixel. Bits beyond the last whole byte of a pixel are
    /// not counted.
    pub open spec fn byte_size(self) -> int {
        self.pitch * self.height * (self.bpp / 8)
    }

    /// The size of the framebuffer in bytes, or `None` if it does not fit
    /// in a `usize`.
    pub fn checked_size(&self) -> (size: Option<usize>)
        ensures
            size is Some <==> self.byte_size() <= usize::MAX,
            size matches Some(n) ==> n == self.byte_size(),
    {
        let bytes_per_pixel: u128 = (self.bpp / 8) as u128;
        let pitch: u128 = self.pitch as u128;
        let height: u128 = self.height as u128;
        if bytes_per_pixel == 0 || pitch == 0 || height == 0 {
            assert(self.byte_size() == 0) by (nonlinear_arith)
                requires
                    self.bpp / 8 == 0 || self.pitch == 0 || self.height == 0,
                    self.byte_size() == self.pitch * self.height * (self.bpp / 8),
            ;
            return Some(0);
        }
        assert(pitch * height <= u64::MAX * u64::MAX) by (nonlinear_arith)
            requires
                pitch <= u64::MAX,
                height <= u64::MAX,
        ;
        let area: u128 = pitch * height;
        if area > usize::MAX as u128 {
            assert(self.byte_size() > usize::MAX) by (nonlinear_arith)
                requires
                    self.byte_size() == area * bytes_per_pixel,
                    area > usize::MAX,
                    bytes_per_pixel >= 1,
            ;
            return None;
        }
        assert(area * bytes_per_pixel <= u64::MAX * 0x1fff) by (nonlinear_arith)
            requires
                area <= u64::MAX,
                bytes_per_pixel <= 0x1fff,
        ;
        let total: u128 = area * bytes_per_pixel;
        if total > usize::MAX as u128 {
            None
        } else {
            Some(total as usize)
        }
    }

    /// Returns the size of the framebuffer in bytes.
    pub fn size(&self) -> (size: usize)
        requires
            self.byte_size() <= usize::MAX,
        ensures
            size == self.byte_size(),
    {
        self.checked_size().unwrap()
    }
}

/// The loader's answer to a framebuffer request.
#[derive(Debug, Clone, Copy)]
pub struct LimineFramebufferResponse {
    pub revision: u64,
    /// How many framebuffers are present.
    pub framebuffer_count: u64,
    /// The loader's array of pointers, one for each framebuffer.
    pub framebuffers: &'static [NonNullPtr<LimineFramebuffer>],
}

impl LimineFramebufferResponse {
    /// The loader's promise about its answer: the count it declares is
    /// the number of pointers in its array.
    pub open spec fn wf(self) -> bool {
        self.framebuffer_count == self.framebuffers@.len()
    }

    /// The framebuffers that the answer lists, in the order of the
    /// loader's array.
    pub open spec fn entries(self) -> Seq<LimineFramebuffer> {
        Seq::new(self.framebuffer_count as nat, |i: int| self.framebuffers@[i]@.value)
    }

    /// Puts an answer together from what the loader wrote, declaring as
    /// many framebuffers as the array holds.
    pub fn new(
        revision: u64,
        framebuffers: &'static [NonNullPtr<LimineFramebuffer>],
    ) -> (response: Self)
        ensures
            response.wf(),
            response.revision == revision,
            response.framebuffers == framebuffers,
    {
        LimineFramebufferResponse {
            revision,
            framebuffer_count: framebuffers.len() as u64,
            framebuffers,
        }
    }

    /// A view of each framebuffer that the answer lists, in the order of
    /// the loader's array. The entries themselves stay where the loader
    /// put them.
    pub fn framebuffers(&self) -> (views: Vec<&'static LimineFramebuffer>)
        requires
            self.wf(),
        ensures
            views@.len() == self.framebuffer_count,
            forall|i: int| 0 <= i < views@.len() ==> *(#[trigger] views@[i]) == self.entries()[i],
    {
        let array = self.framebuffers;
        let mut views: Vec<&'static LimineFramebuffer> = Vec::new();
        let mut i: usize = 0;
        while i < array.len()
            invariant
                i <= array.len(),
                array == self.framebuffers,
                self.wf(),
                views@.len() == i,
                forall|k: int| 0 <= k < i ==> *(#[trigger] views@[k]) == array@[k]@.value,
            decreases array.len() - i,
        {
            views.push(array[i].get());
            i += 1;
        }
        views
    }
}

/// Where a request stands in its handshake with the loader.
pub enum Handshake {
    /// The loader has not written the response slot.
    Unanswered,
    /// The loader has stored its answer in the response slot.
    Answered,
}

/// What a framebuffer request holds: the token by which the loader finds
/// it, the revision the kernel declared, and the response slot.
pub struct RequestView {
    pub id: Seq<u64>,
    pub revision: u64,
    pub response: Option<Located<LimineFramebufferResponse>>,
}

impl RequestView {
    /// A request as the kernel creates it.
    pub open spec fn fresh(revision: u64) -> RequestView {
        RequestView { id: LimineFramebufferRequest::ID@, revision, response: None }
    }

    /// The request after the loader has stored `answer` in its slot.
    pub open spec fn answered(self, answer: Located<LimineFramebufferResponse>) -> RequestView {
        RequestView { response: Some(answer), ..self }
    }

    /// Answered exactly when the slot holds a pointer.
    pub open spec fn state(self) -> Handshake {
        match self.response {
            Some(_) => Handshake::Answered,
            None => Handshake::Unanswered,
        }
    }
}

/// A request for the list of framebuffers.
///
/// The kernel creates it unanswered. The loader finds it by its
/// identification token and stores a pointer to its answer in the
/// response slot; from then on every read of the slot gives that answer.
#[derive(Debug)]
pub struct LimineFramebufferRequest {
    id: [u64; 4],
    revision: u64,
    response: LiminePtr<LimineFramebufferResponse>,
}

impl View for LimineFramebufferRequest {
    type V = RequestView;

    closed spec fn view(&self) -> RequestView {
        RequestView { id: self.id@, revision: self.revision, response: self.response@ }
    }
}

impl LimineFramebufferRequest {
    /// The token that marks a framebuffer request in kernel memory.
    pub const ID: [u64; 4] = [
        0xc7b1dd30df4c8b88,
        0x0a82e883a194f07b,
        0x9d5827dcd881dd75,
        0xa3148604f6fab11b,
    ];

    #[verifier::type_invariant]
    spec fn inv(self) -> bool {
        self.id@ == Self::ID@
    }

    /// A request of the given revision that nobody has answered.
    pub fn new(revision: u64) -> (request: Self)
        ensures
            request@ == RequestView::fresh(revision),
    {
        LimineFramebufferRequest { id: Self::ID, revision, response: LiminePtr::absent() }
    }

    /// The identification token.
    pub fn id(&self) -> (id: [u64; 4])
        ensures
            id@ == self@.id,
            id@ == Self::ID@,
    {
        proof {
            use_type_invariant(self);
        }
        self.id
    }

    /// The revision that the kernel declared.
    pub fn revision(&self) -> (revision: u64)
        ensures
            revision == self@.revision,
    {
        self.revision
    }

    /// The loader's store into the response slot. Token and revision stay
    /// as they are.
    pub fn write_response(&mut self, answer: NonNullPtr<LimineFramebufferResponse>)
        ensures
            final(self)@ == old(self)@.answered(answer@),
    {
        proof {
            use_type_invariant(&*self);
        }
        self.response = LiminePtr::present(answer);
    }

    /// The response slot as it stands: absent until the loader has
    /// written it, the loader's pointer afterwards. The request is left
    /// as it is.
    pub fn get_response(&self) -> (response: LiminePtr<LimineFramebufferResponse>)
        ensures
            response@ == self@.response,
    {
        self.response
    }
}

/// A request that the loader has not answered reads as absent, whatever
/// its revision, and carries the framebuffer token.
pub proof fn lemma_fresh_request_is_unanswered(revision: u64)
    ensures
        RequestView::fresh(revision).response is None,
        RequestView::fresh(revision).state() == Handshake::Unanswered,
        RequestView::fresh(revision).id == LimineFramebufferRequest::ID@,
        RequestView::fresh(revision).revision == revision,
{
}

/// Once the loader has stored an answer, the slot holds exactly that
/// answer, the request is answered whatever it was before, and its token
/// and revision are untouched.
pub proof fn lemma_answer_is_read_back(
    request: RequestView,
    answer: Located<LimineFramebufferResponse>,
)
    ensures
        request.answered(answer).response == Some(answer),
        request.answered(answer).state() == Handshake::Answered,
        request.answered(answer).id == request.id,
        request.answered(answer).revision == request.revision,
{
}

/// Reading does not wear the slot out: any two reads of one request,
/// with no store between them, give the same address and the same
/// record.
pub proof fn lemma_reads_agree(
    request: LimineFramebufferRequest,
    first: LiminePtr<LimineFramebufferResponse>,
    second: LiminePtr<LimineFramebufferResponse>,
)
    requires
        first@ == request@.response,
        second@ == request@.response,
    ensures
        first@ == second@,
        request@.state() == Handshake::Answered <==> first@ is Some,
{
}

/// An answer that declares no framebuffers lists none.
pub proof fn lemma_no_framebuffers(response: LimineFramebufferResponse)
    requires
        response.framebuffer_count == 0,
    ensures
        response.entries() == Seq::<LimineFramebuffer>::empty(),
{
    assert(response.entries() =~= Seq::<LimineFramebuffer>::empty());
}

/// An answer lists as many framebuffers as it declares, and the entry at
/// each place is the record behind the pointer at that place in the
/// loader's array.
pub proof fn lemma_entries_follow_array(response: LimineFramebufferResponse)
    ensures
        response.entries().len() == response.framebuffer_count,
        forall|i: int|
            0 <= i < response.framebuffer_count ==> #[trigger] response.entries()[i]
                == response.framebuffers@[i]@.value,
{
}

} // verus!
