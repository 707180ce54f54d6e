use vstd::prelude::*;

use crate::page::{page_roundup, round_up_to_page, PAGE_SIZE};

verus! {

/// Capacity of the payload area, in 32-bit words.
pub const PAYLOAD_WORDS: usize = 27;

/// Number of 32-bit words in the record as it travels to the firmware: five
/// header words followed by the payload.
pub const WIRE_WORDS: usize = 32;

/// Firmware tag that reserves a region of GPU memory.
pub const TAG_ALLOCATE: u32 = 0x3000c;

/// Firmware tag that pins a region and yields its bus address.
pub const TAG_LOCK: u32 = 0x3000d;

/// Firmware tag that un-pins a region.
pub const TAG_UNLOCK: u32 = 0x3000e;

/// Firmware tag that releases a region.
pub const TAG_FREE: u32 = 0x3000f;

/// Status bit that the firmware sets once it has processed a request.
pub const STATUS_PROCESSED: u32 = 0x8000_0000;

/// Status that reports a processed request with an undersized response.
pub const STATUS_PARTIAL: u32 = 0x8000_0001;

/// Largest byte size whose page-rounded form still fits in a 32-bit word.
pub const MAX_ALLOC_SIZE: u32 = 0xFFFF_F000;

/// How the firmware answered a request, as read from its status word.
#[derive(Debug, Clone, Copy, PartialEq, Eq, Structural)]
pub enum Status {
    Success,
    FullError,
    PartialError,
}

/// Errors of one request/response exchange.
#[derive(Debug, Clone, Copy, PartialEq, Eq, Structural)]
pub enum VcError {
    /// The control request itself failed; holds the OS error number.
    Transport(i32),
    /// The firmware did not process the request.
    NotProcessed,
    /// The firmware processed the request but its response is partial.
    Partial,
}

/// The classification of a status word: the high bit clear means the request
/// was not processed; the partial sentinel is an error even though that bit is
/// set; every other value is success.
pub open spec fn status_kind(code: u32) -> Status {
    if code < STATUS_PROCESSED {
        Status::FullError
    } else if code == STATUS_PARTIAL {
        Status::PartialError
    } else {
        Status::Success
    }
}

/// Classifies the status word of a firmware reply.
pub fn classify_status(code: u32) -> (r: Status)
    ensures
        r == status_kind(code),
{
    let processed: u32 = code & STATUS_PROCESSED;
    assert(processed == 0 <==> code < 0x8000_0000u32) by (bit_vector)
        requires
            processed == code & 0x8000_0000u32,
    ;
    if processed == 0 {
        Status::FullError
    } else if code == STATUS_PARTIAL {
        Status::PartialError
    } else {
        Status::Success
    }
}

/// A firmware property message: a header and a fixed-capacity payload.
///
/// `buffer_len_words` and `data_len_words` count payload words; the wire form
/// carries them as byte counts.
pub struct VcMsg {
    len: u32,
    req: u32,
    tag: u32,
    blen: u32,
    dlen: u32,
    uints: [u32; 27],
}

/// The mathematical content of a [`VcMsg`].
pub struct MsgView {
    pub total_length: u32,
    pub request_or_status: u32,
    pub operation_tag: u32,
    pub buffer_len_words: u32,
    pub data_len_words: u32,
    pub payload: Seq<u32>,
}

impl View for VcMsg {
    type V = MsgView;

    closed spec fn view(&self) -> MsgView {
        MsgView {
            total_length: self.len,
            request_or_status: self.req,
            operation_tag: self.tag,
            buffer_len_words: self.blen,
            data_len_words: self.dlen,
            payload: self.uints@,
        }
    }
}

/// `args` followed by zeros, up to the payload capacity.
pub open spec fn padded(args: Seq<u32>) -> Seq<u32> {
    Seq::new(PAYLOAD_WORDS as nat, |i: int| if i < args.len() { args[i] } else { 0u32 })
}

/// A fresh request: header fields not yet framed, arguments at the front of
/// the payload and zeros after them.
pub open spec fn request_view(tag: u32, buffer_len_words: u32, args: Seq<u32>) -> MsgView {
    MsgView {
        total_length: 0,
        request_or_status: 0,
        operation_tag: tag,
        buffer_len_words,
        data_len_words: args.len() as u32,
        payload: padded(args),
    }
}

/// Byte length of a whole record whose payload area holds `buffer_len_words`
/// words.
pub open spec fn total_length_of(buffer_len_words: u32) -> int {
    (buffer_len_words + 6) * 4
}

/// A message framed for sending: the reply area `[data_len_words,
/// buffer_len_words)` cleared, the total length set and the request code set to
/// the "processing" value.
pub open spec fn prepared(v: MsgView) -> MsgView {
    MsgView {
        total_length: total_length_of(v.buffer_len_words) as u32,
        request_or_status: 0,
        payload: Seq::new(
            v.payload.len(),
            |i: int|
                if v.data_len_words <= i < v.buffer_len_words {
                    0u32
                } else {
                    v.payload[i]
                },
        ),
        ..v
    }
}

/// The words of a message in the order the firmware reads them, with the two
/// length fields converted to bytes.
pub open spec fn wire_of(v: MsgView) -> Seq<u32> {
    seq![
        v.total_length,
        v.request_or_status,
        v.operation_tag,
        (v.buffer_len_words * 4) as u32,
        (v.data_len_words * 4) as u32,
    ] + v.payload
}

/// A message after the firmware's reply: the status word and the payload come
/// from the reply, the rest is kept.
pub open spec fn with_reply(v: MsgView, reply: Seq<u32>) -> MsgView {
    MsgView {
        request_or_status: reply[1],
        payload: reply.subrange(5, WIRE_WORDS as int),
        ..v
    }
}

/// What a received message means to its sender: its first payload word on
/// success, else the error that its status word names.
pub open spec fn reply_result(v: MsgView) -> Result<u32, VcError> {
    match status_kind(v.request_or_status) {
        Status::FullError => Err(VcError::NotProcessed),
        Status::PartialError => Err(VcError::Partial),
        Status::Success => Ok(v.payload[0]),
    }
}

impl VcMsg {
    /// The message's invariant: the populated words fit in the payload area,
    /// which fits in the payload's capacity.
    pub open spec fn wf(&self) -> bool {
        &&& self@.data_len_words <= self@.buffer_len_words
        &&& self@.buffer_len_words <= PAYLOAD_WORDS
        &&& self@.payload.len() == PAYLOAD_WORDS
    }

    /// Builds a request for `tag` whose payload area holds `buffer_len_words`
    /// words and whose arguments are `args`.
    pub fn new(tag: u32, buffer_len_words: u32, args: &[u32]) -> (m: VcMsg)
        requires
            args@.len() <= buffer_len_words,
            buffer_len_words <= PAYLOAD_WORDS,
        ensures
            m.wf(),
            m@ == request_view(tag, buffer_len_words, args@),
    {
        let mut uints = [0u32; 27];
        let n: usize = args.len();
        let mut i: usize = 0;
        while i < n
            invariant
                n == args@.len(),
                n <= PAYLOAD_WORDS,
                i <= n,
                uints@ == Seq::new(
                    PAYLOAD_WORDS as nat,
                    |j: int| if j < i { args@[j] } else { 0u32 },
                ),
            decreases n - i,
        {
            uints[i] = args[i];
            i = i + 1;
        }
        let m = VcMsg { len: 0, req: 0, tag, blen: buffer_len_words, dlen: n as u32, uints };
        assert(m@.payload =~= padded(args@));
        m
    }

    /// A request that reserves `size` bytes (rounded up to whole pages),
    /// page-aligned, under the firmware's cache-policy `flags`.
    pub fn alloc_request(size: u32, flags: u32) -> (m: VcMsg)
        requires
            size <= MAX_ALLOC_SIZE,
        ensures
            m.wf(),
            m@ == request_view(
                TAG_ALLOCATE,
                3,
                seq![round_up_to_page(size as int) as u32, PAGE_SIZE as u32, flags],
            ),
    {
        let rounded: usize = page_roundup(size as usize);
        assert(rounded <= MAX_ALLOC_SIZE);
        let args = [rounded as u32, PAGE_SIZE as u32, flags];
        assert(args@ =~= seq![round_up_to_page(size as int) as u32, PAGE_SIZE as u32, flags]);
        VcMsg::new(TAG_ALLOCATE, 3, &args)
    }

    /// A request that pins the region `handle` names and yields its bus
    /// address.
    pub fn lock_request(handle: u32) -> (m: VcMsg)
        ensures
            m.wf(),
            m@ == request_view(TAG_LOCK, 1, seq![handle]),
    {
        VcMsg::handle_request(TAG_LOCK, handle)
    }

    /// A request that un-pins the region `handle` names.
    pub fn unlock_request(handle: u32) -> (m: VcMsg)
        ensures
            m.wf(),
            m@ == request_view(TAG_UNLOCK, 1, seq![handle]),
    {
        VcMsg::handle_request(TAG_UNLOCK, handle)
    }

    /// A request that releases the region `handle` names.
    pub fn free_request(handle: u32) -> (m: VcMsg)
        ensures
            m.wf(),
            m@ == request_view(TAG_FREE, 1, seq![handle]),
    {
        VcMsg::handle_request(TAG_FREE, handle)
    }

    fn handle_request(tag: u32, handle: u32) -> (m: VcMsg)
        ensures
            m.wf(),
            m@ == request_view(tag, 1, seq![handle]),
    {
        let args = [handle];
        assert(args@ =~= seq![handle]);
        VcMsg::new(tag, 1, &args)
    }

    /// Byte length of the whole record, as last framed.
    pub fn total_length(&self) -> (r: u32)
        ensures
            r == self@.total_length,
    {
        self.len
    }

    /// The request code before sending; the firmware's status after a reply.
    pub fn status(&self) -> (r: u32)
        ensures
            r == self@.request_or_status,
    {
        self.req
    }

    /// The firmware operation the message selects.
    pub fn tag(&self) -> (r: u32)
        ensures
            r == self@.operation_tag,
    {
        self.tag
    }

    /// Capacity of the payload area in use, in words.
    pub fn buffer_len_words(&self) -> (r: u32)
        ensures
            r == self@.buffer_len_words,
    {
        self.blen
    }

    /// Number of payload words populated by the sender.
    pub fn data_len_words(&self) -> (r: u32)
        ensures
            r == self@.data_len_words,
    {
        self.dlen
    }

    /// A copy of the payload.
    pub fn payload(&self) -> (r: [u32; 27])
        ensures
            r@ == self@.payload,
    {
        self.uints
    }

    /// Frames the message for sending: clears the reply area, sets the total
    /// length and the "processing" request code.
    pub fn prepare(&mut self)
        requires
            old(self).wf(),
        ensures
            final(self).wf(),
            final(self)@ == prepared(old(self)@),
    {
        let start: usize = self.dlen as usize;
        let end: usize = self.blen as usize;
        let mut i: usize = start;
        while i < end
            invariant
                start == self.dlen,
                end == self.blen,
                start <= i <= end,
                end <= PAYLOAD_WORDS,
                self.len == old(self).len,
                self.req == old(self).req,
                self.tag == old(self).tag,
                self.blen == old(self).blen,
                self.dlen == old(self).dlen,
                self.uints@ == Seq::new(
                    PAYLOAD_WORDS as nat,
                    |j: int|
                        if start <= j < i {
                            0u32
                        } else {
                            old(self).uints@[j]
                        },
                ),
            decreases end - i,
        {
            self.uints[i] = 0;
            i = i + 1;
        }
        self.len = (self.blen + 6) * 4;
        self.req = 0;
        assert(self@.payload =~= prepared(old(self)@).payload);
    }

    /// The message's words in wire order.
    pub fn wire_words(&self) -> (w: [u32; 32])
        requires
            self.wf(),
        ensures
            w@ == wire_of(self@),
    {
        let mut w = [0u32; 32];
        w[0] = self.len;
        w[1] = self.req;
        w[2] = self.tag;
        w[3] = self.blen * 4;
        w[4] = self.dlen * 4;
        let mut i: usize = 0;
        while i < PAYLOAD_WORDS
            invariant
                self.wf(),
                i <= PAYLOAD_WORDS,
                w@.len() == WIRE_WORDS,
                forall|j: int| 0 <= j < 5 ==> w@[j] == wire_of(self@)[j],
                forall|j: int| 0 <= j < i ==> w@[5 + j] == self.uints@[j],
            decreases PAYLOAD_WORDS - i,
        {
            w[5 + i] = self.uints[i];
            i = i + 1;
        }
        assert forall|j: int| 5 <= j < WIRE_WORDS implies w@[j] == wire_of(self@)[j] by {
            assert(w@[5 + (j - 5)] == self.uints@[j - 5]);
        }
        assert(w@ =~= wire_of(self@));
        w
    }

    /// The result of the message as it stands: its first payload word if its
    /// status reports success, else the error the status names.
    pub fn result(&self) -> (r: Result<u32, VcError>)
        requires
            self.wf(),
        ensures
            r == reply_result(self@),
    {
        match classify_status(self.req) {
            Status::FullError => Err(VcError::NotProcessed),
            Status::PartialError => Err(VcError::Partial),
            Status::Success => Ok(self.uints[0]),
        }
    }

    /// Completes an exchange with the outcome of the control request: the OS
    /// error number if it failed, else the reply's words. A failed request
    /// leaves the message as it was; a reply is taken in and then read.
    pub fn complete(&mut self, outcome: Result<[u32; 32], i32>) -> (r: Result<u32, VcError>)
        requires
            old(self).wf(),
        ensures
            final(self).wf(),
            match outcome {
                Err(e) => {
                    &&& r == Err::<u32, VcError>(VcError::Transport(e))
                    &&& final(self)@ == old(self)@
                },
                Ok(reply) => {
                    &&& final(self)@ == with_reply(old(self)@, reply@)
                    &&& r == reply_result(final(self)@)
                },
            },
    {
        match outcome {
            Err(e) => Err(VcError::Transport(e)),
            Ok(reply) => {
                self.req = reply[1];
                let mut i: usize = 0;
                while i < PAYLOAD_WORDS
                    invariant
                        i <= PAYLOAD_WORDS,
                        reply@.len() == WIRE_WORDS,
                        self.uints@.len() == PAYLOAD_WORDS,
                        forall|j: int| 0 <= j < i ==> self.uints@[j] == reply@[5 + j],
                        self.len == old(self).len,
                        self.req == reply@[1],
                        self.tag == old(self).tag,
                        self.blen == old(self).blen,
                        self.dlen == old(self).dlen,
                    decreases PAYLOAD_WORDS - i,
                {
                    self.uints[i] = reply[5 + i];
                    i = i + 1;
                }
                assert(self@ == with_reply(old(self)@, reply@)) by {
                    assert(self.uints@ =~= reply@.subrange(5, WIRE_WORDS as int));
                }
                self.result()
            },
        }
    }
}

/// Framing a message whose arguments fill its whole payload area clears no
/// payload word; for the allocate request, whose area is three words, it also
/// sets the total length to 36 bytes.
pub proof fn lemma_prepare_full_area(v: MsgView, size: u32, flags: u32)
    requires
        v.data_len_words == v.buffer_len_words,
        v.buffer_len_words <= PAYLOAD_WORDS,
        size <= MAX_ALLOC_SIZE,
    ensures
        prepared(v).payload == v.payload,
        ({
            let a = prepared(
                request_view(
                    TAG_ALLOCATE,
                    3,
                    seq![round_up_to_page(size as int) as u32, PAGE_SIZE as u32, flags],
                ),
            );
            &&& a.total_length == 36
            &&& a.payload == padded(
                seq![round_up_to_page(size as int) as u32, PAGE_SIZE as u32, flags],
            )
        }),
{
    assert(prepared(v).payload =~= v.payload);
    let args = seq![round_up_to_page(size as int) as u32, PAGE_SIZE as u32, flags];
    assert(prepared(request_view(TAG_ALLOCATE, 3, args)).payload =~= padded(args));
}

} // verus!
