//! Channel assembly: buffering out-of-order frames until a channel is complete.

use vstd::prelude::*;

use crate::block::BlockInfo;

verus! {

/// The length of a channel identifier.
pub const CHANNEL_ID_LENGTH: usize = 16;

/// An opaque identifier for a channel.
pub type ChannelId = [u8; 16];

/// The fixed overhead counted for every buffered frame.
pub const FRAME_OVERHEAD: usize = 200;

/// The most bytes read from a channel when decoding.
pub const MAX_RLP_BYTES_PER_CHANNEL: u64 = 10000000;

/// The most bytes read from a channel when decoding, once Fjord is active.
pub const FJORD_MAX_RLP_BYTES_PER_CHANNEL: u64 = 100000000;


/// An error returned when adding a frame to a channel.
#[derive(Clone, Copy, Debug, PartialEq, Eq, Hash, Structural)]
pub enum ChannelError {
    /// The frame id does not match the channel id.
    FrameIdMismatch,
    /// The channel is already closed.
    ChannelClosed,
    /// The frame number is already in the channel.
    FrameNumberExists(usize),
    /// The frame number is beyond the end frame.
    FrameBeyondEndFrame(usize),
}

impl ChannelError {
    /// A human-readable description of the error.
    pub fn message(&self) -> String {
        match self {
            ChannelError::FrameIdMismatch => "Frame id does not match channel id".to_string(),
            ChannelError::ChannelClosed => "Channel is closed".to_string(),
            ChannelError::FrameNumberExists(_) => "Frame number already exists".to_string(),
            ChannelError::FrameBeyondEndFrame(_) => "Frame number is beyond end frame".to_string(),
        }
    }
}

/// A piece of a channel as carried on L1.
#[derive(Clone, Debug)]
pub struct Frame {
    /// The channel this frame belongs to.
    pub id: ChannelId,
    /// The position of the frame within its channel.
    pub number: u16,
    /// The payload.
    pub data: Vec<u8>,
    /// Whether this is the closing frame of the channel.
    pub is_last: bool,
}

impl Frame {
    /// The size counted for this frame: its payload plus a fixed overhead.
    pub open spec fn spec_size(&self) -> nat {
        self.data@.len() + FRAME_OVERHEAD as nat
    }

    /// Returns the size counted for this frame.
    pub fn size(&self) -> (r: usize)
        requires
            self.spec_size() <= usize::MAX,
        ensures
            r == self.spec_size(),
    {
        self.data.len() + FRAME_OVERHEAD
    }
}

impl Default for Frame {
    fn default() -> (r: Frame)
        ensures
            r.id@ == seq![0u8; 16],
            r.number == 0,
            r.data@.len() == 0,
            !r.is_last,
    {
        Frame { id: [0u8; 16], number: 0, data: Vec::new(), is_last: false }
    }
}

/// Copies a byte vector.
fn copy_bytes(src: &Vec<u8>) -> (r: Vec<u8>)
    ensures
        r@ == src@,
{
    let mut out: Vec<u8> = Vec::with_capacity(src.len());
    append_bytes(&mut out, src);
    assert(out@ =~= src@);
    out
}

/// Appends the bytes of `src` to `dst`.
fn append_bytes(dst: &mut Vec<u8>, src: &Vec<u8>)
    ensures
        final(dst)@ == old(dst)@ + src@,
{
    let ghost start = dst@;
    let mut i: usize = 0;
    while i < src.len()
        invariant
            i <= src@.len(),
            dst@ == start + src@.subrange(0, i as int),
        decreases src@.len() - i,
    {
        dst.push(src[i]);
        i = i + 1;
        assert(dst@ =~= start + src@.subrange(0, i as int));
    }
    assert(src@.subrange(0, src@.len() as int) =~= src@);
}

/// Returns whether two channel identifiers hold the same bytes.
fn id_eq(a: &ChannelId, b: &ChannelId) -> (r: bool)
    ensures
        r == (a@ == b@),
{
    let mut i: usize = 0;
    while i < CHANNEL_ID_LENGTH
        invariant
            i <= 16,
            a@.len() == 16,
            b@.len() == 16,
            forall|j: int| 0 <= j < i ==> a@[j] == b@[j],
        decreases 16 - i,
    {
        if a[i] != b[i] {
            return false;
        }
        i = i + 1;
    }
    assert(a@ =~= b@);
    true
}

/// The payloads of a sequence of frames, keyed by frame number.
pub open spec fn frame_map(s: Seq<Frame>) -> Map<u16, Seq<u8>>
    decreases s.len(),
{
    if s.len() == 0 {
        Map::empty()
    } else {
        frame_map(s.drop_last()).insert(s.last().number, s.last().data@)
    }
}

/// The sum of the sizes of a sequence of frames.
pub open spec fn total_size(s: Seq<Frame>) -> nat
    decreases s.len(),
{
    if s.len() == 0 {
        0
    } else {
        total_size(s.drop_last()) + s.last().spec_size()
    }
}

/// No two frames of the sequence share a number.
pub open spec fn numbers_unique(s: Seq<Frame>) -> bool {
    forall|i: int, j: int| 0 <= i < j < s.len() ==> s[i].number != s[j].number
}

/// The counted size of the payloads keyed below `n`.
pub open spec fn size_below(m: Map<u16, Seq<u8>>, n: nat) -> nat
    decreases n,
{
    if n == 0 {
        0
    } else {
        size_below(m, (n - 1) as nat) + if m.contains_key((n - 1) as u16) {
            m[(n - 1) as u16].len() + FRAME_OVERHEAD as nat
        } else {
            0
        }
    }
}

/// The counted size of all payloads of a frame map: each payload plus the overhead.
pub open spec fn map_size(m: Map<u16, Seq<u8>>) -> nat {
    size_below(m, 65536)
}

/// The payloads keyed `0 .. n`, concatenated in order.
pub open spec fn concat_frames(m: Map<u16, Seq<u8>>, n: nat) -> Seq<u8>
    decreases n,
{
    if n == 0 {
        Seq::empty()
    } else {
        concat_frames(m, (n - 1) as nat) + m[(n - 1) as u16]
    }
}

/// The abstract state of a channel.
pub struct ChannelView {
    /// The channel identifier.
    pub id: Seq<u8>,
    /// The L1 block of the first frame.
    pub open_block: BlockInfo,
    /// The estimated memory size.
    pub size: nat,
    /// Whether the closing frame has been buffered.
    pub closed: bool,
    /// The highest buffered frame number.
    pub highest: u16,
    /// The number of the closing frame; meaningful once closed.
    pub last: u16,
    /// The buffered payloads, keyed by frame number.
    pub frames: Map<u16, Seq<u8>>,
    /// The number of the highest L1 block that carried a frame.
    pub highest_l1: u64,
}

/// The consistency conditions of a channel's abstract state.
pub open spec fn view_wf(v: ChannelView) -> bool {
    &&& v.id.len() == CHANNEL_ID_LENGTH
    &&& v.size == map_size(v.frames)
    &&& forall|k: u16| #[trigger] v.frames.contains_key(k) ==> k <= v.highest
    &&& v.highest == 0 || v.frames.contains_key(v.highest)
    &&& v.closed ==> v.highest == v.last && v.frames.contains_key(v.last)
}

/// A channel with no frames.
pub open spec fn fresh_view(id: Seq<u8>, open_block: BlockInfo) -> ChannelView {
    ChannelView {
        id,
        open_block,
        size: 0,
        closed: false,
        highest: 0,
        last: 0,
        frames: Map::empty(),
        highest_l1: 0,
    }
}

/// The effect of offering a frame, carried in `l1`, to a channel: the new state and the outcome.
pub open spec fn step(v: ChannelView, f: Frame, l1: BlockInfo) -> (ChannelView, Result<(), ChannelError>) {
    if f.id@ != v.id {
        (v, Err(ChannelError::FrameIdMismatch))
    } else if f.is_last && v.closed {
        (v, Err(ChannelError::ChannelClosed))
    } else if v.frames.contains_key(f.number) {
        (v, Err(ChannelError::FrameNumberExists(f.number as usize)))
    } else if v.closed && f.number >= v.last {
        (v, Err(ChannelError::FrameBeyondEndFrame(f.number as usize)))
    } else {
        let kept = if f.is_last {
            v.frames.restrict(Set::new(|k: u16| k < f.number))
        } else {
            v.frames
        };
        let frames = kept.insert(f.number, f.data@);
        (
            ChannelView {
                id: v.id,
                open_block: v.open_block,
                size: map_size(frames),
                closed: v.closed || f.is_last,
                highest: if f.is_last || f.number > v.highest {
                    f.number
                } else {
                    v.highest
                },
                last: if f.is_last {
                    f.number
                } else {
                    v.last
                },
                frames,
                highest_l1: if v.highest_l1 < l1.number {
                    l1.number
                } else {
                    v.highest_l1
                },
            },
            Ok(()),
        )
    }
}

/// Whether every frame from zero up to the closing frame has been buffered.
pub open spec fn ready(v: ChannelView) -> bool {
    v.closed && forall|k: u16| k <= v.last ==> #[trigger] v.frames.contains_key(k)
}

/// The concatenated payloads `0 ..= last`, or none when a frame among them is missing
/// or nothing is buffered.
pub open spec fn spec_frame_data(v: ChannelView) -> Option<Seq<u8>> {
    if v.frames.is_empty() {
        None
    } else if exists|k: u16| k <= v.last && !#[trigger] v.frames.contains_key(k) {
        None
    } else {
        Some(concat_frames(v.frames, v.last as nat + 1))
    }
}

proof fn lemma_frame_map_dom(s: Seq<Frame>, k: u16)
    ensures
        frame_map(s).contains_key(k) <==> exists|i: int| 0 <= i < s.len() && s[i].number == k,
    decreases s.len(),
{
    if s.len() > 0 {
        lemma_frame_map_dom(s.drop_last(), k);
        if frame_map(s.drop_last()).contains_key(k) {
            let i = choose|i: int| 0 <= i < s.drop_last().len() && s.drop_last()[i].number == k;
            assert(s[i].number == k);
        }
        if exists|i: int| 0 <= i < s.len() && s[i].number == k {
            let i = choose|i: int| 0 <= i < s.len() && s[i].number == k;
            if i < s.len() - 1 {
                assert(s.drop_last()[i].number == k);
            }
        }
    }
}

proof fn lemma_frame_map_at(s: Seq<Frame>, i: int)
    requires
        numbers_unique(s),
        0 <= i < s.len(),
    ensures
        frame_map(s).contains_key(s[i].number),
        frame_map(s)[s[i].number] == s[i].data@,
    decreases s.len(),
{
    if i < s.len() - 1 {
        assert(numbers_unique(s.drop_last()));
        lemma_frame_map_at(s.drop_last(), i);
        assert(s.drop_last()[i] == s[i]);
    }
}

proof fn lemma_size_insert(m: Map<u16, Seq<u8>>, k: u16, d: Seq<u8>, n: nat)
    requires
        !m.contains_key(k),
        n <= 65536,
    ensures
        size_below(m.insert(k, d), n) == size_below(m, n) + if (k as nat) < n {
            d.len() + FRAME_OVERHEAD as nat
        } else {
            0
        },
    decreases n,
{
    if n > 0 {
        lemma_size_insert(m, k, d, (n - 1) as nat);
    }
}

proof fn lemma_size_empty(n: nat)
    ensures
        size_below(Map::empty(), n) == 0,
    decreases n,
{
    if n > 0 {
        lemma_size_empty((n - 1) as nat);
    }
}

proof fn lemma_size_below_restrict_le(m: Map<u16, Seq<u8>>, keep: Set<u16>, n: nat)
    ensures
        size_below(m.restrict(keep), n) <= size_below(m, n),
    decreases n,
{
    if n > 0 {
        lemma_size_below_restrict_le(m, keep, (n - 1) as nat);
    }
}

proof fn lemma_total_size(s: Seq<Frame>)
    requires
        numbers_unique(s),
    ensures
        total_size(s) == map_size(frame_map(s)),
    decreases s.len(),
{
    if s.len() > 0 {
        let p = s.drop_last();
        assert(numbers_unique(p));
        lemma_total_size(p);
        lemma_frame_map_dom(p, s.last().number);
        assert(!frame_map(p).contains_key(s.last().number));
        lemma_size_insert(frame_map(p), s.last().number, s.last().data@, 65536);
    } else {
        lemma_size_empty(65536);
    }
}

proof fn lemma_push_unique(s: Seq<Frame>, f: Frame)
    requires
        numbers_unique(s),
        !frame_map(s).contains_key(f.number),
    ensures
        numbers_unique(s.push(f)),
        frame_map(s.push(f)) == frame_map(s).insert(f.number, f.data@),
        total_size(s.push(f)) == total_size(s) + f.spec_size(),
{
    assert(s.push(f).drop_last() =~= s);
    assert forall|i: int, j: int| 0 <= i < j < s.push(f).len() implies s.push(f)[i].number
        != s.push(f)[j].number by {
        if j == s.len() {
            lemma_frame_map_dom(s, f.number);
            assert(s[i].number != f.number);
        }
    }
}

proof fn lemma_frame_map_len(s: Seq<Frame>)
    requires
        numbers_unique(s),
    ensures
        frame_map(s).dom().finite(),
        frame_map(s).len() == s.len(),
    decreases s.len(),
{
    if s.len() > 0 {
        let p = s.drop_last();
        assert(numbers_unique(p));
        lemma_frame_map_len(p);
        lemma_frame_map_dom(p, s.last().number);
        assert(frame_map(s).dom() == frame_map(p).dom().insert(s.last().number));
        vstd::set::axiom_set_insert_len(frame_map(p).dom(), s.last().number);
    } else {
        assert(frame_map(s).dom() =~= Set::empty());
    }
}

proof fn lemma_total_prefix(s: Seq<Frame>, i: int)
    requires
        0 <= i <= s.len(),
    ensures
        total_size(s.take(i)) <= total_size(s),
    decreases s.len() - i,
{
    if i < s.len() {
        assert(s.take(i + 1).drop_last() =~= s.take(i));
        lemma_total_prefix(s, i + 1);
    } else {
        assert(s.take(i) =~= s);
    }
}

/// Returns the position of the frame numbered `n`, if there is one.
fn find_frame(inputs: &Vec<Frame>, n: u16) -> (r: Option<usize>)
    ensures
        match r {
            Some(i) => i < inputs@.len() && inputs@[i as int].number == n,
            None => forall|i: int| 0 <= i < inputs@.len() ==> inputs@[i].number != n,
        },
{
    let mut i: usize = 0;
    while i < inputs.len()
        invariant
            i <= inputs@.len(),
            forall|j: int| 0 <= j < i ==> inputs@[j].number != n,
        decreases inputs@.len() - i,
    {
        if inputs[i].number == n {
            return Some(i);
        }
        i = i + 1;
    }
    None
}

/// Copies a frame.
fn frame_copy(f: &Frame) -> (r: Frame)
    ensures
        r.id == f.id,
        r.number == f.number,
        r.data@ == f.data@,
        r.is_last == f.is_last,
{
    Frame { id: f.id, number: f.number, data: copy_bytes(&f.data), is_last: f.is_last }
}

/// Keeps the frames numbered below `n`, returning them with the sum of their sizes.
fn retain_below(inputs: &Vec<Frame>, n: u16) -> (r: (Vec<Frame>, usize))
    requires
        numbers_unique(inputs@),
        total_size(inputs@) <= usize::MAX,
    ensures
        numbers_unique(r.0@),
        frame_map(r.0@) == frame_map(inputs@).restrict(Set::new(|k: u16| k < n)),
        r.1 == total_size(r.0@),
{
    let ghost keep = Set::new(|k: u16| k < n);
    let mut kept: Vec<Frame> = Vec::new();
    let mut size: usize = 0;
    let mut i: usize = 0;
    while i < inputs.len()
        invariant
            i <= inputs@.len(),
            keep == Set::new(|k: u16| k < n),
            numbers_unique(inputs@),
            total_size(inputs@) <= usize::MAX,
            numbers_unique(kept@),
            frame_map(kept@) == frame_map(inputs@.take(i as int)).restrict(keep),
            size == total_size(kept@),
            total_size(kept@) <= total_size(inputs@.take(i as int)),
        decreases inputs@.len() - i,
    {
        let ghost pre = inputs@.take(i as int);
        let ghost f = inputs@[i as int];
        assert(inputs@.take(i + 1).drop_last() =~= pre);
        assert(inputs@.take(i + 1).last() == f);
        proof {
            lemma_total_prefix(inputs@, i + 1);
        }
        if inputs[i].number < n {
            let c = frame_copy(&inputs[i]);
            proof {
                lemma_frame_map_dom(pre, f.number);
                assert forall|j: int| 0 <= j < pre.len() implies pre[j].number != f.number by {
                    assert(pre[j] == inputs@[j]);
                }
                assert(!frame_map(kept@).contains_key(c.number));
                lemma_push_unique(kept@, c);
                assert(keep.contains(f.number));
                assert(frame_map(kept@).insert(c.number, c.data@) =~= frame_map(
                    pre,
                ).insert(f.number, f.data@).restrict(keep));
            }
            size = size + c.size();
            kept.push(c);
        } else {
            assert(!keep.contains(f.number));
            assert(frame_map(pre).restrict(keep) =~= frame_map(pre).insert(
                f.number,
                f.data@,
            ).restrict(keep));
        }
        i = i + 1;
    }
    assert(inputs@.take(inputs@.len() as int) =~= inputs@);
    (kept, size)
}

/// A set of frames that together make up a channel.
///
/// Frames may arrive in any order. Once the closing frame is buffered, the channel is ready
/// as soon as every frame before it has arrived too.
pub struct Channel {
    id: ChannelId,
    open_block: BlockInfo,
    estimated_size: usize,
    closed: bool,
    highest_frame_number: u16,
    last_frame_number: u16,
    inputs: Vec<Frame>,
    highest_l1_inclusion_block: BlockInfo,
}

impl View for Channel {
    type V = ChannelView;

    closed spec fn view(&self) -> ChannelView {
        ChannelView {
            id: self.id@,
            open_block: self.open_block,
            size: self.estimated_size as nat,
            closed: self.closed,
            highest: self.highest_frame_number,
            last: self.last_frame_number,
            frames: frame_map(self.inputs@),
            highest_l1: self.highest_l1_inclusion_block.number,
        }
    }
}

impl Channel {
    /// The channel's internal consistency: its buffered frames have distinct numbers and
    /// the estimated size is their total size.
    pub closed spec fn inv(&self) -> bool {
        &&& numbers_unique(self.inputs@)
        &&& self.estimated_size == total_size(self.inputs@)
        &&& view_wf(self@)
    }

    /// Creates an empty channel with the given identifier, opened at `open_block`.
    pub fn new(id: ChannelId, open_block: BlockInfo) -> (r: Channel)
        ensures
            r.inv(),
            view_wf(r@),
            r@ == fresh_view(id@, open_block),
    {
        let r = Channel {
            id,
            open_block,
            estimated_size: 0,
            closed: false,
            highest_frame_number: 0,
            last_frame_number: 0,
            inputs: Vec::new(),
            highest_l1_inclusion_block: BlockInfo::default(),
        };
        proof {
            lemma_size_empty(65536);
            assert(frame_map(r.inputs@) =~= Map::empty());
        }
        r
    }

    /// Returns the channel identifier.
    pub fn id(&self) -> (r: ChannelId)
        ensures
            r@ == self@.id,
    {
        self.id
    }

    /// Returns the number of buffered frames.
    pub fn len(&self) -> (r: usize)
        requires
            self.inv(),
        ensures
            r == self@.frames.len(),
    {
        proof {
            lemma_frame_map_len(self.inputs@);
        }
        self.inputs.len()
    }

    /// Returns whether no frame is buffered.
    pub fn is_empty(&self) -> (r: bool)
        requires
            self.inv(),
        ensures
            r == self@.frames.is_empty(),
    {
        proof {
            lemma_frame_map_len(self.inputs@);
        }
        self.inputs.len() == 0
    }

    /// Returns the number of the L1 block of the first frame.
    pub fn open_block_number(&self) -> (r: u64)
        ensures
            r == self@.open_block.number,
    {
        self.open_block.number
    }

    /// Returns the estimated size of the channel, frame overhead included.
    pub fn size(&self) -> (r: usize)
        ensures
            r == self@.size,
    {
        self.estimated_size
    }

    /// Offers a frame, carried in `l1_inclusion_block`, to the channel.
    ///
    /// A frame with a foreign id, a second closing frame, a duplicate number, or a number at
    /// or past the closing frame is refused and leaves the channel unchanged. A closing frame
    /// drops the buffered frames numbered above it.
    pub fn add_frame(&mut self, frame: Frame, l1_inclusion_block: BlockInfo) -> (r: Result<(), ChannelError>)
        requires
            old(self).inv(),
            old(self)@.size + frame.spec_size() <= usize::MAX,
        ensures
            final(self).inv(),
            view_wf(final(self)@),
            (final(self)@, r) == step(old(self)@, frame, l1_inclusion_block),
    {
        if !id_eq(&frame.id, &self.id) {
            return Err(ChannelError::FrameIdMismatch);
        }
        if frame.is_last && self.closed {
            return Err(ChannelError::ChannelClosed);
        }
        let found = find_frame(&self.inputs, frame.number);
        proof {
            lemma_frame_map_dom(self.inputs@, frame.number);
        }
        if found.is_some() {
            return Err(ChannelError::FrameNumberExists(frame.number as usize));
        }
        if self.closed && frame.number >= self.last_frame_number {
            return Err(ChannelError::FrameBeyondEndFrame(frame.number as usize));
        }
        let ghost v = self@;
        let ghost keep = Set::new(|k: u16| k < frame.number);
        if frame.is_last {
            self.last_frame_number = frame.number;
            self.closed = true;
            if self.last_frame_number < self.highest_frame_number {
                let (kept, size) = retain_below(&self.inputs, frame.number);
                self.inputs = kept;
                self.estimated_size = size;
                self.highest_frame_number = self.last_frame_number;
            } else {
                assert(v.frames.restrict(keep) =~= v.frames);
            }
        }
        if frame.number > self.highest_frame_number {
            self.highest_frame_number = frame.number;
        }
        if self.highest_l1_inclusion_block.number < l1_inclusion_block.number {
            self.highest_l1_inclusion_block = l1_inclusion_block;
        }
        proof {
            lemma_total_size(self.inputs@);
            lemma_frame_map_dom(self.inputs@, frame.number);
            lemma_push_unique(self.inputs@, frame);
            lemma_total_size(self.inputs@.push(frame));
            if frame.is_last {
                lemma_size_below_restrict_le(v.frames, keep, 65536);
            }
        }
        self.estimated_size = self.estimated_size + frame.size();
        self.inputs.push(frame);
        proof {
            let w = self@;
            assert forall|k: u16| #[trigger] w.frames.contains_key(k) implies k <= w.highest by {
                if k != frame.number {
                    assert(v.frames.contains_key(k));
                }
            }
        }
        Ok(())
    }

    /// Returns whether the channel is closed and holds every frame up to the closing one.
    pub fn is_ready(&self) -> (r: bool)
        requires
            self.inv(),
        ensures
            r == ready(self@),
    {
        if !self.closed {
            return false;
        }
        let mut i: u32 = 0;
        while i <= self.last_frame_number as u32
            invariant
                self.inv(),
                self.closed,
                i <= self.last_frame_number as u32 + 1,
                forall|k: u16| (k as u32) < i ==> #[trigger] self@.frames.contains_key(k),
            decreases self.last_frame_number as u32 + 1 - i,
        {
            let found = find_frame(&self.inputs, i as u16);
            proof {
                lemma_frame_map_dom(self.inputs@, i as u16);
            }
            if found.is_none() {
                return false;
            }
            i = i + 1;
        }
        true
    }

    /// Returns the payloads of frames `0 ..= last` concatenated in order, or `None` when
    /// the channel is empty or one of those frames is missing.
    pub fn frame_data(&self) -> (r: Option<Vec<u8>>)
        requires
            self.inv(),
        ensures
            match r {
                Some(d) => spec_frame_data(self@) == Some(d@),
                None => spec_frame_data(self@).is_none(),
            },
    {
        proof {
            lemma_frame_map_len(self.inputs@);
        }
        if self.inputs.len() == 0 {
            assert(self@.frames.dom() =~= Set::empty());
            return None;
        }
        assert(self@.frames.contains_key(self.inputs@.last().number));
        let ghost m = self@.frames;
        let mut data: Vec<u8> = Vec::new();
        let mut i: u32 = 0;
        while i <= self.last_frame_number as u32
            invariant
                self.inv(),
                m == self@.frames,
                !m.is_empty(),
                i <= self.last_frame_number as u32 + 1,
                forall|k: u16| (k as u32) < i ==> #[trigger] m.contains_key(k),
                data@ == concat_frames(m, i as nat),
            decreases self.last_frame_number as u32 + 1 - i,
        {
            let found = find_frame(&self.inputs, i as u16);
            proof {
                lemma_frame_map_dom(self.inputs@, i as u16);
            }
            match found {
                None => {
                    assert(!m.contains_key(i as u16));
                    return None;
                }
                Some(j) => {
                    proof {
                        lemma_frame_map_at(self.inputs@, j as int);
                    }
                    append_bytes(&mut data, &self.inputs[j].data);
                },
            }
            i = i + 1;
        }
        assert(forall|k: u16| k <= self@.last ==> #[trigger] m.contains_key(k));
        Some(data)
    }
} // impl Channel

/// Offers each frame of `fs` in turn, all carried in `l1`: the final state, and whether every
/// frame was accepted.
pub open spec fn add_all(v: ChannelView, fs: Seq<Frame>, l1: BlockInfo) -> (ChannelView, bool)
    decreases fs.len(),
{
    if fs.len() == 0 {
        (v, true)
    } else {
        let (w, ok) = add_all(v, fs.drop_last(), l1);
        let (x, r) = step(w, fs.last(), l1);
        (x, ok && r is Ok)
    }
}

/// `fs` holds, in some order, exactly the frames `0 ..= k` of channel `id`, frame `k` alone
/// being the closing one.
pub open spec fn complete_frame_set(fs: Seq<Frame>, id: Seq<u8>, k: u16) -> bool {
    &&& numbers_unique(fs)
    &&& forall|i: int|
        0 <= i < fs.len() ==> {
            &&& (#[trigger] fs[i]).id@ == id
            &&& fs[i].number <= k
            &&& fs[i].is_last <==> fs[i].number == k
        }
    &&& forall|n: u16| n <= k ==> #[trigger] has_number(fs, n)
}

/// Some frame of `s` is numbered `n`.
pub open spec fn has_number(s: Seq<Frame>, n: u16) -> bool {
    exists|i: int| 0 <= i < s.len() && s[i].number == n
}

/// Closing a channel drops every buffered frame numbered above the closing frame, and the
/// estimated size stays the total size of the frames that remain.
pub proof fn lemma_closing_frame_prunes(v: ChannelView, f: Frame, l1: BlockInfo)
    requires
        view_wf(v),
        f.is_last,
        step(v, f, l1).1 is Ok,
    ensures
        step(v, f, l1).0.closed,
        step(v, f, l1).0.last == f.number,
        forall|k: u16| #[trigger] step(v, f, l1).0.frames.contains_key(k) ==> k <= f.number,
        step(v, f, l1).0.size == map_size(step(v, f, l1).0.frames),
{
}

/// A closed channel refuses a frame of another channel, a second closing frame, a duplicate
/// number, and a number at or past the closing frame, each with its own error, and stays
/// as it was.
pub proof fn lemma_closed_channel_rejects(v: ChannelView, f: Frame, l1: BlockInfo)
    requires
        view_wf(v),
        v.closed,
    ensures
        f.id@ != v.id ==> step(v, f, l1) == (v, Err::<(), ChannelError>(ChannelError::FrameIdMismatch)),
        f.id@ == v.id && f.is_last ==> step(v, f, l1) == (v, Err::<(), ChannelError>(ChannelError::ChannelClosed)),
        f.id@ == v.id && !f.is_last && v.frames.contains_key(f.number) ==> step(v, f, l1) == (
            v,
            Err::<(), ChannelError>(ChannelError::FrameNumberExists(f.number as usize)),
        ),
        f.id@ == v.id && !f.is_last && !v.frames.contains_key(f.number) && f.number >= v.last
            ==> step(v, f, l1) == (
            v,
            Err::<(), ChannelError>(ChannelError::FrameBeyondEndFrame(f.number as usize)),
        ),
{
}

proof fn lemma_prefix_accepted(
    id: Seq<u8>,
    open_block: BlockInfo,
    fs: Seq<Frame>,
    k: u16,
    l1: BlockInfo,
    j: int,
)
    requires
        complete_frame_set(fs, id, k),
        0 <= j <= fs.len(),
    ensures
        ({
            let (w, ok) = add_all(fresh_view(id, open_block), fs.take(j), l1);
            &&& ok
            &&& w.id == id
            &&& w.frames == frame_map(fs.take(j))
            &&& w.closed == exists|i: int| 0 <= i < j && #[trigger] fs[i].is_last
            &&& w.closed ==> w.last == k
        }),
    decreases j,
{
    let v0 = fresh_view(id, open_block);
    if j == 0 {
        assert(fs.take(0) =~= Seq::<Frame>::empty());
        assert(frame_map(fs.take(0)) =~= Map::empty());
    } else {
        lemma_prefix_accepted(id, open_block, fs, k, l1, j - 1);
        let p = fs.take(j - 1);
        assert(fs.take(j).drop_last() =~= p);
        assert(fs.take(j).last() == fs[j - 1]);
        let (w, ok) = add_all(v0, p, l1);
        let f = fs[j - 1];
        lemma_frame_map_dom(p, f.number);
        if w.frames.contains_key(f.number) {
            let i = choose|i: int| 0 <= i < p.len() && p[i].number == f.number;
            assert(p[i] == fs[i]);
        }
        if w.closed {
            let i = choose|i: int| 0 <= i < j - 1 && #[trigger] fs[i].is_last;
            assert(fs[i].number == k);
        }
        if f.is_last {
            assert forall|x: u16| #[trigger] w.frames.contains_key(x) implies x < k by {
                lemma_frame_map_dom(p, x);
                let i = choose|i: int| 0 <= i < p.len() && p[i].number == x;
                assert(p[i] == fs[i]);
            }
            assert(w.frames.restrict(Set::new(|x: u16| x < f.number)) =~= w.frames);
        }
        let (x, r) = step(w, f, l1);
        assert(r is Ok);
        assert(x.closed == exists|i: int| 0 <= i < j && #[trigger] fs[i].is_last) by {
            if x.closed && !f.is_last {
                let i = choose|i: int| 0 <= i < j - 1 && #[trigger] fs[i].is_last;
                assert(0 <= i < j && fs[i].is_last);
            }
            if exists|i: int| 0 <= i < j && #[trigger] fs[i].is_last {
                let i = choose|i: int| 0 <= i < j && #[trigger] fs[i].is_last;
                if i < j - 1 {
                    assert(w.closed);
                }
            }
        }
    }
}

/// Offering the frames `0 ..= k` of a channel to a fresh channel, in any order, accepts every
/// one of them; the channel is then ready, and its data is the payloads in frame order.
pub proof fn lemma_any_order_ready(
    id: Seq<u8>,
    open_block: BlockInfo,
    fs: Seq<Frame>,
    k: u16,
    l1: BlockInfo,
)
    requires
        complete_frame_set(fs, id, k),
    ensures
        add_all(fresh_view(id, open_block), fs, l1).1,
        ready(add_all(fresh_view(id, open_block), fs, l1).0),
        spec_frame_data(add_all(fresh_view(id, open_block), fs, l1).0) == Some(
            concat_frames(frame_map(fs), k as nat + 1),
        ),
{
    lemma_prefix_accepted(id, open_block, fs, k, l1, fs.len() as int);
    assert(fs.take(fs.len() as int) =~= fs);
    let w = add_all(fresh_view(id, open_block), fs, l1).0;
    assert(has_number(fs, k));
    let i = choose|i: int| 0 <= i < fs.len() && fs[i].number == k;
    assert(fs[i].is_last);
    assert forall|n: u16| n <= w.last implies #[trigger] w.frames.contains_key(n) by {
        assert(has_number(fs, n));
        lemma_frame_map_dom(fs, n);
    }
    lemma_frame_map_dom(fs, k);
    assert(w.frames.contains_key(k));
}

} // verus!
