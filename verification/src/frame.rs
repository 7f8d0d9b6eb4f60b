//! Frame assembler: accumulates pixel-color writes arriving at arbitrary
//! offsets across multiple packets into one logical frame, detects frame
//! completion, and hands off the complete color buffer atomically.
//!
//! A write at offset 0 always starts a new frame; writes arriving before a
//! frame start are ignored; the buffer grows lazily with off colors and
//! never exceeds the configured maximum LED count.

use vstd::prelude::*;

use crate::BoardError;
use crate::color::{Color, off_color};
use crate::config;

verus! {

/// Frame assembly progress.
#[derive(Debug, Clone, Copy, PartialEq, Eq, Structural)]
pub enum FrameState {
    /// No frame start (offset-0 write) seen yet.
    WaitingForFrame,
    /// A frame is being collected.
    CollectingFrame,
    /// The frame is complete and awaits hand-off.
    FrameComplete,
}

/// Mathematical model of a frame assembler.
pub struct FrameModel {
    pub buffer: Seq<Color>,
    pub state: FrameState,
    pub expected_frame_size: usize,
    pub fast_threshold: usize,
    pub max_leds: usize,
}

/// The completion threshold: the smaller of the fast-path threshold and
/// the configured frame size, so short strips complete quickly while the
/// wait for long ones stays bounded.
pub open spec fn threshold_of(m: FrameModel) -> int {
    if m.fast_threshold < m.expected_frame_size {
        m.fast_threshold as int
    } else {
        m.expected_frame_size as int
    }
}

/// The buffer never exceeds the configured maximum LED count.
pub open spec fn frame_wf(m: FrameModel) -> bool {
    m.buffer.len() <= m.max_leds
}

/// The model of a freshly created assembler for the given configuration.
pub open spec fn initial_frame_model(
    expected_frame_size: usize,
    fast_threshold: usize,
    max_leds: usize,
) -> FrameModel {
    FrameModel {
        buffer: Seq::empty(),
        state: FrameState::WaitingForFrame,
        expected_frame_size,
        fast_threshold,
        max_leds,
    }
}

/// The buffer after writing `colors` at `offset`: grown with off colors
/// where needed, the written slots overwritten, all others kept.
pub open spec fn written_buffer(buf: Seq<Color>, offset: int, colors: Seq<Color>) -> Seq<Color> {
    let new_len = if buf.len() >= offset + colors.len() {
        buf.len() as int
    } else {
        offset + colors.len()
    };
    Seq::new(
        new_len as nat,
        |i: int|
            if offset <= i < offset + colors.len() {
                colors[i - offset]
            } else if i < buf.len() {
                buf[i]
            } else {
                off_color()
            },
    )
}

/// One `accept` step on the model.  Returns the new model and whether the
/// write was within capacity (`false` is the capacity error).
///
/// A write at offset 0 resets the buffer unconditionally and starts a new
/// frame; a non-zero offset while no frame is in progress is ignored; a
/// write that would exceed the maximum LED count aborts without touching
/// the buffer; otherwise the slots are overwritten (last writer wins) and
/// the frame completes once the buffer reaches the completion threshold.
pub open spec fn accept_model(m: FrameModel, offset: u16, colors: Seq<Color>) -> (FrameModel, bool) {
    if offset != 0 && m.state == FrameState::WaitingForFrame {
        (m, true)
    } else {
        let m1 = if offset == 0 {
            FrameModel { buffer: Seq::empty(), state: FrameState::CollectingFrame, ..m }
        } else {
            m
        };
        if offset + colors.len() > m1.max_leds {
            (m1, false)
        } else {
            let buf2 = written_buffer(m1.buffer, offset as int, colors);
            let state2 = if m1.state == FrameState::FrameComplete {
                FrameState::FrameComplete
            } else if buf2.len() >= threshold_of(m1) {
                FrameState::FrameComplete
            } else {
                FrameState::CollectingFrame
            };
            (FrameModel { buffer: buf2, state: state2, ..m1 }, true)
        }
    }
}

/// One `accept_empty` step on the model: a zero-length write at offset 0
/// while a non-empty frame is being collected is an explicit end-of-frame
/// signal; everything else is ignored.
pub open spec fn accept_empty_model(m: FrameModel, offset: u16) -> FrameModel {
    if offset == 0 && m.state == FrameState::CollectingFrame && m.buffer.len() > 0 {
        FrameModel { state: FrameState::FrameComplete, ..m }
    } else {
        m
    }
}

/// The model after a complete frame was taken: the buffer is empty and
/// the assembler waits for the next frame start.
pub open spec fn taken_model(m: FrameModel) -> FrameModel {
    FrameModel { buffer: Seq::empty(), state: FrameState::WaitingForFrame, ..m }
}

/// Stateful frame assembler.
pub struct FrameAssembler {
    buffer: Vec<Color>,
    state: FrameState,
    expected_frame_size: usize,
    fast_threshold: usize,
    max_leds: usize,
}

impl View for FrameAssembler {
    type V = FrameModel;

    closed spec fn view(&self) -> FrameModel {
        FrameModel {
            buffer: self.buffer@,
            state: self.state,
            expected_frame_size: self.expected_frame_size,
            fast_threshold: self.fast_threshold,
            max_leds: self.max_leds,
        }
    }
}

impl FrameAssembler {
    /// Create an assembler with the default fast-path threshold.
    pub fn new(expected_frame_size: usize, max_leds: usize) -> (a: Self)
        ensures
            a@ == initial_frame_model(expected_frame_size, config::FAST_FRAME_THRESHOLD, max_leds),
    {
        Self {
            buffer: Vec::new(),
            state: FrameState::WaitingForFrame,
            expected_frame_size,
            fast_threshold: config::FAST_FRAME_THRESHOLD,
            max_leds,
        }
    }

    /// Create an assembler with an explicit fast-path completion
    /// threshold.
    pub fn with_fast_threshold(
        expected_frame_size: usize,
        fast_threshold: usize,
        max_leds: usize,
    ) -> (a: Self)
        ensures
            a@ == initial_frame_model(expected_frame_size, fast_threshold, max_leds),
    {
        Self {
            buffer: Vec::new(),
            state: FrameState::WaitingForFrame,
            expected_frame_size,
            fast_threshold,
            max_leds,
        }
    }

    /// The current assembly state.
    pub fn frame_state(&self) -> (s: FrameState)
        ensures
            s == self@.state,
    {
        self.state
    }

    /// How many pixels the current frame holds so far.
    pub fn received_count(&self) -> (n: usize)
        ensures
            n == self@.buffer.len(),
    {
        self.buffer.len()
    }

    /// Accept a pixel write at the given offset.  Fails with a driver
    /// error if the write would exceed the maximum LED count; the buffer
    /// is then left as it was.
    pub fn accept(&mut self, offset: u16, colors: &Vec<Color>) -> (r: Result<(), BoardError>)
        ensures
            final(self)@ == accept_model(old(self)@, offset, colors@).0,
            r is Ok <==> accept_model(old(self)@, offset, colors@).1,
            r is Err ==> r == Err::<(), BoardError>(BoardError::LedError),
    {
        if offset == 0 {
            self.buffer = Vec::new();
            self.state = FrameState::CollectingFrame;
        } else if matches!(self.state, FrameState::WaitingForFrame) {
            return Ok(());
        }
        let ghost m1 = self@;
        let off = offset as usize;
        let count = colors.len();
        if count > self.max_leds || off > self.max_leds - count {
            return Err(BoardError::LedError);
        }
        let needed = off + count;
        while self.buffer.len() < needed
            invariant
                self@ == (FrameModel { buffer: self.buffer@, ..m1 }),
                needed == off + count <= m1.max_leds,
                self.buffer@.len() <= needed || self.buffer@.len() == m1.buffer.len(),
                self.buffer@.len() >= m1.buffer.len(),
                forall|i: int| 0 <= i < m1.buffer.len() ==> self.buffer@[i] == m1.buffer[i],
                forall|i: int|
                    m1.buffer.len() <= i < self.buffer@.len() ==> self.buffer@[i] == off_color(),
            decreases needed - self.buffer.len(),
        {
            self.buffer.push(Color::off());
        }
        let ghost grown = self.buffer@;
        let mut i: usize = 0;
        while i < count
            invariant
                self@ == (FrameModel { buffer: self.buffer@, ..m1 }),
                count == colors@.len(),
                needed == off + count <= m1.max_leds,
                i <= count,
                self.buffer@.len() == grown.len(),
                grown.len() >= off + count,
                grown.len() >= m1.buffer.len(),
                grown.len() <= needed || grown.len() == m1.buffer.len(),
                forall|j: int| 0 <= j < m1.buffer.len() ==> grown[j] == m1.buffer[j],
                forall|j: int| m1.buffer.len() <= j < grown.len() ==> grown[j] == off_color(),
                forall|j: int| off <= j < off + i ==> self.buffer@[j] == colors@[j - off],
                forall|j: int|
                    0 <= j < grown.len() && !(off <= j < off + i) ==> self.buffer@[j] == grown[j],
            decreases count - i,
        {
            self.buffer[off + i] = colors[i];
            i = i + 1;
        }
        proof {
            let wb = written_buffer(m1.buffer, off as int, colors@);
            assert(self.buffer@.len() == wb.len());
            assert forall|k: int| 0 <= k < wb.len() implies self.buffer@[k] == wb[k] by {
                if off <= k < off + count {
                    assert(self.buffer@[k] == colors@[k - off]);
                } else if k < m1.buffer.len() {
                    assert(self.buffer@[k] == grown[k]);
                    assert(grown[k] == m1.buffer[k]);
                } else {
                    assert(self.buffer@[k] == grown[k]);
                    assert(grown[k] == off_color());
                }
            }
            assert(self.buffer@ =~= wb);
        }
        let threshold = if self.fast_threshold < self.expected_frame_size {
            self.fast_threshold
        } else {
            self.expected_frame_size
        };
        if !matches!(self.state, FrameState::FrameComplete) && self.buffer.len() >= threshold {
            self.state = FrameState::FrameComplete;
        }
        Ok(())
    }

    /// Accept a zero-length write: at offset 0 while a non-empty frame is
    /// being collected it is an explicit end-of-frame signal; otherwise it
    /// is ignored.
    pub fn accept_empty(&mut self, offset: u16)
        ensures
            final(self)@ == accept_empty_model(old(self)@, offset),
    {
        if offset == 0 && matches!(self.state, FrameState::CollectingFrame) && self.buffer.len()
            > 0 {
            self.state = FrameState::FrameComplete;
        }
    }

    /// Take the completed frame, if any: returns the buffer contents and
    /// resets the assembler to wait for the next frame.  An atomic
    /// hand-off: no partial frame is ever returned.
    pub fn take_complete_frame(&mut self) -> (r: Option<Vec<Color>>)
        ensures
            old(self)@.state == FrameState::FrameComplete ==> {
                &&& r matches Some(frame) && frame@ == old(self)@.buffer
                &&& final(self)@ == taken_model(old(self)@)
            },
            old(self)@.state != FrameState::FrameComplete ==> {
                &&& r is None
                &&& *final(self) == *old(self)
            },
    {
        if matches!(self.state, FrameState::FrameComplete) {
            let mut frame: Vec<Color> = Vec::new();
            core::mem::swap(&mut frame, &mut self.buffer);
            self.state = FrameState::WaitingForFrame;
            Some(frame)
        } else {
            None
        }
    }
}

/// A write at offset 0 always starts a new frame, whatever the prior
/// buffer and state held: the buffer afterwards is exactly the written
/// colors, and completion depends only on their count and the
/// configured thresholds.
pub proof fn lemma_offset_zero_resets(m: FrameModel, colors: Seq<Color>)
    requires
        colors.len() <= m.max_leds,
    ensures
        accept_model(m, 0, colors).1,
        accept_model(m, 0, colors).0.buffer == colors,
        accept_model(m, 0, colors).0.state == if colors.len() >= threshold_of(m) {
            FrameState::FrameComplete
        } else {
            FrameState::CollectingFrame
        },
{
    assert(written_buffer(Seq::empty(), 0, colors) =~= colors);
}

/// A fragment arriving before any frame start is ignored outright:
/// no buffer mutation, no state change, no error.
pub proof fn lemma_ignored_before_frame_start(m: FrameModel, offset: u16, colors: Seq<Color>)
    requires
        m.state == FrameState::WaitingForFrame,
        offset != 0,
    ensures
        accept_model(m, offset, colors).0 == m,
        accept_model(m, offset, colors).1,
{
}

/// The buffer covers every write applied since the last reset: after an
/// accepted write into a frame in progress it is at least
/// `offset + colors.len()` long, and it never shrinks except on reset.
pub proof fn lemma_accept_covers_write(m: FrameModel, offset: u16, colors: Seq<Color>)
    requires
        accept_model(m, offset, colors).1,
        offset == 0 || m.state != FrameState::WaitingForFrame,
    ensures
        accept_model(m, offset, colors).0.buffer.len() >= offset + colors.len(),
{
}

/// Capacity is preserved: an accepted write never leaves the buffer
/// longer than the configured maximum LED count.
pub proof fn lemma_accept_preserves_wf(m: FrameModel, offset: u16, colors: Seq<Color>)
    requires
        frame_wf(m),
    ensures
        frame_wf(accept_model(m, offset, colors).0),
{
}

/// Hand-off leaves no residue: after a complete frame is taken the
/// assembler is exactly a freshly created one with the same
/// configuration, so no hidden state can make a replayed frame differ.
pub proof fn lemma_take_resets(m: FrameModel)
    ensures
        taken_model(m) == initial_frame_model(m.expected_frame_size, m.fast_threshold, m.max_leds),
{
    assert(taken_model(m) =~= initial_frame_model(
        m.expected_frame_size,
        m.fast_threshold,
        m.max_leds,
    ));
}

/// Running a sequence of writes on the model, ignoring capacity errors'
/// results (each write leaves the model as `accept_model` says).
pub open spec fn run_writes(m: FrameModel, writes: Seq<(u16, Seq<Color>)>) -> FrameModel
    decreases writes.len(),
{
    if writes.len() == 0 {
        m
    } else {
        run_writes(accept_model(m, writes[0].0, writes[0].1).0, writes.drop_first())
    }
}

/// Committing the same frame twice is idempotent: take a complete frame,
/// replay the same writes, and the second complete frame taken is
/// identical to the first -- no hidden counter drifts between frames.
pub proof fn lemma_commit_replay_identical(m0: FrameModel, writes: Seq<(u16, Seq<Color>)>)
    requires
        run_writes(m0, writes).state == FrameState::FrameComplete,
        m0 == initial_frame_model(m0.expected_frame_size, m0.fast_threshold, m0.max_leds),
    ensures
        run_writes(taken_model(run_writes(m0, writes)), writes).buffer == run_writes(
            m0,
            writes,
        ).buffer,
        run_writes(taken_model(run_writes(m0, writes)), writes).state
            == FrameState::FrameComplete,
{
    let after_take = taken_model(run_writes(m0, writes));
    lemma_take_resets(run_writes(m0, writes));
    lemma_run_writes_config(m0, writes);
    assert(after_take =~= m0);
}

/// The configuration fields are never changed by writes.
pub proof fn lemma_run_writes_config(m: FrameModel, writes: Seq<(u16, Seq<Color>)>)
    ensures
        run_writes(m, writes).expected_frame_size == m.expected_frame_size,
        run_writes(m, writes).fast_threshold == m.fast_threshold,
        run_writes(m, writes).max_leds == m.max_leds,
    decreases writes.len(),
{
    if writes.len() > 0 {
        lemma_run_writes_config(accept_model(m, writes[0].0, writes[0].1).0, writes.drop_first());
    }
}

} // verus!
