//! Outbound side of the session: the messages that producers queue, the
//! transport frames, and the relay that writes queued messages in order.
use vstd::prelude::*;

verus! {

/// Seconds between two heartbeat probes.
pub const HEARTBEAT_INTERVAL_SECS: u64 = 5;

/// A transport frame.
#[derive(Clone, Debug)]
pub enum Frame {
    Binary(Vec<u8>),
    Text(Vec<u8>),
    Ping(Vec<u8>),
    Pong(Vec<u8>),
    Close,
    Other,
}

/// The mathematical value of a frame.
pub enum FrameView {
    Binary(Seq<u8>),
    Text(Seq<u8>),
    Ping(Seq<u8>),
    Pong(Seq<u8>),
    Close,
    Other,
}

impl View for Frame {
    type V = FrameView;

    open spec fn view(&self) -> FrameView {
        match self {
            Frame::Binary(b) => FrameView::Binary(b@),
            Frame::Text(b) => FrameView::Text(b@),
            Frame::Ping(b) => FrameView::Ping(b@),
            Frame::Pong(b) => FrameView::Pong(b@),
            Frame::Close => FrameView::Close,
            Frame::Other => FrameView::Other,
        }
    }
}

/// A message queued for the relay by one of its producers.
#[derive(Clone, Debug)]
pub enum OutboundMessage {
    /// Keystroke bytes.
    Text(Vec<u8>),
    /// A liveness probe.
    Ping(Vec<u8>),
    /// The answer to a probe of the remote side.
    Pong(Vec<u8>),
}

pub enum MessageView {
    Text(Seq<u8>),
    Ping(Seq<u8>),
    Pong(Seq<u8>),
}

impl View for OutboundMessage {
    type V = MessageView;

    open spec fn view(&self) -> MessageView {
        match self {
            OutboundMessage::Text(b) => MessageView::Text(b@),
            OutboundMessage::Ping(b) => MessageView::Ping(b@),
            OutboundMessage::Pong(b) => MessageView::Pong(b@),
        }
    }
}

/// The frame that carries a message: text as text, ping as ping, pong as pong.
pub open spec fn frame_of(m: MessageView) -> FrameView {
    match m {
        MessageView::Text(b) => FrameView::Text(b),
        MessageView::Ping(b) => FrameView::Ping(b),
        MessageView::Pong(b) => FrameView::Pong(b),
    }
}

pub open spec fn frames_of(ms: Seq<MessageView>) -> Seq<FrameView> {
    ms.map_values(|m: MessageView| frame_of(m))
}

/// Translates a queued message into the frame written to the transport.
pub fn to_frame(m: OutboundMessage) -> (r: Frame)
    ensures
        r@ == frame_of(m@),
{
    match m {
        OutboundMessage::Text(b) => Frame::Text(b),
        OutboundMessage::Ping(b) => Frame::Ping(b),
        OutboundMessage::Pong(b) => Frame::Pong(b),
    }
}

/// The probe that the heartbeat queues on each tick: a ping with an empty
/// payload.
pub fn heartbeat_message() -> (r: OutboundMessage)
    ensures
        r@ == MessageView::Ping(Seq::empty()),
{
    OutboundMessage::Ping(Vec::new())
}

/// The message for one byte read from the local terminal. A lone byte is
/// UTF-8 text exactly when it is below 0x80; any other byte gives `None`
/// and ends the reader.
pub fn keystroke_message(b: u8) -> (r: Option<OutboundMessage>)
    ensures
        b < 0x80 ==> (r matches Some(m) && m@ == MessageView::Text(seq![b])),
        b >= 0x80 ==> r is None,
{
    if b < 0x80 {
        let mut v: Vec<u8> = Vec::new();
        v.push(b);
        assert(v@ =~= seq![b]);
        Some(OutboundMessage::Text(v))
    } else {
        None
    }
}

#[derive(Clone, Copy, Debug, PartialEq, Eq, Structural)]
pub enum RelayState {
    /// Waiting for the next queued message.
    Running,
    /// Every producer is gone; the relay ended normally.
    Drained,
    /// A write failed; the transport is taken to be broken.
    WriteFailed,
}

/// The single writer of the transport's send half.
pub struct Relay {
    state: RelayState,
    taken: Ghost<Seq<MessageView>>,
}

impl Relay {
    pub closed spec fn state(&self) -> RelayState {
        self.state
    }

    /// The messages taken from the queue so far, in queue order.
    pub closed spec fn taken(&self) -> Seq<MessageView> {
        self.taken@
    }

    /// The frames handed to the transport so far, in order.
    pub open spec fn written(&self) -> Seq<FrameView> {
        frames_of(self.taken())
    }

    pub fn new() -> (r: Relay)
        ensures
            r.state() == RelayState::Running,
            r.taken() == Seq::<MessageView>::empty(),
    {
        Relay { state: RelayState::Running, taken: Ghost(Seq::empty()) }
    }

    pub fn state_now(&self) -> (r: RelayState)
        ensures
            r == self.state(),
    {
        self.state
    }

    /// Takes the next queued message and gives the frame to write for it.
    pub fn on_message(&mut self, m: OutboundMessage) -> (r: Frame)
        requires
            old(self).state() == RelayState::Running,
        ensures
            final(self).state() == RelayState::Running,
            final(self).taken() == old(self).taken().push(m@),
            r@ == frame_of(m@),
            final(self).written() == old(self).written().push(r@),
    {
        let ghost mv = m@;
        self.taken = Ghost(self.taken@.push(mv));
        let r = to_frame(m);
        proof {
            assert(frames_of(self.taken@) =~= frames_of(old(self).taken@).push(frame_of(mv)));
        }
        r
    }

    /// Records the outcome of the last write: a failure ends the relay.
    pub fn on_write_result(&mut self, ok: bool)
        requires
            old(self).state() == RelayState::Running,
        ensures
            final(self).taken() == old(self).taken(),
            final(self).state() == (if ok {
                RelayState::Running
            } else {
                RelayState::WriteFailed
            }),
    {
        if !ok {
            self.state = RelayState::WriteFailed;
        }
    }

    /// All producers are gone: the relay ends.
    pub fn on_queue_closed(&mut self)
        requires
            old(self).state() == RelayState::Running,
        ensures
            final(self).taken() == old(self).taken(),
            final(self).state() == RelayState::Drained,
    {
        self.state = RelayState::Drained;
    }
}

/// The queue contents produced by heartbeat ticks and keystrokes arriving in
/// the order `order` (true: a tick, false: the next keystroke of `keys`).
pub open spec fn interleave(order: Seq<bool>, keys: Seq<Seq<u8>>) -> Seq<MessageView>
    decreases order.len(),
{
    if order.len() == 0 {
        Seq::empty()
    } else if order[0] {
        seq![MessageView::Ping(Seq::empty())] + interleave(order.drop_first(), keys)
    } else {
        seq![MessageView::Text(keys[0])] + interleave(order.drop_first(), keys.drop_first())
    }
}

pub open spec fn count_true(order: Seq<bool>) -> nat
    decreases order.len(),
{
    if order.len() == 0 {
        0
    } else {
        (if order[0] { 1nat } else { 0nat }) + count_true(order.drop_first())
    }
}

proof fn lemma_count_true_bound(order: Seq<bool>)
    ensures
        count_true(order) <= order.len(),
    decreases order.len(),
{
    if order.len() > 0 {
        lemma_count_true_bound(order.drop_first());
    }
}

/// The number of ping frames in `fs`.
pub open spec fn ping_count(fs: Seq<FrameView>) -> nat
    decreases fs.len(),
{
    if fs.len() == 0 {
        0
    } else {
        (if fs[0] is Ping { 1nat } else { 0nat }) + ping_count(fs.drop_first())
    }
}

/// The payloads of the text frames in `fs`, in order.
pub open spec fn text_payloads(fs: Seq<FrameView>) -> Seq<Seq<u8>>
    decreases fs.len(),
{
    if fs.len() == 0 {
        Seq::empty()
    } else {
        match fs[0] {
            FrameView::Text(t) => seq![t] + text_payloads(fs.drop_first()),
            _ => text_payloads(fs.drop_first()),
        }
    }
}

proof fn lemma_frames_of_cons(m: MessageView, ms: Seq<MessageView>)
    ensures
        frames_of(seq![m] + ms) == seq![frame_of(m)] + frames_of(ms),
{
    assert(frames_of(seq![m] + ms) =~= seq![frame_of(m)] + frames_of(ms));
}

/// However `n` heartbeat ticks and the keystrokes `keys` interleave in the
/// queue, the relay writes exactly `n` ping frames and one text frame per
/// keystroke, the keystrokes in the order typed, and nothing else.
pub proof fn lemma_relay_counts(order: Seq<bool>, keys: Seq<Seq<u8>>)
    requires
        order.len() == count_true(order) + keys.len(),
    ensures
        frames_of(interleave(order, keys)).len() == order.len(),
        ping_count(frames_of(interleave(order, keys))) == count_true(order),
        text_payloads(frames_of(interleave(order, keys))) == keys,
    decreases order.len(),
{
    if order.len() == 0 {
        assert(keys =~= Seq::<Seq<u8>>::empty());
    } else {
        let rest = order.drop_first();
        if order[0] {
            lemma_relay_counts(rest, keys);
            lemma_frames_of_cons(MessageView::Ping(Seq::empty()), interleave(rest, keys));
            let fs = frames_of(interleave(order, keys));
            assert(fs.drop_first() =~= frames_of(interleave(rest, keys)));
        } else {
            lemma_count_true_bound(rest);
            assert(keys.len() > 0);
            lemma_relay_counts(rest, keys.drop_first());
            lemma_frames_of_cons(MessageView::Text(keys[0]), interleave(rest, keys.drop_first()));
            let fs = frames_of(interleave(order, keys));
            assert(fs.drop_first() =~= frames_of(interleave(rest, keys.drop_first())));
            assert(keys =~= seq![keys[0]] + keys.drop_first());
        }
    }
}

/// A pong queued behind `before` is written right after the frames of
/// `before`, ahead of every message queued after it, which keep their order.
pub proof fn lemma_pong_precedes_later(
    before: Seq<MessageView>,
    payload: Seq<u8>,
    after: Seq<MessageView>,
)
    ensures
        ({
            let fs = frames_of(before + seq![MessageView::Pong(payload)] + after);
            &&& fs[before.len() as int] == FrameView::Pong(payload)
            &&& fs.subrange(0, before.len() as int) == frames_of(before)
            &&& fs.subrange(before.len() as int + 1, fs.len() as int) == frames_of(after)
        }),
{
    let fs = frames_of(before + seq![MessageView::Pong(payload)] + after);
    assert(fs.subrange(0, before.len() as int) =~= frames_of(before));
    assert(fs.subrange(before.len() as int + 1, fs.len() as int) =~= frames_of(after));
}

} // verus!
