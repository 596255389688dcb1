//! The three-byte control messages sent to the tone generator, and the
//! transitions of the channel table that they announce.
use vstd::prelude::*;
use crate::note::{freq_to_note_id, note_of};
use crate::table::{Channel, accepts, added, has_freq, lemma_position_of, position_of, removed, toggled};

verus! {

/// Status byte that switches a tone on.
pub const NOTE_ON: u8 = 0x90;

/// Status byte that switches a tone off.
pub const NOTE_OFF: u8 = 0x80;

/// A control message: status byte, note id and payload byte.
#[derive(Clone, Copy, Debug, PartialEq, Eq, Structural)]
pub struct Message {
    pub status: u8,
    pub note: u8,
    pub payload: u8,
}

/// The message that switches the channel `c` on: its note, and its strength
/// as the payload.
pub open spec fn on_message(c: Channel) -> Message {
    Message { status: NOTE_ON, note: note_of(c.freq as int) as u8, payload: c.strength }
}

/// The message that switches the tone at `f` off. Its payload is always zero.
pub open spec fn off_message(f: u32) -> Message {
    Message { status: NOTE_OFF, note: note_of(f as int) as u8, payload: 0 }
}

/// A change of the channel table that waits for its message to be sent.
#[derive(Clone, Copy, Debug, PartialEq, Eq, Structural)]
pub enum Pending {
    /// The channel is to be added.
    On(Channel),
    /// The channel is to be removed.
    Off(Channel),
}

/// The message that announces a change.
pub open spec fn message_of(p: Pending) -> Message {
    match p {
        Pending::On(c) => on_message(c),
        Pending::Off(c) => off_message(c.freq),
    }
}

/// The message that announces a change, if there is one.
pub open spec fn message_for(p: Option<Pending>) -> Option<Message> {
    match p {
        Some(q) => Some(message_of(q)),
        None => None,
    }
}

/// The channels `s` once the change `p` is made.
pub open spec fn applied(s: Seq<Channel>, p: Option<Pending>) -> Seq<Channel> {
    match p {
        Some(Pending::On(c)) => added(s, c),
        Some(Pending::Off(c)) => removed(s, c.freq),
        None => s,
    }
}

/// The channels `s` once the message of the change `p` was sent (`sent`) or
/// failed to go out: the change is made in the first case only.
pub open spec fn settled(s: Seq<Channel>, p: Option<Pending>, sent: bool) -> Seq<Channel> {
    if sent {
        applied(s, p)
    } else {
        s
    }
}

/// The change that adding `c` to `s` asks for: none when `s` refuses it.
pub open spec fn add_plan(s: Seq<Channel>, c: Channel) -> Option<Pending> {
    if accepts(s, c.freq) {
        Some(Pending::On(c))
    } else {
        None
    }
}

/// The change that removing the tone at `f` from `s` asks for: none when no
/// channel of `s` has that frequency.
pub open spec fn remove_plan(s: Seq<Channel>, f: u32) -> Option<Pending> {
    match position_of(s, f) {
        Some(i) => Some(Pending::Off(s[i])),
        None => None,
    }
}

/// The change that toggling `c` in `s` asks for.
pub open spec fn toggle_plan(s: Seq<Channel>, c: Channel) -> Option<Pending> {
    if has_freq(s, c.freq) {
        remove_plan(s, c.freq)
    } else {
        add_plan(s, c)
    }
}

/// A change whose message was not sent leaves the channels as they were.
pub proof fn lemma_unsent_keeps_table(s: Seq<Channel>, p: Option<Pending>)
    ensures
        settled(s, p, false) == s,
{
}

/// A removal is announced by a switch-off message for its frequency, whose
/// payload is zero whatever the strength of the channel removed.
pub proof fn lemma_off_message(s: Seq<Channel>, f: u32)
    ensures
        remove_plan(s, f) matches Some(p) ==> message_of(p) == off_message(f) && message_of(p).status
            == NOTE_OFF && message_of(p).payload == 0,
{
    lemma_position_of(s, f);
}

/// Once its message is sent, each request makes exactly the change of the
/// channel table's own operation: adding, removing, toggling.
pub proof fn lemma_plans_apply(s: Seq<Channel>, c: Channel, f: u32)
    ensures
        settled(s, add_plan(s, c), true) == added(s, c),
        settled(s, remove_plan(s, f), true) == removed(s, f),
        settled(s, toggle_plan(s, c), true) == toggled(s, c),
{
    lemma_position_of(s, f);
    lemma_position_of(s, c.freq);
}

/// The channels `s` after `n` rounds of clearing: each round removes the
/// first channel once its switch-off message is sent.
pub open spec fn cleared(s: Seq<Channel>, n: nat) -> Seq<Channel>
    decreases n,
{
    if n == 0 || s.len() == 0 {
        s
    } else {
        cleared(settled(s, remove_plan(s, s[0].freq), true), (n - 1) as nat)
    }
}

/// Clearing removes the first channel with a switch-off message for its
/// frequency, and as many rounds as there are channels empty the table.
pub proof fn lemma_clear_all(s: Seq<Channel>)
    ensures
        s.len() > 0 ==> remove_plan(s, s[0].freq) == Some(Pending::Off(s[0])),
        s.len() > 0 ==> message_of(Pending::Off(s[0])) == off_message(s[0].freq),
        s.len() > 0 ==> settled(s, remove_plan(s, s[0].freq), true) == s.drop_first(),
        cleared(s, s.len()) == Seq::<Channel>::empty(),
    decreases s.len(),
{
    if s.len() > 0 {
        assert(position_of(s, s[0].freq) == Some(0int));
        assert(crate::table::without(s, 0) =~= s.drop_first());
        lemma_clear_all(s.drop_first());
    } else {
        assert(s =~= Seq::<Channel>::empty());
    }
}

impl Message {
    /// The three bytes of the message as they go on the wire.
    pub fn to_bytes(&self) -> (r: [u8; 3])
        ensures
            r@ == seq![self.status, self.note, self.payload],
    {
        let r = [self.status, self.note, self.payload];
        assert(r@ =~= seq![self.status, self.note, self.payload]);
        r
    }
}

/// The message that switches `c` on.
pub fn note_on(c: Channel) -> (m: Message)
    ensures
        m == on_message(c),
{
    Message { status: NOTE_ON, note: freq_to_note_id(c.freq), payload: c.strength }
}

/// The message that switches the tone at `freq` off.
pub fn note_off(freq: u32) -> (m: Message)
    ensures
        m == off_message(freq),
{
    Message { status: NOTE_OFF, note: freq_to_note_id(freq), payload: 0 }
}

/// The message that announces `p`.
pub fn message(p: Pending) -> (m: Message)
    ensures
        m == message_of(p),
{
    match p {
        Pending::On(c) => note_on(c),
        Pending::Off(c) => note_off(c.freq),
    }
}

/// A message typed in by hand: `command` must lie in `16..=240`, `note` and
/// `velocity` in `0..=126`. The status byte keeps the command's upper four
/// bits, with the top bit set, on channel zero.
pub open spec fn manual_message_spec(command: u8, note: u8, velocity: u8) -> Option<Message> {
    if 16 <= command <= 240 && note < 127 && velocity < 127 {
        Some(Message { status: ((command & 0xF0) | 0x80) as u8, note, payload: velocity })
    } else {
        None
    }
}

/// Builds a message typed in by hand, or `None` when a field is out of range.
pub fn manual_message(command: u8, note: u8, velocity: u8) -> (r: Option<Message>)
    ensures
        r == manual_message_spec(command, note, velocity),
{
    if command > 15 && command < 241 && note < 127 && velocity < 127 {
        Some(Message { status: (command & 0xF0) | 0x80, note, payload: velocity })
    } else {
        None
    }
}

} // verus!
