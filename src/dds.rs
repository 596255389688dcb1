//! The tone session: the channel table together with the change that waits
//! for its message.
//!
//! Every change of the table goes in two steps. A request (`add_signal`,
//! `remove_signal`, `toggle_signal`, `clear_next`) leaves the table as it is,
//! records the change it asks for and returns the message that announces it.
//! The caller sends that message and reports with [`DdsData::finish`] whether
//! the send succeeded; only then is the change made. A failed send leaves the
//! table untouched, so the table never shows a tone the device was not told
//! about.
use vstd::prelude::*;
use crate::protocol::{
    Message, Pending, add_plan, message, message_for, remove_plan, settled, toggle_plan,
};
use crate::table::{Channel, ChannelTable, lemma_position_of};

verus! {

/// Relies on `rand::random::<u8>`: a byte drawn by the thread-local generator.
/// Nothing is known of its value.
#[verifier::external_body]
fn random_strength() -> (r: u8) {
    rand::random::<u8>()
}

/// Whether the change `p` can be made to `s`: a channel to add is accepted,
/// a channel to remove is there.
pub open spec fn plan_ok(s: Seq<Channel>, p: Option<Pending>) -> bool {
    match p {
        Some(Pending::On(c)) => crate::table::accepts(s, c.freq),
        Some(Pending::Off(c)) => s.contains(c),
        None => true,
    }
}

/// The tone session.
pub struct DdsData {
    table: ChannelTable,
    rand: bool,
    pending: Option<Pending>,
}

impl DdsData {
    /// The active channels, in slot order.
    pub closed spec fn spec_channels(&self) -> Seq<Channel> {
        self.table@
    }

    /// The change that waits for its message.
    pub closed spec fn spec_pending(&self) -> Option<Pending> {
        self.pending
    }

    /// Whether added channels take a random strength.
    pub closed spec fn spec_rand(&self) -> bool {
        self.rand
    }

    /// The session's invariant: a well-formed table, and a waiting change
    /// that can be made to it.
    pub closed spec fn wf(&self) -> bool {
        self.table.wf() && plan_ok(self.table@, self.pending)
    }

    /// A session with no channel, no waiting change and random strength off.
    pub fn new() -> (r: DdsData)
        ensures
            r.wf(),
            r.spec_channels() == Seq::<Channel>::empty(),
            r.spec_pending() is None,
            !r.spec_rand(),
    {
        DdsData { table: ChannelTable::new(), rand: false, pending: None }
    }

    /// The active channels, in slot order.
    pub fn channels(&self) -> (r: &Vec<Channel>)
        ensures
            r@ == self.spec_channels(),
    {
        self.table.channels()
    }

    /// The change that waits for its message.
    pub fn pending(&self) -> (r: Option<Pending>)
        ensures
            r == self.spec_pending(),
    {
        self.pending
    }

    /// Whether added channels take a random strength.
    pub fn is_random(&self) -> (r: bool)
        ensures
            r == self.spec_rand(),
    {
        self.rand
    }

    /// Records the change `p` and returns its message.
    fn record(&mut self, p: Option<Pending>) -> (r: Option<Message>)
        requires
            old(self).wf(),
            plan_ok(old(self).spec_channels(), p),
        ensures
            final(self).wf(),
            final(self).spec_channels() == old(self).spec_channels(),
            final(self).spec_rand() == old(self).spec_rand(),
            final(self).spec_pending() == p,
            r == message_for(p),
    {
        self.pending = p;
        match p {
            Some(q) => Some(message(q)),
            None => None,
        }
    }

    /// Asks to add the channel `(freq, strength)`. When the table accepts it,
    /// the addition waits and its switch-on message is returned; otherwise
    /// nothing waits and `None` is returned. The table is not changed.
    pub fn begin_add(&mut self, freq: u32, strength: u8) -> (r: Option<Message>)
        requires
            old(self).wf(),
        ensures
            final(self).wf(),
            final(self).spec_channels() == old(self).spec_channels(),
            final(self).spec_rand() == old(self).spec_rand(),
            final(self).spec_pending() == add_plan(old(self).spec_channels(), (Channel { freq, strength })),
            r == message_for(final(self).spec_pending()),
    {
        let c = Channel { freq, strength };
        let p = if self.table.accepts(freq) {
            Some(Pending::On(c))
        } else {
            None
        };
        self.record(p)
    }

    /// Asks to add a channel at `freq`: with strength `strength`, or with a
    /// random one when random strength is on. See [`DdsData::begin_add`].
    pub fn add_signal(&mut self, freq: u32, strength: u8) -> (r: Option<Message>)
        requires
            old(self).wf(),
        ensures
            final(self).wf(),
            final(self).spec_channels() == old(self).spec_channels(),
            final(self).spec_rand() == old(self).spec_rand(),
            exists|s: u8|
                (!old(self).spec_rand() ==> s == strength) && #[trigger] add_plan(
                    old(self).spec_channels(),
                    (Channel { freq, strength: s }),
                ) == final(self).spec_pending(),
            r == message_for(final(self).spec_pending()),
    {
        let s = if self.rand {
            random_strength()
        } else {
            strength
        };
        self.begin_add(freq, s)
    }

    /// Asks to remove the channel at `freq`. When there is one, its removal
    /// waits and the switch-off message is returned; otherwise nothing waits
    /// and `None` is returned. The table is not changed.
    pub fn remove_signal(&mut self, freq: u32) -> (r: Option<Message>)
        requires
            old(self).wf(),
        ensures
            final(self).wf(),
            final(self).spec_channels() == old(self).spec_channels(),
            final(self).spec_rand() == old(self).spec_rand(),
            final(self).spec_pending() == remove_plan(old(self).spec_channels(), freq),
            r == message_for(final(self).spec_pending()),
    {
        proof {
            lemma_position_of(self.table@, freq);
        }
        let p = match self.table.position(freq) {
            Some(i) => {
                let c = self.table.channels()[i];
                proof {
                    assert(self.table@.contains(c));
                }
                Some(Pending::Off(c))
            },
            None => None,
        };
        self.record(p)
    }

    /// Asks to switch the tone at `freq`: its removal when a channel of that
    /// frequency is active (whatever its strength), else the addition of a
    /// channel as [`DdsData::add_signal`] does.
    pub fn toggle_signal(&mut self, freq: u32, strength: u8) -> (r: Option<Message>)
        requires
            old(self).wf(),
        ensures
            final(self).wf(),
            final(self).spec_channels() == old(self).spec_channels(),
            final(self).spec_rand() == old(self).spec_rand(),
            exists|s: u8|
                (!old(self).spec_rand() ==> s == strength) && #[trigger] toggle_plan(
                    old(self).spec_channels(),
                    (Channel { freq, strength: s }),
                ) == final(self).spec_pending(),
            r == message_for(final(self).spec_pending()),
    {
        if self.table.contains_frequency(freq) {
            let r = self.remove_signal(freq);
            assert(toggle_plan(old(self).spec_channels(), Channel { freq, strength })
                == self.spec_pending());
            r
        } else {
            let r = self.add_signal(freq, strength);
            let ghost s = choose|s: u8|
                (!old(self).spec_rand() ==> s == strength) && #[trigger] add_plan(
                    old(self).spec_channels(),
                    Channel { freq, strength: s },
                ) == self.spec_pending();
            assert(toggle_plan(old(self).spec_channels(), Channel { freq, strength: s })
                == self.spec_pending());
            r
        }
    }

    /// Asks to remove the first active channel; `None` when there is none.
    /// Called until it returns `None`, with each message sent and finished,
    /// it switches every tone off one at a time.
    pub fn clear_next(&mut self) -> (r: Option<Message>)
        requires
            old(self).wf(),
        ensures
            final(self).wf(),
            final(self).spec_channels() == old(self).spec_channels(),
            final(self).spec_rand() == old(self).spec_rand(),
            old(self).spec_channels().len() == 0 ==> final(self).spec_pending() is None,
            old(self).spec_channels().len() > 0 ==> final(self).spec_pending() == Some(
                Pending::Off(old(self).spec_channels()[0]),
            ),
            r == message_for(final(self).spec_pending()),
    {
        if self.table.is_empty() {
            self.record(None)
        } else {
            let f = self.table.channels()[0].freq;
            let r = self.remove_signal(f);
            proof {
                let s = old(self).spec_channels();
                assert(crate::table::position_of(s, f) == Some(0int));
            }
            r
        }
    }

    /// Makes the waiting change if `sent` (its message went out), drops it
    /// otherwise; nothing waits afterwards. Returns whether the table changed.
    pub fn finish(&mut self, sent: bool) -> (r: bool)
        requires
            old(self).wf(),
        ensures
            final(self).wf(),
            final(self).spec_pending() is None,
            final(self).spec_rand() == old(self).spec_rand(),
            final(self).spec_channels() == settled(old(self).spec_channels(), old(self).spec_pending(), sent),
            r == (sent && old(self).spec_pending() is Some),
    {
        let p = self.pending;
        self.pending = None;
        if !sent {
            return false;
        }
        match p {
            Some(Pending::On(c)) => {
                self.table.add(c.freq, c.strength);
                true
            },
            Some(Pending::Off(c)) => {
                self.table.remove(c.freq);
                true
            },
            None => false,
        }
    }

    /// Switches random strength on or off.
    pub fn toggle_rand(&mut self)
        requires
            old(self).wf(),
        ensures
            final(self).wf(),
            final(self).spec_rand() == !old(self).spec_rand(),
            final(self).spec_channels() == old(self).spec_channels(),
            final(self).spec_pending() == old(self).spec_pending(),
    {
        self.rand = !self.rand;
    }
}

} // verus!
