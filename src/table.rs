//! The table of active tone channels.
//!
//! A channel is a frequency (whole millihertz) with a strength (the velocity
//! byte sent to the device). The frequency is the channel's key: the table
//! never holds two channels of one frequency, whatever their strengths, and it
//! never holds more than [`CAPACITY`] channels. Channels keep the order in
//! which they were added; a channel's position is its slot.
use vstd::prelude::*;

verus! {

/// How many channels the device can play at once.
pub const CAPACITY: usize = 10;

/// One active tone: a frequency in millihertz and the strength it plays at.
#[derive(Clone, Copy, Debug, PartialEq, Eq, Structural)]
pub struct Channel {
    pub freq: u32,
    pub strength: u8,
}

/// Whether some channel of `s` has the frequency `f`.
pub open spec fn has_freq(s: Seq<Channel>, f: u32) -> bool {
    exists|i: int| 0 <= i < s.len() && (#[trigger] s[i]).freq == f
}

/// Whether no two channels of `s` share a frequency.
pub open spec fn freqs_unique(s: Seq<Channel>) -> bool {
    forall|i: int, j: int|
        0 <= i < s.len() && 0 <= j < s.len() && i != j ==> (#[trigger] s[i]).freq != (#[trigger] s[j]).freq
}

/// The invariant of a table's channel sequence.
pub open spec fn table_ok(s: Seq<Channel>) -> bool {
    s.len() <= CAPACITY && freqs_unique(s)
}

/// Whether the channel `(f, _)` may join `s`: there is room and `f` is new.
pub open spec fn accepts(s: Seq<Channel>, f: u32) -> bool {
    s.len() < CAPACITY && !has_freq(s, f)
}

/// `s` after an attempt to add `c`.
pub open spec fn added(s: Seq<Channel>, c: Channel) -> Seq<Channel> {
    if accepts(s, c.freq) {
        s.push(c)
    } else {
        s
    }
}

/// `s` with the channel at position `i` taken out.
pub open spec fn without(s: Seq<Channel>, i: int) -> Seq<Channel> {
    s.subrange(0, i) + s.subrange(i + 1, s.len() as int)
}

/// The position of the first channel of `s` with frequency `f`, if any.
pub open spec fn position_of(s: Seq<Channel>, f: u32) -> Option<int>
    decreases s.len(),
{
    if s.len() == 0 {
        None
    } else if s[0].freq == f {
        Some(0)
    } else {
        match position_of(s.drop_first(), f) {
            Some(i) => Some(i + 1),
            None => None,
        }
    }
}

/// `s` after an attempt to remove the channel of frequency `f`.
pub open spec fn removed(s: Seq<Channel>, f: u32) -> Seq<Channel> {
    match position_of(s, f) {
        Some(i) => without(s, i),
        None => s,
    }
}

/// `s` after a toggle of `c`: the channel at `c.freq` goes if there is one,
/// else `c` is added.
pub open spec fn toggled(s: Seq<Channel>, c: Channel) -> Seq<Channel> {
    if has_freq(s, c.freq) {
        removed(s, c.freq)
    } else {
        added(s, c)
    }
}

/// `position_of` finds the first channel of frequency `f`, and finds one
/// exactly when there is one.
pub proof fn lemma_position_of(s: Seq<Channel>, f: u32)
    ensures
        position_of(s, f) is None <==> !has_freq(s, f),
        position_of(s, f) matches Some(i) ==> 0 <= i < s.len() && s[i].freq == f && forall|k: int|
            0 <= k < i ==> (#[trigger] s[k]).freq != f,
    decreases s.len(),
{
    if s.len() > 0 && s[0].freq == f {
        assert(has_freq(s, f));
    }
    if s.len() > 0 && s[0].freq != f {
        lemma_position_of(s.drop_first(), f);
        match position_of(s.drop_first(), f) {
            Some(i) => {
                assert forall|k: int| 0 <= k < i + 1 implies (#[trigger] s[k]).freq != f by {
                    if k > 0 {
                        assert(s[k] == s.drop_first()[k - 1]);
                    }
                }
            },
            None => {
                assert forall|k: int| 0 <= k < s.len() implies (#[trigger] s[k]).freq != f by {
                    if k > 0 {
                        assert(s[k] == s.drop_first()[k - 1]);
                    }
                }
            },
        }
    }
}

/// The channels of `without(s, i)` are those of `s` but the one at `i`.
pub proof fn lemma_without(s: Seq<Channel>, i: int)
    requires
        0 <= i < s.len(),
    ensures
        without(s, i).len() == s.len() - 1,
        forall|k: int| 0 <= k < i ==> #[trigger] without(s, i)[k] == s[k],
        forall|k: int| i <= k < s.len() - 1 ==> #[trigger] without(s, i)[k] == s[k + 1],
{
}

/// Removal keeps the table's invariant and takes out the only channel at `f`.
pub proof fn lemma_removed(s: Seq<Channel>, f: u32)
    requires
        table_ok(s),
    ensures
        table_ok(removed(s, f)),
        !has_freq(removed(s, f), f),
        has_freq(s, f) ==> removed(s, f).len() == s.len() - 1,
        !has_freq(s, f) ==> removed(s, f) == s,
        forall|g: u32| g != f ==> has_freq(removed(s, f), g) == has_freq(s, g),
{
    lemma_position_of(s, f);
    match position_of(s, f) {
        Some(i) => {
            lemma_without(s, i);
            let r = without(s, i);
            assert forall|a: int, b: int|
                0 <= a < r.len() && 0 <= b < r.len() && a != b implies (#[trigger] r[a]).freq
                != (#[trigger] r[b]).freq by {
                let a0 = if a < i { a } else { a + 1 };
                let b0 = if b < i { b } else { b + 1 };
                assert(r[a] == s[a0]);
                assert(r[b] == s[b0]);
            }
            assert forall|k: int| 0 <= k < r.len() implies (#[trigger] r[k]).freq != f by {
                let k0 = if k < i { k } else { k + 1 };
                assert(r[k] == s[k0]);
            }
            assert forall|g: u32| g != f implies has_freq(r, g) == has_freq(s, g) by {
                if has_freq(s, g) {
                    let j = choose|j: int| 0 <= j < s.len() && (#[trigger] s[j]).freq == g;
                    assert(j != i);
                    let j1 = if j < i { j } else { j - 1 };
                    assert(r[j1] == s[j]);
                }
                if has_freq(r, g) {
                    let j = choose|j: int| 0 <= j < r.len() && (#[trigger] r[j]).freq == g;
                    let j0 = if j < i { j } else { j + 1 };
                    assert(r[j] == s[j0]);
                }
            }
        },
        None => {},
    }
}

/// Adding keeps the table's invariant.
pub proof fn lemma_added(s: Seq<Channel>, c: Channel)
    requires
        table_ok(s),
    ensures
        table_ok(added(s, c)),
        accepts(s, c.freq) ==> has_freq(added(s, c), c.freq),
        accepts(s, c.freq) ==> added(s, c).len() == s.len() + 1,
        forall|g: u32| g != c.freq ==> has_freq(added(s, c), g) == has_freq(s, g),
{
    let r = added(s, c);
    if accepts(s, c.freq) {
        assert(r[s.len() as int] == c);
        assert forall|g: u32| g != c.freq implies has_freq(r, g) == has_freq(s, g) by {
            if has_freq(s, g) {
                let j = choose|j: int| 0 <= j < s.len() && (#[trigger] s[j]).freq == g;
                assert(r[j] == s[j]);
            }
            if has_freq(r, g) {
                let j = choose|j: int| 0 <= j < r.len() && (#[trigger] r[j]).freq == g;
                assert(j < s.len());
                assert(r[j] == s[j]);
            }
        }
    } else {
        if !has_freq(s, c.freq) {
            assert(s.len() >= CAPACITY);
        }
    }
}

/// The active channels, in the order in which they were added.
pub struct ChannelTable {
    channels: Vec<Channel>,
}

impl View for ChannelTable {
    type V = Seq<Channel>;

    closed spec fn view(&self) -> Seq<Channel> {
        self.channels@
    }
}

impl ChannelTable {
    /// The table's invariant: at most [`CAPACITY`] channels, frequencies unique.
    pub open spec fn wf(&self) -> bool {
        table_ok(self@)
    }

    /// An empty table.
    pub fn new() -> (r: ChannelTable)
        ensures
            r@ == Seq::<Channel>::empty(),
            r.wf(),
    {
        ChannelTable { channels: Vec::new() }
    }

    /// The number of active channels.
    pub fn len(&self) -> (r: usize)
        ensures
            r == self@.len(),
    {
        self.channels.len()
    }

    /// Whether no channel is active.
    pub fn is_empty(&self) -> (r: bool)
        ensures
            r == (self@.len() == 0),
    {
        self.channels.len() == 0
    }

    /// The active channels, in slot order.
    pub fn channels(&self) -> (r: &Vec<Channel>)
        ensures
            r@ == self@,
    {
        &self.channels
    }

    /// The position of the channel of frequency `freq`, if one is active.
    pub fn position(&self, freq: u32) -> (r: Option<usize>)
        ensures
            r matches Some(i) ==> position_of(self@, freq) == Some(i as int),
            r is None ==> position_of(self@, freq) is None,
            r is None <==> !has_freq(self@, freq),
    {
        proof {
            lemma_position_of(self@, freq);
        }
        let mut i: usize = 0;
        while i < self.channels.len()
            invariant
                i <= self@.len(),
                forall|k: int| 0 <= k < i ==> (#[trigger] self@[k]).freq != freq,
                position_of(self@, freq) is None <==> !has_freq(self@, freq),
                position_of(self@, freq) matches Some(p) ==> 0 <= p < self@.len() && self@[p].freq
                    == freq && forall|k: int| 0 <= k < p ==> (#[trigger] self@[k]).freq != freq,
            decreases self@.len() - i,
        {
            if self.channels[i].freq == freq {
                proof {
                    assert(self@[i as int].freq == freq);
                    assert(has_freq(self@, freq));
                    let p = position_of(self@, freq)->0;
                    if p < i {
                        assert(self@[p].freq != freq);
                    }
                }
                return Some(i);
            }
            i = i + 1;
        }
        None
    }

    /// Whether a channel of frequency `freq` is active.
    pub fn contains_frequency(&self, freq: u32) -> (r: bool)
        ensures
            r == has_freq(self@, freq),
    {
        self.position(freq).is_some()
    }

    /// Whether the channel `(freq, strength)` is active.
    pub fn contains(&self, freq: u32, strength: u8) -> (r: bool)
        ensures
            r == self@.contains((Channel { freq, strength })),
    {
        let c = Channel { freq, strength };
        let mut i: usize = 0;
        while i < self.channels.len()
            invariant
                i <= self@.len(),
                c == (Channel { freq, strength }),
                forall|k: int| 0 <= k < i ==> self@[k] != c,
            decreases self@.len() - i,
        {
            if self.channels[i] == c {
                proof {
                    assert(self@[i as int] == c);
                    assert(self@.contains(c));
                }
                return true;
            }
            i = i + 1;
        }
        false
    }

    /// Whether `(freq, _)` would be accepted: the table has room and no
    /// channel of that frequency.
    pub fn accepts(&self, freq: u32) -> (r: bool)
        ensures
            r == accepts(self@, freq),
    {
        self.channels.len() < CAPACITY && !self.contains_frequency(freq)
    }

    /// Adds the channel `(freq, strength)` at the end if the table accepts it;
    /// otherwise leaves the table as it is. Returns whether it was added.
    pub fn add(&mut self, freq: u32, strength: u8) -> (r: bool)
        requires
            old(self).wf(),
        ensures
            final(self).wf(),
            r == accepts(old(self)@, freq),
            final(self)@ == added(old(self)@, (Channel { freq, strength })),
    {
        proof {
            lemma_added(self@, Channel { freq, strength });
        }
        if self.accepts(freq) {
            self.channels.push(Channel { freq, strength });
            true
        } else {
            false
        }
    }

    /// Removes the channel of frequency `freq` and returns it, or returns
    /// `None` and leaves the table as it is when there is none.
    pub fn remove(&mut self, freq: u32) -> (r: Option<Channel>)
        requires
            old(self).wf(),
        ensures
            final(self).wf(),
            final(self)@ == removed(old(self)@, freq),
            r is Some <==> has_freq(old(self)@, freq),
            r matches Some(c) ==> c.freq == freq && old(self)@.contains(c),
    {
        proof {
            lemma_removed(self@, freq);
            lemma_position_of(self@, freq);
        }
        match self.position(freq) {
            Some(i) => {
                let c = self.channels.remove(i);
                proof {
                    assert(self@ =~= without(old(self)@, i as int));
                    assert(old(self)@[i as int] == c);
                }
                Some(c)
            },
            None => None,
        }
    }

    /// Switches the tone at `freq`: removes the channel of that frequency if
    /// one is active (whatever its strength), otherwise adds
    /// `(freq, strength)` if the table accepts it.
    pub fn toggle(&mut self, freq: u32, strength: u8)
        requires
            old(self).wf(),
        ensures
            final(self).wf(),
            final(self)@ == toggled(old(self)@, (Channel { freq, strength })),
    {
        if self.contains_frequency(freq) {
            self.remove(freq);
        } else {
            self.add(freq, strength);
        }
    }
}

} // verus!

verus! {

/// `s` after an attempt to add each channel of `cs` in turn.
pub open spec fn added_all(s: Seq<Channel>, cs: Seq<Channel>) -> Seq<Channel>
    decreases cs.len(),
{
    if cs.len() == 0 {
        s
    } else {
        added_all(added(s, cs[0]), cs.drop_first())
    }
}

/// Whether the channels of `cs` have pairwise different frequencies, none of
/// which is in `s`.
pub open spec fn fresh_freqs(s: Seq<Channel>, cs: Seq<Channel>) -> bool {
    freqs_unique(cs) && forall|k: int| 0 <= k < cs.len() ==> !has_freq(s, (#[trigger] cs[k]).freq)
}

/// Capacity: no run of additions takes a table past [`CAPACITY`] channels; a
/// full table ignores an addition; and additions of new, distinct frequencies
/// fill the table up to exactly [`CAPACITY`] channels.
pub proof fn lemma_capacity(s: Seq<Channel>, cs: Seq<Channel>, c: Channel)
    requires
        table_ok(s),
    ensures
        table_ok(added_all(s, cs)),
        s.len() == CAPACITY ==> added(s, c) == s,
        fresh_freqs(s, cs) ==> added_all(s, cs).len() == if s.len() + cs.len() <= CAPACITY {
            s.len() + cs.len()
        } else {
            CAPACITY as nat
        },
    decreases cs.len(),
{
    if cs.len() > 0 {
        let c0 = cs[0];
        let rest = cs.drop_first();
        lemma_added(s, c0);
        lemma_capacity(added(s, c0), rest, c);
        if fresh_freqs(s, cs) {
            assert(!has_freq(s, c0.freq));
            assert forall|k: int| 0 <= k < rest.len() implies !has_freq(
                added(s, c0),
                (#[trigger] rest[k]).freq,
            ) by {
                assert(rest[k] == cs[k + 1]);
                assert(cs[k + 1].freq != cs[0].freq);
            }
            assert forall|a: int, b: int|
                0 <= a < rest.len() && 0 <= b < rest.len() && a != b implies (#[trigger] rest[a]).freq
                != (#[trigger] rest[b]).freq by {
                assert(rest[a] == cs[a + 1]);
                assert(rest[b] == cs[b + 1]);
            }
            assert(fresh_freqs(added(s, c0), rest));
        }
    }
}

/// Adding one channel twice leaves the table as adding it once does; once it
/// was added, or was there before, the table holds it, and no other channel
/// of its frequency.
pub proof fn lemma_add_twice(s: Seq<Channel>, c: Channel)
    requires
        table_ok(s),
    ensures
        added(added(s, c), c) == added(s, c),
        accepts(s, c.freq) || s.contains(c) ==> added(s, c).contains(c),
        freqs_unique(added(s, c)),
{
    lemma_added(s, c);
    if accepts(s, c.freq) {
        assert(added(s, c)[s.len() as int] == c);
    }
}

/// Toggling a channel twice gives the table back: exactly when no channel of
/// its frequency was active; with the same channels, the toggled one moved to
/// the last slot, when the channel itself was active.
pub proof fn lemma_toggle_twice(s: Seq<Channel>, c: Channel)
    requires
        table_ok(s),
        !has_freq(s, c.freq) || s.contains(c),
    ensures
        !has_freq(s, c.freq) ==> toggled(toggled(s, c), c) == s,
        s.contains(c) ==> toggled(toggled(s, c), c) == removed(s, c.freq).push(c),
        s.contains(c) ==> toggled(toggled(s, c), c).len() == s.len(),
        s.contains(c) ==> forall|x: Channel|
            toggled(toggled(s, c), c).contains(x) == s.contains(x),
{
    lemma_added(s, c);
    lemma_removed(s, c.freq);
    if !has_freq(s, c.freq) {
        if accepts(s, c.freq) {
            let t = s.push(c);
            assert(t[s.len() as int] == c);
            lemma_position_of(t, c.freq);
            let i = position_of(t, c.freq)->0;
            if i < s.len() {
                assert(t[i] == s[i]);
            }
            assert(without(t, s.len() as int) =~= s);
        }
    } else {
        let j = choose|j: int| 0 <= j < s.len() && s[j] == c;
        lemma_position_of(s, c.freq);
        let i = position_of(s, c.freq)->0;
        assert(s[j].freq == c.freq);
        assert(i == j);
        let t = removed(s, c.freq);
        lemma_without(s, i);
        assert(t == without(s, i));
        assert(accepts(t, c.freq));
        let r = t.push(c);
        assert forall|x: Channel| r.contains(x) == s.contains(x) by {
            if s.contains(x) {
                let k = choose|k: int| 0 <= k < s.len() && s[k] == x;
                if k < i {
                    assert(r[k] == x);
                } else if k == i {
                    assert(r[t.len() as int] == x);
                } else {
                    assert(r[k - 1] == x);
                }
            }
            if r.contains(x) {
                let k = choose|k: int| 0 <= k < r.len() && r[k] == x;
                if k < i {
                    assert(s[k] == x);
                } else if k < t.len() {
                    assert(s[k + 1] == x);
                } else {
                    assert(s[i] == x);
                }
            }
        }
    }
}

} // verus!
