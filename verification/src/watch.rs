use vstd::prelude::*;
use crate::link::{link_error, CoreLinkError};
use crate::strmap::StrMap;
use crate::text::str_views;

verus! {

/// A request for a watch channel's events, by the channel's id.
pub struct LinkWatchChannelEnvelope {
    pub channelId: String,
}

/// A request to add a watch to a channel; the core's watch request is JSON text.
pub struct LinkWatchChannelOpenEnvelope {
    pub channelId: String,
    pub subscriptionId: String,
    pub request: String,
}

/// A request to stop one watch of a channel.
pub struct LinkWatchChannelCloseEnvelope {
    pub channelId: String,
    pub subscriptionId: String,
}

/// The answer to adding a watch.
pub struct LinkWatchChannelOpenResponse {
    pub subscriptionId: String,
}

/// An event of one watch of a channel; the core's event is JSON text.
pub struct LinkWatchChannelEvent {
    pub subscriptionId: String,
    pub event: String,
}

/// A core call request, as JSON text.
pub struct LinkCallEnvelope {
    pub request: String,
}

/// A core watch request, as JSON text.
pub struct LinkWatchEnvelope {
    pub request: String,
}

/// What a web socket message asks of the core.
pub enum CoreLinkWsPayload {
    Call(LinkCallEnvelope),
    WatchSnapshot(LinkWatchEnvelope),
}

/// What a web socket message is answered; the core's answers are JSON text.
pub enum CoreLinkWsResponse {
    Call(String),
    WatchSnapshot(String),
    Error(CoreLinkError),
}

/// The watch channels of a link server and the watches running in each.
pub struct WatchChannelRegistry {
    channels: StrMap<StrMap<bool>>,
}

impl WatchChannelRegistry {
    /// Every map keeps its keys in order.
    pub closed spec fn wf(&self) -> bool {
        &&& self.channels.wf()
        &&& forall|c: Seq<char>| #[trigger] self.channels.get_spec(c) matches Some(m) ==> m.wf()
    }

    /// Whether a channel is open.
    pub closed spec fn has_channel(&self, c: Seq<char>) -> bool {
        self.channels.get_spec(c) is Some
    }

    /// Whether a watch runs in a channel.
    pub closed spec fn has_subscription(&self, c: Seq<char>, s: Seq<char>) -> bool {
        self.channels.get_spec(c) matches Some(m) && m.get_spec(s) is Some
    }

    /// The watches of a channel, ascending.
    pub closed spec fn subscriptions(&self, c: Seq<char>) -> Seq<Seq<char>> {
        match self.channels.get_spec(c) {
            Some(m) => m.keys_view(),
            None => Seq::empty(),
        }
    }

    /// No channel.
    pub fn new() -> (r: Self)
        ensures
            r.wf(),
            forall|c: Seq<char>| !#[trigger] r.has_channel(c),
    {
        WatchChannelRegistry { channels: StrMap::new() }
    }

    /// Opens a channel, in place of any channel of that id; the watches of
    /// the channel replaced are returned, to be stopped.
    pub fn open_channel(&mut self, channel_id: String) -> (r: Vec<String>)
        requires
            old(self).wf(),
        ensures
            final(self).wf(),
            final(self).has_channel(channel_id@),
            forall|s: Seq<char>| !#[trigger] final(self).has_subscription(channel_id@, s),
            str_views(r@) == old(self).subscriptions(channel_id@),
            forall|c: Seq<char>| c != channel_id@ ==> #[trigger] final(self).has_channel(c) == old(self).has_channel(c),
            forall|c: Seq<char>, s: Seq<char>| c != channel_id@ ==> #[trigger] final(self).has_subscription(c, s)
                == old(self).has_subscription(c, s),
    {
        let fresh: StrMap<bool> = StrMap::new();
        let previous = self.channels.insert(channel_id, fresh);
        match previous {
            Some(m) => m.keys(),
            None => Vec::new(),
        }
    }

    /// Whether watches can be added to a channel: it must be open.
    pub fn check_channel(&self, channel_id: &str) -> (r: Result<(), CoreLinkError>)
        requires
            self.wf(),
        ensures
            r is Ok <==> self.has_channel(channel_id@),
            r matches Err(e) ==> link_error(&e, "WATCH_CHANNEL_NOT_FOUND"@, "watch channel not found"@),
    {
        if self.channels.contains_key(channel_id) {
            Ok(())
        } else {
            Err(CoreLinkError::new("WATCH_CHANNEL_NOT_FOUND", "watch channel not found"))
        }
    }

    /// Adds a running watch to a channel; a channel closed meanwhile refuses
    /// it, and its task is then to be stopped.
    pub fn attach(&mut self, channel_id: &str, subscription_id: String) -> (r: Result<LinkWatchChannelOpenResponse, CoreLinkError>)
        requires
            old(self).wf(),
        ensures
            final(self).wf(),
            old(self).has_channel(channel_id@) ==> (r matches Ok(resp) && resp.subscriptionId == subscription_id
                && final(self).has_subscription(channel_id@, subscription_id@)),
            !old(self).has_channel(channel_id@) ==> (r matches Err(e)
                && link_error(&e, "WATCH_CHANNEL_NOT_FOUND"@, "watch channel not found"@)),
            forall|c: Seq<char>| #[trigger] final(self).has_channel(c) == old(self).has_channel(c),
            forall|c: Seq<char>, s: Seq<char>| (c != channel_id@ || s != subscription_id@) ==> #[trigger] final(self).has_subscription(c, s)
                == old(self).has_subscription(c, s),
    {
        match self.channels.remove(channel_id) {
            None => Err(CoreLinkError::new("WATCH_CHANNEL_NOT_FOUND", "watch channel not found")),
            Some(mut subs) => {
                let id = subscription_id.clone();
                subs.insert(subscription_id, true);
                self.channels.insert(String::from_str(channel_id), subs);
                Ok(LinkWatchChannelOpenResponse { subscriptionId: id })
            },
        }
    }

    /// Stops tracking a watch (closed by the client, or ended); whether it
    /// was running, its task then to be stopped.
    pub fn close_subscription(&mut self, channel_id: &str, subscription_id: &str) -> (r: bool)
        requires
            old(self).wf(),
        ensures
            final(self).wf(),
            r == old(self).has_subscription(channel_id@, subscription_id@),
            !final(self).has_subscription(channel_id@, subscription_id@),
            forall|c: Seq<char>| #[trigger] final(self).has_channel(c) == old(self).has_channel(c),
            forall|c: Seq<char>, s: Seq<char>| (c != channel_id@ || s != subscription_id@) ==> #[trigger] final(self).has_subscription(c, s)
                == old(self).has_subscription(c, s),
    {
        match self.channels.remove(channel_id) {
            None => false,
            Some(mut subs) => {
                let was = subs.remove(subscription_id);
                self.channels.insert(String::from_str(channel_id), subs);
                was.is_some()
            },
        }
    }

    /// Closes a channel whose events are no longer read; its watches are
    /// returned, to be stopped.
    pub fn remove_channel(&mut self, channel_id: &str) -> (r: Vec<String>)
        requires
            old(self).wf(),
        ensures
            final(self).wf(),
            !final(self).has_channel(channel_id@),
            str_views(r@) == old(self).subscriptions(channel_id@),
            forall|c: Seq<char>| c != channel_id@ ==> #[trigger] final(self).has_channel(c) == old(self).has_channel(c),
            forall|c: Seq<char>, s: Seq<char>| c != channel_id@ ==> #[trigger] final(self).has_subscription(c, s)
                == old(self).has_subscription(c, s),
    {
        match self.channels.remove(channel_id) {
            Some(m) => m.keys(),
            None => Vec::new(),
        }
    }
}

// ----- the event stream of a watch channel -----

/// Whether `k` is where the first newline of `b` stands.
pub open spec fn first_newline(b: Seq<u8>, k: int) -> bool {
    &&& 0 <= k < b.len()
    &&& b[k] == 10
    &&& forall|j: int| 0 <= j < k ==> #[trigger] b[j] != 10
}

/// The complete lines of `b` (each without its newline), in order.
pub open spec fn complete_lines(b: Seq<u8>) -> Seq<Seq<u8>>
    decreases b.len(),
{
    if exists|k: int| #[trigger] first_newline(b, k) {
        let k = choose|k: int| #[trigger] first_newline(b, k);
        seq![b.take(k)] + complete_lines(b.skip(k + 1))
    } else {
        Seq::empty()
    }
}

/// What follows the last newline of `b`: a line not yet complete.
pub open spec fn line_remainder(b: Seq<u8>) -> Seq<u8>
    decreases b.len(),
{
    if exists|k: int| #[trigger] first_newline(b, k) {
        let k = choose|k: int| #[trigger] first_newline(b, k);
        line_remainder(b.skip(k + 1))
    } else {
        b
    }
}

/// The lines that are not empty.
pub open spec fn nonempty_lines(ls: Seq<Seq<u8>>) -> Seq<Seq<u8>>
    decreases ls.len(),
{
    if ls.len() == 0 {
        Seq::empty()
    } else {
        (if ls[0].len() > 0 { seq![ls[0]] } else { Seq::empty() }) + nonempty_lines(ls.drop_first())
    }
}

/// Lines written out again, each followed by a newline.
pub open spec fn with_newlines(ls: Seq<Seq<u8>>) -> Seq<u8>
    decreases ls.len(),
{
    if ls.len() == 0 {
        Seq::empty()
    } else {
        ls[0] + seq![10u8] + with_newlines(ls.drop_first())
    }
}

/// The bytes of a list of lines.
pub open spec fn byte_lines(v: Seq<Vec<u8>>) -> Seq<Seq<u8>> {
    v.map_values(|l: Vec<u8>| l@)
}

proof fn lemma_first_newline_unique(b: Seq<u8>, k: int)
    requires
        first_newline(b, k),
    ensures
        (choose|j: int| #[trigger] first_newline(b, j)) == k,
{
    let j = choose|j: int| #[trigger] first_newline(b, j);
    assert(first_newline(b, j));
    if j < k {
        assert(b[j] != 10);
    }
    if k < j {
        assert(b[k] != 10);
    }
}

fn sub_bytes(v: &Vec<u8>, from: usize, to: usize) -> (r: Vec<u8>)
    requires
        from <= to <= v.len(),
    ensures
        r@ == v@.subrange(from as int, to as int),
{
    let mut out: Vec<u8> = Vec::new();
    let mut i: usize = from;
    while i < to
        invariant
            from <= i <= to <= v.len(),
            out@ == v@.subrange(from as int, i as int),
        decreases to - i,
    {
        out.push(v[i]);
        i = i + 1;
    }
    out
}

/// Takes the complete lines out of what has arrived of an event stream: the
/// lines that are not empty are returned, in order, and the buffer keeps the
/// line not yet complete.
pub fn drain_complete_lines(buffer: &mut Vec<u8>) -> (r: Vec<Vec<u8>>)
    ensures
        byte_lines(r@) == nonempty_lines(complete_lines(old(buffer)@)),
        final(buffer)@ == line_remainder(old(buffer)@),
{
    let ghost b = buffer@;
    let mut out: Vec<Vec<u8>> = Vec::new();
    let mut start: usize = 0;
    let mut i: usize = 0;
    assert(b.skip(0) =~= b);
    assert(byte_lines(out@) + nonempty_lines(complete_lines(b)) =~= nonempty_lines(complete_lines(b)));
    while i < buffer.len()
        invariant
            buffer@ == b,
            start <= i <= b.len(),
            nonempty_lines(complete_lines(b)) == byte_lines(out@) + nonempty_lines(complete_lines(b.skip(start as int))),
            line_remainder(b) == line_remainder(b.skip(start as int)),
            forall|j: int| start <= j < i ==> #[trigger] b[j] != 10,
        decreases b.len() - i,
    {
        if buffer[i] == 10 {
            let line = sub_bytes(buffer, start, i);
            proof {
                let s = b.skip(start as int);
                let k = i - start;
                assert(first_newline(s, k as int));
                lemma_first_newline_unique(s, k as int);
                assert(s.take(k as int) =~= line@);
                assert(s.skip(k + 1) =~= b.skip(i + 1));
                assert(complete_lines(s) == seq![line@] + complete_lines(b.skip(i + 1)));
                assert((seq![line@] + complete_lines(b.skip(i + 1))).drop_first() =~= complete_lines(b.skip(i + 1)));
            }
            let ghost before = byte_lines(out@);
            if line.len() > 0 {
                out.push(line);
                assert(byte_lines(out@) =~= before.push(line@));
            }
            start = i + 1;
        }
        i = i + 1;
    }
    proof {
        let s = b.skip(start as int);
        assert forall|k: int| !first_newline(s, k) by {
            if 0 <= k < s.len() {
                assert(s[k] == b[start + k]);
            }
        }
        assert(byte_lines(out@) + Seq::<Seq<u8>>::empty() =~= byte_lines(out@));
    }
    let rest = sub_bytes(buffer, start, buffer.len());
    assert(rest@ =~= b.skip(start as int));
    *buffer = rest;
    out
}

proof fn lemma_lines_rebuild(b: Seq<u8>)
    ensures
        with_newlines(complete_lines(b)) + line_remainder(b) == b,
    decreases b.len(),
{
    if exists|k: int| #[trigger] first_newline(b, k) {
        let k = choose|k: int| #[trigger] first_newline(b, k);
        lemma_lines_rebuild(b.skip(k + 1));
        let ls = complete_lines(b);
        assert(ls == seq![b.take(k)] + complete_lines(b.skip(k + 1)));
        assert(ls.drop_first() =~= complete_lines(b.skip(k + 1)));
        assert(with_newlines(ls) == b.take(k) + seq![10u8] + with_newlines(complete_lines(b.skip(k + 1))));
        assert(b =~= b.take(k) + seq![10u8] + b.skip(k + 1));
    } else {
        assert(with_newlines(Seq::<Seq<u8>>::empty()) == Seq::<u8>::empty());
        assert(Seq::<u8>::empty() + b =~= b);
    }
}

/// Nothing of an event stream is lost to the line splitting: the complete
/// lines, each with its newline, followed by the part kept for later, give
/// back the bytes that arrived.
pub proof fn law_drained_lines_rebuild_the_stream(b: Seq<u8>)
    ensures
        with_newlines(complete_lines(b)) + line_remainder(b) == b,
        !line_remainder(b).contains(10u8),
{
    lemma_lines_rebuild(b);
    lemma_remainder_has_no_newline(b);
}

proof fn lemma_remainder_has_no_newline(b: Seq<u8>)
    ensures
        !line_remainder(b).contains(10u8),
    decreases b.len(),
{
    if exists|k: int| #[trigger] first_newline(b, k) {
        let k = choose|k: int| #[trigger] first_newline(b, k);
        lemma_remainder_has_no_newline(b.skip(k + 1));
    } else {
        if b.contains(10u8) {
            let j = choose|j: int| 0 <= j < b.len() && b[j] == 10u8;
            lemma_some_first_newline(b, j);
        }
    }
}

proof fn lemma_some_first_newline(b: Seq<u8>, j: int)
    requires
        0 <= j < b.len(),
        b[j] == 10,
    ensures
        exists|k: int| #[trigger] first_newline(b, k),
    decreases j,
{
    if forall|i: int| 0 <= i < j ==> #[trigger] b[i] != 10 {
        assert(first_newline(b, j));
    } else {
        let i = choose|i: int| 0 <= i < j && #[trigger] b[i] == 10;
        lemma_some_first_newline(b, i);
    }
}

} // verus!
