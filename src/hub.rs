use vstd::prelude::*;
use vstd::string::StringExecFns;

use crate::protocol::{ClientMessage, Connect, Delivery, Disconnect, Message};

verus! {

/// One registration: connection `id` is a member of `channel` and is reached through `addr`.
pub struct Member<H> {
    pub channel: String,
    pub id: String,
    pub addr: H,
}

/// The registry of channel membership.
///
/// Members are kept as one flat list of registrations, so a channel exists exactly
/// while some registration names it: an emptied channel leaves nothing behind.
pub struct ChatServer<H> {
    members: Vec<Member<H>>,
}

impl<H> ChatServer<H> {
    /// The registrations, in the order they are kept.
    pub closed spec fn view(&self) -> Seq<Member<H>> {
        self.members@
    }

    /// No connection is registered twice under one channel.
    pub open spec fn wf(&self) -> bool {
        forall|i: int, j: int|
            0 <= i < self@.len() && 0 <= j < self@.len() && i != j
                ==> !(#[trigger] self@[i].channel@ == #[trigger] self@[j].channel@
                && self@[i].id@ == self@[j].id@)
    }

    /// Connection `m` is registered under channel `c` with handle `h`.
    pub open spec fn holds(&self, c: Seq<char>, m: Seq<char>, h: H) -> bool {
        exists|i: int|
            0 <= i < self@.len() && #[trigger] self@[i].channel@ == c && self@[i].id@ == m
                && self@[i].addr == h
    }

    /// Connection `m` is registered under channel `c`.
    pub open spec fn is_member(&self, c: Seq<char>, m: Seq<char>) -> bool {
        exists|i: int| 0 <= i < self@.len() && #[trigger] self@[i].channel@ == c && self@[i].id@ == m
    }

    /// The member set of channel `c`.
    pub open spec fn members_of(&self, c: Seq<char>) -> Set<Seq<char>> {
        Set::new(|m: Seq<char>| self.is_member(c, m))
    }

    /// Channel `c` is present in the registry.
    pub open spec fn has_channel(&self, c: Seq<char>) -> bool {
        exists|i: int| 0 <= i < self@.len() && #[trigger] self@[i].channel@ == c
    }

    /// An empty registry.
    pub fn new() -> (r: Self)
        ensures
            r.wf(),
            r@.len() == 0,
            forall|c: Seq<char>| !r.has_channel(c),
    {
        ChatServer { members: Vec::new() }
    }

    /// Where connection `id` stands under `channel`, if it is registered there.
    fn find(&self, channel: &String, id: &String) -> (r: Option<usize>)
        requires
            self.wf(),
        ensures
            match r {
                Some(i) => i < self@.len() && self@[i as int].channel@ == channel@
                    && self@[i as int].id@ == id@,
                None => !self.is_member(channel@, id@),
            },
    {
        let mut i: usize = 0;
        while i < self.members.len()
            invariant
                i <= self@.len(),
                forall|k: int|
                    0 <= k < i ==> !(#[trigger] self@[k].channel@ == channel@ && self@[k].id@ == id@),
            decreases self@.len() - i,
        {
            if self.members[i].channel == *channel && self.members[i].id == *id {
                return Some(i);
            }
            i = i + 1;
        }
        None
    }

    /// Whether `channel` is present in the registry.
    pub fn contains_channel(&self, channel: &String) -> (r: bool)
        ensures
            r == self.has_channel(channel@),
    {
        let mut i: usize = 0;
        while i < self.members.len()
            invariant
                i <= self@.len(),
                forall|k: int| 0 <= k < i ==> #[trigger] self@[k].channel@ != channel@,
            decreases self@.len() - i,
        {
            if self.members[i].channel == *channel {
                return true;
            }
            i = i + 1;
        }
        false
    }

    /// The handle under which connection `id` is registered in `channel`, if any.
    pub fn recipient(&self, channel: &String, id: &String) -> (r: Option<&H>)
        requires
            self.wf(),
        ensures
            match r {
                Some(h) => self.holds(channel@, id@, *h),
                None => !self.is_member(channel@, id@),
            },
    {
        match self.find(channel, id) {
            Some(i) => Some(&self.members[i].addr),
            None => None,
        }
    }

    /// Registers `msg.id` under `msg.channel`, creating the channel if it is new and
    /// replacing the handle if the connection was already registered there.
    /// Returns the welcome for the new member alone.
    pub fn handle_connect(&mut self, msg: Connect<H>) -> (welcome: Delivery)
        requires
            old(self).wf(),
        ensures
            final(self).wf(),
            final(self).holds(msg.channel@, msg.id@, msg.addr),
            forall|c: Seq<char>, m: Seq<char>|
                #[trigger] final(self).is_member(c, m) <==> (old(self).is_member(c, m) || (c
                    == msg.channel@ && m == msg.id@)),
            forall|c: Seq<char>, m: Seq<char>, h: H|
                !(c == msg.channel@ && m == msg.id@) ==> (#[trigger] final(self).holds(c, m, h)
                    <==> old(self).holds(c, m, h)),
            welcome.to@ == msg.id@,
            welcome.msg.0@ == "Server: Joined"@,
    {
        let Connect { id, channel, addr } = msg;
        let to = id.clone();
        let ghost old_members = self@;
        match self.find(&channel, &id) {
            Some(i) => {
                self.members.set(i, Member { channel, id, addr });
                assert(self@[i as int].channel@ == msg.channel@);
            },
            None => {
                self.members.push(Member { channel, id, addr });
                assert(self@[old_members.len() as int].channel@ == msg.channel@);
            },
        }
        assert forall|c: Seq<char>, m: Seq<char>|
            #[trigger] self.is_member(c, m) <==> (old(self).is_member(c, m) || (c == msg.channel@
                && m == msg.id@)) by {
            if old(self).is_member(c, m) && !(c == msg.channel@ && m == msg.id@) {
                let k = choose|k: int|
                    0 <= k < old_members.len() && #[trigger] old_members[k].channel@ == c
                        && old_members[k].id@ == m;
                assert(self@[k].channel@ == c);
            }
            if self.is_member(c, m) && !(c == msg.channel@ && m == msg.id@) {
                let k = choose|k: int|
                    0 <= k < self@.len() && #[trigger] self@[k].channel@ == c && self@[k].id@ == m;
                assert(old_members[k].channel@ == c);
            }
        }
        assert forall|c: Seq<char>, m: Seq<char>, h: H|
            !(c == msg.channel@ && m == msg.id@) implies (#[trigger] self.holds(c, m, h)
                <==> old(self).holds(c, m, h)) by {
            if old(self).holds(c, m, h) {
                let k = choose|k: int|
                    0 <= k < old_members.len() && #[trigger] old_members[k].channel@ == c
                        && old_members[k].id@ == m && old_members[k].addr == h;
                assert(self@[k].channel@ == c);
            }
            if self.holds(c, m, h) {
                let k = choose|k: int|
                    0 <= k < self@.len() && #[trigger] self@[k].channel@ == c && self@[k].id@ == m
                        && self@[k].addr == h;
                assert(old_members[k].channel@ == c);
            }
        }
        Delivery { to, msg: Message(String::from_str("Server: Joined")) }
    }

    /// Removes `msg.id` from `msg.channel`; the channel goes with its last member.
    /// Nothing happens when the connection is not registered there.
    pub fn handle_disconnect(&mut self, msg: Disconnect)
        requires
            old(self).wf(),
        ensures
            final(self).wf(),
            !final(self).is_member(msg.channel@, msg.id@),
            forall|c: Seq<char>, m: Seq<char>|
                #[trigger] final(self).is_member(c, m) <==> (old(self).is_member(c, m) && !(c
                    == msg.channel@ && m == msg.id@)),
            forall|c: Seq<char>, m: Seq<char>, h: H|
                !(c == msg.channel@ && m == msg.id@) ==> (#[trigger] final(self).holds(c, m, h)
                    <==> old(self).holds(c, m, h)),
            !old(self).is_member(msg.channel@, msg.id@) ==> final(self)@ == old(self)@,
    {
        let ghost old_members = self@;
        match self.find(&msg.channel, &msg.id) {
            Some(i) => {
                let _gone = self.members.remove(i);
                assert forall|k: int| 0 <= k < self@.len() implies (#[trigger] self@[k])
                    == old_members[if k < i { k } else { k + 1 }] by {}
                assert forall|c: Seq<char>, m: Seq<char>|
                    #[trigger] self.is_member(c, m) <==> (old(self).is_member(c, m) && !(c
                        == msg.channel@ && m == msg.id@)) by {
                    if old(self).is_member(c, m) && !(c == msg.channel@ && m == msg.id@) {
                        let k = choose|k: int|
                            0 <= k < old_members.len() && #[trigger] old_members[k].channel@ == c
                                && old_members[k].id@ == m;
                        let k2 = if k < i { k } else { k - 1 };
                        assert(self@[k2].channel@ == c);
                    }
                    if self.is_member(c, m) {
                        let k = choose|k: int|
                            0 <= k < self@.len() && #[trigger] self@[k].channel@ == c
                                && self@[k].id@ == m;
                        let k2 = if k < i { k } else { k + 1 };
                        assert(old_members[k2].channel@ == c);
                    }
                }
                assert forall|c: Seq<char>, m: Seq<char>, h: H|
                    !(c == msg.channel@ && m == msg.id@) implies (#[trigger] self.holds(c, m, h)
                        <==> old(self).holds(c, m, h)) by {
                    if old(self).holds(c, m, h) {
                        let k = choose|k: int|
                            0 <= k < old_members.len() && #[trigger] old_members[k].channel@ == c
                                && old_members[k].id@ == m && old_members[k].addr == h;
                        let k2 = if k < i { k } else { k - 1 };
                        assert(self@[k2].channel@ == c);
                    }
                    if self.holds(c, m, h) {
                        let k = choose|k: int|
                            0 <= k < self@.len() && #[trigger] self@[k].channel@ == c
                                && self@[k].id@ == m && self@[k].addr == h;
                        let k2 = if k < i { k } else { k + 1 };
                        assert(old_members[k2].channel@ == c);
                    }
                }
            },
            None => {},
        }
    }

    /// One delivery of `message` for each member of `channel_id`, none for anyone else;
    /// no deliveries when the channel is absent.
    pub fn send_message(&self, channel_id: &str, message: &str) -> (r: Vec<Delivery>)
        requires
            self.wf(),
        ensures
            forall|k: int|
                0 <= k < r@.len() ==> self.is_member(channel_id@, #[trigger] r@[k].to@)
                    && r@[k].msg.0@ == message@,
            forall|k1: int, k2: int|
                0 <= k1 < r@.len() && 0 <= k2 < r@.len() && k1 != k2 ==> #[trigger] r@[k1].to@
                    != #[trigger] r@[k2].to@,
            forall|m: Seq<char>|
                #[trigger] self.is_member(channel_id@, m) ==> exists|k: int|
                    0 <= k < r@.len() && #[trigger] r@[k].to@ == m,
    {
        let channel = channel_id.to_owned();
        let mut out: Vec<Delivery> = Vec::new();
        let ghost mut from: Seq<int> = Seq::empty();
        let mut i: usize = 0;
        while i < self.members.len()
            invariant
                i <= self@.len(),
                channel@ == channel_id@,
                self.wf(),
                from.len() == out@.len(),
                forall|k: int|
                    0 <= k < out@.len() ==> 0 <= #[trigger] from[k] < i
                        && self@[from[k]].channel@ == channel@ && self@[from[k]].id@
                        == out@[k].to@ && out@[k].msg.0@ == message@,
                forall|k1: int, k2: int| 0 <= k1 < k2 < out@.len() ==> #[trigger] from[k1] < #[trigger] from[k2],
                forall|j: int|
                    0 <= j < i && #[trigger] self@[j].channel@ == channel@ ==> exists|k: int|
                        0 <= k < out@.len() && #[trigger] from[k] == j,
            decreases self@.len() - i,
        {
            let ghost old_from = from;
            if self.members[i].channel == channel {
                let ghost n = out@.len();
                out.push(Delivery { to: self.members[i].id.clone(), msg: Message(message.to_owned()) });
                proof {
                    from = from.push(i as int);
                    assert(from[n as int] == i);
                }
            }
            assert forall|j: int|
                0 <= j < i + 1 && #[trigger] self@[j].channel@ == channel@ implies exists|k: int|
                    0 <= k < out@.len() && #[trigger] from[k] == j by {
                if j < i {
                    let k = choose|k: int| 0 <= k < old_from.len() && #[trigger] old_from[k] == j;
                    assert(from[k] == j);
                } else {
                    assert(from[old_from.len() as int] == j);
                }
            }
            i = i + 1;
        }
        assert forall|k1: int, k2: int|
            0 <= k1 < out@.len() && 0 <= k2 < out@.len() && k1 != k2 implies #[trigger] out@[k1].to@
                != #[trigger] out@[k2].to@ by {
            if k1 < k2 {
                assert(from[k1] < from[k2]);
            } else {
                assert(from[k2] < from[k1]);
            }
            assert(self@[from[k1]].channel@ == self@[from[k2]].channel@);
        }
        assert forall|k: int| 0 <= k < out@.len() implies self.is_member(channel_id@, #[trigger] out@[k].to@)
            && out@[k].msg.0@ == message@ by {
            assert(self@[from[k]].channel@ == channel@);
        }
        assert forall|m: Seq<char>|
            #[trigger] self.is_member(channel_id@, m) implies exists|k: int|
                0 <= k < out@.len() && #[trigger] out@[k].to@ == m by {
            let j = choose|j: int| 0 <= j < self@.len() && #[trigger] self@[j].channel@ == channel_id@ && self@[j].id@ == m;
            assert(self@[j].channel@ == channel@);
            let k = choose|k: int| 0 <= k < out@.len() && #[trigger] from[k] == j;
            assert(out@[k].to@ == m);
        }
        out
    }

    /// Relays a member's text to every member of its channel, the sender included.
    pub fn handle_client_message(&self, msg: ClientMessage) -> (r: Vec<Delivery>)
        requires
            self.wf(),
        ensures
            forall|k: int|
                0 <= k < r@.len() ==> self.is_member(msg.channel@, #[trigger] r@[k].to@)
                    && r@[k].msg.0@ == msg.msg@,
            forall|k1: int, k2: int|
                0 <= k1 < r@.len() && 0 <= k2 < r@.len() && k1 != k2 ==> #[trigger] r@[k1].to@
                    != #[trigger] r@[k2].to@,
            forall|m: Seq<char>|
                #[trigger] self.is_member(msg.channel@, m) ==> exists|k: int|
                    0 <= k < r@.len() && #[trigger] r@[k].to@ == m,
    {
        let channel = msg.channel.as_str();
        let text = msg.msg.as_str();
        assert(channel@ == msg.channel@ && text@ == msg.msg@);
        self.send_message(channel, text)
    }
}

/// Whatever registrations and removals led to `hub`, a channel is present in the
/// registry exactly when its member set is non-empty.
pub proof fn lemma_channel_present_iff_nonempty<H>(hub: &ChatServer<H>, c: Seq<char>)
    ensures
        hub.has_channel(c) <==> hub.members_of(c) != Set::<Seq<char>>::empty(),
{
    if hub.has_channel(c) {
        let i = choose|i: int| 0 <= i < hub@.len() && #[trigger] hub@[i].channel@ == c;
        assert(hub.members_of(c).contains(hub@[i].id@));
    } else {
        assert(hub.members_of(c) =~= Set::<Seq<char>>::empty());
    }
}

} // verus!
