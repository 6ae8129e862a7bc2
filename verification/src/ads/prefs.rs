//! Two-way preference lists: advertisers block or prefer communities, and a
//! community's admin blocks or prefers advertisers.
use vstd::prelude::*;
use crate::kvmap::{first_index, seq_or_empty, vec_position, KvMap};
use super::{Error, Event, Pallet};

verus! {

/// `s` without the element at `i`, the last element taking its place.
pub open spec fn swap_removed<T>(s: Seq<T>, i: int) -> Seq<T> {
    s.update(i, s.last()).drop_last()
}

/// Appends `x` to the list under `k` unless it is there or the list is full.
fn list_add<K: crate::kvmap::KeyEq, T: crate::kvmap::KeyEq + Copy>(m: &mut KvMap<K, Vec<T>>, k: K, x: T, max: u32) -> (r: Result<(), bool>)
    ensures
        seq_or_empty(old(m)@, k).contains(x) ==> r == Err::<(), bool>(true) && *final(m) == *old(m),
        !seq_or_empty(old(m)@, k).contains(x) && seq_or_empty(old(m)@, k).len() >= max
            ==> r == Err::<(), bool>(false) && *final(m) == *old(m),
        !seq_or_empty(old(m)@, k).contains(x) && seq_or_empty(old(m)@, k).len() < max ==> {
            &&& r is Ok
            &&& final(m)@.contains_key(k)
            &&& final(m)@ == old(m)@.insert(k, final(m)@[k])
            &&& final(m)@[k]@ == seq_or_empty(old(m)@, k).push(x)
        },
{
    let (present, n) = match m.get(&k) {
        Some(v) => (vec_position(v, &x).is_some(), v.len()),
        None => (false, 0),
    };
    if present {
        return Err(true);
    }
    if n >= max as usize {
        return Err(false);
    }
    let mut list = match m.remove(&k) {
        Some(v) => v,
        None => Vec::new(),
    };
    list.push(x);
    m.insert(k, list);
    proof {
        assert(m@ =~= old(m)@.insert(k, m@[k]));
    }
    Ok(())
}

/// Removes `x` from the list under `k` by swapping in the last element.
fn list_remove<K: crate::kvmap::KeyEq, T: crate::kvmap::KeyEq + Copy>(m: &mut KvMap<K, Vec<T>>, k: K, x: T) -> (r: bool)
    ensures
        !seq_or_empty(old(m)@, k).contains(x) ==> !r && *final(m) == *old(m),
        seq_or_empty(old(m)@, k).contains(x) ==> {
            let s = seq_or_empty(old(m)@, k);
            &&& r
            &&& final(m)@.contains_key(k)
            &&& final(m)@ == old(m)@.insert(k, final(m)@[k])
            &&& final(m)@[k]@ == swap_removed(s, first_index(s, x))
        },
{
    let pos = match m.get(&k) {
        Some(v) => vec_position(v, &x),
        None => None,
    };
    match pos {
        None => false,
        Some(i) => {
            let mut list = m.remove(&k).unwrap();
            let _ = list.swap_remove(i);
            m.insert(k, list);
            proof {
                assert(m@ =~= old(m)@.insert(k, m@[k]));
            }
            true
        },
    }
}

impl Pallet {
    /// An advertiser stops its campaigns from being shown in a community.
    pub fn advertiser_block_community(&mut self, who: u64, community_id_hash: [u8; 32]) -> (r: Result<(), Error>)
        ensures
            ({
                let s = seq_or_empty(old(self).advertiser_blacklist@, who);
                if s.contains(community_id_hash) {
                    r == Err::<(), Error>(Error::AlreadyBlacklisted) && *final(self) == *old(self)
                } else if s.len() >= old(self).config.max_advertiser_blacklist {
                    r == Err::<(), Error>(Error::BlacklistFull) && *final(self) == *old(self)
                } else {
                    &&& r is Ok
                    &&& final(self).advertiser_blacklist@ == old(self).advertiser_blacklist@.insert(who, final(self).advertiser_blacklist@[who])
                    &&& final(self).advertiser_blacklist@[who]@ == s.push(community_id_hash)
                    &&& final(self).events@ == old(self).events@.push(Event::AdvertiserBlockedCommunity { advertiser: who, community_id_hash })
                    &&& *final(self) == (Pallet { advertiser_blacklist: final(self).advertiser_blacklist, events: final(self).events, ..*old(self) })
                }
            }),
    {
        let max = self.config.max_advertiser_blacklist;
        match list_add(&mut self.advertiser_blacklist, who, community_id_hash, max) {
            Err(true) => Err(Error::AlreadyBlacklisted),
            Err(false) => Err(Error::BlacklistFull),
            Ok(()) => {
                self.events.push(Event::AdvertiserBlockedCommunity { advertiser: who, community_id_hash });
                Ok(())
            },
        }
    }

    /// An advertiser lifts its block of a community.
    pub fn advertiser_unblock_community(&mut self, who: u64, community_id_hash: [u8; 32]) -> (r: Result<(), Error>)
        ensures
            ({
                let s = seq_or_empty(old(self).advertiser_blacklist@, who);
                if !s.contains(community_id_hash) {
                    r == Err::<(), Error>(Error::NotBlacklisted) && *final(self) == *old(self)
                } else {
                    &&& r is Ok
                    &&& final(self).advertiser_blacklist@ == old(self).advertiser_blacklist@.insert(who, final(self).advertiser_blacklist@[who])
                    &&& final(self).advertiser_blacklist@[who]@ == swap_removed(s, first_index(s, community_id_hash))
                    &&& final(self).events@ == old(self).events@.push(Event::AdvertiserUnblockedCommunity { advertiser: who, community_id_hash })
                    &&& *final(self) == (Pallet { advertiser_blacklist: final(self).advertiser_blacklist, events: final(self).events, ..*old(self) })
                }
            }),
    {
        if list_remove(&mut self.advertiser_blacklist, who, community_id_hash) {
            self.events.push(Event::AdvertiserUnblockedCommunity { advertiser: who, community_id_hash });
            Ok(())
        } else {
            Err(Error::NotBlacklisted)
        }
    }

    /// An advertiser names a community it prefers.
    pub fn advertiser_prefer_community(&mut self, who: u64, community_id_hash: [u8; 32]) -> (r: Result<(), Error>)
        ensures
            ({
                let s = seq_or_empty(old(self).advertiser_whitelist@, who);
                if s.contains(community_id_hash) {
                    r == Err::<(), Error>(Error::AlreadyWhitelisted) && *final(self) == *old(self)
                } else if s.len() >= old(self).config.max_advertiser_whitelist {
                    r == Err::<(), Error>(Error::WhitelistFull) && *final(self) == *old(self)
                } else {
                    &&& r is Ok
                    &&& final(self).advertiser_whitelist@ == old(self).advertiser_whitelist@.insert(who, final(self).advertiser_whitelist@[who])
                    &&& final(self).advertiser_whitelist@[who]@ == s.push(community_id_hash)
                    &&& final(self).events@ == old(self).events@.push(Event::AdvertiserPreferredCommunity { advertiser: who, community_id_hash })
                    &&& *final(self) == (Pallet { advertiser_whitelist: final(self).advertiser_whitelist, events: final(self).events, ..*old(self) })
                }
            }),
    {
        let max = self.config.max_advertiser_whitelist;
        match list_add(&mut self.advertiser_whitelist, who, community_id_hash, max) {
            Err(true) => Err(Error::AlreadyWhitelisted),
            Err(false) => Err(Error::WhitelistFull),
            Ok(()) => {
                self.events.push(Event::AdvertiserPreferredCommunity { advertiser: who, community_id_hash });
                Ok(())
            },
        }
    }

    /// Whether `who` may act for the community: it has no recorded admin yet,
    /// or `who` is that admin.
    pub open spec fn is_admin(self, community_id_hash: [u8; 32], who: u64) -> bool {
        !self.community_admin@.contains_key(community_id_hash) || self.community_admin@[community_id_hash] == who
    }

    pub(crate) fn check_admin(&self, who: u64, community_id_hash: &[u8; 32]) -> (r: bool)
        ensures
            r == self.is_admin(*community_id_hash, who),
    {
        match self.community_admin.get(community_id_hash) {
            Some(a) => *a == who,
            None => true,
        }
    }

    /// The community's admin (anyone while it has none) blocks an advertiser.
    pub fn community_block_advertiser(&mut self, who: u64, community_id_hash: [u8; 32], advertiser: u64) -> (r: Result<(), Error>)
        ensures
            ({
                let s = seq_or_empty(old(self).community_blacklist@, community_id_hash);
                if !old(self).is_admin(community_id_hash, who) {
                    r == Err::<(), Error>(Error::NotCommunityAdmin) && *final(self) == *old(self)
                } else if s.contains(advertiser) {
                    r == Err::<(), Error>(Error::AlreadyBlacklisted) && *final(self) == *old(self)
                } else if s.len() >= old(self).config.max_community_blacklist {
                    r == Err::<(), Error>(Error::BlacklistFull) && *final(self) == *old(self)
                } else {
                    &&& r is Ok
                    &&& final(self).community_blacklist@ == old(self).community_blacklist@.insert(community_id_hash, final(self).community_blacklist@[community_id_hash])
                    &&& final(self).community_blacklist@[community_id_hash]@ == s.push(advertiser)
                    &&& final(self).events@ == old(self).events@.push(Event::CommunityBlockedAdvertiser { community_id_hash, advertiser })
                    &&& *final(self) == (Pallet { community_blacklist: final(self).community_blacklist, events: final(self).events, ..*old(self) })
                }
            }),
    {
        if !self.check_admin(who, &community_id_hash) {
            return Err(Error::NotCommunityAdmin);
        }
        let max = self.config.max_community_blacklist;
        match list_add(&mut self.community_blacklist, community_id_hash, advertiser, max) {
            Err(true) => Err(Error::AlreadyBlacklisted),
            Err(false) => Err(Error::BlacklistFull),
            Ok(()) => {
                self.events.push(Event::CommunityBlockedAdvertiser { community_id_hash, advertiser });
                Ok(())
            },
        }
    }

    /// The community's admin (anyone while it has none) lifts its block of an advertiser.
    pub fn community_unblock_advertiser(&mut self, who: u64, community_id_hash: [u8; 32], advertiser: u64) -> (r: Result<(), Error>)
        ensures
            ({
                let s = seq_or_empty(old(self).community_blacklist@, community_id_hash);
                if !old(self).is_admin(community_id_hash, who) {
                    r == Err::<(), Error>(Error::NotCommunityAdmin) && *final(self) == *old(self)
                } else if !s.contains(advertiser) {
                    r == Err::<(), Error>(Error::NotBlacklisted) && *final(self) == *old(self)
                } else {
                    &&& r is Ok
                    &&& final(self).community_blacklist@ == old(self).community_blacklist@.insert(community_id_hash, final(self).community_blacklist@[community_id_hash])
                    &&& final(self).community_blacklist@[community_id_hash]@ == swap_removed(s, first_index(s, advertiser))
                    &&& final(self).events@ == old(self).events@.push(Event::CommunityUnblockedAdvertiser { community_id_hash, advertiser })
                    &&& *final(self) == (Pallet { community_blacklist: final(self).community_blacklist, events: final(self).events, ..*old(self) })
                }
            }),
    {
        if !self.check_admin(who, &community_id_hash) {
            return Err(Error::NotCommunityAdmin);
        }
        if list_remove(&mut self.community_blacklist, community_id_hash, advertiser) {
            self.events.push(Event::CommunityUnblockedAdvertiser { community_id_hash, advertiser });
            Ok(())
        } else {
            Err(Error::NotBlacklisted)
        }
    }

    /// The community's admin (anyone while it has none) names an advertiser it prefers.
    pub fn community_prefer_advertiser(&mut self, who: u64, community_id_hash: [u8; 32], advertiser: u64) -> (r: Result<(), Error>)
        ensures
            ({
                let s = seq_or_empty(old(self).community_whitelist@, community_id_hash);
                if !old(self).is_admin(community_id_hash, who) {
                    r == Err::<(), Error>(Error::NotCommunityAdmin) && *final(self) == *old(self)
                } else if s.contains(advertiser) {
                    r == Err::<(), Error>(Error::AlreadyWhitelisted) && *final(self) == *old(self)
                } else if s.len() >= old(self).config.max_community_whitelist {
                    r == Err::<(), Error>(Error::WhitelistFull) && *final(self) == *old(self)
                } else {
                    &&& r is Ok
                    &&& final(self).community_whitelist@ == old(self).community_whitelist@.insert(community_id_hash, final(self).community_whitelist@[community_id_hash])
                    &&& final(self).community_whitelist@[community_id_hash]@ == s.push(advertiser)
                    &&& final(self).events@ == old(self).events@.push(Event::CommunityPreferredAdvertiser { community_id_hash, advertiser })
                    &&& *final(self) == (Pallet { community_whitelist: final(self).community_whitelist, events: final(self).events, ..*old(self) })
                }
            }),
    {
        if !self.check_admin(who, &community_id_hash) {
            return Err(Error::NotCommunityAdmin);
        }
        let max = self.config.max_community_whitelist;
        match list_add(&mut self.community_whitelist, community_id_hash, advertiser, max) {
            Err(true) => Err(Error::AlreadyWhitelisted),
            Err(false) => Err(Error::WhitelistFull),
            Ok(()) => {
                self.events.push(Event::CommunityPreferredAdvertiser { community_id_hash, advertiser });
                Ok(())
            },
        }
    }
}

/// Blocking a community and then lifting the block leaves the advertiser's block
/// list as it was, when the community was not on it and the list had room.
pub proof fn lemma_block_then_unblock(s: Seq<[u8; 32]>, c: [u8; 32])
    requires
        !s.contains(c),
    ensures
        swap_removed(s.push(c), first_index(s.push(c), c)) == s,
{
    let t = s.push(c);
    lemma_first_index_absent_prefix(s, c);
    assert(swap_removed(t, s.len() as int) =~= s);
}

proof fn lemma_first_index_absent_prefix<T>(s: Seq<T>, x: T)
    requires
        !s.contains(x),
    ensures
        first_index(s.push(x), x) == s.len(),
    decreases s.len(),
{
    if s.len() > 0 {
        assert(s[0] != x);
        assert(s.push(x).drop_first() =~= s.drop_first().push(x));
        assert(!s.drop_first().contains(x)) by {
            if s.drop_first().contains(x) {
                let i = choose|i: int| 0 <= i < s.drop_first().len() && s.drop_first()[i] == x;
                assert(s[i + 1] == x);
            }
        }
        lemma_first_index_absent_prefix(s.drop_first(), x);
    }
}

} // verus!
