//! Properties of ceremonies that span calls.
use vstd::prelude::*;
use crate::grouprobot::CeremonyStatus;
use super::{active_consistent, CeremonyRecord, Pallet};
use super::calls::supersede;

verus! {

/// A bot never has two active ceremonies: in storage whose active ceremonies
/// are consistent (which `new` establishes and every call keeps), two active
/// ceremonies of the same bot are the same ceremony.
pub proof fn lemma_one_active_ceremony_per_bot(p: Pallet, h1: [u8; 32], h2: [u8; 32])
    requires
        active_consistent(p),
        p.ceremonies@.contains_key(h1),
        p.ceremonies@.contains_key(h2),
        p.ceremonies@[h1].status == CeremonyStatus::Active,
        p.ceremonies@[h2].status == CeremonyStatus::Active,
        p.ceremonies@[h1].bot_public_key == p.ceremonies@[h2].bot_public_key,
    ensures
        h1 == h2,
{
}

/// In consistent storage, a bot's ceremony counts as active exactly when the
/// bot has an active ceremony recorded.
pub proof fn lemma_active_query_agrees(p: Pallet, bot_public_key: [u8; 32])
    requires
        active_consistent(p),
    ensures
        p.active_ceremony@.contains_key(bot_public_key) ==> (super::active_record(p, bot_public_key) matches Some(rec)
            && rec.status == CeremonyStatus::Active && rec.bot_public_key == bot_public_key),
        !p.active_ceremony@.contains_key(bot_public_key) ==> super::active_record(p, bot_public_key) is None,
{
}

/// The pointer discipline between ceremonies and active ceremonies: a recorded
/// ceremony is active exactly when it is the active ceremony of its bot, and
/// every active pointer names a recorded ceremony.
pub open spec fn pointers_agree(p: Pallet) -> bool {
    &&& forall|h: [u8; 32]| #[trigger] p.ceremonies@.contains_key(h) ==> (
        p.ceremonies@[h].status == CeremonyStatus::Active <==> (
            p.active_ceremony@.contains_key(p.ceremonies@[h].bot_public_key)
            && p.active_ceremony@[p.ceremonies@[h].bot_public_key] == h))
    &&& forall|pk: [u8; 32]| #[trigger] p.active_ceremony@.contains_key(pk)
        ==> p.ceremonies@.contains_key(p.active_ceremony@[pk])
}

/// The active pointer of `pk`, if any, names a ceremony of `pk` itself.
pub open spec fn pointer_of_key(p: Pallet, pk: [u8; 32]) -> bool {
    p.active_ceremony@.contains_key(pk) ==> p.ceremonies@[p.active_ceremony@[pk]].bot_public_key == pk
}

/// Under the pointer discipline a bot has at most one active ceremony, and a
/// bot with an active ceremony is reported active.
pub proof fn lemma_pointers_one_active(p: Pallet, h1: [u8; 32], h2: [u8; 32])
    requires
        pointers_agree(p),
        p.ceremonies@.contains_key(h1),
        p.ceremonies@.contains_key(h2),
        p.ceremonies@[h1].status == CeremonyStatus::Active,
        p.ceremonies@[h2].status == CeremonyStatus::Active,
        p.ceremonies@[h1].bot_public_key == p.ceremonies@[h2].bot_public_key,
    ensures
        h1 == h2,
        super::active_record(p, p.ceremonies@[h1].bot_public_key) == Some(p.ceremonies@[h1]),
{
}

/// Recording a ceremony (the change that `record_ceremony` states: the bot's
/// previous active ceremony superseded, the new one stored active and made the
/// bot's active one) keeps the pointer discipline, provided the bot's active
/// pointer named one of its own ceremonies.
pub proof fn lemma_record_keeps_pointers(
    p: Pallet,
    q: Pallet,
    pk: [u8; 32],
    hash: [u8; 32],
    rec: CeremonyRecord,
)
    requires
        pointers_agree(p),
        pointer_of_key(p, pk),
        !p.ceremonies@.contains_key(hash),
        rec.status == CeremonyStatus::Active,
        rec.bot_public_key == pk,
        q.ceremonies@ == supersede(p.ceremonies@,
            if p.active_ceremony@.contains_key(pk) { Some(p.active_ceremony@[pk]) } else { None }, hash).insert(hash, rec),
        q.active_ceremony@ == p.active_ceremony@.insert(pk, hash),
    ensures
        pointers_agree(q),
{
    let prev = if p.active_ceremony@.contains_key(pk) { Some(p.active_ceremony@[pk]) } else { None };
    assert forall|h: [u8; 32]| #[trigger] q.ceremonies@.contains_key(h) implies (
        q.ceremonies@[h].status == CeremonyStatus::Active <==> (
            q.active_ceremony@.contains_key(q.ceremonies@[h].bot_public_key)
            && q.active_ceremony@[q.ceremonies@[h].bot_public_key] == h)) by {
        if h != hash {
            assert(p.ceremonies@.contains_key(h));
            if prev == Some(h) {
                assert(q.ceremonies@[h].bot_public_key == pk);
            } else {
                assert(q.ceremonies@[h] == p.ceremonies@[h]);
            }
        }
    }
}

/// The invariant that every call keeps implies the pointer discipline.
pub proof fn lemma_consistent_gives_pointers(p: Pallet, pk: [u8; 32])
    requires
        active_consistent(p),
    ensures
        pointers_agree(p),
        pointer_of_key(p, pk),
{
}

} // verus!
