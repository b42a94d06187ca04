//! Profile bookkeeping: resolving a profile's password from its
//! possible sources, and editing the persisted profile list.  The
//! files and the secret store themselves are the caller's; every
//! decision about their contents is made here.

use vstd::prelude::*;
use vstd::string::*;
use crate::types::{ServerProfileOnDisk, copy_string};

verus! {

/// A password embedded in the oldest persisted format, non-empty.
pub open spec fn nonempty_embedded(embedded: Option<String>) -> bool {
    embedded matches Some(p) && p@.len() > 0
}

/// The outcome of resolving one profile's password.
#[derive(Debug)]
pub struct PasswordResolution {
    /// The password the profile gets.
    pub password: String,
    /// The caller migrates the password into the secret store.
    pub store_in_keychain: bool,
}

/// Resolve one profile's password from its three possible sources:
/// a password embedded in the oldest persisted format wins and is
/// migrated to the secret store; otherwise a non-empty secret-store
/// entry wins; otherwise a legacy password-file entry is used and,
/// when non-empty, migrated; otherwise the password is empty.
pub fn resolve_password(
    embedded: Option<String>,
    keychain: String,
    legacy: Option<String>,
) -> (r: PasswordResolution)
    ensures
        nonempty_embedded(embedded) ==> r.password@ == embedded.unwrap()@ && r.store_in_keychain,
        !nonempty_embedded(embedded) && keychain@.len() > 0 ==> r.password@ == keychain@
            && !r.store_in_keychain,
        !nonempty_embedded(embedded) && keychain@.len() == 0 && legacy is Some ==> r.password@
            == legacy.unwrap()@ && r.store_in_keychain == (legacy.unwrap()@.len() > 0),
        !nonempty_embedded(embedded) && keychain@.len() == 0 && legacy is None ==> r.password@.len()
            == 0 && !r.store_in_keychain,
{
    match embedded {
        Some(p) => {
            if !p.as_str().is_empty() {
                return PasswordResolution { password: p, store_in_keychain: true };
            }
        },
        None => {
        },
    }
    if !keychain.as_str().is_empty() {
        return PasswordResolution { password: keychain, store_in_keychain: false };
    }
    match legacy {
        Some(q) => {
            let store = !q.as_str().is_empty();
            PasswordResolution { password: q, store_in_keychain: store }
        },
        None => PasswordResolution { password: String::new(), store_in_keychain: false },
    }
}

/// The position of the first persisted profile with this id, or -1.
pub open spec fn index_of_profile(s: Seq<ServerProfileOnDisk>, id: Seq<char>) -> int
    decreases s.len(),
{
    if s.len() == 0 {
        -1
    } else if s[0].id@ == id {
        0
    } else {
        let rest = index_of_profile(s.drop_first(), id);
        if rest < 0 {
            -1
        } else {
            rest + 1
        }
    }
}

proof fn lemma_index_of_profile(s: Seq<ServerProfileOnDisk>, id: Seq<char>)
    ensures
        index_of_profile(s, id) < 0 ==> forall|k: int| 0 <= k < s.len() ==> s[k].id@ != id,
        index_of_profile(s, id) >= 0 ==> 0 <= index_of_profile(s, id) < s.len()
            && s[index_of_profile(s, id)].id@ == id && (forall|k: int|
            0 <= k < index_of_profile(s, id) ==> s[k].id@ != id),
    decreases s.len(),
{
    if s.len() > 0 {
        let rest = s.drop_first();
        lemma_index_of_profile(rest, id);
        if s[0].id@ != id {
            let r = index_of_profile(rest, id);
            if r < 0 {
                assert forall|k: int| 0 <= k < s.len() implies s[k].id@ != id by {
                    if k > 0 {
                        assert(rest[k - 1] == s[k]);
                        assert(rest[k - 1].id@ != id);
                    }
                }
            } else {
                assert(index_of_profile(s, id) == r + 1);
                assert(s[r + 1] == rest[r]);
                assert forall|k: int| 0 <= k < r + 1 implies s[k].id@ != id by {
                    if k > 0 {
                        assert(rest[k - 1] == s[k]);
                        assert(rest[k - 1].id@ != id);
                    }
                }
            }
        }
    }
}

/// Save a profile into the persisted list: replace the first entry
/// with the same id, or append when the id is new.
pub fn upsert_profile(profiles: &mut Vec<ServerProfileOnDisk>, profile: ServerProfileOnDisk)
    ensures
        index_of_profile(old(profiles)@, profile.id@) < 0 ==> final(profiles)@ == old(
            profiles,
        )@.push(profile),
        index_of_profile(old(profiles)@, profile.id@) >= 0 ==> final(profiles)@ == old(
            profiles,
        )@.update(index_of_profile(old(profiles)@, profile.id@), profile),
{
    proof {
        lemma_index_of_profile(old(profiles)@, profile.id@);
    }
    let n = profiles.len();
    let mut i: usize = 0;
    while i < n
        invariant
            i <= n,
            n == profiles@.len(),
            *profiles == *old(profiles),
            forall|j: int| 0 <= j < i ==> profiles@[j].id@ != profile.id@,
        decreases n - i,
    {
        if profiles[i].id == profile.id {
            proof {
                let w = index_of_profile(old(profiles)@, profile.id@);
                lemma_index_of_profile(old(profiles)@, profile.id@);
                if w < 0 {
                    assert(false);
                }
                assert(w == i);
            }
            profiles.set(i, profile);
            return ;
        }
        i += 1;
    }
    proof {
        let w = index_of_profile(old(profiles)@, profile.id@);
        lemma_index_of_profile(old(profiles)@, profile.id@);
        if w >= 0 {
            assert(false);
        }
    }
    profiles.push(profile);
}

/// Delete a profile from the persisted list: every entry with the
/// id goes, every other entry stays, in order.
pub fn remove_profile(profiles: &mut Vec<ServerProfileOnDisk>, id: &String)
    ensures
        final(profiles)@ == old(profiles)@.filter(|p: ServerProfileOnDisk| p.id@ != id@),
{
    let ghost orig = profiles@;
    let ghost pred = |p: ServerProfileOnDisk| p.id@ != id@;
    let n = profiles.len();
    let mut out: Vec<ServerProfileOnDisk> = Vec::new();
    let mut i: usize = 0;
    proof {
        reveal_with_fuel(Seq::filter, 1);
        assert(orig.subrange(0, 0).filter(pred) =~= Seq::<ServerProfileOnDisk>::empty());
    }
    while i < n
        invariant
            i <= n,
            n == orig.len(),
            profiles@ == orig.subrange(i as int, n as int),
            out@ == orig.subrange(0, i as int).filter(pred),
            pred == (|p: ServerProfileOnDisk| p.id@ != id@),
        decreases n - i,
    {
        let e = profiles.remove(0);
        proof {
            assert(e == orig[i as int]);
            assert(profiles@ =~= orig.subrange(i + 1 as int, n as int));
        }
        let keep = !(e.id == *id);
        proof {
            reveal_with_fuel(Seq::filter, 2);
            let pre = orig.subrange(0, i as int);
            assert(orig.subrange(0, i + 1 as int) =~= pre.push(e));
            assert(pre.push(e).drop_last() =~= pre);
            assert(pre.push(e).last() == e);
            assert(keep == pred(e));
        }
        if keep {
            out.push(e);
        }
        i += 1;
    }
    proof {
        assert(orig.subrange(0, n as int) =~= orig);
    }
    *profiles = out;
}

} // verus!
