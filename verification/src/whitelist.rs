use vstd::prelude::*;

use crate::keys::{same_key, Pubkey};

verus! {

/// The views of a sequence of keys.
pub open spec fn key_views(keys: Seq<Pubkey>) -> Seq<Seq<u8>> {
    keys.map_values(|k: Pubkey| k@)
}

/// A set of account keys. Each key is held once, so the number of
/// entries is the number of distinct keys.
pub struct Whitelist {
    keys: Vec<Pubkey>,
}

impl Whitelist {
    #[verifier::type_invariant]
    spec fn distinct(&self) -> bool {
        key_views(self.keys@).no_duplicates()
    }

    /// The keys held, as a set of byte sequences.
    pub closed spec fn members(&self) -> Set<Seq<u8>> {
        key_views(self.keys@).to_set()
    }

    /// An empty whitelist.
    pub fn new() -> (w: Whitelist)
        ensures
            w.members() == Set::<Seq<u8>>::empty(),
    {
        let w = Whitelist { keys: Vec::new() };
        assert(w.members() =~= Set::<Seq<u8>>::empty());
        w
    }

    proof fn lemma_members_len(keys: Seq<Pubkey>)
        requires
            key_views(keys).no_duplicates(),
        ensures
            key_views(keys).to_set().finite(),
            key_views(keys).to_set().len() == keys.len(),
    {
        key_views(keys).unique_seq_to_set();
    }

    /// Whether the key is in the whitelist.
    pub fn contains(&self, key: &Pubkey) -> (r: bool)
        ensures
            r == self.members().contains(key@),
    {
        let n = self.keys.len();
        let mut i: usize = 0;
        while i < n
            invariant
                n == self.keys@.len(),
                i <= n,
                forall|j: int| 0 <= j < i ==> self.keys@[j]@ != key@,
            decreases n - i,
        {
            if same_key(&self.keys[i], key) {
                assert(key_views(self.keys@)[i as int] == key@);
                return true;
            }
            i = i + 1;
        }
        assert(!key_views(self.keys@).contains(key@));
        false
    }

    /// The number of keys in the whitelist.
    pub fn len(&self) -> (n: usize)
        ensures
            n == self.members().len(),
            self.members().finite(),
    {
        proof {
            use_type_invariant(self);
            Self::lemma_members_len(self.keys@);
        }
        self.keys.len()
    }

    /// The keys of the whitelist, each once.
    pub fn to_vec(&self) -> (v: Vec<Pubkey>)
        ensures
            key_views(v@).no_duplicates(),
            key_views(v@).to_set() == self.members(),
    {
        proof {
            use_type_invariant(self);
        }
        let mut v: Vec<Pubkey> = Vec::new();
        let n = self.keys.len();
        let mut i: usize = 0;
        while i < n
            invariant
                n == self.keys@.len(),
                i <= n,
                key_views(self.keys@).no_duplicates(),
                key_views(v@) =~= key_views(self.keys@).take(i as int),
            decreases n - i,
        {
            v.push(self.keys[i]);
            assert(key_views(self.keys@).take(i + 1) =~= key_views(self.keys@).take(i as int).push(
                key_views(self.keys@)[i as int],
            ));
            i = i + 1;
        }
        assert(key_views(self.keys@).take(n as int) =~= key_views(self.keys@));
        v
    }

    /// Adds the key; a key already present is left as it is.
    pub fn insert(&mut self, key: Pubkey)
        ensures
            final(self).members() == old(self).members().insert(key@),
            final(self).members().finite(),
    {
        proof {
            use_type_invariant(&*self);
        }
        if !self.contains(&key) {
            let ghost before = key_views(self.keys@);
            let mut keys: Vec<Pubkey> = Vec::new();
            std::mem::swap(&mut keys, &mut self.keys);
            keys.push(key);
            proof {
                assert(key_views(keys@) =~= before.push(key@));
                assert(!before.contains(key@));
                assert(key_views(keys@).no_duplicates());
                Seq::lemma_to_set_insert_commutes(before, key@);
                assert(before.push(key@) =~= before + seq![key@]);
            }
            self.keys = keys;
        } else {
            proof {
                assert(old(self).members().insert(key@) =~= old(self).members());
            }
        }
        proof {
            use_type_invariant(&*self);
            Self::lemma_members_len(self.keys@);
        }
    }
}

/// Every whitelist holds finitely many keys.
pub proof fn lemma_members_finite(w: Whitelist)
    ensures
        w.members().finite(),
{
    vstd::seq_lib::seq_to_set_is_finite(key_views(w.keys@));
}

/// A key just added to a whitelist is in it, whatever it held before, and
/// every key it held before is still in it.
pub proof fn lemma_added_key_is_member(before: Whitelist, after: Whitelist, key: Pubkey)
    requires
        after.members() == before.members().insert(key@),
    ensures
        after.members().contains(key@),
        forall|k: Seq<u8>| before.members().contains(k) ==> #[trigger] after.members().contains(k),
{
}

/// Adding a key that is already in a whitelist changes nothing; adding a
/// new one grows it by exactly one.
pub proof fn lemma_add_counts_distinct_keys(before: Whitelist, after: Whitelist, key: Pubkey)
    requires
        after.members() == before.members().insert(key@),
    ensures
        before.members().contains(key@) ==> after.members() == before.members(),
        !before.members().contains(key@) ==> after.members().len() == before.members().len() + 1,
{
    lemma_members_finite(before);
    if before.members().contains(key@) {
        assert(before.members().insert(key@) =~= before.members());
    }
}

} // verus!
