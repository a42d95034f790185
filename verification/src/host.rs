//! In-memory model of the host environment: the ledger's key-value store,
//! the account registry (signer weights and thresholds), and the invocation
//! context (which contract, if any, is currently calling).
//!
//! The store is an association list with unique keys whose mathematical view
//! is a `Map` from `DataKey` to `StoredVal`; every operation is specified
//! against that view.

use vstd::prelude::*;

use crate::public_types::{bytes32_eq, U256};
use crate::storage_types::{data_key_eq, val_view, DataKey, DataVal, StoredVal};

verus! {

/// A multi-signer account as the host's account model exposes it: its key,
/// its medium threshold, and the weight of each signer.
#[derive(Clone, Debug)]
pub struct AccountEntry {
    pub public_key: U256,
    pub medium_threshold: u32,
    pub signers: Vec<(U256, u32)>,
}

/// The mathematical view of an environment.
pub struct EnvView {
    pub store: Map<DataKey, StoredVal>,
    pub invoker: Option<U256>,
    pub accounts: Seq<AccountEntry>,
}

/// The map denoted by an association list; a later entry for the same key
/// would override an earlier one, but `Env` keeps keys unique.
spec fn store_map(s: Seq<(DataKey, DataVal)>) -> Map<DataKey, StoredVal>
    decreases s.len(),
{
    if s.len() == 0 {
        Map::empty()
    } else {
        store_map(s.drop_last()).insert(s.last().0, val_view(s.last().1))
    }
}

/// No key occurs twice in the association list.
spec fn unique_keys(s: Seq<(DataKey, DataVal)>) -> bool {
    forall|i: int, j: int| 0 <= i < j < s.len() ==> s[i].0 != s[j].0
}

/// A key is in the denoted map exactly when some entry carries it.
proof fn lemma_store_map_contains(s: Seq<(DataKey, DataVal)>, k: DataKey)
    ensures
        store_map(s).contains_key(k) <==> exists|i: int| 0 <= i < s.len() && s[i].0 == k,
    decreases s.len(),
{
    if s.len() > 0 {
        lemma_store_map_contains(s.drop_last(), k);
        if s.last().0 == k {
            assert(s[s.len() - 1].0 == k);
        } else {
            if store_map(s).contains_key(k) {
                let i = choose|i: int| 0 <= i < s.drop_last().len() && s.drop_last()[i].0 == k;
                assert(s[i].0 == k);
            }
            if exists|i: int| 0 <= i < s.len() && s[i].0 == k {
                let i = choose|i: int| 0 <= i < s.len() && s[i].0 == k;
                assert(s.drop_last()[i].0 == k);
            }
        }
    }
}

/// With unique keys, each entry's key maps to that entry's value.
proof fn lemma_store_map_value(s: Seq<(DataKey, DataVal)>, i: int)
    requires
        unique_keys(s),
        0 <= i < s.len(),
    ensures
        store_map(s).contains_key(s[i].0),
        store_map(s)[s[i].0] == val_view(s[i].1),
    decreases s.len(),
{
    if i == s.len() - 1 {
    } else {
        assert(s.drop_last()[i] == s[i]);
        lemma_store_map_value(s.drop_last(), i);
        assert(s[s.len() - 1].0 != s[i].0);
    }
}

/// Overwriting the entry that holds a key updates the denoted map at that
/// key alone.
proof fn lemma_store_map_update(s: Seq<(DataKey, DataVal)>, i: int, v: DataVal)
    requires
        unique_keys(s),
        0 <= i < s.len(),
    ensures
        unique_keys(s.update(i, (s[i].0, v))),
        store_map(s.update(i, (s[i].0, v))) =~= store_map(s).insert(s[i].0, val_view(v)),
{
    let k = s[i].0;
    let t = s.update(i, (k, v));
    assert(forall|j: int| 0 <= j < s.len() ==> t[j].0 == s[j].0);
    assert(unique_keys(t));
    assert forall|q: DataKey| #[trigger] store_map(t).contains_key(q)
        == store_map(s).insert(k, val_view(v)).contains_key(q) by {
        lemma_store_map_contains(s, q);
        lemma_store_map_contains(t, q);
        if exists|j: int| 0 <= j < s.len() && s[j].0 == q {
            let j = choose|j: int| 0 <= j < s.len() && s[j].0 == q;
            assert(t[j].0 == q);
        }
        if exists|j: int| 0 <= j < t.len() && t[j].0 == q {
            let j = choose|j: int| 0 <= j < t.len() && t[j].0 == q;
            assert(s[j].0 == q);
        }
    }
    assert forall|q: DataKey| store_map(t).contains_key(q) implies #[trigger] store_map(t)[q]
        == store_map(s).insert(k, val_view(v))[q] by {
        lemma_store_map_contains(t, q);
        let j = choose|j: int| 0 <= j < t.len() && t[j].0 == q;
        lemma_store_map_value(t, j);
        if q == k {
            assert(j == i);
        } else {
            assert(j != i);
            lemma_store_map_value(s, j);
        }
    }
}

/// Appending an entry for an absent key inserts it into the denoted map.
proof fn lemma_store_map_push(s: Seq<(DataKey, DataVal)>, k: DataKey, v: DataVal)
    requires
        unique_keys(s),
        forall|j: int| 0 <= j < s.len() ==> s[j].0 != k,
    ensures
        unique_keys(s.push((k, v))),
        store_map(s.push((k, v))) =~= store_map(s).insert(k, val_view(v)),
{
    let t = s.push((k, v));
    assert(forall|j: int| 0 <= j < s.len() ==> t[j] == s[j]);
    assert(t.drop_last() =~= s);
}

/// The host environment.
pub struct Env {
    store: Vec<(DataKey, DataVal)>,
    invoker: Option<U256>,
    accounts: Vec<AccountEntry>,
}

impl View for Env {
    type V = EnvView;

    closed spec fn view(&self) -> EnvView {
        EnvView {
            store: store_map(self.store@),
            invoker: self.invoker,
            accounts: self.accounts@,
        }
    }
}

impl Env {
    /// The representation invariant: store keys are unique.
    pub closed spec fn wf(&self) -> bool {
        unique_keys(self.store@)
    }

    /// A fresh environment: empty store, no invoking contract, no accounts.
    pub fn new() -> (e: Env)
        ensures
            e.wf(),
            e@.store =~= Map::<DataKey, StoredVal>::empty(),
            e@.invoker is None,
            e@.accounts =~= Seq::<AccountEntry>::empty(),
    {
        Env { store: Vec::new(), invoker: None, accounts: Vec::new() }
    }

    /// The position of the entry holding `key`, if any.
    fn find(&self, key: &DataKey) -> (r: Option<usize>)
        ensures
            match r {
                Some(i) => i < self.store@.len() && self.store@[i as int].0 == *key,
                None => forall|j: int| 0 <= j < self.store@.len() ==> self.store@[j].0 != *key,
            },
    {
        let mut i: usize = 0;
        let n: usize = self.store.len();
        while i < n
            invariant
                n == self.store@.len(),
                i <= n,
                forall|j: int| 0 <= j < i ==> self.store@[j].0 != *key,
            decreases n - i,
        {
            let entry = &self.store[i];
            if data_key_eq(&entry.0, key) {
                return Some(i);
            }
            i = i + 1;
        }
        None
    }

    /// Whether the store holds an entry for `key`.
    pub fn has(&self, key: &DataKey) -> (r: bool)
        ensures
            r == self@.store.contains_key(*key),
    {
        let found = self.find(key);
        proof {
            lemma_store_map_contains(self.store@, *key);
        }
        match found {
            Some(_) => true,
            None => false,
        }
    }

    /// Store `val` under `key`, replacing any earlier entry.
    fn set_val(&mut self, key: DataKey, val: DataVal)
        requires
            old(self).wf(),
        ensures
            final(self).wf(),
            final(self)@.store =~= old(self)@.store.insert(key, val_view(val)),
            final(self)@.invoker == old(self)@.invoker,
            final(self)@.accounts == old(self)@.accounts,
    {
        let found = self.find(&key);
        match found {
            Some(i) => {
                proof {
                    lemma_store_map_update(self.store@, i as int, val);
                }
                self.store[i] = (key, val);
            },
            None => {
                proof {
                    lemma_store_map_push(self.store@, key, val);
                }
                self.store.push((key, val));
            },
        }
    }

    /// Store an amount under `key`.
    pub fn set_amount(&mut self, key: DataKey, a: u64)
        requires
            old(self).wf(),
        ensures
            final(self).wf(),
            final(self)@.store =~= old(self)@.store.insert(key, StoredVal::Amount(a)),
            final(self)@.invoker == old(self)@.invoker,
            final(self)@.accounts == old(self)@.accounts,
    {
        self.set_val(key, DataVal::Amount(a));
    }

    /// Store a boolean flag under `key`.
    pub fn set_flag(&mut self, key: DataKey, f: bool)
        requires
            old(self).wf(),
        ensures
            final(self).wf(),
            final(self)@.store =~= old(self)@.store.insert(key, StoredVal::Flag(f)),
            final(self)@.invoker == old(self)@.invoker,
            final(self)@.accounts == old(self)@.accounts,
    {
        self.set_val(key, DataVal::Flag(f));
    }

    /// Store an identity under `key`.
    pub fn set_id(&mut self, key: DataKey, id: crate::public_types::Identifier)
        requires
            old(self).wf(),
        ensures
            final(self).wf(),
            final(self)@.store =~= old(self)@.store.insert(key, StoredVal::Id(id)),
            final(self)@.invoker == old(self)@.invoker,
            final(self)@.accounts == old(self)@.accounts,
    {
        self.set_val(key, DataVal::Id(id));
    }

    /// Store a 32-bit word under `key`.
    pub fn set_word(&mut self, key: DataKey, w: u32)
        requires
            old(self).wf(),
        ensures
            final(self).wf(),
            final(self)@.store =~= old(self)@.store.insert(key, StoredVal::Word(w)),
            final(self)@.invoker == old(self)@.invoker,
            final(self)@.accounts == old(self)@.accounts,
    {
        self.set_val(key, DataVal::Word(w));
    }

    /// Store a byte string under `key`.
    pub fn set_bytes(&mut self, key: DataKey, b: Vec<u8>)
        requires
            old(self).wf(),
        ensures
            final(self).wf(),
            final(self)@.store =~= old(self)@.store.insert(key, StoredVal::Bytes(b@)),
            final(self)@.invoker == old(self)@.invoker,
            final(self)@.accounts == old(self)@.accounts,
    {
        self.set_val(key, DataVal::Bytes(b));
    }

    /// The amount stored under `key`, if the entry exists and is an amount.
    pub fn get_amount(&self, key: &DataKey) -> (r: Option<u64>)
        requires
            self.wf(),
        ensures
            match r {
                Some(a) => self@.store.contains_key(*key) && self@.store[*key]
                    == StoredVal::Amount(a),
                None => !self@.store.contains_key(*key) || !(self@.store[*key] is Amount),
            },
    {
        let found = self.find(key);
        proof {
            lemma_store_map_contains(self.store@, *key);
        }
        match found {
            Some(i) => {
                proof {
                    lemma_store_map_value(self.store@, i as int);
                }
                let entry = &self.store[i];
                match &entry.1 {
                    DataVal::Amount(a) => Some(*a),
                    _ => None,
                }
            },
            None => None,
        }
    }

    /// The flag stored under `key`, if the entry exists and is a flag.
    pub fn get_flag(&self, key: &DataKey) -> (r: Option<bool>)
        requires
            self.wf(),
        ensures
            match r {
                Some(f) => self@.store.contains_key(*key) && self@.store[*key]
                    == StoredVal::Flag(f),
                None => !self@.store.contains_key(*key) || !(self@.store[*key] is Flag),
            },
    {
        let found = self.find(key);
        proof {
            lemma_store_map_contains(self.store@, *key);
        }
        match found {
            Some(i) => {
                proof {
                    lemma_store_map_value(self.store@, i as int);
                }
                let entry = &self.store[i];
                match &entry.1 {
                    DataVal::Flag(f) => Some(*f),
                    _ => None,
                }
            },
            None => None,
        }
    }

    /// The identity stored under `key`, if the entry exists and is one.
    pub fn get_id(&self, key: &DataKey) -> (r: Option<crate::public_types::Identifier>)
        requires
            self.wf(),
        ensures
            match r {
                Some(id) => self@.store.contains_key(*key) && self@.store[*key]
                    == StoredVal::Id(id),
                None => !self@.store.contains_key(*key) || !(self@.store[*key] is Id),
            },
    {
        let found = self.find(key);
        proof {
            lemma_store_map_contains(self.store@, *key);
        }
        match found {
            Some(i) => {
                proof {
                    lemma_store_map_value(self.store@, i as int);
                }
                let entry = &self.store[i];
                match &entry.1 {
                    DataVal::Id(id) => Some(*id),
                    _ => None,
                }
            },
            None => None,
        }
    }

    /// The word stored under `key`, if the entry exists and is a word.
    pub fn get_word(&self, key: &DataKey) -> (r: Option<u32>)
        requires
            self.wf(),
        ensures
            match r {
                Some(w) => self@.store.contains_key(*key) && self@.store[*key]
                    == StoredVal::Word(w),
                None => !self@.store.contains_key(*key) || !(self@.store[*key] is Word),
            },
    {
        let found = self.find(key);
        proof {
            lemma_store_map_contains(self.store@, *key);
        }
        match found {
            Some(i) => {
                proof {
                    lemma_store_map_value(self.store@, i as int);
                }
                let entry = &self.store[i];
                match &entry.1 {
                    DataVal::Word(w) => Some(*w),
                    _ => None,
                }
            },
            None => None,
        }
    }

    /// A copy of the byte string stored under `key`, if the entry exists and
    /// is a byte string.
    pub fn get_bytes(&self, key: &DataKey) -> (r: Option<Vec<u8>>)
        requires
            self.wf(),
        ensures
            match r {
                Some(b) => self@.store.contains_key(*key) && self@.store[*key]
                    == StoredVal::Bytes(b@),
                None => !self@.store.contains_key(*key) || !(self@.store[*key] is Bytes),
            },
    {
        let found = self.find(key);
        proof {
            lemma_store_map_contains(self.store@, *key);
        }
        match found {
            Some(i) => {
                proof {
                    lemma_store_map_value(self.store@, i as int);
                }
                let entry = &self.store[i];
                match &entry.1 {
                    DataVal::Bytes(b) => {
                        let mut out: Vec<u8> = Vec::new();
                        let mut j: usize = 0;
                        let n: usize = b.len();
                        while j < n
                            invariant
                                n == b@.len(),
                                j <= n,
                                out@ =~= b@.subrange(0, j as int),
                            decreases n - j,
                        {
                            out.push(b[j]);
                            proof {
                                assert(out@ =~= b@.subrange(0, j + 1));
                            }
                            j = j + 1;
                        }
                        proof {
                            assert(out@ =~= b@);
                        }
                        Some(out)
                    },
                    _ => None,
                }
            },
            None => None,
        }
    }

    /// The address of the currently invoking contract, if the call runs
    /// inside a cross-contract invocation frame.
    pub fn invoking_contract(&self) -> (r: Option<U256>)
        ensures
            r == self@.invoker,
    {
        self.invoker
    }

    /// Set the invocation context (the test harness's stand-in for the
    /// host's call stack).
    pub fn set_invoking_contract(&mut self, inv: Option<U256>)
        requires
            old(self).wf(),
        ensures
            final(self).wf(),
            final(self)@.invoker == inv,
            final(self)@.store == old(self)@.store,
            final(self)@.accounts == old(self)@.accounts,
    {
        self.invoker = inv;
    }

    /// Add an account to the account registry.
    pub fn register_account(&mut self, acct: AccountEntry)
        requires
            old(self).wf(),
        ensures
            final(self).wf(),
            final(self)@.accounts =~= old(self)@.accounts.push(acct),
            final(self)@.store == old(self)@.store,
            final(self)@.invoker == old(self)@.invoker,
    {
        self.accounts.push(acct);
    }

    /// The medium threshold of the account with key `key`, if registered.
    pub fn medium_threshold(&self, key: &U256) -> (r: Option<u32>)
        ensures
            r == match spec_find_account(self@.accounts, *key) {
                Some(a) => Some::<u32>(a.medium_threshold),
                None => None::<u32>,
            },
    {
        let mut i: usize = 0;
        let n: usize = self.accounts.len();
        proof {
            assert(self.accounts@.skip(0) =~= self.accounts@);
        }
        while i < n
            invariant
                n == self.accounts@.len(),
                i <= n,
                spec_find_account(self.accounts@, *key) == spec_find_account(
                    self.accounts@.skip(i as int),
                    *key,
                ),
            decreases n - i,
        {
            let acct = &self.accounts[i];
            if bytes32_eq(&acct.public_key, key) {
                return Some(acct.medium_threshold);
            }
            proof {
                assert(self.accounts@.skip(i as int).drop_first() =~= self.accounts@.skip(i + 1));
            }
            i = i + 1;
        }
        None
    }

    /// The weight of signer `pk` on the account with key `key`: `None` if
    /// the account is not registered, the configured weight (default 0) if
    /// it is.
    pub fn signer_weight(&self, key: &U256, pk: &U256) -> (r: Option<u32>)
        ensures
            r == match spec_find_account(self@.accounts, *key) {
                Some(a) => Some::<u32>(spec_signer_weight(a.signers@, *pk)),
                None => None::<u32>,
            },
    {
        let mut i: usize = 0;
        let n: usize = self.accounts.len();
        proof {
            assert(self.accounts@.skip(0) =~= self.accounts@);
        }
        while i < n
            invariant
                n == self.accounts@.len(),
                i <= n,
                spec_find_account(self.accounts@, *key) == spec_find_account(
                    self.accounts@.skip(i as int),
                    *key,
                ),
            decreases n - i,
        {
            let acct = &self.accounts[i];
            if bytes32_eq(&acct.public_key, key) {
                return Some(signer_weight_in(&acct.signers, pk));
            }
            proof {
                assert(self.accounts@.skip(i as int).drop_first() =~= self.accounts@.skip(i + 1));
            }
            i = i + 1;
        }
        None
    }
}

/// The first registered account carrying `key`, if any.
pub open spec fn spec_find_account(accounts: Seq<AccountEntry>, key: U256) -> Option<AccountEntry>
    decreases accounts.len(),
{
    if accounts.len() == 0 {
        None
    } else if accounts.first().public_key == key {
        Some(accounts.first())
    } else {
        spec_find_account(accounts.drop_first(), key)
    }
}

/// The configured weight of `pk` in a signer list; 0 when absent.
pub open spec fn spec_signer_weight(signers: Seq<(U256, u32)>, pk: U256) -> u32
    decreases signers.len(),
{
    if signers.len() == 0 {
        0
    } else if signers.first().0 == pk {
        signers.first().1
    } else {
        spec_signer_weight(signers.drop_first(), pk)
    }
}

/// The configured weight of `pk` in an executable signer list.
fn signer_weight_in(signers: &Vec<(U256, u32)>, pk: &U256) -> (r: u32)
    ensures
        r == spec_signer_weight(signers@, *pk),
{
    let mut i: usize = 0;
    let n: usize = signers.len();
    proof {
        assert(signers@.skip(0) =~= signers@);
    }
    while i < n
        invariant
            n == signers@.len(),
            i <= n,
            spec_signer_weight(signers@, *pk) == spec_signer_weight(signers@.skip(i as int), *pk),
        decreases n - i,
    {
        let entry = &signers[i];
        if bytes32_eq(&entry.0, pk) {
            return entry.1;
        }
        proof {
            assert(signers@.skip(i as int).drop_first() =~= signers@.skip(i + 1));
        }
        i = i + 1;
    }
    0
}

} // verus!
