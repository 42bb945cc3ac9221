use vstd::prelude::*;
use crate::error::ContractError;

verus! {

/// A slot that holds at most one value, written whole and read whole.
pub struct Singleton<T> {
    value: Option<T>,
}

impl<T> View for Singleton<T> {
    type V = Option<T>;

    closed spec fn view(&self) -> Option<T> {
        self.value
    }
}

impl<T> Singleton<T> {
    /// A slot that was never written.
    pub fn new() -> (r: Self)
        ensures
            r@ == None::<T>,
    {
        Singleton { value: None }
    }

    /// Writes `value`, replacing whatever the slot held.
    pub fn save(&mut self, value: T)
        ensures
            final(self)@ == Some(value),
    {
        self.value = Some(value);
    }

    /// The stored value, or nothing when the slot was never written.
    pub fn may_load(&self) -> (r: Option<&T>)
        ensures
            match r {
                Some(v) => self@ == Some(*v),
                None => self@ is None,
            },
    {
        match &self.value {
            Some(v) => Some(v),
            None => None,
        }
    }

    /// The stored value; fails with `NotFound` when the slot was never written.
    pub fn load(&self) -> (r: Result<&T, ContractError>)
        ensures
            match r {
                Ok(v) => self@ == Some(*v),
                Err(e) => self@ is None && e == ContractError::NotFound,
            },
    {
        match &self.value {
            Some(v) => Ok(v),
            None => Err(ContractError::NotFound),
        }
    }

    /// Reads the stored value, hands it to `f` and writes back what `f` returns.
    /// When the slot is empty or `f` fails, the slot is left as it was.
    pub fn update<F: Fn(&T) -> Result<T, ContractError>>(&mut self, f: F) -> (r: Result<
        (),
        ContractError,
    >)
        requires
            forall|v: &T| f.requires((v,)),
        ensures
            old(self)@ is None ==> r == Err::<(), ContractError>(ContractError::NotFound)
                && final(self)@ == old(self)@,
            old(self)@ is Some ==> exists|res: Result<T, ContractError>|
                f.ensures((&old(self)@->0,), res) && match res {
                    Ok(nv) => r == Ok::<(), ContractError>(()) && final(self)@ == Some(nv),
                    Err(e) => r == Err::<(), ContractError>(e) && final(self)@ == old(self)@,
                },
    {
        let res = match &self.value {
            Some(v) => f(v),
            None => { return Err(ContractError::NotFound); },
        };
        match res {
            Ok(nv) => {
                self.value = Some(nv);
                Ok(())
            },
            Err(e) => Err(e),
        }
    }
}

/// Many values, each stored under its own string key; a key holds at most one value.
pub struct Bucket<T> {
    entries: Vec<(String, T)>,
    contents: Ghost<Map<Seq<char>, T>>,
}

impl<T> View for Bucket<T> {
    type V = Map<Seq<char>, T>;

    closed spec fn view(&self) -> Map<Seq<char>, T> {
        self.contents@
    }
}

impl<T> Bucket<T> {
    /// Every stored pair is in the map, every key of the map is stored, and no key
    /// is stored twice.
    pub closed spec fn wf(&self) -> bool {
        &&& forall|i: int|
            0 <= i < self.entries.len() ==> {
                &&& self.contents@.contains_key(#[trigger] self.entries[i].0@)
                &&& self.contents@[self.entries[i].0@] == self.entries[i].1
            }
        &&& forall|k: Seq<char>|
            #[trigger] self.contents@.contains_key(k) ==> exists|i: int|
                0 <= i < self.entries.len() && #[trigger] self.entries[i].0@ == k
        &&& forall|i: int, j: int|
            0 <= i < self.entries.len() && 0 <= j < self.entries.len() && i != j
                ==> #[trigger] self.entries[i].0@ != #[trigger] self.entries[j].0@
    }

    /// A bucket with no record in it.
    pub fn new() -> (r: Self)
        ensures
            r@ == Map::<Seq<char>, T>::empty(),
            r.wf(),
    {
        Bucket { entries: Vec::new(), contents: Ghost(Map::empty()) }
    }

    /// The position at which `key` is stored, if it is.
    fn find(&self, key: &String) -> (r: Option<usize>)
        requires
            self.wf(),
        ensures
            match r {
                Some(i) => i < self.entries.len() && self.entries[i as int].0@ == key@,
                None => !self@.contains_key(key@),
            },
    {
        let mut i: usize = 0;
        while i < self.entries.len()
            invariant
                i <= self.entries.len(),
                forall|j: int| 0 <= j < i ==> self.entries[j].0@ != key@,
            decreases self.entries.len() - i,
        {
            if self.entries[i].0 == *key {
                return Some(i);
            }
            i = i + 1;
        }
        None
    }

    /// Writes `value` under `key`, replacing any value stored there.
    pub fn save(&mut self, key: String, value: T)
        requires
            old(self).wf(),
        ensures
            final(self).wf(),
            final(self)@ == old(self)@.insert(key@, value),
    {
        match self.find(&key) {
            Some(i) => {
                let ghost k = key@;
                self.entries.set(i, (key, value));
                proof {
                    self.contents@ = self.contents@.insert(k, self.entries[i as int].1);
                    assert forall|k2: Seq<char>| #[trigger] self.contents@.contains_key(k2)
                        implies exists|j: int|
                            0 <= j < self.entries.len() && #[trigger] self.entries[j].0@ == k2 by {
                        if k2 == k {
                            assert(self.entries[i as int].0@ == k2);
                        } else {
                            let j = choose|j: int|
                                0 <= j < old(self).entries.len() && #[trigger] old(
                                    self,
                                ).entries[j].0@ == k2;
                            assert(self.entries[j].0@ == k2);
                        }
                    }
                }
            },
            None => {
                let ghost k = key@;
                self.entries.push((key, value));
                proof {
                    let n = self.entries.len() - 1;
                    self.contents@ = self.contents@.insert(k, self.entries[n].1);
                    assert forall|k2: Seq<char>| #[trigger] self.contents@.contains_key(k2)
                        implies exists|j: int|
                            0 <= j < self.entries.len() && #[trigger] self.entries[j].0@ == k2 by {
                        if k2 == k {
                            assert(self.entries[n].0@ == k2);
                        } else {
                            let j = choose|j: int|
                                0 <= j < old(self).entries.len() && #[trigger] old(
                                    self,
                                ).entries[j].0@ == k2;
                            assert(self.entries[j].0@ == k2);
                        }
                    }
                }
            },
        }
    }

    /// The value stored under `key`, or nothing when there is none.
    pub fn may_load(&self, key: &String) -> (r: Option<&T>)
        requires
            self.wf(),
        ensures
            match r {
                Some(v) => self@.contains_key(key@) && self@[key@] == *v,
                None => !self@.contains_key(key@),
            },
    {
        match self.find(key) {
            Some(i) => Some(&self.entries[i].1),
            None => None,
        }
    }

    /// The value stored under `key`; fails with `NotFound` when there is none.
    pub fn load(&self, key: &String) -> (r: Result<&T, ContractError>)
        requires
            self.wf(),
        ensures
            match r {
                Ok(v) => self@.contains_key(key@) && self@[key@] == *v,
                Err(e) => !self@.contains_key(key@) && e == ContractError::NotFound,
            },
    {
        match self.may_load(key) {
            Some(v) => Ok(v),
            None => Err(ContractError::NotFound),
        }
    }

    /// Reads the value under `key`, hands it to `f` and writes back what `f` returns.
    /// The key must already hold a value. When it holds none, or `f` fails, the
    /// bucket is left as it was.
    pub fn update<F: Fn(&T) -> Result<T, ContractError>>(&mut self, key: &String, f: F) -> (r:
        Result<(), ContractError>)
        requires
            old(self).wf(),
            forall|v: &T| f.requires((v,)),
        ensures
            final(self).wf(),
            !old(self)@.contains_key(key@) ==> r == Err::<(), ContractError>(
                ContractError::NotFound,
            ) && final(self)@ == old(self)@,
            old(self)@.contains_key(key@) ==> exists|res: Result<T, ContractError>|
                f.ensures((&old(self)@[key@],), res) && match res {
                    Ok(nv) => r == Ok::<(), ContractError>(()) && final(self)@ == old(self)@.insert(key@, nv),
                    Err(e) => r == Err::<(), ContractError>(e) && final(self)@ == old(self)@,
                },
    {
        let i = match self.find(key) {
            Some(i) => i,
            None => {
                return Err(ContractError::NotFound);
            },
        };
        let res = f(&self.entries[i].1);
        match res {
            Ok(nv) => {
                self.save(key.clone(), nv);
                Ok(())
            },
            Err(e) => Err(e),
        }
    }
}

} // verus!
