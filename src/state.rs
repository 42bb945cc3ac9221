use vstd::prelude::*;
use crate::storage::{Bucket, Singleton};

verus! {

/// The contract's configuration: who may endorse records.
///
/// Identities (the owner here, a record's `cyber`) are held in the form in
/// which the host names the caller, and every query returns them in that same
/// form.
#[derive(Clone, Debug, PartialEq, Eq)]
pub struct State {
    pub owner: String,
}

/// What a nickname was registered with, and whether the owner endorses it.
#[derive(Clone, Debug, PartialEq, Eq)]
pub struct EvangelistRecord {
    pub cyber: String,
    pub nickname: String,
    pub telegram: String,
    pub github: String,
    pub accepted: bool,
}

/// `rec` with its endorsement flag set to `accepted`, every other field kept.
pub open spec fn with_accepted(rec: EvangelistRecord, accepted: bool) -> EvangelistRecord {
    EvangelistRecord { accepted, ..rec }
}

/// All persisted state of one contract: the configuration slot and the records
/// keyed by nickname. The two are separate places, so no nickname can reach the
/// configuration.
pub struct Storage {
    pub config: Singleton<State>,
    pub resolver: Bucket<EvangelistRecord>,
}

/// What a reader of the storage can observe: the configuration, if written, and
/// the record under each registered nickname.
pub type StorageView = (Option<State>, Map<Seq<char>, EvangelistRecord>);

impl View for Storage {
    type V = StorageView;

    open spec fn view(&self) -> StorageView {
        (self.config@, self.resolver@)
    }
}

impl Storage {
    pub open spec fn wf(&self) -> bool {
        self.resolver.wf()
    }

    /// Storage with no configuration and no record.
    pub fn new() -> (r: Self)
        ensures
            r.wf(),
            r@.0 is None,
            r@.1 == Map::<Seq<char>, EvangelistRecord>::empty(),
    {
        Storage { config: Singleton::new(), resolver: Bucket::new() }
    }
}

/// The configuration slot, for writing.
pub fn config(storage: &mut Storage) -> (r: &mut Singleton<State>)
    ensures
        *r == old(storage).config,
        final(storage).config == *final(r),
        final(storage).resolver == old(storage).resolver,
{
    &mut storage.config
}

/// The configuration slot, for reading.
pub fn config_read(storage: &Storage) -> (r: &Singleton<State>)
    ensures
        *r == storage.config,
{
    &storage.config
}

/// The records keyed by nickname, for writing.
pub fn resolver(storage: &mut Storage) -> (r: &mut Bucket<EvangelistRecord>)
    ensures
        *r == old(storage).resolver,
        final(storage).resolver == *final(r),
        final(storage).config == old(storage).config,
{
    &mut storage.resolver
}

/// The records keyed by nickname, for reading.
pub fn resolver_read(storage: &Storage) -> (r: &Bucket<EvangelistRecord>)
    ensures
        *r == storage.resolver,
{
    &storage.resolver
}

} // verus!
