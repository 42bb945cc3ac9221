use vstd::prelude::*;
use crate::contract::{
    believe_step, config_spec, endorse_step, handle_step, resolve_spec,
};
use crate::error::ContractError;
use crate::msg::HandleMsg;
use crate::state::{State, StorageView};

verus! {

/// Once a nickname has been registered, registering it again fails with
/// `AlreadyExists`, whoever asks and with whatever handles, and changes nothing.
pub proof fn lemma_nickname_unique(
    s: StorageView,
    first: String,
    nickname: String,
    telegram: String,
    github: String,
    second: String,
    telegram2: String,
    github2: String,
)
    requires
        believe_step(s, first, nickname, telegram, github).0 is Ok,
    ensures
        ({
            let s1 = believe_step(s, first, nickname, telegram, github).1;
            believe_step(s1, second, nickname, telegram2, github2) == (
                Err::<(), ContractError>(ContractError::AlreadyExists),
                s1,
            )
        }),
{
}

/// A caller other than the owner can neither endorse nor withdraw an
/// endorsement of a registered nickname: both fail with `Unauthorized` and the
/// storage, the record's flag included, stays as it was.
pub proof fn lemma_only_owner_endorses(
    s: StorageView,
    caller: String,
    nickname: Seq<char>,
    accepted: bool,
)
    requires
        s.0 is Some,
        s.1.contains_key(nickname),
        caller@ != s.0->0.owner@,
    ensures
        endorse_step(s, caller, nickname, accepted) == (
            Err::<(), ContractError>(ContractError::Unauthorized),
            s,
        ),
{
}

/// The owner's endorsement shows in the next lookup as `accepted == true`, a
/// second endorsement keeps it so, and a withdrawal after it shows as
/// `accepted == false`.
pub proof fn lemma_endorse_toggles(s: StorageView, nickname: Seq<char>)
    requires
        s.0 is Some,
        s.1.contains_key(nickname),
    ensures
        ({
            let owner = s.0->0.owner;
            let blessed = endorse_step(s, owner, nickname, true);
            let twice = endorse_step(blessed.1, owner, nickname, true);
            let unblessed = endorse_step(blessed.1, owner, nickname, false);
            &&& blessed.0 is Ok
            &&& resolve_spec(blessed.1, nickname) is Ok
            &&& resolve_spec(blessed.1, nickname)->Ok_0.accepted == true
            &&& twice.0 is Ok
            &&& resolve_spec(twice.1, nickname)->Ok_0.accepted == true
            &&& unblessed.0 is Ok
            &&& resolve_spec(unblessed.1, nickname) is Ok
            &&& resolve_spec(unblessed.1, nickname)->Ok_0.accepted == false
        }),
{
}

/// A nickname that was never registered cannot be looked up, endorsed or
/// unendorsed: each fails with `NotFound`, and nothing changes.
pub proof fn lemma_unregistered_not_found(
    s: StorageView,
    caller: String,
    nickname: Seq<char>,
    accepted: bool,
)
    requires
        !s.1.contains_key(nickname),
    ensures
        resolve_spec(s, nickname) == Err::<crate::msg::ResolveEvangelistResponse, ContractError>(
            ContractError::NotFound,
        ),
        endorse_step(s, caller, nickname, accepted) == (
            Err::<(), ContractError>(ContractError::NotFound),
            s,
        ),
{
}

/// No state-changing message touches the configuration: the owner read back
/// after any sequence of messages is the one that initialization recorded.
pub proof fn lemma_owner_fixed(s: StorageView, owner: String, msgs: Seq<(String, HandleMsg)>)
    requires
        s.0 == Some(State { owner }),
    ensures
        config_spec(run_handle(s, msgs)) == Ok::<State, ContractError>(State { owner }),
    decreases msgs.len(),
{
    if msgs.len() > 0 {
        let last = msgs.last();
        lemma_owner_fixed(s, owner, msgs.drop_last());
        lemma_handle_keeps_config(run_handle(s, msgs.drop_last()), last.0, last.1);
    }
}

/// A single state-changing message leaves the configuration as it was.
pub proof fn lemma_handle_keeps_config(s: StorageView, sender: String, msg: HandleMsg)
    ensures
        handle_step(s, sender, msg).1.0 == s.0,
{
}

/// The storage after the messages of `msgs`, in order, each with its sender.
pub open spec fn run_handle(s: StorageView, msgs: Seq<(String, HandleMsg)>) -> StorageView
    decreases msgs.len(),
{
    if msgs.len() == 0 {
        s
    } else {
        let last = msgs.last();
        handle_step(run_handle(s, msgs.drop_last()), last.0, last.1).1
    }
}

} // verus!
