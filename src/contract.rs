use vstd::prelude::*;
use crate::error::ContractError;
use crate::msg::{HandleMsg, InitMsg, QueryMsg, QueryResponse, ResolveEvangelistResponse};
use crate::state::{
    config, config_read, resolver, resolver_read, with_accepted, EvangelistRecord, State,
    Storage, StorageView,
};

verus! {

/// The registration rule: a free nickname gets a new, unendorsed record of the
/// sender; a taken one is refused and nothing changes.
pub open spec fn believe_step(
    s: StorageView,
    sender: String,
    nickname: String,
    telegram: String,
    github: String,
) -> (Result<(), ContractError>, StorageView) {
    if s.1.contains_key(nickname@) {
        (Err(ContractError::AlreadyExists), s)
    } else {
        let rec = EvangelistRecord { cyber: sender, nickname, telegram, github, accepted: false };
        (Ok(()), (s.0, s.1.insert(nickname@, rec)))
    }
}

/// The endorsement rule: with a configuration and a record under `nickname`, the
/// owner sets the record's flag to `accepted`; anyone else is refused. Nothing
/// changes on failure.
pub open spec fn endorse_step(s: StorageView, sender: String, nickname: Seq<char>, accepted: bool) -> (
    Result<(), ContractError>,
    StorageView,
) {
    match s.0 {
        None => (Err(ContractError::NotFound), s),
        Some(st) => if !s.1.contains_key(nickname) {
            (Err(ContractError::NotFound), s)
        } else if !is_owner_spec(sender, st) {
            (Err(ContractError::Unauthorized), s)
        } else {
            (Ok(()), (s.0, s.1.insert(nickname, with_accepted(s.1[nickname], accepted))))
        },
    }
}

/// What a state-changing message does to the storage, and what it answers.
pub open spec fn handle_step(s: StorageView, sender: String, msg: HandleMsg) -> (
    Result<(), ContractError>,
    StorageView,
) {
    match msg {
        HandleMsg::Believe { nickname, telegram, github } => believe_step(
            s,
            sender,
            nickname,
            telegram,
            github,
        ),
        HandleMsg::Bless { nickname } => endorse_step(s, sender, nickname@, true),
        HandleMsg::Unbless { nickname } => endorse_step(s, sender, nickname@, false),
    }
}

/// A stored record as a reader sees it.
pub open spec fn response_of(rec: EvangelistRecord) -> ResolveEvangelistResponse {
    ResolveEvangelistResponse {
        cyber: rec.cyber,
        nickname: rec.nickname,
        telegram: rec.telegram,
        github: rec.github,
        accepted: rec.accepted,
    }
}

/// The answer to a lookup of `nickname`.
pub open spec fn resolve_spec(s: StorageView, nickname: Seq<char>) -> Result<
    ResolveEvangelistResponse,
    ContractError,
> {
    if s.1.contains_key(nickname) {
        Ok(response_of(s.1[nickname]))
    } else {
        Err(ContractError::NotFound)
    }
}

/// The answer to a read of the configuration.
pub open spec fn config_spec(s: StorageView) -> Result<State, ContractError> {
    match s.0 {
        Some(st) => Ok(st),
        None => Err(ContractError::NotFound),
    }
}

/// The answer to a query message.
pub open spec fn query_spec(s: StorageView, msg: QueryMsg) -> Result<QueryResponse, ContractError> {
    match msg {
        QueryMsg::ResolveEvangelist { nickname } => match resolve_spec(s, nickname@) {
            Ok(resp) => Ok(QueryResponse::ResolveEvangelist(resp)),
            Err(e) => Err(e),
        },
        QueryMsg::Config {  } => match config_spec(s) {
            Ok(st) => Ok(QueryResponse::Config(st)),
            Err(e) => Err(e),
        },
    }
}

/// `caller` is the owner that `state` records.
pub open spec fn is_owner_spec(caller: String, state: State) -> bool {
    caller@ == state.owner@
}

/// The authorization guard: whether `caller` is the owner that `state` records.
pub fn is_owner(caller: &String, state: &State) -> (r: bool)
    ensures
        r == is_owner_spec(*caller, *state),
{
    *caller == state.owner
}

/// Sets the contract up: the sender becomes the owner. Records are untouched.
pub fn init(deps: &mut Storage, sender: String, _msg: InitMsg) -> (r: Result<(), ContractError>)
    requires
        old(deps).wf(),
    ensures
        final(deps).wf(),
        r is Ok,
        final(deps)@ == (Some(State { owner: sender }), old(deps)@.1),
{
    let state = State { owner: sender };
    config(deps).save(state);
    Ok(())
}

/// Runs one state-changing message for `sender`.
pub fn handle(deps: &mut Storage, sender: String, msg: HandleMsg) -> (r: Result<(), ContractError>)
    requires
        old(deps).wf(),
    ensures
        final(deps).wf(),
        (r, final(deps)@) == handle_step(old(deps)@, sender, msg),
{
    match msg {
        HandleMsg::Believe { nickname, telegram, github } => try_believe(
            deps,
            sender,
            nickname,
            telegram,
            github,
        ),
        HandleMsg::Bless { nickname } => try_bless(deps, sender, nickname),
        HandleMsg::Unbless { nickname } => try_unbless(deps, sender, nickname),
    }
}

/// Registers `nickname` for `sender`, unendorsed; fails with `AlreadyExists`
/// when the nickname is taken.
pub fn try_believe(
    deps: &mut Storage,
    sender: String,
    nickname: String,
    telegram: String,
    github: String,
) -> (r: Result<(), ContractError>)
    requires
        old(deps).wf(),
    ensures
        final(deps).wf(),
        (r, final(deps)@) == believe_step(old(deps)@, sender, nickname, telegram, github),
{
    let taken = resolver_read(deps).may_load(&nickname).is_some();
    if taken {
        return Err(ContractError::AlreadyExists);
    }
    let key = nickname.clone();
    let record = EvangelistRecord { cyber: sender, nickname, telegram, github, accepted: false };
    resolver(deps).save(key, record);
    Ok(())
}

/// The owner endorses the record under `nickname`.
pub fn try_bless(deps: &mut Storage, sender: String, nickname: String) -> (r: Result<
    (),
    ContractError,
>)
    requires
        old(deps).wf(),
    ensures
        final(deps).wf(),
        (r, final(deps)@) == endorse_step(old(deps)@, sender, nickname@, true),
{
    set_accepted(deps, &sender, &nickname, true)
}

/// The owner withdraws the endorsement of the record under `nickname`.
pub fn try_unbless(deps: &mut Storage, sender: String, nickname: String) -> (r: Result<
    (),
    ContractError,
>)
    requires
        old(deps).wf(),
    ensures
        final(deps).wf(),
        (r, final(deps)@) == endorse_step(old(deps)@, sender, nickname@, false),
{
    set_accepted(deps, &sender, &nickname, false)
}

/// A copy of `rec` with its endorsement flag set to `accepted`.
fn accepted_copy(rec: &EvangelistRecord, accepted: bool) -> (r: EvangelistRecord)
    ensures
        r == with_accepted(*rec, accepted),
{
    EvangelistRecord {
        cyber: rec.cyber.clone(),
        nickname: rec.nickname.clone(),
        telegram: rec.telegram.clone(),
        github: rec.github.clone(),
        accepted,
    }
}

/// Sets the flag of the record under `nickname`, checking inside the same update
/// that `sender` is the owner.
fn set_accepted(deps: &mut Storage, sender: &String, nickname: &String, accepted: bool) -> (r:
    Result<(), ContractError>)
    requires
        old(deps).wf(),
    ensures
        final(deps).wf(),
        (r, final(deps)@) == endorse_step(old(deps)@, *sender, nickname@, accepted),
{
    let owned = match config_read(deps).load() {
        Ok(st) => State { owner: st.owner.clone() },
        Err(e) => {
            return Err(e);
        },
    };
    let config_state = &owned;
    let update = move|rec: &EvangelistRecord| -> (res: Result<EvangelistRecord, ContractError>)
        ensures
            is_owner_spec(*sender, *config_state) ==> res == Ok::<EvangelistRecord, ContractError>(
                with_accepted(*rec, accepted),
            ),
            !is_owner_spec(*sender, *config_state) ==> res == Err::<EvangelistRecord, ContractError>(
                ContractError::Unauthorized,
            ),
        {
            if !is_owner(sender, config_state) {
                return Err(ContractError::Unauthorized);
            }
            Ok(accepted_copy(rec, accepted))
        };
    resolver(deps).update(nickname, update)
}

/// Looks up the record under `nickname`.
pub fn query_resolver(deps: &Storage, nickname: &String) -> (r: Result<
    ResolveEvangelistResponse,
    ContractError,
>)
    requires
        deps.wf(),
    ensures
        r == resolve_spec(deps@, nickname@),
{
    let record = match resolver_read(deps).load(nickname) {
        Ok(rec) => rec,
        Err(e) => {
            return Err(e);
        },
    };
    Ok(
        ResolveEvangelistResponse {
            cyber: record.cyber.clone(),
            nickname: record.nickname.clone(),
            telegram: record.telegram.clone(),
            github: record.github.clone(),
            accepted: record.accepted,
        },
    )
}

/// Reads the configuration.
pub fn query_config(deps: &Storage) -> (r: Result<State, ContractError>)
    ensures
        r == config_spec(deps@),
{
    match config_read(deps).load() {
        Ok(st) => Ok(State { owner: st.owner.clone() }),
        Err(e) => Err(e),
    }
}

/// Answers one query message.
pub fn query(deps: &Storage, msg: QueryMsg) -> (r: Result<QueryResponse, ContractError>)
    requires
        deps.wf(),
    ensures
        r == query_spec(deps@, msg),
{
    match msg {
        QueryMsg::ResolveEvangelist { nickname } => match query_resolver(deps, &nickname) {
            Ok(resp) => Ok(QueryResponse::ResolveEvangelist(resp)),
            Err(e) => Err(e),
        },
        QueryMsg::Config {  } => match query_config(deps) {
            Ok(st) => Ok(QueryResponse::Config(st)),
            Err(e) => Err(e),
        },
    }
}

} // verus!
