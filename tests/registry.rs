use evangelism::contract::{
    handle, init, is_owner, query, query_config, query_resolver, try_believe, try_bless,
    try_unbless,
};
use evangelism::error::ContractError;
use evangelism::msg::{HandleMsg, InitMsg, QueryMsg, QueryResponse, ResolveEvangelistResponse};
use evangelism::state::{config_read, resolver_read, State, Storage};
use evangelism::storage::{Bucket, Singleton};

fn s(v: &str) -> String {
    v.to_string()
}

fn initialized() -> Storage {
    let mut deps = Storage::new();
    init(&mut deps, s("creator"), InitMsg {}).unwrap();
    deps
}

fn registered() -> Storage {
    let mut deps = initialized();
    try_believe(&mut deps, s("alice"), s("alice_nickname"), s("alice_attr1"), s("alice_github"))
        .unwrap();
    deps
}

fn accepted(deps: &Storage, nickname: &str) -> bool {
    query_resolver(deps, &s(nickname)).unwrap().accepted
}

#[test]
fn second_registration_is_refused() {
    let mut deps = registered();
    let again = try_believe(&mut deps, s("bob"), s("alice_nickname"), s("b1"), s("b2"));
    assert_eq!(again, Err(ContractError::AlreadyExists));
    let rec = query_resolver(&deps, &s("alice_nickname")).unwrap();
    assert_eq!(rec.cyber, s("alice"));
    assert_eq!(rec.telegram, s("alice_attr1"));
    let same_caller = try_believe(&mut deps, s("alice"), s("alice_nickname"), s("x"), s("y"));
    assert_eq!(same_caller, Err(ContractError::AlreadyExists));
}

#[test]
fn already_taken_message() {
    assert_eq!(ContractError::AlreadyExists.message(), s("Nickname is already taken"));
    assert_eq!(ContractError::Unauthorized.message(), s("Unauthorized"));
    assert_eq!(ContractError::NotFound.message(), s("Not found"));
}

#[test]
fn non_owner_cannot_bless_or_unbless() {
    let mut deps = registered();
    assert_eq!(try_bless(&mut deps, s("alice"), s("alice_nickname")), Err(ContractError::Unauthorized));
    assert!(!accepted(&deps, "alice_nickname"));
    try_bless(&mut deps, s("creator"), s("alice_nickname")).unwrap();
    assert_eq!(
        try_unbless(&mut deps, s("mallory"), s("alice_nickname")),
        Err(ContractError::Unauthorized)
    );
    assert!(accepted(&deps, "alice_nickname"));
}

#[test]
fn bless_then_unbless_toggles() {
    let mut deps = registered();
    try_bless(&mut deps, s("creator"), s("alice_nickname")).unwrap();
    assert!(accepted(&deps, "alice_nickname"));
    try_bless(&mut deps, s("creator"), s("alice_nickname")).unwrap();
    assert!(accepted(&deps, "alice_nickname"));
    try_unbless(&mut deps, s("creator"), s("alice_nickname")).unwrap();
    assert!(!accepted(&deps, "alice_nickname"));
    try_unbless(&mut deps, s("creator"), s("alice_nickname")).unwrap();
    assert!(!accepted(&deps, "alice_nickname"));
}

#[test]
fn unregistered_nickname_is_not_found() {
    let mut deps = registered();
    assert_eq!(query_resolver(&deps, &s("bob_nickname")), Err(ContractError::NotFound));
    assert_eq!(try_bless(&mut deps, s("creator"), s("bob_nickname")), Err(ContractError::NotFound));
    assert_eq!(try_unbless(&mut deps, s("creator"), s("bob_nickname")), Err(ContractError::NotFound));
    assert_eq!(try_bless(&mut deps, s("alice"), s("bob_nickname")), Err(ContractError::NotFound));
    assert_eq!(
        query(&deps, QueryMsg::ResolveEvangelist { nickname: s("bob_nickname") }),
        Err(ContractError::NotFound)
    );
}

#[test]
fn bless_before_init_is_not_found() {
    let mut deps = Storage::new();
    try_believe(&mut deps, s("alice"), s("alice_nickname"), s("a"), s("b")).unwrap();
    assert_eq!(try_bless(&mut deps, s("creator"), s("alice_nickname")), Err(ContractError::NotFound));
    assert_eq!(query_config(&deps), Err(ContractError::NotFound));
    assert_eq!(query(&deps, QueryMsg::Config {}), Err(ContractError::NotFound));
}

#[test]
fn owner_survives_every_operation() {
    let mut deps = registered();
    let msgs = vec![
        (s("bob"), HandleMsg::Believe { nickname: s("bob_nick"), telegram: s("t"), github: s("g") }),
        (s("bob"), HandleMsg::Bless { nickname: s("bob_nick") }),
        (s("creator"), HandleMsg::Bless { nickname: s("bob_nick") }),
        (s("creator"), HandleMsg::Unbless { nickname: s("alice_nickname") }),
        (s("alice"), HandleMsg::Believe { nickname: s("alice_nickname"), telegram: s("t"), github: s("g") }),
    ];
    for (sender, msg) in msgs {
        let _ = handle(&mut deps, sender, msg);
        assert_eq!(query_config(&deps), Ok(State { owner: s("creator") }));
    }
}

#[test]
fn full_scenario() {
    let mut deps = initialized();
    handle(
        &mut deps,
        s("alice"),
        HandleMsg::Believe {
            nickname: s("alice_nickname"),
            telegram: s("alice_attr1"),
            github: s("alice_github"),
        },
    )
    .unwrap();
    let expected = ResolveEvangelistResponse {
        cyber: s("alice"),
        nickname: s("alice_nickname"),
        telegram: s("alice_attr1"),
        github: s("alice_github"),
        accepted: false,
    };
    assert_eq!(
        query(&deps, QueryMsg::ResolveEvangelist { nickname: s("alice_nickname") }),
        Ok(QueryResponse::ResolveEvangelist(expected.clone()))
    );
    handle(&mut deps, s("creator"), HandleMsg::Bless { nickname: s("alice_nickname") }).unwrap();
    assert!(accepted(&deps, "alice_nickname"));
    assert_eq!(
        handle(&mut deps, s("alice"), HandleMsg::Bless { nickname: s("alice_nickname") }),
        Err(ContractError::Unauthorized)
    );
    handle(&mut deps, s("creator"), HandleMsg::Unbless { nickname: s("alice_nickname") }).unwrap();
    assert_eq!(query_resolver(&deps, &s("alice_nickname")), Ok(expected));
}

#[test]
fn guard_compares_owner() {
    let st = State { owner: s("creator") };
    assert!(is_owner(&s("creator"), &st));
    assert!(!is_owner(&s("alice"), &st));
    assert!(!is_owner(&s(""), &st));
}

#[test]
fn reinit_replaces_owner_only() {
    let mut deps = registered();
    init(&mut deps, s("other"), InitMsg {}).unwrap();
    assert_eq!(query_config(&deps), Ok(State { owner: s("other") }));
    assert_eq!(query_resolver(&deps, &s("alice_nickname")).unwrap().cyber, s("alice"));
    assert_eq!(config_read(&deps).load(), Ok(&State { owner: s("other") }));
    assert!(resolver_read(&deps).may_load(&s("alice_nickname")).is_some());
}

#[test]
fn singleton_slot_operations() {
    let mut slot: Singleton<u64> = Singleton::new();
    assert_eq!(slot.may_load(), None);
    assert_eq!(slot.load(), Err(ContractError::NotFound));
    assert_eq!(slot.update(|v: &u64| Ok(*v + 1)), Err(ContractError::NotFound));
    slot.save(4);
    assert_eq!(slot.load(), Ok(&4));
    assert_eq!(slot.update(|v: &u64| Ok(*v + 1)), Ok(()));
    assert_eq!(slot.may_load(), Some(&5));
    assert_eq!(slot.update(|_v: &u64| Err(ContractError::Unauthorized)), Err(ContractError::Unauthorized));
    assert_eq!(slot.load(), Ok(&5));
    slot.save(9);
    assert_eq!(slot.load(), Ok(&9));
}

#[test]
fn bucket_operations() {
    let mut b: Bucket<u64> = Bucket::new();
    assert_eq!(b.may_load(&s("a")), None);
    assert_eq!(b.load(&s("a")), Err(ContractError::NotFound));
    assert_eq!(b.update(&s("a"), |v: &u64| Ok(*v + 1)), Err(ContractError::NotFound));
    assert_eq!(b.may_load(&s("a")), None);
    b.save(s("a"), 1);
    b.save(s("b"), 2);
    b.save(s("a"), 3);
    assert_eq!(b.load(&s("a")), Ok(&3));
    assert_eq!(b.load(&s("b")), Ok(&2));
    assert_eq!(b.update(&s("b"), |v: &u64| Ok(*v * 10)), Ok(()));
    assert_eq!(b.load(&s("b")), Ok(&20));
    assert_eq!(b.update(&s("a"), |_v: &u64| Err(ContractError::Unauthorized)), Err(ContractError::Unauthorized));
    assert_eq!(b.load(&s("a")), Ok(&3));
    assert_eq!(b.may_load(&s("")), None);
}
