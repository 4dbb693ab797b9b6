use ohg_bot::headers::markers;
use ohg_bot::headers::Action;
use ohg_bot::headers::Reactions;
use ohg_bot::headers::State;
use ohg_bot::headers::StateReaction;
use ohg_bot::holder::Claim;
use ohg_bot::holder::RPGStateHolder;
use ohg_bot::holder::Slot;
use ohg_bot::log::SessionLog;
use ohg_bot::models::RPGState;
use ohg_bot::models::RecordId;
use ohg_bot::rpg::commit;
use ohg_bot::rpg::operate_on_state;
use ohg_bot::rpg::reaction_add;
use ohg_bot::rpg::settle;
use ohg_bot::rpg::unlock;
use ohg_bot::rpg::Failure;
use ohg_bot::rpg::Reaction;
use ohg_bot::rpg::ReactionType;
use ohg_bot::rpg::Step;
use std::collections::HashSet;

const M: u64 = 900;
const CHANNEL: u64 = 77;
const BOT: u64 = 1;
const U: u64 = 41;
const V: u64 = 42;

fn state(text: &str) -> State {
    State { document: text.as_bytes().to_vec() }
}

fn id(n: u8) -> RecordId {
    RecordId { bytes: [n; 12] }
}

fn menu_a() -> Reactions {
    Reactions::from_slice(&[
        StateReaction { emoji: "x", description: "Cross over" },
        StateReaction { emoji: "y", description: "Stay" },
    ])
    .unwrap()
}

fn menu_b() -> Reactions {
    Reactions::from_slice(&[
        StateReaction { emoji: "p", description: "Push" },
        StateReaction { emoji: "q", description: "Quit" },
        StateReaction { emoji: "r", description: "Run" },
    ])
    .unwrap()
}

fn reaction(user: Option<u64>, symbol: &str) -> Reaction {
    Reaction {
        channel_id: CHANNEL,
        message_id: M,
        user_id: user,
        emoji: ReactionType::Unicode(symbol.to_string()),
    }
}

fn channels() -> HashSet<u64> {
    let mut set = HashSet::new();
    set.insert(CHANNEL);
    set
}

type Failed = Failure<&'static str, &'static str>;

fn started(holder: &mut RPGStateHolder, log: &mut SessionLog) -> RPGState {
    let first = commit::<&str, &str>(RPGState::new(M, U, state("A")), Ok(id(1)), Ok(())).unwrap();
    log.append(first.clone());
    holder.insert(first.clone()).unwrap();
    first
}

#[test]
fn a_fresh_session_starts_the_chain() {
    let session = RPGState::new(M, U, state("A"));
    assert_eq!(session.iteration, 0);
    assert_eq!(session.previous, None);
    assert_eq!(session.id, None);
    assert!(session.active);
    assert_eq!(session.message, M);
    assert_eq!(session.owner, U);
    assert_eq!(session.state, state("A"));
}

#[test]
fn advance_makes_the_next_record_of_the_chain() {
    let mut session = RPGState::new(M, U, state("A"));
    session.id = Some(id(1));
    let next = session.clone().advance(state("B"));
    assert_eq!(
        next,
        RPGState {
            id: None,
            state: state("B"),
            active: true,
            message: M,
            owner: U,
            iteration: 1,
            previous: Some(id(1)),
        }
    );
    let mut stored = next;
    stored.id = Some(id(2));
    let third = stored.advance(state("C"));
    assert_eq!(third.iteration, 2);
    assert_eq!(third.previous, Some(id(2)));
    assert_eq!(third.owner, U);
}

#[test]
fn reactions_that_are_not_for_the_engine_are_dropped() {
    let mut holder = RPGStateHolder::new(128);
    let mut log = SessionLog::new();
    let session = started(&mut holder, &mut log);

    let custom = Reaction {
        channel_id: CHANNEL,
        message_id: M,
        user_id: Some(U),
        emoji: ReactionType::Custom(5),
    };
    assert_eq!(reaction_add(&mut holder, &channels(), BOT, &custom), None);
    assert_eq!(reaction_add(&mut holder, &channels(), BOT, &reaction(None, "x")), None);
    assert_eq!(reaction_add(&mut holder, &channels(), BOT, &reaction(Some(BOT), "x")), None);
    let elsewhere = Reaction { channel_id: CHANNEL + 1, ..reaction(Some(U), "x") };
    assert_eq!(reaction_add(&mut holder, &channels(), BOT, &elsewhere), None);
    assert_eq!(reaction_add(&mut holder, &HashSet::new(), BOT, &reaction(Some(U), "x")), None);

    assert!(!holder.is_locked(M));
    assert_eq!(holder.peek(M), Slot::Present(&session));
}

#[test]
fn an_admitted_reaction_claims_the_session() {
    let mut holder = RPGStateHolder::new(128);
    let mut log = SessionLog::new();
    let session = started(&mut holder, &mut log);
    assert_eq!(
        reaction_add(&mut holder, &channels(), BOT, &reaction(Some(U), "x")),
        Some(Claim::Claimed(session))
    );
    assert_eq!(
        reaction_add(&mut holder, &channels(), BOT, &reaction(Some(U), "x")),
        Some(Claim::Busy)
    );
}

#[test]
fn an_admitted_reaction_on_an_unknown_message_asks_for_the_log() {
    let mut holder = RPGStateHolder::new(128);
    assert_eq!(
        reaction_add(&mut holder, &channels(), BOT, &reaction(Some(U), "x")),
        Some(Claim::Unresolved)
    );
}

#[test]
fn no_change_and_bad_react_keep_the_place_in_the_chain() {
    let mut session = RPGState::new(M, U, state("A"));
    session.id = Some(id(1));
    let kept = RPGState { state: state("A'"), ..session.clone() };
    assert_eq!(
        operate_on_state(session.clone(), &menu_a(), Action::NoChange(state("A'"))),
        Step::Unchanged(kept.clone())
    );
    assert_eq!(
        operate_on_state(session, &menu_a(), Action::BadReact(state("A'"))),
        Step::Unchanged(kept)
    );
}

#[test]
fn a_change_asks_for_a_new_record_and_withdraws_the_old_menu() {
    let mut session = RPGState::new(M, U, state("A"));
    session.id = Some(id(1));
    assert_eq!(
        operate_on_state(session, &menu_a(), Action::Changed(state("B"))),
        Step::Changed {
            record: RPGState {
                id: None,
                state: state("B"),
                active: true,
                message: M,
                owner: U,
                iteration: 1,
                previous: Some(id(1)),
            },
            withdraw: vec!["x", "y"],
        }
    );
}

#[test]
fn commit_needs_both_the_log_and_the_platform() {
    let record = RPGState::new(M, U, state("A"));
    let stored = RPGState { id: Some(id(9)), ..record.clone() };
    assert_eq!(commit::<&str, &str>(record.clone(), Ok(id(9)), Ok(())), Ok(stored));
    assert_eq!(
        commit::<&str, &str>(record.clone(), Err("log"), Ok(())),
        Err(Failure::DataAccess("log"))
    );
    assert_eq!(
        commit::<&str, &str>(record.clone(), Ok(id(9)), Err("edit")),
        Err(Failure::Gateway("edit"))
    );
    // The failure of the log comes before that of the platform.
    assert_eq!(commit(record, Err("log"), Err("edit")), Err(Failure::DataAccess("log")));
}

#[test]
fn settle_reports_the_first_failed_removal_before_anything_else() {
    let edit: Failed = Failure::Gateway("edit");
    let log: Failed = Failure::DataAccess("log");
    assert_eq!(settle::<u8, &str, &str>(vec![], Ok(3)), Ok(3));
    assert_eq!(settle::<u8, &str, &str>(vec![Ok(()), Ok(())], Ok(3)), Ok(3));
    assert_eq!(settle::<u8, _, _>(vec![Ok(()), Ok(())], Err(edit.clone())), Err(edit.clone()));
    assert_eq!(settle::<u8, _, _>(vec![], Err(log.clone())), Err(log.clone()));
    assert_eq!(
        settle::<u8, &str, &str>(vec![Ok(()), Err("second"), Err("third")], Ok(3)),
        Err(Failure::Gateway("second"))
    );
    assert_eq!(
        settle::<u8, _, _>(vec![Err("first"), Ok(()), Err("third")], Err(log)),
        Err(Failure::Gateway("first"))
    );
    assert_eq!(
        settle::<u8, _, _>(vec![Ok(()), Ok(()), Err("third")], Err(edit)),
        Err(Failure::Gateway("third"))
    );
}

#[test]
fn unlock_releases_after_success_and_after_failure() {
    let mut holder = RPGStateHolder::new(128);
    let mut log = SessionLog::new();
    let session = started(&mut holder, &mut log);

    assert_eq!(holder.claim(M, U), Claim::Claimed(session.clone()));
    assert_eq!(unlock::<&str>(&mut holder, M, Ok(session.clone())), Ok(()));
    assert!(!holder.is_locked(M));
    assert_eq!(holder.peek(M), Slot::Present(&session));

    assert_eq!(holder.claim(M, U), Claim::Claimed(session));
    assert_eq!(unlock(&mut holder, M, Err("gateway")), Err("gateway"));
    assert!(!holder.is_locked(M));
    assert_eq!(holder.peek(M), Slot::Unknown);
}

/// Message M, owner U, state A, and the action "x" changes A to B.
#[test]
fn an_accepted_reaction_extends_the_chain_and_a_stranger_changes_nothing() {
    let mut holder = RPGStateHolder::new(128);
    let mut log = SessionLog::new();
    let mut shown: Vec<&str> = markers(&menu_a());
    let first = started(&mut holder, &mut log);

    // U reacts with "x".
    let claimed = match reaction_add(&mut holder, &channels(), BOT, &reaction(Some(U), "x")) {
        Some(Claim::Claimed(session)) => session,
        other => panic!("the owner was answered {:?}", other),
    };
    assert_eq!(claimed, first);
    let step = operate_on_state(claimed, &menu_a(), Action::Changed(state("B")));
    let (record, withdraw) = match step {
        Step::Changed { record, withdraw } => (record, withdraw),
        other => panic!("the change was answered {:?}", other),
    };
    assert_eq!(record.iteration, 1);
    assert_eq!(record.previous, first.id);
    assert_eq!(record.state, state("B"));

    // The old markers go; the record is stored and shown.
    let mut removals = Vec::new();
    for mark in withdraw.iter() {
        shown.retain(|held| held != mark);
        removals.push(Ok::<(), &str>(()));
    }
    let saved = id(2);
    log.append(RPGState { id: Some(saved), ..record.clone() });
    let published =
        commit::<&str, &str>(record, Ok(saved), Ok(())).map(|session| (session, menu_b()));
    let (session, menu) = settle(removals, published).unwrap();
    for mark in markers(&menu) {
        shown.push(mark);
    }
    assert_eq!(unlock::<Failed>(&mut holder, M, Ok(session.clone())), Ok(()));

    let second = RPGState {
        id: Some(id(2)),
        state: state("B"),
        active: true,
        message: M,
        owner: U,
        iteration: 1,
        previous: Some(id(1)),
    };
    assert_eq!(session, second);
    assert_eq!(log.len(), 2);
    assert_eq!(log.latest(M), Some(&second));
    assert_eq!(shown, vec!["p", "q", "r"]);
    assert_eq!(holder.peek(M), Slot::Present(&second));
    assert!(!holder.is_locked(M));

    // V reacts on the same message.
    assert_eq!(
        reaction_add(&mut holder, &channels(), BOT, &reaction(Some(V), "p")),
        Some(Claim::Rejected)
    );
    assert_eq!(log.len(), 2);
    assert_eq!(shown, vec!["p", "q", "r"]);
    assert_eq!(holder.peek(M), Slot::Present(&second));
    assert!(!holder.is_locked(M));
}

#[test]
fn a_failed_edit_after_a_stored_record_heals_on_the_next_reaction() {
    let mut holder = RPGStateHolder::new(128);
    let mut log = SessionLog::new();
    let first = started(&mut holder, &mut log);

    let claimed = match holder.claim(M, U) {
        Claim::Claimed(session) => session,
        other => panic!("the owner was answered {:?}", other),
    };
    let record = match operate_on_state(claimed, &menu_a(), Action::Changed(state("B"))) {
        Step::Changed { record, .. } => record,
        other => panic!("the change was answered {:?}", other),
    };
    // The log takes the record; the edit fails.
    let second = RPGState { id: Some(id(2)), ..record.clone() };
    log.append(second.clone());
    let worked = settle(
        vec![Ok(()), Ok(())],
        commit::<&str, &str>(record, Ok(id(2)), Err("edit failed")),
    );
    assert_eq!(worked, Err(Failure::Gateway("edit failed")));
    assert_eq!(unlock(&mut holder, M, worked), Err(Failure::Gateway("edit failed")));
    assert!(!holder.is_locked(M));
    assert_eq!(holder.peek(M), Slot::Unknown);

    // The next reaction of the owner starts from what the log holds.
    assert_eq!(holder.claim(M, U), Claim::Unresolved);
    let found = log.latest(M).cloned();
    assert_eq!(found, Some(second.clone()));
    let claimed = match holder.resolve::<&str>(M, U, Ok(found)) {
        Ok(Claim::Claimed(session)) => session,
        other => panic!("the owner was answered {:?}", other),
    };
    assert_eq!(claimed, second);
    assert_ne!(claimed, first);
    let step = operate_on_state(claimed, &menu_b(), Action::Changed(state("C")));
    assert_eq!(
        step,
        Step::Changed {
            record: RPGState {
                id: None,
                state: state("C"),
                active: true,
                message: M,
                owner: U,
                iteration: 2,
                previous: Some(id(2)),
            },
            withdraw: vec!["p", "q", "r"],
        }
    );
}

#[test]
fn a_dropped_cache_entry_gives_the_same_answer_as_a_kept_one() {
    // A cache of one recent session: the second message pushes the first out.
    let mut kept = RPGStateHolder::new(128);
    let mut dropped = RPGStateHolder::new(1);
    let mut log = SessionLog::new();
    let session = commit::<&str, &str>(RPGState::new(M, U, state("A")), Ok(id(1)), Ok(())).unwrap();
    let other = commit::<&str, &str>(RPGState::new(M + 1, V, state("X")), Ok(id(2)), Ok(())).unwrap();
    log.append(session.clone());
    log.append(other.clone());
    for holder in [&mut kept, &mut dropped] {
        holder.insert(session.clone()).unwrap();
        holder.insert(other.clone()).unwrap();
    }
    assert_eq!(kept.peek(M), Slot::Present(&session));
    assert_eq!(dropped.peek(M), Slot::Unknown);

    let served = |holder: &mut RPGStateHolder, user: u64| match holder.claim(M, user) {
        Claim::Unresolved => holder.resolve::<&str>(M, user, Ok(log.latest(M).cloned())).unwrap(),
        answer => answer,
    };
    assert_eq!(served(&mut kept, V), Claim::Rejected);
    assert_eq!(served(&mut dropped, V), Claim::Rejected);
    // The stranger's lookup left an empty slot behind; forget it, as eviction would.
    dropped.release(M, None);
    assert_eq!(served(&mut kept, U), Claim::Claimed(session.clone()));
    assert_eq!(served(&mut dropped, U), Claim::Claimed(session));
    assert_eq!(served(&mut kept, U), Claim::Busy);
    assert_eq!(served(&mut dropped, U), Claim::Busy);
}
