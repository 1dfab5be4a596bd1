use hackthebot::catalog::CategoryCatalog;
use hackthebot::catalog_sync::{
    store_lacks, CatalogFailure, CatalogSync, CatalogSyncAction, CatalogSyncEvent,
};
use hackthebot::commands::{
    challenge_notification, Command, CommandAction, CommandEvent, CommandFailure, CommandReply,
    CommandRun,
};
use hackthebot::graphql::graphql_provider::{GraphQLProvider, ProviderError};
use hackthebot::graphql::graphql_types::{
    Challenge, GetChallengeById, GetChallengeByName, GetSolvesForUserWithName,
    GetUsersWhoSolvedChallenge, InsertChallenge, InsertSolveForUser, IsChallengeSolvedForUser,
    Solve,
};
use hackthebot::tasks::SyncError;
use std::cell::RefCell;

fn challenge(htb_id: i64, name: &str, category: i64) -> Challenge {
    Challenge {
        id: htb_id + 1000,
        htb_id,
        name: name.to_string(),
        difficulty: "Easy".to_string(),
        points: 20,
        release_date: "2017-03-14".to_string(),
        category,
        machine_avatar: if category == 0 { Some(format!("avatars/{}.png", htb_id)) } else { None },
    }
}

fn stored_solve(user_id: i64, user: &str, challenge_id: i64) -> Solve {
    Solve {
        user_id,
        user_name: user.to_string(),
        solve_type: "user".to_string(),
        challenge_id,
    }
}

struct Store {
    challenges: Vec<Challenge>,
    solves: Vec<Solve>,
    fail_solvers_of: Option<i64>,
    fail_all: bool,
    inserted: RefCell<Vec<i64>>,
}

impl Store {
    fn new(challenges: Vec<Challenge>, solves: Vec<Solve>) -> Store {
        Store { challenges, solves, fail_solvers_of: None, fail_all: false, inserted: RefCell::new(Vec::new()) }
    }

    fn down() -> ProviderError {
        ProviderError { message: "store is down".to_string() }
    }
}

impl GraphQLProvider for Store {
    fn get_users_who_solved_challenge(&self, challenge_id: i64) -> Result<Vec<String>, ProviderError> {
        if self.fail_all || self.fail_solvers_of == Some(challenge_id) {
            return Err(Store::down());
        }
        let query = GetUsersWhoSolvedChallenge::new(challenge_id);
        let rows: Vec<Solve> = self
            .solves
            .iter()
            .filter(|s| s.challenge_id == query.challenge_id)
            .map(|s| stored_solve(s.user_id, &s.user_name, s.challenge_id))
            .collect();
        Ok(GetUsersWhoSolvedChallenge::solvers(Some(rows)))
    }

    fn insert_solve_for_user(&self, _: i64, _: String, _: String, _: i64) -> Result<(), ProviderError> {
        Ok(())
    }

    fn insert_challenge(
        &self,
        _release_date: String,
        _points: i64,
        _name: String,
        _machine_avatar: Option<String>,
        _difficulty: String,
        _category: i64,
        htb_id: i64,
    ) -> Result<(), ProviderError> {
        if self.fail_all {
            return Err(Store::down());
        }
        self.inserted.borrow_mut().push(htb_id);
        Ok(())
    }

    fn get_challenges_for_name(&self, name: &str) -> Result<Vec<Challenge>, ProviderError> {
        if self.fail_all {
            return Err(Store::down());
        }
        let query = GetChallengeByName::new(name);
        let wanted = query.name.trim_matches('%').to_string();
        let rows = self.challenges.iter().filter(|c| c.name.contains(&wanted)).cloned().collect();
        Ok(GetChallengeByName::challenges(Some(rows)))
    }

    fn get_challenge_by_id(&self, htb_id: i64) -> Result<Vec<Challenge>, ProviderError> {
        if self.fail_all {
            return Err(Store::down());
        }
        let rows = self.challenges.iter().filter(|c| c.htb_id == htb_id).cloned().collect();
        Ok(GetChallengeById::challenges(Some(rows)))
    }

    fn is_challenge_solved_for_user(&self, user_id: i64, challenge_id: i64, _: String, _: String) -> Result<bool, ProviderError> {
        let rows: Vec<Solve> = self
            .solves
            .iter()
            .filter(|s| s.user_id == user_id && s.challenge_id == challenge_id)
            .map(|s| stored_solve(s.user_id, &s.user_name, s.challenge_id))
            .collect();
        Ok(IsChallengeSolvedForUser::solved(&Some(rows)))
    }

    fn get_solves_for_user_by_name(&self, user_name: String) -> Result<Vec<Solve>, ProviderError> {
        if self.fail_all {
            return Err(Store::down());
        }
        let rows = self
            .solves
            .iter()
            .filter(|s| s.user_name == user_name)
            .map(|s| stored_solve(s.user_id, &s.user_name, s.challenge_id))
            .collect();
        Ok(GetSolvesForUserWithName::solves(Some(rows)))
    }
}

fn store() -> Store {
    Store::new(
        vec![challenge(1, "Lame", 0), challenge(2, "Weak RSA", 3), challenge(3, "Lamentable", 4)],
        vec![stored_solve(11, "alice", 1), stored_solve(12, "bob", 1), stored_solve(11, "alice", 2), stored_solve(11, "alice", 77)],
    )
}

fn catalog() -> CategoryCatalog {
    let mut catalog = CategoryCatalog::new();
    catalog.insert(3, "Crypto");
    catalog
}

struct Ran {
    asked: Vec<String>,
    sent: Vec<CommandReply>,
    failure: Option<CommandFailure>,
}

/// Runs a command against the store; the send numbered `fail_send` fails.
fn run(command: Command, args: &[&str], store: &Store, fail_send: Option<usize>) -> Ran {
    let catalog = catalog();
    let args: Vec<String> = args.iter().map(|a| a.to_string()).collect();
    let mut run = CommandRun::begin(command, &args);
    let mut ran = Ran { asked: Vec::new(), sent: Vec::new(), failure: None };
    let mut sends = 0;
    for _ in 0..100 {
        let event = match run.action(&catalog) {
            CommandAction::FindChallenges { name } => {
                ran.asked.push(format!("challenges named {}", name));
                match store.get_challenges_for_name(&name) {
                    Ok(rows) => CommandEvent::ChallengesFound(rows),
                    Err(why) => CommandEvent::StoreFailed(why),
                }
            }
            CommandAction::FindSolves { user_name } => {
                ran.asked.push(format!("solves of {}", user_name));
                match store.get_solves_for_user_by_name(user_name) {
                    Ok(rows) => CommandEvent::SolvesFound(rows),
                    Err(why) => CommandEvent::StoreFailed(why),
                }
            }
            CommandAction::LookupChallenge { htb_id } => {
                ran.asked.push(format!("challenge {}", htb_id));
                match store.get_challenge_by_id(htb_id) {
                    Ok(rows) => CommandEvent::ChallengesFound(rows),
                    Err(why) => CommandEvent::StoreFailed(why),
                }
            }
            CommandAction::AskSolvers { challenge_id } => {
                ran.asked.push(format!("solvers of {}", challenge_id));
                match store.get_users_who_solved_challenge(challenge_id) {
                    Ok(names) => CommandEvent::SolversFound(names),
                    Err(why) => CommandEvent::StoreFailed(why),
                }
            }
            CommandAction::Reply(reply) => {
                sends += 1;
                if fail_send == Some(sends) {
                    CommandEvent::SendFailed
                } else {
                    ran.sent.push(reply);
                    CommandEvent::Sent
                }
            }
            CommandAction::Finish => {
                assert!(run.is_over());
                return ran;
            }
            CommandAction::Abort(why) => {
                assert!(run.is_over());
                ran.failure = Some(why);
                return ran;
            }
        };
        run = run.on_event(event);
    }
    panic!("the command did not end");
}

fn titles(replies: &[CommandReply]) -> Vec<String> {
    replies
        .iter()
        .map(|r| match r {
            CommandReply::Text(line) => format!("text:{}", line),
            CommandReply::Embed(shown) => format!("embed:{}", shown.title),
        })
        .collect()
}

fn store_message(failure: Option<CommandFailure>) -> Option<String> {
    match failure {
        Some(CommandFailure::Store(why)) => Some(why.message),
        _ => None,
    }
}

#[test]
fn search_without_one_argument_answers_usage() {
    let ran = run(Command::Search, &[], &store(), None);
    assert!(ran.failure.is_none());
    assert!(ran.asked.is_empty());
    assert_eq!(titles(&ran.sent), vec!["text:Usage: ``!htb search \"Challenge name\"``"]);
    let ran = run(Command::Search, &["a", "b"], &store(), None);
    assert!(ran.asked.is_empty());
    assert_eq!(titles(&ran.sent), vec!["text:Usage: ``!htb search \"Challenge name\"``"]);
}

#[test]
fn search_shows_each_challenge_found() {
    let ran = run(Command::Search, &["Lame"], &store(), None);
    assert!(ran.failure.is_none());
    assert_eq!(ran.asked, vec!["challenges named Lame", "solvers of 1", "solvers of 3"]);
    assert_eq!(titles(&ran.sent), vec!["embed:Lame", "embed:Lamentable"]);
    match &ran.sent[0] {
        CommandReply::Embed(shown) => {
            assert_eq!(shown.category, "Machine");
            assert_eq!(shown.points, 20);
            assert_eq!(shown.thumbnail, Some("https://www.hackthebox.eu/avatars/1.png".to_string()));
            assert_eq!(shown.solved_by, Some(vec!["alice".to_string(), "bob".to_string()]));
        }
        CommandReply::Text(line) => panic!("text: {}", line),
    }
    match &ran.sent[1] {
        CommandReply::Embed(shown) => {
            assert_eq!(shown.category, "Unknown");
            assert_eq!(shown.thumbnail, None);
            assert_eq!(shown.solved_by, None);
        }
        CommandReply::Text(line) => panic!("text: {}", line),
    }
}

#[test]
fn search_asks_for_solvers_by_the_platform_id() {
    let ran = run(Command::Search, &["Weak"], &store(), None);
    assert_eq!(ran.asked, vec!["challenges named Weak", "solvers of 2"]);
    match &ran.sent[0] {
        CommandReply::Embed(shown) => assert_eq!(shown.solved_by, Some(vec!["alice".to_string()])),
        CommandReply::Text(line) => panic!("text: {}", line),
    }
}

#[test]
fn search_that_finds_nothing_says_so() {
    let ran = run(Command::Search, &["Nowhere"], &store(), None);
    assert!(ran.failure.is_none());
    assert_eq!(ran.asked, vec!["challenges named Nowhere"]);
    assert_eq!(titles(&ran.sent), vec!["text:No challenge found by that name!"]);
}

#[test]
fn search_stops_where_the_store_fails() {
    let mut down = store();
    down.fail_solvers_of = Some(3);
    let ran = run(Command::Search, &["Lame"], &down, None);
    assert_eq!(store_message(ran.failure), Some("store is down".to_string()));
    assert_eq!(titles(&ran.sent), vec!["embed:Lame"]);
    assert_eq!(ran.asked, vec!["challenges named Lame", "solvers of 1", "solvers of 3"]);

    let mut down = store();
    down.fail_all = true;
    let ran = run(Command::Search, &["Lame"], &down, None);
    assert_eq!(store_message(ran.failure), Some("store is down".to_string()));
    assert!(ran.sent.is_empty());
    assert_eq!(ran.asked, vec!["challenges named Lame"]);
}

#[test]
fn search_stops_where_a_reply_cannot_be_sent() {
    let ran = run(Command::Search, &["Lame"], &store(), Some(1));
    assert!(matches!(ran.failure, Some(CommandFailure::Send)));
    assert!(ran.sent.is_empty());
    assert_eq!(ran.asked, vec!["challenges named Lame", "solvers of 1"]);

    let ran = run(Command::Search, &["Lame"], &store(), Some(2));
    assert!(matches!(ran.failure, Some(CommandFailure::Send)));
    assert_eq!(titles(&ran.sent), vec!["embed:Lame"]);

    let ran = run(Command::Search, &[], &store(), Some(1));
    assert!(matches!(ran.failure, Some(CommandFailure::Send)));
    assert!(ran.sent.is_empty());
}

#[test]
fn solves_without_one_argument_answers_usage() {
    let ran = run(Command::Solves, &[], &store(), None);
    assert!(ran.failure.is_none());
    assert!(ran.asked.is_empty());
    assert_eq!(titles(&ran.sent), vec!["text:Usage: ``!htb solves \"Username\"``"]);
}

#[test]
fn solves_shows_each_challenge_the_store_knows() {
    let ran = run(Command::Solves, &["alice"], &store(), None);
    assert!(ran.failure.is_none());
    assert_eq!(
        ran.asked,
        vec!["solves of alice", "challenge 1", "solvers of 1", "challenge 2", "solvers of 2", "challenge 77"]
    );
    assert_eq!(titles(&ran.sent), vec!["embed:Lame", "embed:Weak RSA"]);
    match &ran.sent[1] {
        CommandReply::Embed(shown) => {
            assert_eq!(shown.category, "Crypto");
            assert_eq!(shown.solved_by, Some(vec!["alice".to_string()]));
        }
        CommandReply::Text(line) => panic!("text: {}", line),
    }
}

#[test]
fn solves_shows_the_first_row_of_a_lookup() {
    let mut twice = store();
    twice.challenges.push(challenge(1, "Lame again", 0));
    let ran = run(Command::Solves, &["bob"], &twice, None);
    assert_eq!(ran.asked, vec!["solves of bob", "challenge 1", "solvers of 1"]);
    assert_eq!(titles(&ran.sent), vec!["embed:Lame"]);
}

#[test]
fn solves_of_a_user_without_solves() {
    let ran = run(Command::Solves, &["carol"], &store(), None);
    assert!(ran.failure.is_none());
    assert_eq!(ran.asked, vec!["solves of carol"]);
    assert_eq!(titles(&ran.sent), vec!["text:No solves found for that user!"]);
}

#[test]
fn solves_whose_challenges_are_all_unknown_sends_nothing() {
    let only = Store::new(Vec::new(), vec![stored_solve(11, "alice", 77)]);
    let ran = run(Command::Solves, &["alice"], &only, None);
    assert!(ran.failure.is_none());
    assert_eq!(ran.asked, vec!["solves of alice", "challenge 77"]);
    assert!(ran.sent.is_empty());
}

#[test]
fn solves_stops_where_the_store_fails() {
    let mut down = store();
    down.fail_solvers_of = Some(2);
    let ran = run(Command::Solves, &["alice"], &down, None);
    assert_eq!(store_message(ran.failure), Some("store is down".to_string()));
    assert_eq!(titles(&ran.sent), vec!["embed:Lame"]);
    assert_eq!(ran.asked, vec!["solves of alice", "challenge 1", "solvers of 1", "challenge 2", "solvers of 2"]);
}

#[test]
fn command_report_out_of_turn_gives_the_command_up() {
    let catalog = catalog();
    let args = vec!["Lame".to_string()];
    let run = CommandRun::begin(Command::Search, &args).on_event(CommandEvent::Sent);
    assert!(matches!(run.action(&catalog), CommandAction::Abort(CommandFailure::OutOfTurn)));
    let run = CommandRun::begin(Command::Search, &args).on_event(CommandEvent::SolvesFound(Vec::new()));
    assert!(matches!(run.action(&catalog), CommandAction::Abort(CommandFailure::OutOfTurn)));
    let run = CommandRun::begin(Command::Solves, &args).on_event(CommandEvent::ChallengesFound(Vec::new()));
    assert!(matches!(run.action(&catalog), CommandAction::Abort(CommandFailure::OutOfTurn)));
    let run = run.on_event(CommandEvent::Sent);
    assert!(matches!(run.action(&catalog), CommandAction::Abort(CommandFailure::OutOfTurn)));
    let done = CommandRun::begin(Command::Search, &Vec::new())
        .on_event(CommandEvent::Sent)
        .on_event(CommandEvent::SendFailed);
    assert!(matches!(done.action(&catalog), CommandAction::Finish));
}

#[test]
fn notification_of_a_stored_challenge() {
    let shown = challenge_notification(&challenge(2, "Weak RSA", 3), &Vec::new(), &catalog());
    assert_eq!(shown.title, "Weak RSA");
    assert_eq!(shown.category, "Crypto");
    assert_eq!(shown.points, 20);
    assert_eq!(shown.solved_by, None);
    let shown = challenge_notification(&challenge(1, "Lame", 0), &vec!["bob".to_string()], &catalog());
    assert_eq!(shown.category, "Machine");
    assert_eq!(shown.solved_by, Some(vec!["bob".to_string()]));
    assert_eq!(shown.thumbnail, Some("https://www.hackthebox.eu/avatars/1.png".to_string()));
}

#[test]
fn name_query_is_wrapped_in_wildcards() {
    assert_eq!(GetChallengeByName::new("Lame").name, "%Lame%");
    assert_eq!(GetChallengeByName::new("").name, "%%");
}

#[test]
fn answer_without_data_has_no_rows() {
    assert!(GetChallengeByName::challenges(None).is_empty());
    assert!(GetChallengeById::challenges(None).is_empty());
    assert!(GetSolvesForUserWithName::solves(None).is_empty());
    assert!(GetUsersWhoSolvedChallenge::solvers(None).is_empty());
    assert_eq!(GetChallengeById::challenges(Some(vec![challenge(1, "Lame", 0)])).len(), 1);
    assert_eq!(GetChallengeById::new(5).htb_id, 5);
    assert_eq!(GetSolvesForUserWithName::new("alice".to_string()).user_name, "alice");
}

#[test]
fn solvers_are_the_users_of_the_solves() {
    let rows = vec![stored_solve(1, "alice", 9), stored_solve(2, "bob", 9), stored_solve(1, "alice", 9)];
    assert_eq!(GetUsersWhoSolvedChallenge::solvers(Some(rows)), vec!["alice", "bob", "alice"]);
}

#[test]
fn solved_when_the_answer_holds_a_solve() {
    assert!(!IsChallengeSolvedForUser::solved(&None));
    assert!(!IsChallengeSolvedForUser::solved(&Some(Vec::new())));
    assert!(IsChallengeSolvedForUser::solved(&Some(vec![stored_solve(1, "alice", 9)])));
    let s = store();
    assert_eq!(s.is_challenge_solved_for_user(11, 1, "Lame".to_string(), "user".to_string()).ok(), Some(true));
    assert_eq!(s.is_challenge_solved_for_user(12, 2, "Weak RSA".to_string(), "user".to_string()).ok(), Some(false));
}

#[test]
fn insert_queries_carry_what_they_are_given() {
    let new = InsertChallenge::new(&challenge(1, "Lame", 0));
    assert_eq!(new.htb_id, 1);
    assert_eq!(new.name, "Lame");
    assert_eq!(new.points, 20);
    assert_eq!(new.category, 0);
    assert_eq!(new.difficulty, "Easy");
    assert_eq!(new.release_date, "2017-03-14");
    assert_eq!(new.machine_avatar, Some("avatars/1.png".to_string()));
    let solve = InsertSolveForUser::new(11, "alice".to_string(), "root".to_string(), 1);
    assert_eq!((solve.user_id, solve.challenge_id), (11, 1));
    assert_eq!(solve.user_name, "alice");
    assert_eq!(solve.solve_type, "root");
    let asked = IsChallengeSolvedForUser::new(11, 1, "Lame".to_string(), "root".to_string());
    assert_eq!((asked.user_id, asked.challenge_id), (11, 1));
    assert_eq!(asked.challenge_name, "Lame");
    assert_eq!(asked.solve_type, "root");
}

/// Runs a catalog cycle against the store, with the platform's two lists.
fn run_catalog(
    store: &Store,
    challenges: Option<Vec<Challenge>>,
    machines: Option<Vec<Challenge>>,
) -> (Vec<String>, Result<usize, CatalogFailure>) {
    let mut sync = CatalogSync::begin(false);
    let mut asked = Vec::new();
    let (mut challenges, mut machines) = (Some(challenges), Some(machines));
    for _ in 0..100 {
        let event = match sync.action() {
            CatalogSyncAction::RenewToken => CatalogSyncEvent::TokenRenewed,
            CatalogSyncAction::ListChallenges => match challenges.take().flatten() {
                Some(listed) => CatalogSyncEvent::ChallengesListed(listed),
                None => CatalogSyncEvent::ListFailed,
            },
            CatalogSyncAction::ListMachines => match machines.take().flatten() {
                Some(listed) => CatalogSyncEvent::MachinesListed(listed),
                None => CatalogSyncEvent::ListFailed,
            },
            CatalogSyncAction::Lookup(query) => {
                asked.push(format!("lookup {}", query.htb_id));
                match store.get_challenge_by_id(query.htb_id) {
                    Ok(rows) => CatalogSyncEvent::Found(rows),
                    Err(why) => CatalogSyncEvent::LookupFailed(why),
                }
            }
            CatalogSyncAction::Insert(query) => {
                asked.push(format!("insert {} {}", query.htb_id, query.name));
                let added = store.insert_challenge(
                    query.release_date,
                    query.points,
                    query.name,
                    query.machine_avatar,
                    query.difficulty,
                    query.category,
                    query.htb_id,
                );
                match added {
                    Ok(()) => CatalogSyncEvent::Inserted,
                    Err(why) => CatalogSyncEvent::InsertFailed(why),
                }
            }
            CatalogSyncAction::Finish(added) => {
                assert!(sync.is_over());
                return (asked, Ok(added));
            }
            CatalogSyncAction::Abort(why) => {
                assert!(sync.is_over());
                return (asked, Err(why));
            }
        };
        sync = sync.on_event(event);
    }
    panic!("the cycle did not end");
}

#[test]
fn catalog_cycle_adds_what_the_store_lacks() {
    let s = store();
    let (asked, added) = run_catalog(
        &s,
        Some(vec![challenge(2, "Weak RSA", 3), challenge(51, "Emdee", 5)]),
        Some(vec![challenge(1, "Lame", 0), challenge(50, "Blue", 0)]),
    );
    assert_eq!(added.ok(), Some(2));
    assert_eq!(
        asked,
        vec!["lookup 2", "lookup 51", "insert 51 Emdee", "lookup 1", "lookup 50", "insert 50 Blue"]
    );
    assert_eq!(*s.inserted.borrow(), vec![51, 50]);
}

#[test]
fn catalog_cycle_looks_up_by_the_platform_id() {
    let s = store();
    let mut listed = challenge(2, "Weak RSA", 3);
    listed.id = 999;
    let (asked, added) = run_catalog(&s, Some(vec![listed]), Some(Vec::new()));
    assert_eq!(added.ok(), Some(0));
    assert_eq!(asked, vec!["lookup 2"]);
}

#[test]
fn catalog_cycle_with_nothing_listed_adds_nothing() {
    let s = store();
    let (asked, added) = run_catalog(&s, Some(Vec::new()), Some(Vec::new()));
    assert_eq!(added.ok(), Some(0));
    assert!(asked.is_empty());
}

#[test]
fn catalog_cycle_stops_where_the_store_fails() {
    let mut s = store();
    s.fail_all = true;
    let (asked, added) = run_catalog(&s, Some(vec![challenge(50, "Blue", 0), challenge(51, "Emdee", 5)]), Some(Vec::new()));
    match added {
        Err(CatalogFailure::Store(why)) => assert_eq!(why.message, "store is down"),
        other => panic!("no failure of the store: {:?}", other),
    }
    assert_eq!(asked, vec!["lookup 50"]);
    assert!(s.inserted.borrow().is_empty());
}

#[test]
fn catalog_cycle_stops_where_an_insert_fails() {
    let sync = CatalogSync::begin(false)
        .on_event(CatalogSyncEvent::ChallengesListed(vec![challenge(50, "Blue", 0), challenge(51, "Emdee", 5)]))
        .on_event(CatalogSyncEvent::MachinesListed(Vec::new()))
        .on_event(CatalogSyncEvent::Found(Vec::new()));
    assert!(matches!(sync.action(), CatalogSyncAction::Insert(_)));
    let sync = sync.on_event(CatalogSyncEvent::InsertFailed(Store::down()));
    match sync.action() {
        CatalogSyncAction::Abort(CatalogFailure::Store(why)) => assert_eq!(why.message, "store is down"),
        other => panic!("no failure of the store: {:?}", other),
    }
    let sync = sync.on_event(CatalogSyncEvent::Inserted);
    assert!(matches!(sync.action(), CatalogSyncAction::Abort(CatalogFailure::Store(_))));
}

#[test]
fn catalog_cycle_is_given_up_when_the_platform_fails() {
    let s = store();
    let (asked, added) = run_catalog(&s, None, Some(Vec::new()));
    assert!(matches!(added, Err(CatalogFailure::Cycle(SyncError::Transport))));
    assert!(asked.is_empty());
    let (_, added) = run_catalog(&s, Some(vec![challenge(50, "Blue", 0)]), None);
    assert!(matches!(added, Err(CatalogFailure::Cycle(SyncError::Transport))));
    assert!(s.inserted.borrow().is_empty());
}

#[test]
fn catalog_cycle_renews_the_token_first_when_asked() {
    let sync = CatalogSync::begin(true);
    assert!(matches!(sync.action(), CatalogSyncAction::RenewToken));
    let failed = CatalogSync::begin(true).on_event(CatalogSyncEvent::RenewalFailed);
    assert!(matches!(failed.action(), CatalogSyncAction::Abort(CatalogFailure::Cycle(SyncError::Renewal))));
    let sync = sync.on_event(CatalogSyncEvent::TokenRenewed);
    assert!(matches!(sync.action(), CatalogSyncAction::ListChallenges));
    let sync = sync.on_event(CatalogSyncEvent::Inserted);
    assert!(matches!(sync.action(), CatalogSyncAction::Abort(CatalogFailure::Cycle(SyncError::OutOfTurn))));
}

#[test]
fn store_lacks_what_it_has_no_row_for() {
    assert!(store_lacks(&Vec::new()));
    assert!(!store_lacks(&vec![challenge(1, "Lame", 0)]));
}
