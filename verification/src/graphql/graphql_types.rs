//! The queries put to the store, and the records that come back.
//!
//! Each query is a value that holds what is sent with it. An answer without
//! data stands for no rows: the store reports its errors beside the data,
//! and they are for the log.

use crate::htb::api_types::{clone_opt_text, opt_text};
use vstd::prelude::*;

verus! {

/// A challenge or machine as the store keeps it.
#[derive(Debug)]
pub struct Challenge {
    pub id: i64,
    pub htb_id: i64,
    pub name: String,
    pub difficulty: String,
    pub points: i64,
    pub release_date: String,
    pub category: i64,
    pub machine_avatar: Option<String>,
}

/// The mathematical content of a stored [`Challenge`].
pub struct ChallengeView {
    pub id: i64,
    pub htb_id: i64,
    pub name: Seq<char>,
    pub difficulty: Seq<char>,
    pub points: i64,
    pub release_date: Seq<char>,
    pub category: i64,
    pub machine_avatar: Option<Seq<char>>,
}

impl View for Challenge {
    type V = ChallengeView;

    open spec fn view(&self) -> ChallengeView {
        ChallengeView {
            id: self.id,
            htb_id: self.htb_id,
            name: self.name@,
            difficulty: self.difficulty@,
            points: self.points,
            release_date: self.release_date@,
            category: self.category,
            machine_avatar: opt_text(self.machine_avatar),
        }
    }
}

impl Clone for Challenge {
    fn clone(&self) -> (copy: Self)
        ensures
            copy@ == self@,
    {
        Challenge {
            id: self.id,
            htb_id: self.htb_id,
            name: self.name.clone(),
            difficulty: self.difficulty.clone(),
            points: self.points,
            release_date: self.release_date.clone(),
            category: self.category,
            machine_avatar: clone_opt_text(&self.machine_avatar),
        }
    }
}

/// The contents of a list of stored challenges.
pub open spec fn challenge_views(challenges: Seq<Challenge>) -> Seq<ChallengeView> {
    Seq::new(challenges.len(), |i: int| challenges[i]@)
}

/// A solve as the store keeps it.
#[derive(Debug)]
pub struct Solve {
    pub user_id: i64,
    pub user_name: String,
    pub solve_type: String,
    pub challenge_id: i64,
}

/// The mathematical content of a stored [`Solve`].
pub struct SolveView {
    pub user_id: i64,
    pub user_name: Seq<char>,
    pub solve_type: Seq<char>,
    pub challenge_id: i64,
}

impl View for Solve {
    type V = SolveView;

    open spec fn view(&self) -> SolveView {
        SolveView {
            user_id: self.user_id,
            user_name: self.user_name@,
            solve_type: self.solve_type@,
            challenge_id: self.challenge_id,
        }
    }
}

/// The contents of a list of stored solves.
pub open spec fn solve_views(solves: Seq<Solve>) -> Seq<SolveView> {
    Seq::new(solves.len(), |i: int| solves[i]@)
}

/// The rows of an answer: those of its data, and none where it has no data.
pub fn rows_of<T>(data: Option<Vec<T>>) -> (rows: Vec<T>)
    ensures
        rows@ == (match data {
            Some(found) => found@,
            None => Seq::empty(),
        }),
{
    match data {
        Some(found) => found,
        None => Vec::new(),
    }
}

/// The challenges whose name holds a given text.
#[derive(Debug)]
pub struct GetChallengeByName {
    /// The pattern that a name has to match.
    pub name: String,
}

/// The pattern that matches every name holding the given text: the text
/// between two wildcards.
pub open spec fn name_pattern(name: Seq<char>) -> Seq<char> {
    "%"@ + name + "%"@
}

impl GetChallengeByName {
    /// The query for the names that hold the given text anywhere.
    pub fn new(name: &str) -> (query: Self)
        ensures
            query.name@ == name_pattern(name@),
    {
        let mut pattern = "%".to_owned();
        pattern.append(name);
        pattern.append("%");
        GetChallengeByName { name: pattern }
    }

    /// The challenges of an answer.
    pub fn challenges(data: Option<Vec<Challenge>>) -> (found: Vec<Challenge>)
        ensures
            found@ == (match data {
                Some(rows) => rows@,
                None => Seq::empty(),
            }),
    {
        rows_of(data)
    }
}

/// The challenge with a given id on the platform.
#[derive(Debug)]
pub struct GetChallengeById {
    pub htb_id: i64,
}

impl GetChallengeById {
    pub fn new(htb_id: i64) -> (query: Self)
        ensures
            query.htb_id == htb_id,
    {
        GetChallengeById { htb_id }
    }

    /// The challenges of an answer.
    pub fn challenges(data: Option<Vec<Challenge>>) -> (found: Vec<Challenge>)
        ensures
            found@ == (match data {
                Some(rows) => rows@,
                None => Seq::empty(),
            }),
    {
        rows_of(data)
    }
}

/// The names of the users who solved a given challenge.
#[derive(Debug)]
pub struct GetUsersWhoSolvedChallenge {
    pub challenge_id: i64,
}

/// The names of the users of a list of solves, in the list's order.
pub open spec fn solver_names(solves: Seq<Solve>) -> Seq<Seq<char>> {
    Seq::new(solves.len(), |i: int| solves[i].user_name@)
}

/// The texts of a list of strings.
pub open spec fn texts(names: Seq<String>) -> Seq<Seq<char>> {
    Seq::new(names.len(), |i: int| names[i]@)
}

impl GetUsersWhoSolvedChallenge {
    pub fn new(challenge_id: i64) -> (query: Self)
        ensures
            query.challenge_id == challenge_id,
    {
        GetUsersWhoSolvedChallenge { challenge_id }
    }

    /// The solvers of an answer: the user of each of its solves, in order.
    pub fn solvers(data: Option<Vec<Solve>>) -> (names: Vec<String>)
        ensures
            texts(names@) == (match data {
                Some(rows) => solver_names(rows@),
                None => Seq::empty(),
            }),
    {
        let rows = rows_of(data);
        let mut names: Vec<String> = Vec::new();
        let mut i: usize = 0;
        assert(texts(names@) =~= solver_names(rows@.take(0)));
        while i < rows.len()
            invariant
                i <= rows.len(),
                names.len() == i,
                texts(names@) == solver_names(rows@.take(i as int)),
            decreases rows.len() - i,
        {
            let ghost before = names@;
            names.push(rows[i].user_name.clone());
            assert forall|j: int| 0 <= j < i + 1 implies texts(names@)[j] == solver_names(
                rows@.take(i + 1),
            )[j] by {
                if j < i {
                    assert(texts(before)[j] == solver_names(rows@.take(i as int))[j]);
                }
            }
            assert(texts(names@) =~= solver_names(rows@.take(i + 1)));
            i = i + 1;
        }
        assert(rows@.take(rows.len() as int) =~= rows@);
        assert(data is None ==> solver_names(rows@) =~= Seq::<Seq<char>>::empty());
        names
    }
}

/// A challenge to be added to the store.
#[derive(Debug)]
pub struct InsertChallenge {
    pub release_date: String,
    pub points: i64,
    pub name: String,
    pub machine_avatar: Option<String>,
    pub difficulty: String,
    pub category: i64,
    pub htb_id: i64,
}

/// The mathematical content of an [`InsertChallenge`].
pub struct InsertChallengeView {
    pub release_date: Seq<char>,
    pub points: i64,
    pub name: Seq<char>,
    pub machine_avatar: Option<Seq<char>>,
    pub difficulty: Seq<char>,
    pub category: i64,
    pub htb_id: i64,
}

impl View for InsertChallenge {
    type V = InsertChallengeView;

    open spec fn view(&self) -> InsertChallengeView {
        InsertChallengeView {
            release_date: self.release_date@,
            points: self.points,
            name: self.name@,
            machine_avatar: opt_text(self.machine_avatar),
            difficulty: self.difficulty@,
            category: self.category,
            htb_id: self.htb_id,
        }
    }
}

/// The query that adds a challenge: all that the platform says of it, under
/// its id on the platform. The store numbers its rows itself.
pub open spec fn insert_query(challenge: ChallengeView) -> InsertChallengeView {
    InsertChallengeView {
        release_date: challenge.release_date,
        points: challenge.points,
        name: challenge.name,
        machine_avatar: challenge.machine_avatar,
        difficulty: challenge.difficulty,
        category: challenge.category,
        htb_id: challenge.htb_id,
    }
}

impl InsertChallenge {
    /// The query that adds the given challenge, under its id on the
    /// platform. The store numbers its rows itself.
    pub fn new(challenge: &Challenge) -> (query: Self)
        ensures
            query@ == insert_query(challenge@),
    {
        InsertChallenge {
            release_date: challenge.release_date.clone(),
            points: challenge.points,
            name: challenge.name.clone(),
            machine_avatar: clone_opt_text(&challenge.machine_avatar),
            difficulty: challenge.difficulty.clone(),
            category: challenge.category,
            htb_id: challenge.htb_id,
        }
    }
}

/// A solve to be added to the store.
#[derive(Debug)]
pub struct InsertSolveForUser {
    pub user_name: String,
    pub user_id: i64,
    pub solve_type: String,
    pub challenge_id: i64,
}

impl InsertSolveForUser {
    pub fn new(user_id: i64, user_name: String, solve_type: String, challenge_id: i64) -> (query:
        Self)
        ensures
            query.user_id == user_id,
            query.user_name == user_name,
            query.solve_type == solve_type,
            query.challenge_id == challenge_id,
    {
        InsertSolveForUser { user_name, user_id, solve_type, challenge_id }
    }
}

/// Whether a user has solved a challenge in a given way.
#[derive(Debug)]
pub struct IsChallengeSolvedForUser {
    pub user_id: i64,
    pub challenge_id: i64,
    pub challenge_name: String,
    pub solve_type: String,
}

impl IsChallengeSolvedForUser {
    pub fn new(user_id: i64, challenge_id: i64, challenge_name: String, solve_type: String) -> (query:
        Self)
        ensures
            query.user_id == user_id,
            query.challenge_id == challenge_id,
            query.challenge_name == challenge_name,
            query.solve_type == solve_type,
    {
        IsChallengeSolvedForUser { user_id, challenge_id, challenge_name, solve_type }
    }

    /// What an answer says: the challenge is solved exactly when the
    /// answer has data and the data holds a solve.
    pub fn solved(data: &Option<Vec<Solve>>) -> (solved: bool)
        ensures
            solved == (match *data {
                Some(rows) => rows@.len() > 0,
                None => false,
            }),
    {
        match data {
            Some(rows) => rows.len() > 0,
            None => false,
        }
    }
}

/// The solves of the user with a given name.
#[derive(Debug)]
pub struct GetSolvesForUserWithName {
    pub user_name: String,
}

impl GetSolvesForUserWithName {
    pub fn new(user_name: String) -> (query: Self)
        ensures
            query.user_name == user_name,
    {
        GetSolvesForUserWithName { user_name }
    }

    /// The solves of an answer.
    pub fn solves(data: Option<Vec<Solve>>) -> (found: Vec<Solve>)
        ensures
            found@ == (match data {
                Some(rows) => rows@,
                None => Seq::empty(),
            }),
    {
        rows_of(data)
    }
}

} // verus!
