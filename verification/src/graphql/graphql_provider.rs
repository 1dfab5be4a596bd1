//! What the commands and the catalog synchronisation ask of the store.

use crate::graphql::graphql_types::{Challenge, Solve};
use vstd::prelude::*;

verus! {

/// Why the store could not answer.
#[derive(Debug)]
pub struct ProviderError {
    pub message: String,
}

impl View for ProviderError {
    type V = Seq<char>;

    open spec fn view(&self) -> Seq<char> {
        self.message@
    }
}

impl Clone for ProviderError {
    fn clone(&self) -> (copy: Self)
        ensures
            copy@ == self@,
    {
        ProviderError { message: self.message.clone() }
    }
}

/// A store of challenges and solves. Every call may fail, and nothing is
/// known of an answer but its type: the store is not part of the library.
pub trait GraphQLProvider {
    /// The names of the users who solved the challenge.
    fn get_users_who_solved_challenge(&self, challenge_id: i64) -> Result<
        Vec<String>,
        ProviderError,
    >;

    /// Adds a solve.
    fn insert_solve_for_user(
        &self,
        user_id: i64,
        user_name: String,
        solve_type: String,
        challenge_id: i64,
    ) -> Result<(), ProviderError>;

    /// Adds a challenge.
    fn insert_challenge(
        &self,
        release_date: String,
        points: i64,
        name: String,
        machine_avatar: Option<String>,
        difficulty: String,
        category: i64,
        htb_id: i64,
    ) -> Result<(), ProviderError>;

    /// The challenges whose name holds the given text.
    fn get_challenges_for_name(&self, name: &str) -> Result<Vec<Challenge>, ProviderError>;

    /// The challenges with the given id on the platform.
    fn get_challenge_by_id(&self, htb_id: i64) -> Result<Vec<Challenge>, ProviderError>;

    /// Whether the user has solved the challenge in the given way.
    fn is_challenge_solved_for_user(
        &self,
        user_id: i64,
        challenge_id: i64,
        challenge_name: String,
        solve_type: String,
    ) -> Result<bool, ProviderError>;

    /// The solves of the user with the given name.
    fn get_solves_for_user_by_name(&self, user_name: String) -> Result<Vec<Solve>, ProviderError>;
}

} // verus!
