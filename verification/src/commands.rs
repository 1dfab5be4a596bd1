//! The two commands: `search`, for the challenges of a given name, and
//! `solves`, for the solves of a given user.
//!
//! A command is a state machine. The caller asks the store and sends the
//! replies; after each piece of work it reports what happened, and the
//! command says what comes next. The first failure ends the command: what
//! was sent before stays sent, and nothing more is asked or sent.

use crate::catalog::{label_of, CategoryCatalog, Labels};
use crate::discord_utils::{thumbnail_text, thumbnail_url, Notification, NotificationView};
use crate::graphql::graphql_provider::ProviderError;
use crate::graphql::graphql_types::{
    challenge_views, solve_views, texts, Challenge, ChallengeView, Solve, SolveView,
};
use vstd::prelude::*;

verus! {

/// The commands.
#[derive(Clone, Copy, Debug, PartialEq, Eq, Structural)]
pub enum Command {
    /// The challenges whose name holds the argument.
    Search,
    /// The challenges that the user named by the argument has solved.
    Solves,
}

/// One reply to a command.
#[derive(Debug)]
pub enum CommandReply {
    /// A line of text.
    Text(String),
    /// A challenge, shown as a notification.
    Embed(Notification),
}

/// The mathematical content of a [`CommandReply`].
pub enum CommandReplyView {
    Text(Seq<char>),
    Embed(NotificationView),
}

impl View for CommandReply {
    type V = CommandReplyView;

    open spec fn view(&self) -> CommandReplyView {
        match self {
            CommandReply::Text(line) => CommandReplyView::Text(line@),
            CommandReply::Embed(shown) => CommandReplyView::Embed(shown@),
        }
    }
}

/// Why a command was given up.
#[derive(Debug)]
pub enum CommandFailure {
    /// The caller reported something that the command was not waiting for.
    OutOfTurn,
    /// A reply could not be sent.
    Send,
    /// The store failed, and said this.
    Store(ProviderError),
}

/// The mathematical content of a [`CommandFailure`].
pub enum CommandFailureView {
    OutOfTurn,
    Send,
    Store(Seq<char>),
}

impl View for CommandFailure {
    type V = CommandFailureView;

    open spec fn view(&self) -> CommandFailureView {
        match self {
            CommandFailure::OutOfTurn => CommandFailureView::OutOfTurn,
            CommandFailure::Send => CommandFailureView::Send,
            CommandFailure::Store(why) => CommandFailureView::Store(why@),
        }
    }
}

impl Clone for CommandFailure {
    fn clone(&self) -> (copy: Self)
        ensures
            copy@ == self@,
    {
        match self {
            CommandFailure::OutOfTurn => CommandFailure::OutOfTurn,
            CommandFailure::Send => CommandFailure::Send,
            CommandFailure::Store(why) => CommandFailure::Store(why.clone()),
        }
    }
}

/// Where a command stands.
#[derive(Debug)]
pub enum CommandStage {
    /// The request was not well formed; the usage line is being sent.
    Usage,
    /// The store is being asked for what the argument names.
    Asking,
    /// The store knows nothing of that name; the line saying so is being
    /// sent.
    Empty,
    /// The store is being asked for the challenge of the solve at hand.
    LookingUp,
    /// The store is being asked who solved the challenge at hand.
    AskingSolvers,
    /// The challenge at hand is being sent.
    Showing,
    /// Everything found has been shown.
    Finished,
    /// The command was given up.
    Failed(CommandFailure),
}

/// The mathematical content of a [`CommandStage`].
pub enum CommandStageView {
    Usage,
    Asking,
    Empty,
    LookingUp,
    AskingSolvers,
    Showing,
    Finished,
    Failed(CommandFailureView),
}

impl View for CommandStage {
    type V = CommandStageView;

    open spec fn view(&self) -> CommandStageView {
        match self {
            CommandStage::Usage => CommandStageView::Usage,
            CommandStage::Asking => CommandStageView::Asking,
            CommandStage::Empty => CommandStageView::Empty,
            CommandStage::LookingUp => CommandStageView::LookingUp,
            CommandStage::AskingSolvers => CommandStageView::AskingSolvers,
            CommandStage::Showing => CommandStageView::Showing,
            CommandStage::Finished => CommandStageView::Finished,
            CommandStage::Failed(why) => CommandStageView::Failed(why@),
        }
    }
}

/// What the caller reports to a command.
#[derive(Debug)]
pub enum CommandEvent {
    /// The store's answer to a question for challenges.
    ChallengesFound(Vec<Challenge>),
    /// The store's answer to the question for a user's solves.
    SolvesFound(Vec<Solve>),
    /// The store's answer to the question who solved a challenge.
    SolversFound(Vec<String>),
    StoreFailed(ProviderError),
    Sent,
    SendFailed,
}

/// The mathematical content of a [`CommandEvent`].
pub enum CommandEventView {
    ChallengesFound(Seq<ChallengeView>),
    SolvesFound(Seq<SolveView>),
    SolversFound(Seq<Seq<char>>),
    StoreFailed(Seq<char>),
    Sent,
    SendFailed,
}

impl View for CommandEvent {
    type V = CommandEventView;

    open spec fn view(&self) -> CommandEventView {
        match self {
            CommandEvent::ChallengesFound(rows) => CommandEventView::ChallengesFound(
                challenge_views(rows@),
            ),
            CommandEvent::SolvesFound(rows) => CommandEventView::SolvesFound(solve_views(rows@)),
            CommandEvent::SolversFound(names) => CommandEventView::SolversFound(texts(names@)),
            CommandEvent::StoreFailed(why) => CommandEventView::StoreFailed(why@),
            CommandEvent::Sent => CommandEventView::Sent,
            CommandEvent::SendFailed => CommandEventView::SendFailed,
        }
    }
}

/// What a command asks of the caller.
#[derive(Debug)]
pub enum CommandAction {
    /// Ask the store for the challenges whose name holds this text.
    FindChallenges { name: String },
    /// Ask the store for the solves of the user with this name.
    FindSolves { user_name: String },
    /// Ask the store for the challenge with this id on the platform.
    LookupChallenge { htb_id: i64 },
    /// Ask the store who solved the challenge with this id on the platform.
    AskSolvers { challenge_id: i64 },
    /// Send this reply, then report how it went.
    Reply(CommandReply),
    /// The command is done.
    Finish,
    /// The command was given up.
    Abort(CommandFailure),
}

/// The mathematical content of a [`CommandAction`].
pub enum CommandActionView {
    FindChallenges { name: Seq<char> },
    FindSolves { user_name: Seq<char> },
    LookupChallenge { htb_id: i64 },
    AskSolvers { challenge_id: i64 },
    Reply(CommandReplyView),
    Finish,
    Abort(CommandFailureView),
}

impl View for CommandAction {
    type V = CommandActionView;

    open spec fn view(&self) -> CommandActionView {
        match self {
            CommandAction::FindChallenges { name } => CommandActionView::FindChallenges {
                name: name@,
            },
            CommandAction::FindSolves { user_name } => CommandActionView::FindSolves {
                user_name: user_name@,
            },
            CommandAction::LookupChallenge { htb_id } => CommandActionView::LookupChallenge {
                htb_id: *htb_id,
            },
            CommandAction::AskSolvers { challenge_id } => CommandActionView::AskSolvers {
                challenge_id: *challenge_id,
            },
            CommandAction::Reply(reply) => CommandActionView::Reply(reply@),
            CommandAction::Finish => CommandActionView::Finish,
            CommandAction::Abort(why) => CommandActionView::Abort(why@),
        }
    }
}

/// The solvers as a notification lists them: not at all where there are none.
pub open spec fn solvers_shown(solvers: Seq<Seq<char>>) -> Option<Seq<Seq<char>>> {
    if solvers.len() == 0 {
        None
    } else {
        Some(solvers)
    }
}

/// What is shown for a stored challenge under the given labels.
pub open spec fn challenge_shown(
    challenge: ChallengeView,
    solvers: Seq<Seq<char>>,
    labels: Labels,
) -> NotificationView {
    NotificationView {
        title: challenge.name,
        category: label_of(labels, challenge.category),
        points: challenge.points,
        thumbnail: thumbnail_text(challenge.machine_avatar),
        solved_by: solvers_shown(solvers),
    }
}

/// How a command is to be called.
pub open spec fn usage_line(command: Command) -> Seq<char> {
    match command {
        Command::Search => "Usage: ``!htb search \"Challenge name\"``"@,
        Command::Solves => "Usage: ``!htb solves \"Username\"``"@,
    }
}

/// What a command says when the store knows nothing of the name.
pub open spec fn empty_line(command: Command) -> Seq<char> {
    match command {
        Command::Search => "No challenge found by that name!"@,
        Command::Solves => "No solves found for that user!"@,
    }
}

/// A copy of a list of names.
fn clone_names(names: &Vec<String>) -> (copy: Vec<String>)
    ensures
        texts(copy@) == texts(names@),
{
    let mut copy: Vec<String> = Vec::new();
    let mut i: usize = 0;
    while i < names.len()
        invariant
            i <= names.len(),
            copy.len() == i,
            forall|j: int| 0 <= j < i ==> copy@[j]@ == names@[j]@,
        decreases names.len() - i,
    {
        copy.push(names[i].clone());
        i = i + 1;
    }
    assert(texts(copy@) =~= texts(names@));
    copy
}

/// Renders a stored challenge with those who solved it. A category that
/// the catalog does not know is shown as "Unknown", and the solvers are
/// listed only where there are any.
pub fn challenge_notification(
    challenge: &Challenge,
    solvers: &Vec<String>,
    catalog: &CategoryCatalog,
) -> (shown: Notification)
    ensures
        shown@ == challenge_shown(challenge@, texts(solvers@), catalog.labels()),
{
    let solved_by = if solvers.len() > 0 {
        Some(clone_names(solvers))
    } else {
        None
    };
    Notification {
        title: challenge.name.clone(),
        category: catalog.label(challenge.category),
        points: challenge.points,
        thumbnail: thumbnail_url(&challenge.machine_avatar),
        solved_by,
    }
}

/// The mathematical content of a [`CommandRun`].
pub struct CommandRunView {
    pub command: Command,
    /// The one argument of a well-formed request.
    pub argument: Seq<char>,
    pub stage: CommandStageView,
    /// The solves of the user, for `solves`.
    pub solves: Seq<SolveView>,
    /// The challenges last found: for `search` those of the name, for
    /// `solves` those of the solve at hand.
    pub challenges: Seq<ChallengeView>,
    /// How many of the challenges, or of the solves, have been seen to.
    pub at: int,
    /// Those who solved the challenge at hand.
    pub solvers: Seq<Seq<char>>,
}

impl CommandRunView {
    /// How many entries the command goes through: the challenges found for
    /// `search`, the user's solves for `solves`.
    pub open spec fn entries(self) -> int {
        match self.command {
            Command::Search => self.challenges.len() as int,
            Command::Solves => self.solves.len() as int,
        }
    }

    /// The challenge at hand: for `search` the one at `at`; for `solves`
    /// the first that the store has for the solve at `at`.
    pub open spec fn current(self) -> ChallengeView {
        match self.command {
            Command::Search => self.challenges[self.at],
            Command::Solves => self.challenges[0],
        }
    }

    /// What holds of every command: while an entry is at hand it is among
    /// the entries, and while a challenge is at hand there is one.
    pub open spec fn wf(self) -> bool {
        &&& 0 <= self.at
        &&& self.stage is LookingUp ==> self.command == Command::Solves && self.at
            < self.solves.len()
        &&& (self.stage is AskingSolvers || self.stage is Showing) ==> self.at < self.entries()
            && self.challenges.len() > 0
    }

    /// A command at its start: a request with exactly one argument goes to
    /// the store, any other is answered with the usage line.
    pub open spec fn start(command: Command, args: Seq<Seq<char>>) -> CommandRunView {
        CommandRunView {
            command,
            argument: if args.len() == 1 {
                args[0]
            } else {
                Seq::empty()
            },
            stage: if args.len() == 1 {
                CommandStageView::Asking
            } else {
                CommandStageView::Usage
            },
            solves: Seq::empty(),
            challenges: Seq::empty(),
            at: 0,
            solvers: Seq::empty(),
        }
    }

    /// The stage in which the entry at `at` is taken up, or the end where
    /// there is none.
    pub open spec fn stage_at(self, at: int) -> CommandStageView {
        if at < self.entries() {
            match self.command {
                Command::Search => CommandStageView::AskingSolvers,
                Command::Solves => CommandStageView::LookingUp,
            }
        } else {
            CommandStageView::Finished
        }
    }

    /// The command, given up for this reason.
    pub open spec fn failed(self, why: CommandFailureView) -> CommandRunView {
        CommandRunView { stage: CommandStageView::Failed(why), ..self }
    }

    /// The command with the entry at hand seen to.
    pub open spec fn moved_on(self) -> CommandRunView {
        CommandRunView { stage: self.stage_at(self.at + 1), at: self.at + 1, ..self }
    }

    /// The command after the store has answered its first question with
    /// these entries: the line saying that there are none, or the first
    /// entry taken up.
    pub open spec fn with_entries(self) -> CommandRunView {
        if self.entries() == 0 {
            CommandRunView { stage: CommandStageView::Empty, ..self }
        } else {
            CommandRunView { stage: self.stage_at(0), at: 0, ..self }
        }
    }

    /// The command after the caller's report.
    ///
    /// The challenges of `search` are shown in the store's order. For
    /// `solves` each solve is looked up by the id of its challenge; the
    /// first row found is shown, and a solve without a row is passed over.
    /// A failure of the store is kept as the store gave it.
    pub open spec fn after(self, event: CommandEventView) -> CommandRunView {
        match (self.stage, event) {
            (CommandStageView::Finished, _) => self,
            (CommandStageView::Failed(_), _) => self,
            (CommandStageView::Usage, CommandEventView::Sent) => CommandRunView {
                stage: CommandStageView::Finished,
                ..self
            },
            (CommandStageView::Empty, CommandEventView::Sent) => CommandRunView {
                stage: CommandStageView::Finished,
                ..self
            },
            (CommandStageView::Showing, CommandEventView::Sent) => self.moved_on(),
            (CommandStageView::Usage, CommandEventView::SendFailed) => self.failed(
                CommandFailureView::Send,
            ),
            (CommandStageView::Empty, CommandEventView::SendFailed) => self.failed(
                CommandFailureView::Send,
            ),
            (CommandStageView::Showing, CommandEventView::SendFailed) => self.failed(
                CommandFailureView::Send,
            ),
            (CommandStageView::Asking, CommandEventView::ChallengesFound(rows)) => {
                if self.command == Command::Search {
                    (CommandRunView { challenges: rows, ..self }).with_entries()
                } else {
                    self.failed(CommandFailureView::OutOfTurn)
                }
            },
            (CommandStageView::Asking, CommandEventView::SolvesFound(rows)) => {
                if self.command == Command::Solves {
                    (CommandRunView { solves: rows, ..self }).with_entries()
                } else {
                    self.failed(CommandFailureView::OutOfTurn)
                }
            },
            (CommandStageView::LookingUp, CommandEventView::ChallengesFound(rows)) => {
                if rows.len() == 0 {
                    self.moved_on()
                } else {
                    CommandRunView {
                        stage: CommandStageView::AskingSolvers,
                        challenges: rows,
                        ..self
                    }
                }
            },
            (CommandStageView::AskingSolvers, CommandEventView::SolversFound(names)) => CommandRunView {
                stage: CommandStageView::Showing,
                solvers: names,
                ..self
            },
            (CommandStageView::Asking, CommandEventView::StoreFailed(why)) => self.failed(
                CommandFailureView::Store(why),
            ),
            (CommandStageView::LookingUp, CommandEventView::StoreFailed(why)) => self.failed(
                CommandFailureView::Store(why),
            ),
            (CommandStageView::AskingSolvers, CommandEventView::StoreFailed(why)) => self.failed(
                CommandFailureView::Store(why),
            ),
            _ => self.failed(CommandFailureView::OutOfTurn),
        }
    }

    /// What the command asks of the caller now. The solvers of a challenge
    /// are asked for by its id on the platform.
    pub open spec fn action(self, labels: Labels) -> CommandActionView {
        match self.stage {
            CommandStageView::Usage => CommandActionView::Reply(
                CommandReplyView::Text(usage_line(self.command)),
            ),
            CommandStageView::Asking => match self.command {
                Command::Search => CommandActionView::FindChallenges { name: self.argument },
                Command::Solves => CommandActionView::FindSolves { user_name: self.argument },
            },
            CommandStageView::Empty => CommandActionView::Reply(
                CommandReplyView::Text(empty_line(self.command)),
            ),
            CommandStageView::LookingUp => CommandActionView::LookupChallenge {
                htb_id: self.solves[self.at].challenge_id,
            },
            CommandStageView::AskingSolvers => CommandActionView::AskSolvers {
                challenge_id: self.current().htb_id,
            },
            CommandStageView::Showing => CommandActionView::Reply(
                CommandReplyView::Embed(challenge_shown(self.current(), self.solvers, labels)),
            ),
            CommandStageView::Finished => CommandActionView::Finish,
            CommandStageView::Failed(why) => CommandActionView::Abort(why),
        }
    }
}

/// One run of a command.
#[derive(Debug)]
pub struct CommandRun {
    command: Command,
    argument: String,
    stage: CommandStage,
    solves: Vec<Solve>,
    challenges: Vec<Challenge>,
    at: usize,
    solvers: Vec<String>,
}

impl View for CommandRun {
    type V = CommandRunView;

    closed spec fn view(&self) -> CommandRunView {
        CommandRunView {
            command: self.command,
            argument: self.argument@,
            stage: self.stage@,
            solves: solve_views(self.solves@),
            challenges: challenge_views(self.challenges@),
            at: self.at as int,
            solvers: texts(self.solvers@),
        }
    }
}

impl CommandRun {
    #[verifier::type_invariant]
    spec fn well_formed(&self) -> bool {
        self@.wf()
    }

    /// A command at its start, with the arguments of the request.
    pub fn begin(command: Command, args: &Vec<String>) -> (run: CommandRun)
        ensures
            run@.wf(),
            run@ == CommandRunView::start(command, texts(args@)),
    {
        let (argument, stage) = if args.len() == 1 {
            (args[0].clone(), CommandStage::Asking)
        } else {
            (String::new(), CommandStage::Usage)
        };
        let run = CommandRun {
            command,
            argument,
            stage,
            solves: Vec::new(),
            challenges: Vec::new(),
            at: 0,
            solvers: Vec::new(),
        };
        assert(solve_views(run.solves@) =~= Seq::<SolveView>::empty());
        assert(challenge_views(run.challenges@) =~= Seq::<ChallengeView>::empty());
        assert(texts(run.solvers@) =~= Seq::<Seq<char>>::empty());
        run
    }

    /// Whether the command is over.
    pub fn is_over(&self) -> (over: bool)
        ensures
            over == (self@.stage is Finished || self@.stage is Failed),
    {
        match self.stage {
            CommandStage::Finished => true,
            CommandStage::Failed(_) => true,
            _ => false,
        }
    }

    /// The stage in which the entry at `at` is taken up.
    fn stage_for(command: Command, at: usize, entries: usize) -> (stage: CommandStage)
        ensures
            stage@ == (if at < entries {
                match command {
                    Command::Search => CommandStageView::AskingSolvers,
                    Command::Solves => CommandStageView::LookingUp,
                }
            } else {
                CommandStageView::Finished
            }),
    {
        if at < entries {
            match command {
                Command::Search => CommandStage::AskingSolvers,
                Command::Solves => CommandStage::LookingUp,
            }
        } else {
            CommandStage::Finished
        }
    }

    /// What the caller is to do now. A challenge is rendered under the
    /// catalog.
    pub fn action(&self, catalog: &CategoryCatalog) -> (action: CommandAction)
        ensures
            self@.wf(),
            action@ == self@.action(catalog.labels()),
    {
        proof {
            use_type_invariant(self);
        }
        match &self.stage {
            CommandStage::Usage => {
                let line = match self.command {
                    Command::Search => "Usage: ``!htb search \"Challenge name\"``",
                    Command::Solves => "Usage: ``!htb solves \"Username\"``",
                };
                CommandAction::Reply(CommandReply::Text(line.to_owned()))
            },
            CommandStage::Asking => match self.command {
                Command::Search => CommandAction::FindChallenges { name: self.argument.clone() },
                Command::Solves => CommandAction::FindSolves { user_name: self.argument.clone() },
            },
            CommandStage::Empty => {
                let line = match self.command {
                    Command::Search => "No challenge found by that name!",
                    Command::Solves => "No solves found for that user!",
                };
                CommandAction::Reply(CommandReply::Text(line.to_owned()))
            },
            CommandStage::LookingUp => CommandAction::LookupChallenge {
                htb_id: self.solves[self.at].challenge_id,
            },
            CommandStage::AskingSolvers => CommandAction::AskSolvers {
                challenge_id: self.current().htb_id,
            },
            CommandStage::Showing => CommandAction::Reply(
                CommandReply::Embed(
                    challenge_notification(self.current(), &self.solvers, catalog),
                ),
            ),
            CommandStage::Finished => CommandAction::Finish,
            CommandStage::Failed(why) => CommandAction::Abort(why.clone()),
        }
    }

    /// The challenge at hand.
    fn current(&self) -> (challenge: &Challenge)
        requires
            self@.wf(),
            self@.stage is AskingSolvers || self@.stage is Showing,
        ensures
            challenge@ == self@.current(),
    {
        match self.command {
            Command::Search => &self.challenges[self.at],
            Command::Solves => &self.challenges[0],
        }
    }

    /// Takes the caller's report and moves the command on.
    ///
    /// A reply that was sent moves on to what comes next; one that could
    /// not be sent gives the command up. An answer of the store is taken
    /// up as [`CommandRunView::after`] says; a failure of the store gives
    /// the command up with that failure, as does a report that was not
    /// awaited. A command that is over stays as it is.
    pub fn on_event(self, event: CommandEvent) -> (next: CommandRun)
        ensures
            next@.wf(),
            next@ == self@.after(event@),
    {
        proof {
            use_type_invariant(&self);
            assert(self@.wf());
        }
        let ghost before = self@;
        let CommandRun { command, argument, stage, solves, challenges, at, solvers } = self;
        let entries = match command {
            Command::Search => challenges.len(),
            Command::Solves => solves.len(),
        };
        match stage {
            CommandStage::Finished => CommandRun {
                command,
                argument,
                stage: CommandStage::Finished,
                solves,
                challenges,
                at,
                solvers,
            },
            CommandStage::Failed(why) => CommandRun {
                command,
                argument,
                stage: CommandStage::Failed(why),
                solves,
                challenges,
                at,
                solvers,
            },
            CommandStage::Usage | CommandStage::Empty => {
                let stage = match event {
                    CommandEvent::Sent => CommandStage::Finished,
                    CommandEvent::SendFailed => CommandStage::Failed(CommandFailure::Send),
                    _ => CommandStage::Failed(CommandFailure::OutOfTurn),
                };
                CommandRun { command, argument, stage, solves, challenges, at, solvers }
            },
            CommandStage::Showing => match event {
                CommandEvent::Sent => {
                    assert(at < entries);
                    CommandRun {
                        command,
                        argument,
                        stage: Self::stage_for(command, at + 1, entries),
                        solves,
                        challenges,
                        at: at + 1,
                        solvers,
                    }
                },
                CommandEvent::SendFailed => CommandRun {
                    command,
                    argument,
                    stage: CommandStage::Failed(CommandFailure::Send),
                    solves,
                    challenges,
                    at,
                    solvers,
                },
                _ => CommandRun {
                    command,
                    argument,
                    stage: CommandStage::Failed(CommandFailure::OutOfTurn),
                    solves,
                    challenges,
                    at,
                    solvers,
                },
            },
            CommandStage::Asking => match (command, event) {
                (Command::Search, CommandEvent::ChallengesFound(rows)) => {
                    let stage = if rows.len() == 0 {
                        CommandStage::Empty
                    } else {
                        CommandStage::AskingSolvers
                    };
                    let at = if rows.len() == 0 {
                        at
                    } else {
                        0
                    };
                    CommandRun { command, argument, stage, solves, challenges: rows, at, solvers }
                },
                (Command::Solves, CommandEvent::SolvesFound(rows)) => {
                    let stage = if rows.len() == 0 {
                        CommandStage::Empty
                    } else {
                        CommandStage::LookingUp
                    };
                    let at = if rows.len() == 0 {
                        at
                    } else {
                        0
                    };
                    CommandRun { command, argument, stage, solves: rows, challenges, at, solvers }
                },
                (_, CommandEvent::StoreFailed(why)) => CommandRun {
                    command,
                    argument,
                    stage: CommandStage::Failed(CommandFailure::Store(why)),
                    solves,
                    challenges,
                    at,
                    solvers,
                },
                _ => CommandRun {
                    command,
                    argument,
                    stage: CommandStage::Failed(CommandFailure::OutOfTurn),
                    solves,
                    challenges,
                    at,
                    solvers,
                },
            },
            CommandStage::LookingUp => match event {
                CommandEvent::ChallengesFound(rows) => {
                    if rows.len() == 0 {
                        CommandRun {
                            command,
                            argument,
                            stage: Self::stage_for(command, at + 1, entries),
                            solves,
                            challenges,
                            at: at + 1,
                            solvers,
                        }
                    } else {
                        CommandRun {
                            command,
                            argument,
                            stage: CommandStage::AskingSolvers,
                            solves,
                            challenges: rows,
                            at,
                            solvers,
                        }
                    }
                },
                CommandEvent::StoreFailed(why) => CommandRun {
                    command,
                    argument,
                    stage: CommandStage::Failed(CommandFailure::Store(why)),
                    solves,
                    challenges,
                    at,
                    solvers,
                },
                _ => CommandRun {
                    command,
                    argument,
                    stage: CommandStage::Failed(CommandFailure::OutOfTurn),
                    solves,
                    challenges,
                    at,
                    solvers,
                },
            },
            CommandStage::AskingSolvers => match event {
                CommandEvent::SolversFound(names) => CommandRun {
                    command,
                    argument,
                    stage: CommandStage::Showing,
                    solves,
                    challenges,
                    at,
                    solvers: names,
                },
                CommandEvent::StoreFailed(why) => CommandRun {
                    command,
                    argument,
                    stage: CommandStage::Failed(CommandFailure::Store(why)),
                    solves,
                    challenges,
                    at,
                    solvers,
                },
                _ => CommandRun {
                    command,
                    argument,
                    stage: CommandStage::Failed(CommandFailure::OutOfTurn),
                    solves,
                    challenges,
                    at,
                    solvers,
                },
            },
        }
    }
}

/// The first failure ends the command: a failure of the store or of a send
/// gives the command up with that failure, and a command that is over
/// takes no further report, so nothing more is asked or sent.
pub proof fn lemma_first_failure_ends_the_command(
    run: CommandRunView,
    event: CommandEventView,
    later: CommandEventView,
    labels: Labels,
)
    ensures
        (run.stage is Asking || run.stage is LookingUp || run.stage is AskingSolvers) ==> (
        event matches CommandEventView::StoreFailed(why) ==> run.after(event).stage
            == CommandStageView::Failed(CommandFailureView::Store(why))),
        (run.stage is Usage || run.stage is Empty || run.stage is Showing) && event is SendFailed
            ==> run.after(event).stage == CommandStageView::Failed(CommandFailureView::Send),
        (run.stage is Finished || run.stage is Failed) ==> run.after(later) == run,
        run.after(event).stage is Failed ==> run.after(event).after(later) == run.after(event)
            && run.after(event).action(labels) is Abort,
{
}

/// A request that is not well formed never reaches the store: its one
/// reply is the usage line, and with that the command is done.
pub proof fn lemma_usage_is_the_only_reply(command: Command, args: Seq<Seq<char>>, labels: Labels)
    requires
        args.len() != 1,
    ensures
        CommandRunView::start(command, args).action(labels) == CommandActionView::Reply(
            CommandReplyView::Text(usage_line(command)),
        ),
        CommandRunView::start(command, args).after(CommandEventView::Sent).action(labels)
            == CommandActionView::Finish,
{
}

/// A user without solves gets the one line that says so, and no challenge
/// is looked up; a name that no challenge has gets the line that says so.
pub proof fn lemma_nothing_found_says_so(command: Command, args: Seq<Seq<char>>, labels: Labels)
    requires
        args.len() == 1,
    ensures
        ({
            let found = match command {
                Command::Search => CommandEventView::ChallengesFound(Seq::empty()),
                Command::Solves => CommandEventView::SolvesFound(Seq::empty()),
            };
            let run = CommandRunView::start(command, args).after(found);
            &&& run.action(labels) == CommandActionView::Reply(
                CommandReplyView::Text(empty_line(command)),
            )
            &&& run.after(CommandEventView::Sent).action(labels) == CommandActionView::Finish
        }),
{
}

} // verus!
