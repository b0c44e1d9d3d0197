//! The run: every entry in turn is described, classified, resolved and
//! relocated.
//!
//! The caller does the outside work and this module decides. A [`Run`] hands
//! out one [`Action`] at a time; the caller performs it and reports back with
//! the [`Event`] that the action produces:
//!
//! | action     | the caller                                  | event       |
//! |------------|---------------------------------------------|-------------|
//! | `Inspect`  | reads what is at the entry's path           | `Inspected` |
//! | `Send`     | sends the request to the classifier service | `Replied`   |
//! | `Relocate` | moves the entry into the destination        | `Moved`     |
//!
//! An entry that cannot be described, classified or moved is marked as failed
//! and left where it is, and the run goes on with the next. A label that no
//! rule matches ends the whole run.

use crate::classifier::{
    build_request, classify_reply, is_request_for, reply_label, ChatRequest, ClassifyError,
    HttpReply,
};
use crate::config::{in_processing_order, processing_order, AppConfig, Entry, LoadConfigResult};
use crate::descriptor::{analyze_file, descriptor_of, DescribeError, EntryFacts};
use crate::relocator::RelocateError;
use crate::resolver::{deciding_rule, resolve};
use vstd::prelude::*;

verus! {

/// Where the entry at hand stands on its way.
#[derive(Debug, Clone, Copy, PartialEq, Eq, Structural)]
pub enum Stage {
    /// Found, and waiting to be described.
    Discovered,
    /// Described, and waiting for the classifier's answer.
    Described,
    /// Classified and resolved to a destination, and waiting to be moved.
    Resolved,
}

/// Whether a run is going on, and how it ended if it is not.
#[derive(Debug, Clone, Copy, PartialEq, Eq, Structural)]
pub enum Status {
    /// There is an entry at hand.
    Working,
    /// Every entry has been relocated or has failed.
    Completed,
    /// The run was stopped by a label that no rule matches.
    Aborted,
}

/// Why an entry was left where it is.
#[derive(Debug, Clone, Copy, PartialEq, Eq, Structural)]
pub enum Failure {
    Describe(DescribeError),
    Classify(ClassifyError),
    Relocate(RelocateError),
}

/// How an entry ended.
#[derive(Debug, Clone, Copy, PartialEq, Eq, Structural)]
pub enum Outcome {
    Relocated,
    Failed(Failure),
}

/// What the caller reports back.
#[derive(Debug, PartialEq, Eq)]
pub enum Event {
    /// What was found at the path of the entry to inspect.
    Inspected(EntryFacts),
    /// What came back from the classifier service.
    Replied(HttpReply),
    /// How the relocation ended.
    Moved(Result<(), RelocateError>),
}

/// What the caller is asked to do next.
#[derive(Debug, Clone, PartialEq, Eq)]
pub enum Action {
    /// Read what is at this entry's path and report it.
    Inspect { entry: Entry },
    /// Send this request to the classifier service and report the answer.
    Send { request: ChatRequest },
    /// Move this entry into this directory and report how it went.
    Relocate { entry: Entry, destination: String },
    /// Nothing more: every entry has been handled.
    Finish,
    /// Nothing more: the run is stopped, because no rule matches this label.
    Abort { label: String },
    /// Nothing: the run was not waiting for the event it was given, and is
    /// unchanged.
    Ignored,
}

/// A run, as contracts see it.
pub struct RunModel {
    pub config: AppConfig,
    /// The entries, in the order in which they are processed.
    pub entries: Seq<Entry>,
    /// The index of the entry at hand; the number of entries when none is left.
    pub position: nat,
    /// Where the entry at hand stands.
    pub stage: Stage,
    pub status: Status,
    /// How each of the entries before the one at hand ended, in their order.
    pub outcomes: Seq<Outcome>,
}

impl RunModel {
    /// What holds of every run: each entry before the one at hand has its
    /// outcome, and an entry is at hand unless the run has completed.
    pub open spec fn wf(self) -> bool {
        &&& self.outcomes.len() == self.position
        &&& self.position <= self.entries.len()
        &&& (self.status == Status::Completed <==> self.position == self.entries.len())
        &&& (self.status != Status::Working ==> self.stage == Stage::Discovered)
    }

    /// The entry at hand.
    pub open spec fn current(self) -> Entry {
        self.entries[self.position as int]
    }

    /// The run that begins on these entries.
    pub open spec fn initial(config: AppConfig, entries: Seq<Entry>) -> RunModel {
        RunModel {
            config,
            entries,
            position: 0,
            stage: Stage::Discovered,
            status: if entries.len() > 0 {
                Status::Working
            } else {
                Status::Completed
            },
            outcomes: Seq::empty(),
        }
    }

    /// This run after the entry at hand has ended with `outcome`: the next
    /// entry is at hand, or the run has completed.
    pub open spec fn closed_with(self, outcome: Outcome) -> RunModel {
        RunModel {
            config: self.config,
            entries: self.entries,
            position: self.position + 1,
            stage: Stage::Discovered,
            status: if self.position + 1 < self.entries.len() {
                Status::Working
            } else {
                Status::Completed
            },
            outcomes: self.outcomes.push(outcome),
        }
    }

    /// This run with the entry at hand at another stage.
    pub open spec fn at_stage(self, stage: Stage) -> RunModel {
        RunModel { stage, ..self }
    }

    /// This run, stopped.
    pub open spec fn aborted(self) -> RunModel {
        RunModel { stage: Stage::Discovered, status: Status::Aborted, ..self }
    }
}

/// `action` is what a run asks for when it turns to a new entry or has none
/// left.
pub open spec fn opens(run: RunModel, action: Action) -> bool {
    match action {
        Action::Inspect { entry } => run.status == Status::Working && entry == run.current(),
        Action::Finish => run.status != Status::Working,
        _ => false,
    }
}

/// How an entry ends that was moved, or not.
pub open spec fn moved_outcome(result: Result<(), RelocateError>) -> Outcome {
    match result {
        Ok(_) => Outcome::Relocated,
        Err(e) => Outcome::Failed(Failure::Relocate(e)),
    }
}

/// `post` and `action` are what follows from `pre` on `event`.
pub open spec fn follows(pre: RunModel, event: Event, post: RunModel, action: Action) -> bool {
    match (pre.status, pre.stage, event) {
        (Status::Working, Stage::Discovered, Event::Inspected(facts)) => match descriptor_of(
            facts,
        ) {
            Ok(descriptor) => {
                &&& post == pre.at_stage(Stage::Described)
                &&& action matches Action::Send { request }
                &&& is_request_for(request, descriptor, pre.config)
            },
            Err(e) => {
                &&& post == pre.closed_with(Outcome::Failed(Failure::Describe(e)))
                &&& opens(post, action)
            },
        },
        (Status::Working, Stage::Described, Event::Replied(reply)) => match reply_label(reply) {
            Ok(label) => match deciding_rule(pre.config.classifications@, label) {
                Some(rule) => {
                    &&& post == pre.at_stage(Stage::Resolved)
                    &&& action matches Action::Relocate { entry, destination }
                    &&& entry == pre.current()
                    &&& destination@ == pre.config.classifications@[rule].dir@
                },
                None => {
                    &&& post == pre.aborted()
                    &&& action matches Action::Abort { label: unknown }
                    &&& unknown@ == label
                },
            },
            Err(e) => {
                &&& post == pre.closed_with(Outcome::Failed(Failure::Classify(e)))
                &&& opens(post, action)
            },
        },
        (Status::Working, Stage::Resolved, Event::Moved(result)) => {
            &&& post == pre.closed_with(moved_outcome(result))
            &&& opens(post, action)
        },
        _ => post == pre && action is Ignored,
    }
}

/// A run over the entries of a staging directory.
pub struct Run {
    config: AppConfig,
    entries: Vec<Entry>,
    position: usize,
    stage: Stage,
    status: Status,
    outcomes: Vec<Outcome>,
}

impl Run {
    /// This run, as contracts see it.
    pub closed spec fn model(&self) -> RunModel {
        RunModel {
            config: self.config,
            entries: self.entries@,
            position: self.position as nat,
            stage: self.stage,
            status: self.status,
            outcomes: self.outcomes@,
        }
    }

    #[verifier::type_invariant]
    spec fn well_formed(&self) -> bool {
        self.model().wf()
    }

    /// Begins a run on the entries that were loaded, directories first, and
    /// asks for the first of them to be inspected.
    pub fn start(loaded: LoadConfigResult) -> (res: (Run, Action))
        ensures
            res.0.model() == RunModel::initial(
                loaded.app_config,
                in_processing_order(loaded.sub_files@),
            ),
            res.0.model().wf(),
            opens(res.0.model(), res.1),
    {
        let entries = processing_order(&loaded.sub_files);
        if entries.len() > 0 {
            let first = entries[0].duplicate();
            let run = Run {
                config: loaded.app_config,
                entries,
                position: 0,
                stage: Stage::Discovered,
                status: Status::Working,
                outcomes: Vec::new(),
            };
            (run, Action::Inspect { entry: first })
        } else {
            let run = Run {
                config: loaded.app_config,
                entries,
                position: 0,
                stage: Stage::Discovered,
                status: Status::Completed,
                outcomes: Vec::new(),
            };
            (run, Action::Finish)
        }
    }

    /// Ends the entry at hand with `outcome` and turns to the next.
    fn close(self, outcome: Outcome) -> (res: (Run, Action))
        requires
            self.model().status == Status::Working,
        ensures
            res.0.model() == self.model().closed_with(outcome),
            opens(res.0.model(), res.1),
    {
        proof {
            use_type_invariant(&self);
        }
        assert(self.position < self.entries.len());
        let Run { config, entries, position, stage: _, status: _, outcomes } = self;
        let mut outcomes = outcomes;
        outcomes.push(outcome);
        let position = position + 1;
        if position < entries.len() {
            let next = entries[position].duplicate();
            let run = Run {
                config,
                entries,
                position,
                stage: Stage::Discovered,
                status: Status::Working,
                outcomes,
            };
            (run, Action::Inspect { entry: next })
        } else {
            let run = Run {
                config,
                entries,
                position,
                stage: Stage::Discovered,
                status: Status::Completed,
                outcomes,
            };
            (run, Action::Finish)
        }
    }

    /// Puts the entry at hand at `stage`.
    fn move_to(self, stage: Stage) -> (res: Run)
        requires
            self.model().status == Status::Working,
        ensures
            res.model() == self.model().at_stage(stage),
    {
        proof {
            use_type_invariant(&self);
        }
        Run {
            config: self.config,
            entries: self.entries,
            position: self.position,
            stage,
            status: self.status,
            outcomes: self.outcomes,
        }
    }

    /// Stops the run.
    fn abort(self) -> (res: Run)
        requires
            self.model().status == Status::Working,
        ensures
            res.model() == self.model().aborted(),
    {
        proof {
            use_type_invariant(&self);
        }
        Run {
            config: self.config,
            entries: self.entries,
            position: self.position,
            stage: Stage::Discovered,
            status: Status::Aborted,
            outcomes: self.outcomes,
        }
    }

    /// Takes the event that the last action produced and says what to do
    /// next.
    ///
    /// - `Inspected`, for an entry waiting to be described: the entry is
    ///   described and the request for its classification is handed out; an
    ///   entry that cannot be described has failed.
    /// - `Replied`, for an entry waiting for the classifier: the label is
    ///   read from the answer and resolved, and the entry's relocation is
    ///   asked for; an entry whose classification failed has failed; a label
    ///   that no rule matches stops the run.
    /// - `Moved`, for an entry waiting to be moved: the entry is relocated or
    ///   has failed.
    ///
    /// After an entry has ended, the next is to be inspected, or the run has
    /// completed. Any other event is ignored.
    pub fn step(self, event: Event) -> (res: (Run, Action))
        ensures
            self.model().wf(),
            res.0.model().wf(),
            follows(self.model(), event, res.0.model(), res.1),
    {
        proof {
            use_type_invariant(&self);
        }
        match self.status {
            Status::Working => {},
            _ => {
                return (self, Action::Ignored);
            },
        }
        match event {
            Event::Inspected(facts) => {
                match self.stage {
                    Stage::Discovered => {},
                    _ => {
                        return (self, Action::Ignored);
                    },
                }
                match analyze_file(&facts) {
                    Ok(descriptor) => {
                        let request = build_request(descriptor.as_str(), &self.config);
                        let run = self.move_to(Stage::Described);
                        (run, Action::Send { request })
                    },
                    Err(e) => self.close(Outcome::Failed(Failure::Describe(e))),
                }
            },
            Event::Replied(reply) => {
                match self.stage {
                    Stage::Described => {},
                    _ => {
                        return (self, Action::Ignored);
                    },
                }
                match classify_reply(&reply) {
                    Ok(label) => match resolve(label.as_str(), &self.config.classifications) {
                        Ok(destination) => {
                            let entry = self.entries[self.position].duplicate();
                            let run = self.move_to(Stage::Resolved);
                            (run, Action::Relocate { entry, destination })
                        },
                        Err(_) => {
                            let run = self.abort();
                            (run, Action::Abort { label })
                        },
                    },
                    Err(e) => self.close(Outcome::Failed(Failure::Classify(e))),
                }
            },
            Event::Moved(result) => {
                match self.stage {
                    Stage::Resolved => {},
                    _ => {
                        return (self, Action::Ignored);
                    },
                }
                match result {
                    Ok(_) => self.close(Outcome::Relocated),
                    Err(e) => self.close(Outcome::Failed(Failure::Relocate(e))),
                }
            },
        }
    }

    /// Whether the run is going on, and how it ended if it is not.
    pub fn status(&self) -> (res: Status)
        ensures
            res == self.model().status,
    {
        self.status
    }

    /// Where the entry at hand stands.
    pub fn stage(&self) -> (res: Stage)
        ensures
            res == self.model().stage,
    {
        self.stage
    }

    /// The index of the entry at hand.
    pub fn position(&self) -> (res: usize)
        ensures
            res == self.model().position,
    {
        self.position
    }

    /// The entries, in the order in which they are processed.
    pub fn entries(&self) -> (res: &Vec<Entry>)
        ensures
            res@ == self.model().entries,
    {
        &self.entries
    }

    /// How each of the entries before the one at hand ended.
    pub fn outcomes(&self) -> (res: &Vec<Outcome>)
        ensures
            res@ == self.model().outcomes,
    {
        &self.outcomes
    }

    /// The configuration that the run works with.
    pub fn config(&self) -> (res: &AppConfig)
        ensures
            *res == self.model().config,
    {
        &self.config
    }
}

/// Whatever happens, a run stays well formed.
pub proof fn steps_keep_runs_well_formed(
    pre: RunModel,
    event: Event,
    post: RunModel,
    action: Action,
)
    requires
        pre.wf(),
        follows(pre, event, post, action),
    ensures
        post.wf(),
        post.config == pre.config,
        post.entries == pre.entries,
{
}

/// An entry whose classification fails is marked as failed and does not hold
/// up the others: the run is not stopped, and where an entry follows, it is
/// the next to be inspected.
pub proof fn failed_classification_does_not_stop_the_run(
    pre: RunModel,
    reply: HttpReply,
    post: RunModel,
    action: Action,
)
    requires
        pre.wf(),
        pre.status == Status::Working,
        pre.stage == Stage::Described,
        reply_label(reply) is Err,
        follows(pre, Event::Replied(reply), post, action),
    ensures
        post.status != Status::Aborted,
        post.position == pre.position + 1,
        post.outcomes == pre.outcomes.push(
            Outcome::Failed(Failure::Classify(reply_label(reply)->Err_0)),
        ),
        pre.position + 1 < pre.entries.len() ==> post.status == Status::Working && action
            == (Action::Inspect { entry: pre.entries[pre.position as int + 1] }),
        pre.position + 1 == pre.entries.len() ==> post.status == Status::Completed && action
            == Action::Finish,
{
}

/// The same holds of every entry that fails, at whatever stage: the run
/// turns to the next entry, or completes.
pub proof fn failed_entries_do_not_stop_the_run(
    pre: RunModel,
    event: Event,
    post: RunModel,
    action: Action,
)
    requires
        pre.wf(),
        follows(pre, event, post, action),
        post.outcomes.len() > pre.outcomes.len(),
    ensures
        post.status != Status::Aborted,
        post.position == pre.position + 1,
        opens(post, action),
{
}

/// Only a label that no rule matches stops a run.
pub proof fn only_an_unknown_label_stops_the_run(
    pre: RunModel,
    event: Event,
    post: RunModel,
    action: Action,
)
    requires
        pre.wf(),
        pre.status == Status::Working,
        follows(pre, event, post, action),
        post.status == Status::Aborted,
    ensures
        pre.stage == Stage::Described,
        event matches Event::Replied(reply) && reply_label(reply) matches Ok(label)
            && deciding_rule(pre.config.classifications@, label) is None,
        action is Abort,
        post.outcomes == pre.outcomes,
{
}

/// A run that has completed or was stopped takes no further step.
pub proof fn ended_runs_stay_as_they_are(
    pre: RunModel,
    event: Event,
    post: RunModel,
    action: Action,
)
    requires
        pre.status != Status::Working,
        follows(pre, event, post, action),
    ensures
        post == pre,
        action is Ignored,
{
}

} // verus!
