//! What one invocation of the plugin does: which verb it was given, and
//! the steps that the verb takes between the snapshot store, the batch and
//! the output.

use vstd::prelude::*;
use vstd::string::StringExecFns;

use crate::formatter::{config, config_text, fetch, fetch_text};
use crate::outcome::{OutcomeView, Snapshot};
use crate::text::{same_text, strings_view};

verus! {

/// What the collector asks for.
#[derive(Clone, Copy, Debug, PartialEq, Eq, Structural)]
pub enum Verb {
    /// The configuration listing.
    Config,
    /// A refresh of the snapshot from the network.
    Cron,
    /// The value listing.
    Fetch,
}

/// The verb that a command line selects. The line is the program's name and
/// at most one argument: `config` and `cron` select their verbs, and
/// anything else selects the value listing, as does a line of any other
/// length.
pub open spec fn verb_of(args: Seq<Seq<char>>) -> Verb {
    if args.len() == 2 && args[1] == "config"@ {
        Verb::Config
    } else if args.len() == 2 && args[1] == "cron"@ {
        Verb::Cron
    } else {
        Verb::Fetch
    }
}

/// Selects the verb from the command line, the program's name included.
pub fn select_verb(args: &Vec<String>) -> (verb: Verb)
    ensures
        verb == verb_of(strings_view(args@)),
{
    if args.len() != 2 {
        return Verb::Fetch;
    }
    let argument = args[1].as_str();
    if same_text(argument, "config") {
        Verb::Config
    } else if same_text(argument, "cron") {
        Verb::Cron
    } else {
        Verb::Fetch
    }
}

/// What a verb prints of a snapshot: the configuration listing, and the
/// value listing right after it where the collector takes both at once; the
/// value listing; or, for a refresh, nothing.
pub open spec fn output_text(verb: Verb, dirty_config: bool, snapshot: Seq<OutcomeView>) -> Seq<
    char,
> {
    match verb {
        Verb::Config => if dirty_config {
            config_text(snapshot) + fetch_text(snapshot)
        } else {
            config_text(snapshot)
        },
        Verb::Cron => Seq::empty(),
        Verb::Fetch => fetch_text(snapshot),
    }
}

/// Renders what `verb` prints of `snapshot`.
pub fn output(verb: Verb, dirty_config: bool, snapshot: &Snapshot) -> (text: String)
    ensures
        text@ == output_text(verb, dirty_config, snapshot@),
{
    match verb {
        Verb::Config => {
            let mut text = config(snapshot);
            if dirty_config {
                let values = fetch(snapshot);
                text.append(values.as_str());
            }
            text
        },
        Verb::Cron => String::new(),
        Verb::Fetch => fetch(snapshot),
    }
}

/// How far an invocation has come.
#[derive(Clone, Copy, Debug, PartialEq, Eq, Structural)]
pub enum Stage {
    /// Nothing was done yet.
    Start,
    /// The snapshot store was asked for the cached snapshot.
    AwaitingCache,
    /// A batch was asked for.
    AwaitingBatch,
    /// The last action was handed out.
    Done,
}

/// One invocation of the plugin.
#[derive(Clone, Copy, Debug, PartialEq, Eq, Structural)]
pub struct Session {
    pub verb: Verb,
    /// Whether the collector takes the values right after the configuration.
    pub dirty_config: bool,
    pub stage: Stage,
}

/// What reading the snapshot store gave.
#[derive(Debug, PartialEq, Eq)]
pub enum CacheRead {
    /// The store holds no file: nothing was resolved yet.
    Absent,
    /// The store holds this snapshot.
    Held(Snapshot),
    /// The store holds a file that could not be read or understood; the
    /// cause.
    Unreadable(String),
}

/// A `CacheRead` as a mathematical value.
pub enum CacheView {
    Absent,
    Held(Seq<OutcomeView>),
    Unreadable(Seq<char>),
}

impl View for CacheRead {
    type V = CacheView;

    open spec fn view(&self) -> CacheView {
        match self {
            CacheRead::Absent => CacheView::Absent,
            CacheRead::Held(snapshot) => CacheView::Held(snapshot@),
            CacheRead::Unreadable(cause) => CacheView::Unreadable(cause@),
        }
    }
}

/// What happened outside, told to the session.
#[derive(Debug, PartialEq, Eq)]
pub enum Event {
    /// The invocation begins.
    Begin,
    /// The snapshot store was read.
    Cache(CacheRead),
    /// A batch over all identities has ended in this snapshot.
    Resolved(Snapshot),
}

/// An `Event` as a mathematical value.
pub enum EventView {
    Begin,
    Cache(CacheView),
    Resolved(Seq<OutcomeView>),
}

impl View for Event {
    type V = EventView;

    open spec fn view(&self) -> EventView {
        match self {
            Event::Begin => EventView::Begin,
            Event::Cache(read) => EventView::Cache(read@),
            Event::Resolved(snapshot) => EventView::Resolved(snapshot@),
        }
    }
}

/// What the session asks the caller to do next.
#[derive(Debug, PartialEq, Eq)]
pub enum Action {
    /// Read the snapshot store, and tell what it holds.
    Load,
    /// Run a batch over all identities, and tell its snapshot.
    Resolve,
    /// Print the text; the invocation is over.
    Emit(String),
    /// Write the snapshot to the store in place of what it holds, then print
    /// the text; the invocation is over.
    StoreAndEmit { snapshot: Snapshot, text: String },
    /// Give up with this cause: the store holds what cannot be read, and it
    /// is not for the plugin to discard it.
    Fail(String),
    /// Do nothing: the event did not answer the action before it.
    Halt,
}

/// An `Action` as a mathematical value.
pub enum ActionView {
    Load,
    Resolve,
    Emit(Seq<char>),
    StoreAndEmit { snapshot: Seq<OutcomeView>, text: Seq<char> },
    Fail(Seq<char>),
    Halt,
}

impl View for Action {
    type V = ActionView;

    open spec fn view(&self) -> ActionView {
        match self {
            Action::Load => ActionView::Load,
            Action::Resolve => ActionView::Resolve,
            Action::Emit(text) => ActionView::Emit(text@),
            Action::StoreAndEmit { snapshot, text } => ActionView::StoreAndEmit {
                snapshot: snapshot@,
                text: text@,
            },
            Action::Fail(cause) => ActionView::Fail(cause@),
            Action::Halt => ActionView::Halt,
        }
    }
}

/// The session as an invocation begins.
pub open spec fn begun(verb: Verb, dirty_config: bool) -> Session {
    Session { verb, dirty_config, stage: Stage::Start }
}

/// The step that `event` makes the session take: the session after it, and
/// the action it asks for. A refresh goes to the batch at once; the other
/// verbs read the store first, print from the cached snapshot where there
/// is one, go to the batch where the store is empty, and give up where the
/// store cannot be read. The snapshot of a batch is stored and printed from.
pub open spec fn next(session: Session, event: EventView) -> (Session, ActionView) {
    let done = Session { stage: Stage::Done, ..session };
    match (session.stage, event) {
        (Stage::Start, EventView::Begin) => if session.verb == Verb::Cron {
            (Session { stage: Stage::AwaitingBatch, ..session }, ActionView::Resolve)
        } else {
            (Session { stage: Stage::AwaitingCache, ..session }, ActionView::Load)
        },
        (Stage::AwaitingCache, EventView::Cache(CacheView::Held(snapshot))) => (
            done,
            ActionView::Emit(output_text(session.verb, session.dirty_config, snapshot)),
        ),
        (Stage::AwaitingCache, EventView::Cache(CacheView::Absent)) => (
            Session { stage: Stage::AwaitingBatch, ..session },
            ActionView::Resolve,
        ),
        (Stage::AwaitingCache, EventView::Cache(CacheView::Unreadable(cause))) => (
            done,
            ActionView::Fail(cause),
        ),
        (Stage::AwaitingBatch, EventView::Resolved(snapshot)) => (
            done,
            ActionView::StoreAndEmit {
                snapshot,
                text: output_text(session.verb, session.dirty_config, snapshot),
            },
        ),
        _ => (done, ActionView::Halt),
    }
}

impl Session {
    /// The session of an invocation with this verb.
    pub fn new(verb: Verb, dirty_config: bool) -> (session: Session)
        ensures
            session == begun(verb, dirty_config),
    {
        Session { verb, dirty_config, stage: Stage::Start }
    }

    /// Takes the step that `event` calls for, and hands out the action to
    /// perform.
    pub fn step(&mut self, event: Event) -> (action: Action)
        ensures
            (*final(self), action@) == next(*old(self), event@),
    {
        let verb = self.verb;
        let dirty_config = self.dirty_config;
        match (self.stage, event) {
            (Stage::Start, Event::Begin) => {
                if verb == Verb::Cron {
                    self.stage = Stage::AwaitingBatch;
                    Action::Resolve
                } else {
                    self.stage = Stage::AwaitingCache;
                    Action::Load
                }
            },
            (Stage::AwaitingCache, Event::Cache(CacheRead::Held(snapshot))) => {
                self.stage = Stage::Done;
                Action::Emit(output(verb, dirty_config, &snapshot))
            },
            (Stage::AwaitingCache, Event::Cache(CacheRead::Absent)) => {
                self.stage = Stage::AwaitingBatch;
                Action::Resolve
            },
            (Stage::AwaitingCache, Event::Cache(CacheRead::Unreadable(cause))) => {
                self.stage = Stage::Done;
                Action::Fail(cause)
            },
            (Stage::AwaitingBatch, Event::Resolved(snapshot)) => {
                self.stage = Stage::Done;
                let text = output(verb, dirty_config, &snapshot);
                Action::StoreAndEmit { snapshot, text }
            },
            _ => {
                self.stage = Stage::Done;
                Action::Halt
            },
        }
    }
}

/// What the caller tells the session after it performed `action`, in a
/// world where reading the store gives `cache` and a batch ends in `fresh`;
/// nothing after an action that ends the invocation.
pub open spec fn answer(action: ActionView, cache: CacheView, fresh: Seq<OutcomeView>) -> Option<
    EventView,
> {
    match action {
        ActionView::Load => Some(EventView::Cache(cache)),
        ActionView::Resolve => Some(EventView::Resolved(fresh)),
        _ => None,
    }
}

/// The actions that the session asks for from `event` on, each answered as
/// `answer` says, up to `steps` of them.
pub open spec fn actions_from(
    session: Session,
    event: EventView,
    cache: CacheView,
    fresh: Seq<OutcomeView>,
    steps: nat,
) -> Seq<ActionView>
    decreases steps,
{
    if steps == 0 {
        Seq::empty()
    } else {
        let (after, action) = next(session, event);
        match answer(action, cache, fresh) {
            Some(reply) => seq![action] + actions_from(
                after,
                reply,
                cache,
                fresh,
                (steps - 1) as nat,
            ),
            None => seq![action],
        }
    }
}

/// The actions of a whole invocation, from its beginning to the action that
/// ends it.
pub open spec fn invocation(
    verb: Verb,
    dirty_config: bool,
    cache: CacheView,
    fresh: Seq<OutcomeView>,
) -> Seq<ActionView> {
    actions_from(begun(verb, dirty_config), EventView::Begin, cache, fresh, 3)
}

/// The cold start. A verb that prints, invoked while the store holds no
/// snapshot, reads the store, runs one batch and no second, stores the
/// snapshot of that batch, and prints what it prints when it finds that
/// same snapshot in the store.
pub proof fn lemma_cold_start(verb: Verb, dirty_config: bool, fresh: Seq<OutcomeView>)
    requires
        verb != Verb::Cron,
    ensures
        invocation(verb, dirty_config, CacheView::Absent, fresh) == seq![
            ActionView::Load,
            ActionView::Resolve,
            ActionView::StoreAndEmit {
                snapshot: fresh,
                text: output_text(verb, dirty_config, fresh),
            },
        ],
        forall|unused: Seq<OutcomeView>|
            #[trigger] invocation(verb, dirty_config, CacheView::Held(fresh), unused) == seq![
                ActionView::Load,
                ActionView::Emit(output_text(verb, dirty_config, fresh)),
            ],
{
    reveal_with_fuel(actions_from, 4);
}

/// A refresh never reads the store: whatever it holds, the invocation runs
/// one batch, stores its snapshot in place of the old one, and prints
/// nothing.
pub proof fn lemma_refresh_replaces(dirty_config: bool, cache: CacheView, fresh: Seq<OutcomeView>)
    ensures
        invocation(Verb::Cron, dirty_config, cache, fresh) == seq![
            ActionView::Resolve,
            ActionView::StoreAndEmit { snapshot: fresh, text: Seq::<char>::empty() },
        ],
{
    reveal_with_fuel(actions_from, 4);
}

} // verus!
