//! The check–create-if-absent pattern shared by storage buckets and
//! notification topics: probe the name, skip when it exists, create it
//! otherwise.  A session machine decides; a verified driver runs it against
//! an in-memory name store.

use crate::errors::OrchestratorError;
use vstd::prelude::*;
use vstd::string::*;

verus! {

/// One call the session asks for.
pub enum SimpleCommand {
    /// Does a resource of this name exist?
    Probe { name: String },
    /// Create the resource; answer with the identifier of the response.
    Create { name: String },
    /// The resource is in place.
    Done,
    /// Setup failed.
    Fail(OrchestratorError),
}

/// The answer to the previous command.
pub enum SimpleEvent {
    /// Answer to `Probe`.
    ExistsAnswer(bool),
    /// Answer to `Create`: the identifier of the response, or the error text
    /// of a failed call.
    Created(Result<Option<String>, String>),
}

/// Where the session stands.
pub enum SimplePhase {
    Probing,
    Creating,
    Finished,
    Failed,
}

/// The session: knows only its phase; the name travels in the commands.
pub struct SimpleSetupSession {
    pub phase: SimplePhase,
}

impl SimpleSetupSession {
    /// Whether the session still runs.
    pub open spec fn in_progress(&self) -> bool {
        !(self.phase is Finished || self.phase is Failed)
    }

    /// Which answer the session expects next.
    pub open spec fn expects(&self, event: &SimpleEvent) -> bool {
        match self.phase {
            SimplePhase::Probing => event is ExistsAnswer,
            SimplePhase::Creating => event is Created,
            SimplePhase::Finished => false,
            SimplePhase::Failed => false,
        }
    }

    /// Starts the session: the first command probes the name.
    pub fn start(name: &str) -> (r: (SimpleSetupSession, SimpleCommand))
        ensures
            r.0.phase is Probing,
            (r.1 matches SimpleCommand::Probe { name: n } && n@ == name@),
    {
        (
            SimpleSetupSession { phase: SimplePhase::Probing },
            SimpleCommand::Probe { name: name.to_owned() },
        )
    }

    /// Feeds the answer in: an existing resource finishes the session at
    /// once; a missing one is created; a creation whose response carries no
    /// identifier, or fails, stops the session with that error.
    pub fn step(&mut self, name: &str, event: SimpleEvent) -> (cmd: SimpleCommand)
        requires
            old(self).in_progress(),
            old(self).expects(&event),
        ensures
            old(self).phase is Probing ==> (event matches SimpleEvent::ExistsAnswer(ex) ==> (ex
                ==> final(self).phase is Finished && cmd is Done)),
            old(self).phase is Probing ==> (event matches SimpleEvent::ExistsAnswer(ex) ==> (!ex
                ==> final(self).phase is Creating && (cmd matches SimpleCommand::Create { name: n }
                && n@ == name@))),
            old(self).phase is Creating ==> (event matches SimpleEvent::Created(res) ==> (res
            matches Ok(ido) ==> (ido is Some ==> final(self).phase is Finished && cmd is Done))),
            old(self).phase is Creating ==> (event matches SimpleEvent::Created(res) ==> (res
            matches Ok(ido) ==> (ido is None ==> final(self).phase is Failed && (cmd matches
            SimpleCommand::Fail(OrchestratorError::ResourceSetupError(m)) && m@
                == "Failed to create topic"@)))),
            old(self).phase is Creating ==> (event matches SimpleEvent::Created(res) ==> (res
            matches Err(e) ==> final(self).phase is Failed && (cmd matches SimpleCommand::Fail(
                OrchestratorError::ResourceSetupError(m),
            ) && m@ == e@))),
    {
        match event {
            SimpleEvent::ExistsAnswer(ex) => {
                if ex {
                    self.phase = SimplePhase::Finished;
                    SimpleCommand::Done
                } else {
                    self.phase = SimplePhase::Creating;
                    SimpleCommand::Create { name: name.to_owned() }
                }
            },
            SimpleEvent::Created(res) => match res {
                Ok(Some(_)) => {
                    self.phase = SimplePhase::Finished;
                    SimpleCommand::Done
                },
                Ok(None) => {
                    self.phase = SimplePhase::Failed;
                    SimpleCommand::Fail(
                        OrchestratorError::ResourceSetupError(
                            String::from_str("Failed to create topic"),
                        ),
                    )
                },
                Err(e) => {
                    self.phase = SimplePhase::Failed;
                    SimpleCommand::Fail(OrchestratorError::ResourceSetupError(e))
                },
            },
        }
    }
}

/// An in-memory name store: the set of resource names a control plane holds.
pub struct NameStore {
    pub names: Vec<String>,
}

/// Whether the store holds a name.
pub open spec fn store_has(names: Seq<String>, name: Seq<char>) -> bool {
    exists|i: int| 0 <= i < names.len() && (#[trigger] names[i])@ == name
}

impl NameStore {
    /// An empty store.
    pub fn new() -> (r: NameStore)
        ensures
            r.names@.len() == 0,
    {
        NameStore { names: Vec::new() }
    }

    /// Whether a resource of this name exists.
    pub fn probe(&self, name: &str) -> (r: bool)
        ensures
            r == store_has(self.names@, name@),
    {
        let mut i: usize = 0;
        while i < self.names.len()
            invariant
                0 <= i <= self.names@.len(),
                forall|j: int| 0 <= j < i ==> (#[trigger] self.names@[j])@ != name@,
            decreases self.names@.len() - i,
        {
            if crate::store::eq_str(self.names[i].as_str(), name) {
                return true;
            }
            i += 1;
        }
        false
    }

    /// Creates a resource of this name and returns its identifier.  An
    /// existing name is left alone.
    pub fn create(&mut self, name: &str) -> (r: String)
        ensures
            r@ == name@,
            store_has(old(self).names@, name@) ==> final(self).names@ == old(self).names@,
            !store_has(old(self).names@, name@) ==> final(self).names@.len() == old(self).names@.len() + 1 && final(self).names@.drop_last() == old(self).names@ && (final(self).names@.last())@ == name@ && store_has(final(self).names@, name@),
    {
        if self.probe(name) {
            name.to_owned()
        } else {
            let owned = name.to_owned();
            self.names.push(owned);
            proof {
                assert(self.names@.drop_last() =~= old(self).names@);
                assert((self.names@.last())@ == name@);
            }
            name.to_owned()
        }
    }
}

/// Runs the check–create-if-absent setup against the in-memory store: the
/// name is present afterwards, nothing else changes, and nothing is created
/// when the name was already there.
pub fn setup_simple(store: &mut NameStore, name: &str) -> (r: Result<(), OrchestratorError>)
    ensures
        r is Ok,
        store_has(final(store).names@, name@),
        store_has(old(store).names@, name@) ==> final(store).names@ == old(store).names@,
        !store_has(old(store).names@, name@) ==> final(store).names@.len() == old(store).names@.len() + 1,
{
    let (mut session, cmd) = SimpleSetupSession::start(name);
    let exists = match &cmd {
        SimpleCommand::Probe { name: n } => store.probe(n.as_str()),
        _ => {
            proof {
                assert(false);
            }
            false
        },
    };
    let cmd = session.step(name, SimpleEvent::ExistsAnswer(exists));
    if exists {
        return Ok(());
    }
    let cmd = match &cmd {
        SimpleCommand::Create { name: n } => {
            let id = store.create(n.as_str());
            session.step(name, SimpleEvent::Created(Ok(Some(id))))
        },
        _ => {
            proof {
                assert(false);
            }
            SimpleCommand::Done
        },
    };
    match cmd {
        SimpleCommand::Done => Ok(()),
        _ => {
            proof {
                assert(false);
            }
            Ok(())
        },
    }
}

} // verus!
