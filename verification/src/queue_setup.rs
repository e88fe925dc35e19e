//! Queue provisioning: a session machine that walks the queue catalog in
//! order, probing, creating, resolving the dead-letter target and applying
//! the attribute set, one control-plane call at a time.  Whoever runs the
//! session performs each command against the real control plane and feeds
//! the answer back; a verified driver runs it against the in-memory model.

use crate::catalog::QueueSpec;
use crate::errors::OrchestratorError;
use crate::naming::{
    candidate_queue_url, candidate_url_seq, canonical_name_seq, canonical_queue_name,
    redrive_policy, redrive_policy_seq,
};
use crate::params::QueueArgs;
use crate::store::{
    apply_attributes, find_name, find_url, fresh_record, has_name, has_url, lemma_find_name,
    lemma_find_name_hit, lemma_find_url, lemma_find_url_of_index, mint_url, store_wf,
    QueueAttribute, QueueRecordV, QueueStore, QueueStoreV,
};
use crate::text::{dec_seq, u64_to_string};
use vstd::prelude::*;
use vstd::string::*;

verus! {

/// The canonical name of one catalog entry under the given arguments.
pub open spec fn spec_queue_name(args: QueueArgs, q: QueueSpec) -> Seq<char> {
    canonical_name_seq(args.prefix@, q.name@, args.suffix@)
}

/// The candidate URL of one catalog entry under the given arguments.
pub open spec fn spec_candidate_url(args: QueueArgs, q: QueueSpec) -> Seq<char> {
    candidate_url_seq(args.queue_base_url@, spec_queue_name(args, q))
}

/// The message reported when queue creation fails.
pub open spec fn create_failure_msg(base_url: Seq<char>, err: Seq<char>) -> Seq<char> {
    "Failed to create SQS queue '"@ + base_url + "': "@ + err
}

/// One call the session asks its runner to make against the control plane.
pub enum QueueCommand {
    /// A lightweight attribute fetch on the candidate URL: does the queue
    /// exist?
    Probe { url: String },
    /// Create the queue; answer with the authoritative URL of the response.
    CreateQueue { name: String },
    /// Resolve a queue URL by name, for the dead-letter target.
    GetQueueUrl { name: String },
    /// Resolve the ARN of the queue at a URL.
    GetQueueArn { url: String },
    /// Apply the whole attribute set in one update.
    SetAttributes { url: String, attributes: Vec<(QueueAttribute, String)> },
    /// The catalog is done; nothing more to ask.
    Done,
    /// Setup failed; nothing more to ask.
    Fail(OrchestratorError),
}

/// The control plane's answer to the previous command.
pub enum QueueEvent {
    /// Answer to `Probe`.
    ExistsAnswer(bool),
    /// Answer to `CreateQueue`: the URL field of the response, or the error
    /// text of a failed call.
    Created(Result<Option<String>, String>),
    /// Answer to `GetQueueUrl`.
    UrlAnswer(Result<String, String>),
    /// Answer to `GetQueueArn`.
    ArnAnswer(Result<String, String>),
    /// Answer to `SetAttributes`.
    AttributesSet(Result<(), String>),
}

/// Where the session stands within the current catalog entry.
pub enum QueuePhase {
    /// A `Probe` is out.
    Probing,
    /// A `CreateQueue` is out.
    Creating,
    /// A `GetQueueUrl` is out; the queue's authoritative URL is kept for the
    /// attribute update.
    ResolvingUrl { queue_url: String },
    /// A `GetQueueArn` is out.
    ResolvingArn { queue_url: String },
    /// A `SetAttributes` is out.
    SettingAttributes,
    /// The whole catalog was processed.
    Finished,
    /// Setup failed and stopped.
    Failed,
}

/// The queue-setup session: the catalog position and the phase within it.
/// The arguments and the catalog are passed to every step; a session is only
/// meaningful against the pair it was started with.
pub struct QueueSetupSession {
    pub index: usize,
    pub phase: QueuePhase,
}

impl QueueSetupSession {
    /// Whether the session still runs.
    pub open spec fn in_progress(&self) -> bool {
        !(self.phase is Finished || self.phase is Failed)
    }

    /// Session validity against a catalog: the position is in range while
    /// the session runs, and the dead-letter phases only arise for entries
    /// that declare a dead-letter policy.
    pub open spec fn wf(&self, catalog: Seq<QueueSpec>) -> bool {
        &&& self.in_progress() ==> (self.index as int) < catalog.len()
        &&& (self.phase is ResolvingUrl || self.phase is ResolvingArn) ==> (self.index as int)
            < catalog.len() && catalog[self.index as int].dlq_config is Some
    }

    /// Which answer the session expects next.
    pub open spec fn expects(&self, event: QueueEvent) -> bool {
        match self.phase {
            QueuePhase::Probing => event is ExistsAnswer,
            QueuePhase::Creating => event is Created,
            QueuePhase::ResolvingUrl { .. } => event is UrlAnswer,
            QueuePhase::ResolvingArn { .. } => event is ArnAnswer,
            QueuePhase::SettingAttributes => event is AttributesSet,
            QueuePhase::Finished => false,
            QueuePhase::Failed => false,
        }
    }

    /// Starts a session: the first command probes the first catalog entry,
    /// or an empty catalog is done at once.
    pub fn start(args: &QueueArgs, catalog: &Vec<QueueSpec>) -> (r: (QueueSetupSession,
        QueueCommand))
        ensures
            r.0.wf(catalog@),
            catalog@.len() == 0 ==> !r.0.in_progress() && r.0.phase is Finished && r.1 is Done,
            catalog@.len() > 0 ==> r.0.phase is Probing && r.0.index == 0 && (r.1 matches
                QueueCommand::Probe { url } && url@ == spec_candidate_url(*args, catalog@[0])),
    {
        if catalog.len() == 0 {
            (QueueSetupSession { index: 0, phase: QueuePhase::Finished }, QueueCommand::Done)
        } else {
            let cmd = probe_command(args, catalog, 0);
            (QueueSetupSession { index: 0, phase: QueuePhase::Probing }, cmd)
        }
    }

    /// Feeds the answer to the previous command in and returns the next
    /// command.  The transition follows the provisioning algorithm: an
    /// existing queue is skipped; a created queue gets its attribute set in
    /// one update, with the redrive policy resolved first when the entry
    /// declares a dead-letter policy; each failure stops the session with
    /// the error of that stage.
    pub fn step(&mut self, args: &QueueArgs, catalog: &Vec<QueueSpec>, event: QueueEvent) -> (cmd:
        QueueCommand)
        requires
            old(self).wf(catalog@),
            old(self).in_progress(),
            old(self).expects(event),
        ensures
            final(self).wf(catalog@),
            // Probe answered: an existing queue is skipped, a missing one is created.
            old(self).phase is Probing ==> (event matches QueueEvent::ExistsAnswer(ex) ==> (ex
                ==> advanced(*old(self), *final(self), cmd, *args, catalog@))),
            old(self).phase is Probing ==> (event matches QueueEvent::ExistsAnswer(ex) ==> (!ex
                ==> final(self).index == old(self).index && final(self).phase is Creating && (cmd
            matches QueueCommand::CreateQueue { name } && name@ == spec_queue_name(
                *args,
                catalog@[old(self).index as int],
            )))),
            // Creation answered.
            old(self).phase is Creating ==> (event matches QueueEvent::Created(res) ==> (res
            matches Err(e) ==> final(self).phase is Failed && (cmd matches QueueCommand::Fail(
                OrchestratorError::ResourceSetupError(m),
            ) && m@ == create_failure_msg(args.queue_base_url@, e@)))),
            old(self).phase is Creating ==> (event matches QueueEvent::Created(res) ==> (res
            matches Ok(uo) ==> (uo is None ==> final(self).phase is Failed && (cmd matches
            QueueCommand::Fail(OrchestratorError::ResourceSetupError(m)) && m@
                == "Failed to get queue url"@)))),
            old(self).phase is Creating ==> (event matches QueueEvent::Created(res) ==> (res
            matches Ok(uo) ==> (uo matches Some(u) ==> (catalog@[old(self).index as int].dlq_config
                is None ==> final(self).index == old(self).index && final(self).phase
                is SettingAttributes && attrs_cmd_no_dlq(
                cmd,
                u@,
                catalog@[old(self).index as int],
            ))))),
            old(self).phase is Creating ==> (event matches QueueEvent::Created(res) ==> (res
            matches Ok(uo) ==> (uo matches Some(u) ==> (catalog@[old(self).index as int].dlq_config
                is Some ==> final(self).index == old(self).index && (final(self).phase matches
            QueuePhase::ResolvingUrl { queue_url } && queue_url@ == u@) && (cmd matches
            QueueCommand::GetQueueUrl { name } && name@ == spec_queue_name(
                *args,
                catalog@[old(self).index as int],
            )))))),
            // Dead-letter URL answered.
            old(self).phase matches QueuePhase::ResolvingUrl { queue_url } ==> (event matches
            QueueEvent::UrlAnswer(res) ==> (res matches Err(e) ==> final(self).phase is Failed && (
            cmd matches QueueCommand::Fail(OrchestratorError::ResourceError(m)) && m@ == e@))),
            old(self).phase matches QueuePhase::ResolvingUrl { queue_url } ==> (event matches
            QueueEvent::UrlAnswer(res) ==> (res matches Ok(du) ==> final(self).index == old(self).index && (final(self).phase matches QueuePhase::ResolvingArn { queue_url: q2 } && q2@
                == queue_url@) && (cmd matches QueueCommand::GetQueueArn { url } && url@ == du@))),
            // Dead-letter ARN answered.
            old(self).phase matches QueuePhase::ResolvingArn { queue_url } ==> (event matches
            QueueEvent::ArnAnswer(res) ==> (res matches Err(e) ==> final(self).phase is Failed && (
            cmd matches QueueCommand::Fail(OrchestratorError::ResourceError(m)) && m@ == e@))),
            old(self).phase matches QueuePhase::ResolvingArn { queue_url } ==> (event matches
            QueueEvent::ArnAnswer(res) ==> (res matches Ok(arn) ==> final(self).index == old(self).index && final(self).phase is SettingAttributes && attrs_cmd_dlq(
                cmd,
                queue_url@,
                catalog@[old(self).index as int],
                arn@,
            ))),
            // Attribute update answered.
            old(self).phase is SettingAttributes ==> (event matches QueueEvent::AttributesSet(res)
                ==> (res matches Ok(u2) ==> advanced(
                *old(self),
                *final(self),
                cmd,
                *args,
                catalog@,
            ))),
            old(self).phase is SettingAttributes ==> (event matches QueueEvent::AttributesSet(res)
                ==> (res matches Err(e) ==> final(self).phase is Failed && (cmd matches
            QueueCommand::Fail(OrchestratorError::ResourceSetupError(m)) && m@ == e@))),
    {
        match event {
            QueueEvent::ExistsAnswer(ex) => {
                if ex {
                    self.advance(args, catalog)
                } else {
                    let name = canonical_queue_name(
                        args.prefix.as_str(),
                        catalog[self.index].name.as_str(),
                        args.suffix.as_str(),
                    );
                    self.phase = QueuePhase::Creating;
                    QueueCommand::CreateQueue { name }
                }
            },
            QueueEvent::Created(res) => match res {
                Err(e) => {
                    let mut m = String::new();
                    m.append("Failed to create SQS queue '");
                    m.append(args.queue_base_url.as_str());
                    m.append("': ");
                    m.append(e.as_str());
                    self.phase = QueuePhase::Failed;
                    QueueCommand::Fail(OrchestratorError::ResourceSetupError(m))
                },
                Ok(None) => {
                    self.phase = QueuePhase::Failed;
                    QueueCommand::Fail(
                        OrchestratorError::ResourceSetupError(
                            String::from_str("Failed to get queue url"),
                        ),
                    )
                },
                Ok(Some(u)) => {
                    if catalog[self.index].dlq_config.is_some() {
                        let name = canonical_queue_name(
                            args.prefix.as_str(),
                            catalog[self.index].name.as_str(),
                            args.suffix.as_str(),
                        );
                        self.phase = QueuePhase::ResolvingUrl { queue_url: u };
                        QueueCommand::GetQueueUrl { name }
                    } else {
                        let attributes = vis_attributes(&catalog[self.index]);
                        self.phase = QueuePhase::SettingAttributes;
                        QueueCommand::SetAttributes { url: u, attributes }
                    }
                },
            },
            QueueEvent::UrlAnswer(res) => {
                let qu = match &self.phase {
                    QueuePhase::ResolvingUrl { queue_url } => queue_url.clone(),
                    _ => {
                        proof {
                            assert(false);
                        }
                        String::new()
                    },
                };
                match res {
                    Err(e) => {
                        self.phase = QueuePhase::Failed;
                        QueueCommand::Fail(OrchestratorError::ResourceError(e))
                    },
                    Ok(du) => {
                        self.phase = QueuePhase::ResolvingArn { queue_url: qu };
                        QueueCommand::GetQueueArn { url: du }
                    },
                }
            },
            QueueEvent::ArnAnswer(res) => {
                let qu = match &self.phase {
                    QueuePhase::ResolvingArn { queue_url } => queue_url.clone(),
                    _ => {
                        proof {
                            assert(false);
                        }
                        String::new()
                    },
                };
                match res {
                    Err(e) => {
                        self.phase = QueuePhase::Failed;
                        QueueCommand::Fail(OrchestratorError::ResourceError(e))
                    },
                    Ok(arn) => {
                        let attributes = vis_dlq_attributes(&catalog[self.index], arn.as_str());
                        self.phase = QueuePhase::SettingAttributes;
                        QueueCommand::SetAttributes { url: qu, attributes }
                    },
                }
            },
            QueueEvent::AttributesSet(res) => match res {
                Ok(_) => self.advance(args, catalog),
                Err(e) => {
                    self.phase = QueuePhase::Failed;
                    QueueCommand::Fail(OrchestratorError::ResourceSetupError(e))
                },
            },
        }
    }

    /// Moves to the next catalog entry, probing it, or finishes the catalog.
    fn advance(&mut self, args: &QueueArgs, catalog: &Vec<QueueSpec>) -> (cmd: QueueCommand)
        requires
            (old(self).index as int) < catalog@.len(),
        ensures
            advanced(*old(self), *final(self), cmd, *args, catalog@),
            final(self).wf(catalog@),
    {
        if self.index < catalog.len() - 1 {
            self.index = self.index + 1;
            self.phase = QueuePhase::Probing;
            probe_command(args, catalog, self.index)
        } else {
            self.phase = QueuePhase::Finished;
            QueueCommand::Done
        }
    }
}

/// What moving past a finished catalog entry looks like: either the next
/// entry is probed, or the session finishes after the last one.
pub open spec fn advanced(
    before: QueueSetupSession,
    after: QueueSetupSession,
    cmd: QueueCommand,
    args: QueueArgs,
    catalog: Seq<QueueSpec>,
) -> bool {
    if before.index as int + 1 < catalog.len() {
        &&& after.index as int == before.index as int + 1
        &&& after.phase is Probing
        &&& (cmd matches QueueCommand::Probe { url } && url@ == spec_candidate_url(
            args,
            catalog[after.index as int],
        ))
    } else {
        &&& after.phase is Finished
        &&& cmd is Done
    }
}

/// A `SetAttributes` command carrying only the visibility timeout.
pub open spec fn attrs_cmd_no_dlq(cmd: QueueCommand, url: Seq<char>, q: QueueSpec) -> bool {
    cmd matches QueueCommand::SetAttributes { url: u, attributes } && u@ == url && attributes@.len()
        == 1 && attributes@[0].0 is VisibilityTimeout && attributes@[0].1@ == dec_seq(
        q.visibility_timeout as nat,
    )
}

/// A `SetAttributes` command carrying the visibility timeout and the redrive
/// policy around the resolved ARN, in one combined set.
pub open spec fn attrs_cmd_dlq(
    cmd: QueueCommand,
    url: Seq<char>,
    q: QueueSpec,
    arn: Seq<char>,
) -> bool {
    cmd matches QueueCommand::SetAttributes { url: u, attributes } && u@ == url && attributes@.len()
        == 2 && attributes@[0].0 is VisibilityTimeout && attributes@[0].1@ == dec_seq(
        q.visibility_timeout as nat,
    ) && attributes@[1].0 is RedrivePolicy && (q.dlq_config matches Some(d) && attributes@[1].1@
        == redrive_policy_seq(arn, d.max_receive_count as nat))
}

/// Builds the probe command for one catalog entry.
fn probe_command(args: &QueueArgs, catalog: &Vec<QueueSpec>, i: usize) -> (cmd: QueueCommand)
    requires
        (i as int) < catalog@.len(),
    ensures
        cmd matches QueueCommand::Probe { url } && url@ == spec_candidate_url(
            *args,
            catalog@[i as int],
        ),
{
    let name = canonical_queue_name(
        args.prefix.as_str(),
        catalog[i].name.as_str(),
        args.suffix.as_str(),
    );
    let url = candidate_queue_url(args.queue_base_url.as_str(), name.as_str());
    QueueCommand::Probe { url }
}

/// The attribute set of an entry without a dead-letter policy.
fn vis_attributes(q: &QueueSpec) -> (r: Vec<(QueueAttribute, String)>)
    ensures
        r@.len() == 1,
        r@[0].0 is VisibilityTimeout,
        r@[0].1@ == dec_seq(q.visibility_timeout as nat),
{
    let mut v: Vec<(QueueAttribute, String)> = Vec::new();
    v.push((QueueAttribute::VisibilityTimeout, u64_to_string(q.visibility_timeout)));
    v
}

/// The plane after a fresh queue of that name is created.
pub open spec fn push_fresh(s: QueueStoreV, name: Seq<char>) -> QueueStoreV {
    QueueStoreV { url_base: s.url_base, records: s.records.push(fresh_record(s.url_base, name)) }
}

/// A queue record after the attribute update of one catalog entry: the
/// visibility timeout from the entry, and the redrive policy around the
/// given ARN when the entry declares a dead-letter policy.
pub open spec fn with_attributes(rec: QueueRecordV, q: QueueSpec, arn: Seq<char>) -> QueueRecordV {
    match q.dlq_config {
        None => QueueRecordV {
            visibility_timeout: Some(dec_seq(q.visibility_timeout as nat)),
            ..rec
        },
        Some(d) => QueueRecordV {
            visibility_timeout: Some(dec_seq(q.visibility_timeout as nat)),
            redrive_policy: Some(redrive_policy_seq(arn, d.max_receive_count as nat)),
            ..rec
        },
    }
}

/// What processing one catalog entry does to the plane, and how many queues
/// it creates: an entry whose candidate URL exists is skipped; otherwise the
/// queue is created unless its name is already taken, and its attribute set
/// is applied in one update, with the redrive policy embedding the ARN the
/// plane resolves for the queue's own name.
pub open spec fn process_spec_model(s: QueueStoreV, args: QueueArgs, q: QueueSpec) -> (
    QueueStoreV,
    int,
) {
    let name = spec_queue_name(args, q);
    let cand = spec_candidate_url(args, q);
    if has_url(s, cand) {
        (s, 0)
    } else {
        let s1 = if has_name(s, name) {
            s
        } else {
            push_fresh(s, name)
        };
        let created: int = if has_name(s, name) {
            0
        } else {
            1
        };
        let url = s1.records[find_name(s1.records, name)].url;
        let j = find_url(s1.records, url);
        (
            QueueStoreV {
                url_base: s1.url_base,
                records: s1.records.update(j, with_attributes(s1.records[j], q, s1.records[j].arn)),
            },
            created,
        )
    }
}

/// What a whole setup run does to the plane: the catalog entries processed
/// in order, and the creations counted up.
pub open spec fn setup_model(s: QueueStoreV, args: QueueArgs, catalog: Seq<QueueSpec>) -> (
    QueueStoreV,
    int,
)
    decreases catalog.len(),
{
    if catalog.len() == 0 {
        (s, 0)
    } else {
        let first = process_spec_model(s, args, catalog[0]);
        let rest = setup_model(first.0, args, catalog.skip(1));
        (rest.0, first.1 + rest.1)
    }
}

/// A setup run over one more entry is the run over the rest, then that
/// entry.
pub proof fn lemma_setup_model_snoc(
    s: QueueStoreV,
    args: QueueArgs,
    catalog: Seq<QueueSpec>,
    q: QueueSpec,
)
    ensures
        setup_model(s, args, catalog.push(q)) == ({
            let first = setup_model(s, args, catalog);
            let last = process_spec_model(first.0, args, q);
            (last.0, first.1 + last.1)
        }),
    decreases catalog.len(),
{
    reveal_with_fuel(setup_model, 3);
    if catalog.len() == 0 {
        assert(catalog.push(q)[0] == q);
        assert(catalog.push(q).skip(1) =~= Seq::<QueueSpec>::empty());
    } else {
        assert(catalog.push(q)[0] == catalog[0]);
        assert(catalog.push(q).skip(1) =~= catalog.skip(1).push(q));
        lemma_setup_model_snoc(
            process_spec_model(s, args, catalog[0]).0,
            args,
            catalog.skip(1),
            q,
        );
    }
}

/// Runs queue setup against the in-memory control plane: walks the catalog
/// through the session machine, answering each command from the plane, and
/// returns how many queues were created.  Against the model plane nothing
/// fails, so the run always succeeds and does to the plane exactly what the
/// setup model says.
pub fn setup_queues(store: &mut QueueStore, args: &QueueArgs, catalog: &Vec<QueueSpec>) -> (r:
    Result<usize, OrchestratorError>)
    requires
        store_wf(old(store)@),
    ensures
        store_wf(final(store)@),
        r is Ok,
        r matches Ok(created) ==> final(store)@ == setup_model(old(store)@, *args, catalog@).0
            && created as int == setup_model(old(store)@, *args, catalog@).1,
{
    let (mut session, mut cmd) = QueueSetupSession::start(args, catalog);
    let mut count: usize = 0;
    let mut i: usize = 0;
    proof {
        assert(catalog@.take(0) =~= Seq::<QueueSpec>::empty());
    }
    while i < catalog.len()
        invariant
            0 <= i <= catalog@.len(),
            store_wf(store@),
            session.wf(catalog@),
            count <= i,
            (i as int) < catalog@.len() ==> session.phase is Probing && session.index == i && (cmd
            matches QueueCommand::Probe { url } && url@ == spec_candidate_url(
                *args,
                catalog@[i as int],
            )),
            i as int == catalog@.len() ==> session.phase is Finished && cmd is Done,
            store@ == setup_model(old(store)@, *args, catalog@.take(i as int)).0,
            count as int == setup_model(old(store)@, *args, catalog@.take(i as int)).1,
        decreases catalog@.len() - i,
    {
        let ghost s_i = store@;
        let ghost q = catalog@[i as int];
        let ghost name_v = spec_queue_name(*args, q);
        let exists = match &cmd {
            QueueCommand::Probe { url } => store.probe_url(url.as_str()),
            _ => {
                proof {
                    assert(false);
                }
                false
            },
        };
        cmd = session.step(args, catalog, QueueEvent::ExistsAnswer(exists));
        if !exists {
            let created_url = match &cmd {
                QueueCommand::CreateQueue { name } => {
                    let existed = match store.find_index_of_name(name.as_str()) {
                        Some(_) => true,
                        None => false,
                    };
                    if !existed {
                        count += 1;
                    }
                    store.create_queue(name.as_str())
                },
                _ => {
                    proof {
                        assert(false);
                    }
                    String::new()
                },
            };
            proof {
                lemma_create_ensures(s_i, store@, name_v, created_url@);
            }
            let ghost s1 = store@;
            let ghost name_idx = find_name(s1.records, name_v);
            cmd = session.step(args, catalog, QueueEvent::Created(Ok(Some(created_url))));
            if catalog[i].dlq_config.is_some() {
                let du = match &cmd {
                    QueueCommand::GetQueueUrl { name } => match store.get_queue_url(
                        name.as_str(),
                    ) {
                        Some(u) => u,
                        None => {
                            proof {
                                assert(false);
                            }
                            String::new()
                        },
                    },
                    _ => {
                        proof {
                            assert(false);
                        }
                        String::new()
                    },
                };
                cmd = session.step(args, catalog, QueueEvent::UrlAnswer(Ok(du)));
                let arn = match &cmd {
                    QueueCommand::GetQueueArn { url } => {
                        proof {
                            lemma_find_url_of_index(s1, name_idx);
                        }
                        match store.get_queue_arn(url.as_str()) {
                            Some(a) => a,
                            None => {
                                proof {
                                    assert(false);
                                }
                                String::new()
                            },
                        }
                    },
                    _ => {
                        proof {
                            assert(false);
                        }
                        String::new()
                    },
                };
                cmd = session.step(args, catalog, QueueEvent::ArnAnswer(Ok(arn)));
            }
            let ok = match &cmd {
                QueueCommand::SetAttributes { url, attributes } => {
                    proof {
                        lemma_find_url_of_index(s1, name_idx);
                    }
                    let r = store.set_attributes(url.as_str(), attributes);
                    proof {
                        reveal_with_fuel(apply_attributes, 4);
                        let j = find_url(s1.records, s1.records[name_idx].url);
                        let rec = s1.records[j];
                        let ats = attributes@;
                        if ats.len() == 2 {
                            assert(ats.drop_last() =~= ats.take(1));
                            assert(ats.take(1).drop_last() =~= Seq::<(
                                QueueAttribute,
                                String,
                            )>::empty());
                            assert(ats.take(1).last() == ats[0]);
                            assert(ats.last() == ats[1]);
                            assert(apply_attributes(rec, ats.take(1)) == QueueRecordV {
                                visibility_timeout: Some(dec_seq(q.visibility_timeout as nat)),
                                ..rec
                            });
                        } else {
                            assert(ats.drop_last() =~= Seq::<(QueueAttribute, String)>::empty());
                            assert(ats.last() == ats[0]);
                        }
                        assert(apply_attributes(rec, ats) == with_attributes(
                            rec,
                            q,
                            rec.arn,
                        ));
                    }
                    r
                },
                _ => {
                    proof {
                        assert(false);
                    }
                    false
                },
            };
            proof {
                assert(ok);
                lemma_wf_after_update(s1, store@, name_idx, q);
            }
            cmd = session.step(args, catalog, QueueEvent::AttributesSet(Ok(())));
        }
        proof {
            assert(store@ == process_spec_model(s_i, *args, q).0);
            assert(catalog@.take(i + 1) =~= catalog@.take(i as int).push(q));
            lemma_setup_model_snoc(old(store)@, *args, catalog@.take(i as int), q);
        }
        i += 1;
    }
    proof {
        assert(catalog@.take(catalog@.len() as int) =~= catalog@);
    }
    Ok(count)
}

/// Whether every catalog queue's candidate URL exists on the plane.
pub open spec fn all_queues_present(
    s: QueueStoreV,
    args: QueueArgs,
    catalog: Seq<QueueSpec>,
) -> bool {
    forall|k: int|
        0 <= k < catalog.len() ==> has_url(s, spec_candidate_url(args, #[trigger] catalog[k]))
}

/// The readiness check of the queue layer: drives the check session over
/// the catalog, probing each candidate URL against the plane; true only when
/// all of them exist — a conjunction, not a count threshold.
pub fn check_queues(store: &QueueStore, args: &QueueArgs, catalog: &Vec<QueueSpec>) -> (r: bool)
    ensures
        r == all_queues_present(store@, *args, catalog@),
{
    let (mut session, first) = QueueCheckSession::start(args, catalog);
    let mut step = first;
    loop
        invariant
            (step matches QueueCheckStep::Probe { url } ==> (session.index as int)
                < catalog@.len() && url@ == spec_candidate_url(
                *args,
                catalog@[session.index as int],
            ) && (forall|k: int|
                0 <= k < session.index ==> has_url(
                    store@,
                    spec_candidate_url(*args, #[trigger] catalog@[k]),
                ))),
            (step matches QueueCheckStep::Decided(b) ==> b == all_queues_present(
                store@,
                *args,
                catalog@,
            )),
        decreases catalog@.len() - session.index + (if step is Decided {
            0int
        } else {
            1int
        }),
    {
        match step {
            QueueCheckStep::Probe { url } => {
                let exists = store.probe_url(url.as_str());
                let ghost i = session.index as int;
                step = session.step(args, catalog, exists);
                proof {
                    if !exists {
                        assert(!has_url(store@, spec_candidate_url(*args, catalog@[i])));
                        assert(!all_queues_present(store@, *args, catalog@));
                    } else if i + 1 >= catalog@.len() {
                        assert forall|k: int| 0 <= k < catalog@.len() implies has_url(
                            store@,
                            spec_candidate_url(*args, #[trigger] catalog@[k]),
                        ) by {}
                    }
                }
            },
            QueueCheckStep::Decided(b) => {
                return b;
            },
        }
    }
}

/// The queue readiness check as a session: one probe per catalog entry, in
/// order, stopping false at the first missing queue and true after the last
/// present one.  Its probes are the same candidate URLs the check predicate
/// speaks of.
pub struct QueueCheckSession {
    pub index: usize,
}

/// What the check session asks or concludes.
pub enum QueueCheckStep {
    /// Probe this candidate URL next.
    Probe { url: String },
    /// The check is decided.
    Decided(bool),
}

impl QueueCheckSession {
    /// Starts the check: an empty catalog is trivially all present.
    pub fn start(args: &QueueArgs, catalog: &Vec<QueueSpec>) -> (r: (QueueCheckSession,
        QueueCheckStep))
        ensures
            catalog@.len() == 0 ==> (r.1 matches QueueCheckStep::Decided(b) && b),
            catalog@.len() > 0 ==> r.0.index == 0 && (r.1 matches QueueCheckStep::Probe { url }
                && url@ == spec_candidate_url(*args, catalog@[0])),
    {
        if catalog.len() == 0 {
            (QueueCheckSession { index: 0 }, QueueCheckStep::Decided(true))
        } else {
            let cmd = probe_command(args, catalog, 0);
            let url = match cmd {
                QueueCommand::Probe { url } => url,
                _ => {
                    proof {
                        assert(false);
                    }
                    String::new()
                },
            };
            (QueueCheckSession { index: 0 }, QueueCheckStep::Probe { url })
        }
    }

    /// Feeds one probe's answer in: a missing queue decides false at once; a
    /// present one moves to the next entry, or decides true after the last.
    pub fn step(&mut self, args: &QueueArgs, catalog: &Vec<QueueSpec>, exists: bool) -> (r:
        QueueCheckStep)
        requires
            (old(self).index as int) < catalog@.len(),
        ensures
            r is Decided ==> final(self).index == old(self).index,
            !exists ==> (r matches QueueCheckStep::Decided(b) && !b),
            exists && old(self).index as int + 1 < catalog@.len() ==> final(self).index == old(
                self,
            ).index + 1 && (r matches QueueCheckStep::Probe { url } && url@ == spec_candidate_url(
                *args,
                catalog@[old(self).index as int + 1],
            )),
            exists && old(self).index as int + 1 >= catalog@.len() ==> (r matches
                QueueCheckStep::Decided(b) && b),
    {
        if !exists {
            QueueCheckStep::Decided(false)
        } else if self.index < catalog.len() - 1 {
            self.index = self.index + 1;
            let cmd = probe_command(args, catalog, self.index);
            let url = match cmd {
                QueueCommand::Probe { url } => url,
                _ => {
                    proof {
                        assert(false);
                    }
                    String::new()
                },
            };
            QueueCheckStep::Probe { url }
        } else {
            QueueCheckStep::Decided(true)
        }
    }
}

impl crate::registry::QueueResource {
    /// Deletes only the single queue this instance is bound to — an asymmetry
    /// against setup, which provisions the whole catalog.  An instance bound
    /// to no queue, or to a queue the plane does not hold, fails.
    pub fn teardown(&self, store: &mut QueueStore) -> (r: Result<(), OrchestratorError>)
        ensures
            self.queue_url is None ==> final(store)@ == old(store)@ && (r matches Err(
                OrchestratorError::ResourceError(m),
            ) && m@ == "Failed to access queue URL"@),
            self.queue_url matches Some(u) ==> (has_url(old(store)@, u@) ==> r is Ok && final(store)@.records == old(store)@.records.remove(find_url(old(store)@.records, u@))),
            self.queue_url matches Some(u) ==> (!has_url(old(store)@, u@) ==> final(store)@ == old(store)@ && (r matches Err(OrchestratorError::ResourceError(m)) && m@
                == "Failed to delete SQS queue: no queue at this URL"@)),
    {
        match &self.queue_url {
            Some(u) => {
                if store.delete_queue(u.as_str()) {
                    Ok(())
                } else {
                    Err(
                        OrchestratorError::ResourceError(
                            String::from_str("Failed to delete SQS queue: no queue at this URL"),
                        ),
                    )
                }
            },
            None => Err(
                OrchestratorError::ResourceError(String::from_str("Failed to access queue URL")),
            ),
        }
    }
}

/// Processing one entry keeps the plane well-formed, keeps every URL it
/// already had, and leaves the entry's candidate URL present — provided the
/// arguments point at this plane, so that the minted URL is the candidate.
proof fn lemma_process_candidate(s: QueueStoreV, args: QueueArgs, q: QueueSpec)
    requires
        store_wf(s),
        args.queue_base_url@ == s.url_base,
    ensures
        store_wf(process_spec_model(s, args, q).0),
        process_spec_model(s, args, q).0.url_base == s.url_base,
        has_url(process_spec_model(s, args, q).0, spec_candidate_url(args, q)),
        forall|u: Seq<char>| has_url(s, u) ==> has_url(#[trigger] process_spec_model(s, args, q).0, u),
{
    let name = spec_queue_name(args, q);
    let cand = spec_candidate_url(args, q);
    if has_url(s, cand) {
    } else {
        lemma_find_name(s.records, name);
        if has_name(s, name) {
            let k = find_name(s.records, name);
            assert(s.records[k].url == mint_url(s.url_base, s.records[k].name));
            lemma_find_url(s.records, cand);
            assert(false);
        }
        let s1 = push_fresh(s, name);
        lemma_create_ensures(s, s1, name, mint_url(s.url_base, name));
        let name_idx = find_name(s1.records, name);
        lemma_find_url_of_index(s1, name_idx);
        let s2 = process_spec_model(s, args, q).0;
        lemma_wf_after_update(s1, s2, name_idx, q);
        assert(s2.records[name_idx].url == cand);
        lemma_find_url(s2.records, cand);
        assert(has_url(s2, cand));
        assert forall|u: Seq<char>| has_url(s, u) implies has_url(
            #[trigger] process_spec_model(s, args, q).0,
            u,
        ) by {
            lemma_find_url(s.records, u);
            let k = find_url(s.records, u);
            assert(s2.records[k].url == u);
            lemma_find_url(s2.records, u);
        }
    }
}

/// After a setup run whose arguments point at this plane, every catalog
/// entry's candidate URL is present; the plane stays well-formed and keeps
/// every URL it had.
proof fn lemma_setup_all_candidates(s: QueueStoreV, args: QueueArgs, catalog: Seq<QueueSpec>)
    requires
        store_wf(s),
        args.queue_base_url@ == s.url_base,
    ensures
        store_wf(setup_model(s, args, catalog).0),
        setup_model(s, args, catalog).0.url_base == s.url_base,
        forall|k: int|
            0 <= k < catalog.len() ==> has_url(
                setup_model(s, args, catalog).0,
                spec_candidate_url(args, #[trigger] catalog[k]),
            ),
        forall|u: Seq<char>| has_url(s, u) ==> has_url(#[trigger] setup_model(s, args, catalog).0, u),
    decreases catalog.len(),
{
    if catalog.len() > 0 {
        lemma_process_candidate(s, args, catalog[0]);
        let s1 = process_spec_model(s, args, catalog[0]).0;
        lemma_setup_all_candidates(s1, args, catalog.skip(1));
        assert forall|k: int| 0 <= k < catalog.len() implies has_url(
            setup_model(s, args, catalog).0,
            spec_candidate_url(args, #[trigger] catalog[k]),
        ) by {
            if k > 0 {
                assert(catalog.skip(1)[k - 1] == catalog[k]);
            }
        }
    }
}

/// After a setup run whose arguments point at the plane it ran against, the
/// readiness check passes: every catalog queue's candidate URL exists.
pub proof fn lemma_setup_then_check(s: QueueStoreV, args: QueueArgs, catalog: Seq<QueueSpec>)
    requires
        store_wf(s),
        args.queue_base_url@ == s.url_base,
    ensures
        all_queues_present(setup_model(s, args, catalog).0, args, catalog),
{
    lemma_setup_all_candidates(s, args, catalog);
}

/// A run over a plane that already holds every candidate URL changes
/// nothing and creates nothing.
proof fn lemma_setup_identity(s: QueueStoreV, args: QueueArgs, catalog: Seq<QueueSpec>)
    requires
        forall|k: int|
            0 <= k < catalog.len() ==> has_url(s, spec_candidate_url(args, #[trigger] catalog[k])),
    ensures
        setup_model(s, args, catalog) == (s, 0int),
    decreases catalog.len(),
{
    if catalog.len() > 0 {
        assert(has_url(s, spec_candidate_url(args, catalog[0])));
        assert forall|k: int| 0 <= k < catalog.skip(1).len() implies has_url(
            s,
            spec_candidate_url(args, #[trigger] catalog.skip(1)[k]),
        ) by {
            assert(catalog.skip(1)[k] == catalog[k + 1]);
        }
        lemma_setup_identity(s, args, catalog.skip(1));
    }
}

/// Idempotence of queue setup: running it twice with identical arguments
/// against the same backing plane performs zero creations on the second run
/// and leaves the queue set and attributes unchanged.  The arguments must
/// point at the plane they run against: the base URL they carry is the one
/// the plane mints queue URLs under.
pub proof fn lemma_setup_idempotent(s: QueueStoreV, args: QueueArgs, catalog: Seq<QueueSpec>)
    requires
        store_wf(s),
        args.queue_base_url@ == s.url_base,
    ensures
        setup_model(setup_model(s, args, catalog).0, args, catalog).0 == setup_model(
            s,
            args,
            catalog,
        ).0,
        setup_model(setup_model(s, args, catalog).0, args, catalog).1 == 0,
{
    lemma_setup_all_candidates(s, args, catalog);
    lemma_setup_identity(setup_model(s, args, catalog).0, args, catalog);
}

/// After `create_queue` for a name, the plane holds that name, its record's
/// URL is the returned one, and well-formedness is kept.
proof fn lemma_create_ensures(s: QueueStoreV, s1: QueueStoreV, name: Seq<char>, url: Seq<char>)
    requires
        store_wf(s),
        has_name(s, name) ==> s1 == s && url == s.records[find_name(s.records, name)].url,
        !has_name(s, name) ==> s1 == push_fresh(s, name) && url == mint_url(s.url_base, name),
    ensures
        store_wf(s1),
        has_name(s1, name),
        0 <= find_name(s1.records, name) < s1.records.len(),
        s1.records[find_name(s1.records, name)].url == url,
        s1 == (if has_name(s, name) {
            s
        } else {
            push_fresh(s, name)
        }),
{
    lemma_find_name(s.records, name);
    if has_name(s, name) {
        lemma_find_name(s1.records, name);
    } else {
        let recs = s1.records;
        lemma_find_name_hit(recs, name, s.records.len() as int);
        assert forall|i: int, j: int| 0 <= i < j < recs.len() implies (#[trigger] recs[i]).name
            != (#[trigger] recs[j]).name by {
            if j < s.records.len() {
                assert(recs[i] == s.records[i] && recs[j] == s.records[j]);
            } else {
                assert(recs[j].name == name);
                assert(recs[i] == s.records[i]);
            }
        }
        assert forall|i: int| 0 <= i < recs.len() implies (#[trigger] recs[i]).url == mint_url(
            s1.url_base,
            recs[i].name,
        ) by {
            if i < s.records.len() {
                assert(recs[i] == s.records[i]);
            }
        }
    }
}

/// Updating a record's attributes keeps the plane well-formed.
proof fn lemma_wf_after_update(s1: QueueStoreV, s2: QueueStoreV, k: int, q: QueueSpec)
    requires
        store_wf(s1),
        0 <= k < s1.records.len(),
        s2.url_base == s1.url_base,
        s2.records.len() == s1.records.len(),
        forall|i: int| 0 <= i < s1.records.len() && i != k ==> s2.records[i] == s1.records[i],
        s2.records[k].name == s1.records[k].name,
        s2.records[k].url == s1.records[k].url,
    ensures
        store_wf(s2),
{
}

/// The attribute set of an entry with a dead-letter policy: the visibility
/// timeout and the redrive policy around the resolved ARN.
fn vis_dlq_attributes(q: &QueueSpec, arn: &str) -> (r: Vec<(QueueAttribute, String)>)
    requires
        q.dlq_config is Some,
    ensures
        r@.len() == 2,
        r@[0].0 is VisibilityTimeout,
        r@[0].1@ == dec_seq(q.visibility_timeout as nat),
        r@[1].0 is RedrivePolicy,
        (q.dlq_config matches Some(d) && r@[1].1@ == redrive_policy_seq(
            arn@,
            d.max_receive_count as nat,
        )),
{
    let mut v: Vec<(QueueAttribute, String)> = Vec::new();
    v.push((QueueAttribute::VisibilityTimeout, u64_to_string(q.visibility_timeout)));
    let mrc = match &q.dlq_config {
        Some(d) => d.max_receive_count,
        None => {
            proof {
                assert(false);
            }
            0
        },
    };
    v.push((QueueAttribute::RedrivePolicy, redrive_policy(arn, mrc)));
    v
}

} // verus!
