//! The reconciler: for one key, an exists-or-create decision driven step by
//! step. A reconciliation starts by probing whether the cluster object named
//! by the key exists; if it does not, it asks for two creations in sequence —
//! first the selector object, then the cluster object. A creation conflict
//! (the object already exists) settles the run as a non-fatal no-op: the
//! existence probe and the creations are not atomic, so two near-simultaneous
//! runs for one key can both observe "does not exist", and the second run's
//! conflict is the expected, sole defense. Every other failure settles the run
//! as a failure for this key only; it never carries past the run.
//!
//! The caller performs each requested probe or creation (they are remote
//! calls) and reports what happened; every decision in between is made here.

use vstd::prelude::*;

use crate::builder::{
    build_cluster, build_selector, cluster_object_view, selector_object_view, DependentObjectSpec,
    DependentObjectView,
};
use crate::object::{extract_key, spec_extract_key, WatchedObject};

verus! {

/// The existence probe failed (transport, auth, or an answer that could not
/// be interpreted): the key's existence is unknown, not "false".
pub struct QueryError {
    pub detail: String,
}

/// A creation call failed for a reason other than a name conflict.
pub struct CreateError {
    pub detail: String,
}

/// What a creation call came back with.
pub enum CreateResult {
    /// The object was created.
    Created,
    /// An object with that name already exists.
    Conflict,
    /// Any other failure.
    Failed(CreateError),
}

/// Why a reconciliation failed.
pub enum ReconcileError {
    /// The routing label's value was empty, so no payload could be built.
    InvalidKey,
    /// The existence probe failed; nothing was created.
    Query(QueryError),
    /// A creation call failed for a reason other than a conflict.
    Create(CreateError),
}

/// How a reconciliation settled.
pub enum ReconcileOutcome {
    /// The probe found the cluster object: nothing to do.
    AlreadySatisfied,
    /// Both dependent objects were created.
    Provisioned,
    /// A creation hit a name conflict: the object already exists, so the run
    /// stops as a success-equivalent no-op.
    ConflictSkipped,
    /// The run failed for this key; later events for the key retry it.
    Failed(ReconcileError),
}

impl ReconcileOutcome {
    /// Only `Failed` counts as a failure; a conflict does not.
    pub fn is_failure(&self) -> (b: bool)
        ensures
            b == (self matches ReconcileOutcome::Failed(_)),
    {
        match self {
            ReconcileOutcome::Failed(_) => true,
            _ => false,
        }
    }
}

/// Where a reconciliation stands.
pub enum ReconcilePhase {
    /// Waiting for the existence probe's answer.
    Probing,
    /// Waiting for the selector object's creation result.
    CreatingSelector,
    /// Waiting for the cluster object's creation result.
    CreatingCluster,
    /// Finished, with its outcome.
    Settled(ReconcileOutcome),
}

/// The existence probe: list objects of a target kind in a namespace whose
/// name equals the key, and report whether at least one came back.
pub struct ExistenceQuery {
    pub group: String,
    pub version: String,
    pub kind: String,
    pub namespace: String,
    pub name_equals: String,
}

/// The model of an existence probe.
pub struct ExistenceQueryView {
    pub group: Seq<char>,
    pub version: Seq<char>,
    pub kind: Seq<char>,
    pub namespace: Seq<char>,
    pub name_equals: Seq<char>,
}

impl View for ExistenceQuery {
    type V = ExistenceQueryView;

    open spec fn view(&self) -> ExistenceQueryView {
        ExistenceQueryView {
            group: self.group@,
            version: self.version@,
            kind: self.kind@,
            namespace: self.namespace@,
            name_equals: self.name_equals@,
        }
    }
}

/// The probe a reconciliation for `key` asks: clusters named `key` in the
/// fixed namespace.
pub open spec fn spec_existence_query(key: Seq<char>) -> ExistenceQueryView {
    ExistenceQueryView {
        group: "provisioning.cattle.io"@,
        version: "v1"@,
        kind: "Cluster"@,
        namespace: "fleet_default"@,
        name_equals: key,
    }
}

impl ExistenceQuery {
    /// The name-equality field selector of this probe.
    pub fn field_selector(&self) -> (s: String)
        ensures
            s@ == "metadata.name="@ + self.name_equals@,
    {
        let prefix: String = "metadata.name=".to_owned();
        prefix.concat(self.name_equals.as_str())
    }
}

/// One reconciliation run for one key. The two ghost journals record which
/// creations the run has asked for and which the caller reported created.
pub struct Reconciliation {
    pub key: String,
    pub phase: ReconcilePhase,
    pub attempted: Ghost<Seq<DependentObjectView>>,
    pub created: Ghost<Seq<DependentObjectView>>,
}

impl Reconciliation {
    /// What each phase guarantees of the run's journals: nothing is attempted
    /// before the probe reports absence; the selector object is asked first
    /// and the cluster object second; what was created is the prefix of what
    /// was attempted that the caller confirmed.
    pub open spec fn wf(self) -> bool {
        let sel = selector_object_view(self.key@);
        let clu = cluster_object_view(self.key@);
        match self.phase {
            ReconcilePhase::Probing => self.attempted@ == Seq::<DependentObjectView>::empty()
                && self.created@ == Seq::<DependentObjectView>::empty(),
            ReconcilePhase::CreatingSelector => self.key@.len() > 0 && self.attempted@ == seq![sel]
                && self.created@ == Seq::<DependentObjectView>::empty(),
            ReconcilePhase::CreatingCluster => self.key@.len() > 0 && self.attempted@ == seq![
                sel,
                clu,
            ] && self.created@ == seq![sel],
            ReconcilePhase::Settled(outcome) => match outcome {
                ReconcileOutcome::AlreadySatisfied => self.attempted@ == Seq::<
                    DependentObjectView,
                >::empty() && self.created@ == Seq::<DependentObjectView>::empty(),
                ReconcileOutcome::Provisioned => self.key@.len() > 0 && self.attempted@ == seq![
                    sel,
                    clu,
                ] && self.created@ == seq![sel, clu],
                ReconcileOutcome::ConflictSkipped => self.key@.len() > 0 && ((self.attempted@
                    == seq![sel] && self.created@ == Seq::<DependentObjectView>::empty()) || (
                self.attempted@ == seq![sel, clu] && self.created@ == seq![sel])),
                ReconcileOutcome::Failed(err) => match err {
                    ReconcileError::InvalidKey => self.key@.len() == 0 && self.attempted@ == Seq::<
                        DependentObjectView,
                    >::empty() && self.created@ == Seq::<DependentObjectView>::empty(),
                    ReconcileError::Query(_) => self.attempted@ == Seq::<
                        DependentObjectView,
                    >::empty() && self.created@ == Seq::<DependentObjectView>::empty(),
                    ReconcileError::Create(_) => self.key@.len() > 0 && ((self.attempted@ == seq![
                        sel,
                    ] && self.created@ == Seq::<DependentObjectView>::empty()) || (self.attempted@
                        == seq![sel, clu] && self.created@ == seq![sel])),
                },
            },
        }
    }

    /// A fresh run for `key`, about to probe; nothing attempted yet.
    pub fn start(key: String) -> (r: Reconciliation)
        ensures
            r.wf(),
            r.key@ == key@,
            r.phase == ReconcilePhase::Probing,
            r.attempted@ == Seq::<DependentObjectView>::empty(),
            r.created@ == Seq::<DependentObjectView>::empty(),
    {
        Reconciliation {
            key,
            phase: ReconcilePhase::Probing,
            attempted: Ghost(Seq::empty()),
            created: Ghost(Seq::empty()),
        }
    }

    /// The probe this run asks before anything else.
    pub fn existence_query(&self) -> (q: ExistenceQuery)
        requires
            self.phase == ReconcilePhase::Probing,
        ensures
            q@ == spec_existence_query(self.key@),
    {
        ExistenceQuery {
            group: "provisioning.cattle.io".to_owned(),
            version: "v1".to_owned(),
            kind: "Cluster".to_owned(),
            namespace: "fleet_default".to_owned(),
            name_equals: self.key.clone(),
        }
    }

    /// Takes the probe's answer — how many matching objects the filtered list
    /// returned, or that the probe failed — and decides: one or more matches
    /// settles the run with nothing created; a failed probe settles it as a
    /// query failure with nothing created; no match asks for the selector
    /// object's creation (unless the key is empty, which settles the run as an
    /// invalid key).
    pub fn on_probe(&mut self, outcome: Result<usize, QueryError>) -> (action: Option<
        DependentObjectSpec,
    >)
        requires
            old(self).wf(),
            old(self).phase == ReconcilePhase::Probing,
        ensures
            final(self).wf(),
            final(self).key == old(self).key,
            final(self).created@ == Seq::<DependentObjectView>::empty(),
            (outcome matches Ok(n) && n > 0) ==> final(self).phase == ReconcilePhase::Settled(
                ReconcileOutcome::AlreadySatisfied,
            ) && action is None,
            (outcome matches Ok(n) && n == 0 && old(self).key@.len() > 0) ==> final(self).phase
                == ReconcilePhase::CreatingSelector && (action matches Some(d) && d@
                == selector_object_view(old(self).key@)),
            (outcome matches Ok(n) && n == 0 && old(self).key@.len() == 0) ==> final(self).phase
                == ReconcilePhase::Settled(
                ReconcileOutcome::Failed(ReconcileError::InvalidKey),
            ) && action is None,
            outcome matches Err(e) ==> final(self).phase == ReconcilePhase::Settled(
                ReconcileOutcome::Failed(ReconcileError::Query(e)),
            ) && action is None,
    {
        match outcome {
            Ok(n) => {
                if n > 0 {
                    self.phase = ReconcilePhase::Settled(ReconcileOutcome::AlreadySatisfied);
                    None
                } else {
                    match build_selector(&self.key) {
                        Ok(d) => {
                            self.phase = ReconcilePhase::CreatingSelector;
                            self.attempted = Ghost(
                                self.attempted@.push(selector_object_view(self.key@)),
                            );
                            proof {
                                assert(self.attempted@ =~= seq![
                                    selector_object_view(self.key@),
                                ]);
                            }
                            Some(d)
                        },
                        Err(_) => {
                            self.phase = ReconcilePhase::Settled(
                                ReconcileOutcome::Failed(ReconcileError::InvalidKey),
                            );
                            None
                        },
                    }
                }
            },
            Err(e) => {
                self.phase = ReconcilePhase::Settled(
                    ReconcileOutcome::Failed(ReconcileError::Query(e)),
                );
                None
            },
        }
    }

    /// Takes one creation's result. After the selector object is created the
    /// run asks for the cluster object; after the cluster object it settles as
    /// provisioned. A conflict settles the run as a non-fatal no-op, any other
    /// failure as a creation failure; neither asks for more work.
    pub fn on_create(&mut self, result: CreateResult) -> (action: Option<DependentObjectSpec>)
        requires
            old(self).wf(),
            old(self).phase == ReconcilePhase::CreatingSelector || old(self).phase
                == ReconcilePhase::CreatingCluster,
        ensures
            final(self).wf(),
            final(self).key == old(self).key,
            (old(self).phase == ReconcilePhase::CreatingSelector && result
                == CreateResult::Created) ==> final(self).phase == ReconcilePhase::CreatingCluster
                && (action matches Some(d) && d@ == cluster_object_view(old(self).key@))
                && final(self).created@ == seq![selector_object_view(old(self).key@)],
            (old(self).phase == ReconcilePhase::CreatingCluster && result
                == CreateResult::Created) ==> final(self).phase == ReconcilePhase::Settled(
                ReconcileOutcome::Provisioned,
            ) && action is None,
            result == CreateResult::Conflict ==> final(self).phase == ReconcilePhase::Settled(
                ReconcileOutcome::ConflictSkipped,
            ) && action is None && final(self).created@ == old(self).created@,
            result matches CreateResult::Failed(e) ==> final(self).phase
                == ReconcilePhase::Settled(
                ReconcileOutcome::Failed(ReconcileError::Create(e)),
            ) && action is None && final(self).created@ == old(self).created@,
    {
        let at_selector = match &self.phase {
            ReconcilePhase::CreatingSelector => true,
            _ => false,
        };
        match result {
            CreateResult::Created => {
                if at_selector {
                    self.created = Ghost(self.created@.push(selector_object_view(self.key@)));
                    proof {
                        assert(self.created@ =~= seq![selector_object_view(self.key@)]);
                    }
                    match build_cluster(&self.key) {
                        Ok(d) => {
                            self.phase = ReconcilePhase::CreatingCluster;
                            self.attempted = Ghost(
                                self.attempted@.push(cluster_object_view(self.key@)),
                            );
                            proof {
                                assert(self.attempted@ =~= seq![
                                    selector_object_view(self.key@),
                                    cluster_object_view(self.key@),
                                ]);
                            }
                            Some(d)
                        },
                        Err(_) => {
                            // unreachable: the key is non-empty in this phase
                            proof {
                                assert(false);
                            }
                            None
                        },
                    }
                } else {
                    self.created = Ghost(self.created@.push(cluster_object_view(self.key@)));
                    self.phase = ReconcilePhase::Settled(ReconcileOutcome::Provisioned);
                    proof {
                        assert(self.created@ =~= seq![
                            selector_object_view(self.key@),
                            cluster_object_view(self.key@),
                        ]);
                    }
                    None
                }
            },
            CreateResult::Conflict => {
                self.phase = ReconcilePhase::Settled(ReconcileOutcome::ConflictSkipped);
                None
            },
            CreateResult::Failed(e) => {
                self.phase = ReconcilePhase::Settled(
                    ReconcileOutcome::Failed(ReconcileError::Create(e)),
                );
                None
            },
        }
    }

    /// Whether the run has settled.
    pub fn is_settled(&self) -> (b: bool)
        ensures
            b == (self.phase matches ReconcilePhase::Settled(_)),
    {
        match &self.phase {
            ReconcilePhase::Settled(_) => true,
            _ => false,
        }
    }

    /// The settled run's outcome, if it has one.
    pub fn into_outcome(self) -> (r: Option<ReconcileOutcome>)
        ensures
            self.phase matches ReconcilePhase::Settled(o) ==> r == Option::Some(o),
            !(self.phase matches ReconcilePhase::Settled(_)) ==> r is None,
    {
        match self.phase {
            ReconcilePhase::Settled(o) => Some(o),
            _ => None,
        }
    }
}

/// The dispatcher's decision for one event: a run for the routing label's
/// value if the object carries the label, nothing otherwise — an object
/// without it never reaches the reconciler.
pub fn dispatch(obj: &WatchedObject) -> (r: Option<Reconciliation>)
    ensures
        r is None <==> spec_extract_key(obj@) is None,
        r matches Some(m) ==> m.wf() && m.phase == ReconcilePhase::Probing && Option::Some(m.key@)
            == spec_extract_key(obj@) && m.attempted@ == Seq::<DependentObjectView>::empty(),
{
    match extract_key(obj) {
        Some(k) => Some(Reconciliation::start(k)),
        None => None,
    }
}

} // verus!
