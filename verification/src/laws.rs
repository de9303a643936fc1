//! The guarantees the reconciliation core gives across its functions, stated
//! over the models that the functions' own contracts use and proved once and
//! for all.

use vstd::prelude::*;

use crate::builder::{
    cluster_object_view, lemma_cluster_payload_carries_key, lemma_selector_payload_carries_key,
    machine_config_ref_view, machine_pool_view, selector_key_path, selector_object_view,
};
use crate::json::JsonView;
use crate::object::{
    lemma_label_value_none_iff_absent, spec_extract_key, spec_routing_label, WatchedObjectView,
};
use crate::reconcile::{ReconcileError, ReconcileOutcome, ReconcilePhase, Reconciliation};

verus! {

/// An object without the routing label yields no key, so the dispatcher never
/// starts a reconciliation for it.
pub proof fn law_unlabeled_object_never_dispatched(obj: WatchedObjectView)
    requires
        forall|i: int| 0 <= i < obj.labels.len() ==> obj.labels[i].key != spec_routing_label(),
    ensures
        spec_extract_key(obj) is None,
{
    lemma_label_value_none_iff_absent(obj.labels, spec_routing_label());
}

/// A run whose probe found the cluster object attempted no creation.
pub proof fn law_already_satisfied_creates_nothing(m: Reconciliation)
    requires
        m.wf(),
        m.phase == ReconcilePhase::Settled(ReconcileOutcome::AlreadySatisfied),
    ensures
        m.attempted@.len() == 0,
        m.created@.len() == 0,
{
}

/// A run whose probe failed attempted no creation: a query failure is a
/// reconciliation failure, never read as "does not exist".
pub proof fn law_query_failure_creates_nothing(m: Reconciliation)
    requires
        m.wf(),
        m.phase matches ReconcilePhase::Settled(
            ReconcileOutcome::Failed(ReconcileError::Query(_)),
        ),
    ensures
        m.attempted@.len() == 0,
        m.created@.len() == 0,
{
}

/// A provisioned run attempted exactly one selector creation and one cluster
/// creation, in that order, and both payloads carry the run's key: the
/// selector object is named by the key and matches labels on it, the cluster
/// object is named by the key, references the selector object by that name,
/// and asks for five machines.
pub proof fn law_provisioned_creates_exact_pair(m: Reconciliation)
    requires
        m.wf(),
        m.phase == ReconcilePhase::Settled(ReconcileOutcome::Provisioned),
    ensures
        m.attempted@ == seq![selector_object_view(m.key@), cluster_object_view(m.key@)],
        m.created@ == m.attempted@,
        selector_object_view(m.key@).name == m.key@,
        cluster_object_view(m.key@).name == m.key@,
        selector_object_view(m.key@).payload.field_path(selector_key_path()) == Option::Some(
            JsonView::Str(m.key@),
        ),
        machine_config_ref_view(m.key@).field("name"@) == Option::Some(JsonView::Str(m.key@)),
        machine_pool_view(m.key@).field("quantity"@) == Option::Some(JsonView::Int(5)),
{
    lemma_selector_payload_carries_key(m.key@);
    lemma_cluster_payload_carries_key(m.key@);
}

/// Every run follows the creation protocol: at most two creations are ever
/// attempted, the selector object always first and the cluster object always
/// second, and what was created is a prefix of what was attempted.
pub proof fn law_attempts_follow_protocol(m: Reconciliation)
    requires
        m.wf(),
    ensures
        m.attempted@.len() <= 2,
        m.attempted@.len() >= 1 ==> m.attempted@[0] == selector_object_view(m.key@),
        m.attempted@.len() == 2 ==> m.attempted@[1] == cluster_object_view(m.key@),
        m.created@.len() <= m.attempted@.len(),
        forall|i: int| 0 <= i < m.created@.len() ==> m.created@[i] == m.attempted@[i],
{
}

/// Delivering one key twice is idempotent: when the first run provisioned the
/// pair and the second settled on a creation conflict, the second run never
/// created a second cluster object — at most one pair of creations succeeds —
/// and the conflict settles the run as a no-op, not a failure.
pub proof fn law_duplicate_delivery_idempotent(first: Reconciliation, second: Reconciliation)
    requires
        first.wf(),
        second.wf(),
        first.key@ == second.key@,
        first.phase == ReconcilePhase::Settled(ReconcileOutcome::Provisioned),
        second.phase == ReconcilePhase::Settled(ReconcileOutcome::ConflictSkipped),
    ensures
        first.created@ == seq![selector_object_view(first.key@), cluster_object_view(first.key@)],
        !second.created@.contains(cluster_object_view(second.key@)),
        second.created@.len() < first.created@.len(),
        !(second.phase matches ReconcilePhase::Settled(ReconcileOutcome::Failed(_))),
{
    reveal_strlit("MachineInventorySelectorTemplate");
    reveal_strlit("Cluster");
    assert("MachineInventorySelectorTemplate"@.len() == 32);
    assert("Cluster"@.len() == 7);
    let k = second.key@;
    assert(selector_object_view(k).kind != cluster_object_view(k).kind);
    if second.created@.len() > 0 {
        assert(second.created@ == seq![selector_object_view(k)]);
        assert(forall|i: int|
            0 <= i < second.created@.len() ==> second.created@[i] != cluster_object_view(k));
    }
}

} // verus!
