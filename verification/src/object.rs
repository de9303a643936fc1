//! Watched objects and the label-keyed dispatch decision: each event carries
//! an object whose labels may name a reconcile key under the routing label;
//! objects without it are ignored.

use vstd::prelude::*;

verus! {

/// The routing label whose value is the reconcile key.
pub open spec fn spec_routing_label() -> Seq<char> {
    "autoClusterName"@
}

/// One label of a watched object.
pub struct Label {
    pub key: String,
    pub value: String,
}

/// The model of one label.
pub struct LabelView {
    pub key: Seq<char>,
    pub value: Seq<char>,
}

impl View for Label {
    type V = LabelView;

    open spec fn view(&self) -> LabelView {
        LabelView { key: self.key@, value: self.value@ }
    }
}

/// What an event delivers: the object's name, its namespace if it has one,
/// and its labels (keys unique; produced transiently, never stored).
pub struct WatchedObject {
    pub name: String,
    pub namespace: Option<String>,
    pub labels: Vec<Label>,
}

/// The model of a watched object.
pub struct WatchedObjectView {
    pub name: Seq<char>,
    pub namespace: Option<Seq<char>>,
    pub labels: Seq<LabelView>,
}

impl View for WatchedObject {
    type V = WatchedObjectView;

    open spec fn view(&self) -> WatchedObjectView {
        WatchedObjectView {
            name: self.name@,
            namespace: match self.namespace {
                Option::Some(n) => Option::Some(n@),
                Option::None => Option::None,
            },
            labels: Seq::new(self.labels@.len(), |i: int| self.labels@[i]@),
        }
    }
}

/// The value of the first label named `key`, if any.
pub open spec fn spec_label_value(labels: Seq<LabelView>, key: Seq<char>) -> Option<Seq<char>>
    decreases labels.len(),
{
    if labels.len() == 0 {
        Option::None
    } else if labels[0].key == key {
        Option::Some(labels[0].value)
    } else {
        spec_label_value(labels.skip(1), key)
    }
}

/// The reconcile key of an object: the value of its routing label.
pub open spec fn spec_extract_key(obj: WatchedObjectView) -> Option<Seq<char>> {
    spec_label_value(obj.labels, spec_routing_label())
}

/// A label lookup comes back empty exactly when no label carries the key.
pub proof fn lemma_label_value_none_iff_absent(labels: Seq<LabelView>, key: Seq<char>)
    ensures
        spec_label_value(labels, key) is None <==> (forall|i: int|
            0 <= i < labels.len() ==> labels[i].key != key),
    decreases labels.len(),
{
    if labels.len() > 0 {
        lemma_label_value_none_iff_absent(labels.skip(1), key);
        if spec_label_value(labels, key) is None {
            assert(labels[0].key != key);
            assert forall|i: int| 0 <= i < labels.len() implies labels[i].key != key by {
                if i > 0 {
                    assert(labels.skip(1)[i - 1] == labels[i]);
                }
            }
        } else if labels[0].key != key {
            let j = choose|j: int|
                0 <= j < labels.skip(1).len() && labels.skip(1)[j].key == key;
            assert(labels[j + 1].key == key);
        }
    }
}

/// The dispatch decision: the routing label's value if the object carries it,
/// nothing otherwise. An object without the label yields no key, so it never
/// reaches the reconciler.
pub fn extract_key(obj: &WatchedObject) -> (r: Option<String>)
    ensures
        r is None <==> spec_extract_key(obj@) is None,
        r matches Some(k) ==> spec_extract_key(obj@) == Option::Some(k@),
        r is None <==> (forall|i: int|
            0 <= i < obj@.labels.len() ==> obj@.labels[i].key != spec_routing_label()),
{
    proof {
        lemma_label_value_none_iff_absent(obj@.labels, spec_routing_label());
    }
    let routing: String = "autoClusterName".to_owned();
    let mut i: usize = 0;
    proof {
        assert(obj@.labels.skip(0) =~= obj@.labels);
    }
    loop
        invariant
            0 <= i <= obj.labels.len(),
            obj@.labels.len() == obj.labels@.len(),
            routing@ == spec_routing_label(),
            spec_label_value(obj@.labels.skip(i as int), spec_routing_label()) == spec_extract_key(
                obj@,
            ),
        decreases obj.labels.len() - i,
    {
        if i >= obj.labels.len() {
            proof {
                assert(obj@.labels.skip(i as int).len() == 0);
                lemma_label_value_none_iff_absent(obj@.labels, spec_routing_label());
            }
            return None;
        }
        if obj.labels[i].key == routing {
            proof {
                assert(obj@.labels.skip(i as int)[0] == obj@.labels[i as int]);
            }
            return Some(obj.labels[i].value.clone());
        }
        proof {
            assert(obj@.labels.skip(i as int).skip(1) =~= obj@.labels.skip(i as int + 1));
            assert(obj@.labels.skip(i as int)[0] == obj@.labels[i as int]);
        }
        i = i + 1;
    }
}

/// The identity of the watched resource type, supplied once at startup.
pub struct ResourceIdentity {
    pub group: String,
    pub version: String,
    pub kind: String,
}

/// The model of a resource identity.
pub struct ResourceIdentityView {
    pub group: Seq<char>,
    pub version: Seq<char>,
    pub kind: Seq<char>,
}

impl View for ResourceIdentity {
    type V = ResourceIdentityView;

    open spec fn view(&self) -> ResourceIdentityView {
        ResourceIdentityView { group: self.group@, version: self.version@, kind: self.kind@ }
    }
}

/// The watched identity given optional overrides: each part falls back to its
/// default (`elemental.cattle.io` / `v1beta1` / `MachineInventory`).
pub fn watched_identity(
    group: Option<String>,
    version: Option<String>,
    kind: Option<String>,
) -> (r: ResourceIdentity)
    ensures
        r@.group == (match group {
            Option::Some(g) => g@,
            Option::None => "elemental.cattle.io"@,
        }),
        r@.version == (match version {
            Option::Some(v) => v@,
            Option::None => "v1beta1"@,
        }),
        r@.kind == (match kind {
            Option::Some(k) => k@,
            Option::None => "MachineInventory"@,
        }),
{
    let group = match group {
        Some(g) => g,
        None => "elemental.cattle.io".to_owned(),
    };
    let version = match version {
        Some(v) => v,
        None => "v1beta1".to_owned(),
    };
    let kind = match kind {
        Some(k) => k,
        None => "MachineInventory".to_owned(),
    };
    ResourceIdentity { group, version, kind }
}

} // verus!
