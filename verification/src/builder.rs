//! The resource builder: pure construction of the two dependent objects that
//! are provisioned per reconcile key — a selector object whose payload carries
//! a label match on the routing label, and a cluster object whose payload
//! references the selector object by name and embeds a fixed provisioning
//! template.

use vstd::prelude::*;

use crate::json::{
    jfield, json_arr1, json_obj, json_obj1, json_obj2, push_field, JsonField, JsonValue, JsonView,
};

verus! {

/// The request to create one dependent object: where it goes (group, version,
/// kind, namespace), what it is called, and its payload.
pub struct DependentObjectSpec {
    pub target_group: String,
    pub target_version: String,
    pub target_kind: String,
    pub target_namespace: String,
    pub object_name: String,
    pub payload: JsonValue,
}

/// The model of a dependent object creation request.
pub struct DependentObjectView {
    pub group: Seq<char>,
    pub version: Seq<char>,
    pub kind: Seq<char>,
    pub namespace: Seq<char>,
    pub name: Seq<char>,
    pub payload: JsonView,
}

impl View for DependentObjectSpec {
    type V = DependentObjectView;

    open spec fn view(&self) -> DependentObjectView {
        DependentObjectView {
            group: self.target_group@,
            version: self.target_version@,
            kind: self.target_kind@,
            namespace: self.target_namespace@,
            name: self.object_name@,
            payload: self.payload@,
        }
    }
}

/// The key was unusable (empty), so no payload may be built from it.
#[derive(Debug)]
pub struct InvalidKeyError;

/// Payload of the selector object:
/// `{spec: {template: {spec: {selector: {matchLabels: {autoClusterName: key}}}}}}`.
pub open spec fn selector_payload_view(key: Seq<char>) -> JsonView {
    JsonView::Obj(
        seq![
            jfield(
                "spec"@,
                JsonView::Obj(
                    seq![
                        jfield(
                            "template"@,
                            JsonView::Obj(
                                seq![
                                    jfield(
                                        "spec"@,
                                        JsonView::Obj(
                                            seq![
                                                jfield(
                                                    "selector"@,
                                                    JsonView::Obj(
                                                        seq![
                                                            jfield(
                                                                "matchLabels"@,
                                                                JsonView::Obj(
                                                                    seq![
                                                                        jfield(
                                                                            "autoClusterName"@,
                                                                            JsonView::Str(key),
                                                                        ),
                                                                    ],
                                                                ),
                                                            ),
                                                        ],
                                                    ),
                                                ),
                                            ],
                                        ),
                                    ),
                                ],
                            ),
                        ),
                    ],
                ),
            ),
        ],
    )
}

/// The machine-config reference inside the cluster payload: it names the
/// selector object, whose name is the key.
pub open spec fn machine_config_ref_view(key: Seq<char>) -> JsonView {
    JsonView::Obj(
        seq![
            jfield("apiVersion"@, JsonView::Str("elemental.cattle.io/v1beta1"@)),
            jfield("kind"@, JsonView::Str("MachineInventorySelectorTemplate"@)),
            jfield("name"@, JsonView::Str(key)),
        ],
    )
}

/// The one machine pool of the cluster payload's provisioning template.
pub open spec fn machine_pool_view(key: Seq<char>) -> JsonView {
    JsonView::Obj(
        seq![
            jfield("controlPlaneRole"@, JsonView::Bool(true)),
            jfield("name"@, JsonView::Str("pool1"@)),
            jfield("quantity"@, JsonView::Int(5)),
            jfield("workerRole"@, JsonView::Bool(true)),
            jfield("machineConfigRef"@, machine_config_ref_view(key)),
        ],
    )
}

/// Payload of the cluster object: a fixed provisioning template around one
/// machine pool that references the selector object.
pub open spec fn cluster_payload_view(key: Seq<char>) -> JsonView {
    JsonView::Obj(
        seq![
            jfield(
                "spec"@,
                JsonView::Obj(
                    seq![
                        jfield(
                            "rkeConfig"@,
                            JsonView::Obj(
                                seq![
                                    jfield(
                                        "machinePools"@,
                                        JsonView::Arr(seq![machine_pool_view(key)]),
                                    ),
                                ],
                            ),
                        ),
                        jfield("kubernetesVersion"@, JsonView::Str("v1.24.8+k3s1"@)),
                    ],
                ),
            ),
        ],
    )
}

/// The full creation request for the selector object named by `key`.
pub open spec fn selector_object_view(key: Seq<char>) -> DependentObjectView {
    DependentObjectView {
        group: "elemental.cattle.io"@,
        version: "v1beta1"@,
        kind: "MachineInventorySelectorTemplate"@,
        namespace: "fleet_default"@,
        name: key,
        payload: selector_payload_view(key),
    }
}

/// The full creation request for the cluster object named by `key`.
pub open spec fn cluster_object_view(key: Seq<char>) -> DependentObjectView {
    DependentObjectView {
        group: "provisioning.cattle.io"@,
        version: "v1"@,
        kind: "Cluster"@,
        namespace: "fleet_default"@,
        name: key,
        payload: cluster_payload_view(key),
    }
}

/// The path, field by field, from the selector payload's root to the routing
/// label's value inside its label match.
pub open spec fn selector_key_path() -> Seq<Seq<char>> {
    seq!["spec"@, "template"@, "spec"@, "selector"@, "matchLabels"@, "autoClusterName"@]
}

/// The path from the cluster payload's root to its machine pools.
pub open spec fn cluster_pools_path() -> Seq<Seq<char>> {
    seq!["spec"@, "rkeConfig"@, "machinePools"@]
}

/// In the selector payload, the label match names the key: following
/// `selector_key_path` ends at the key itself.
pub proof fn lemma_selector_payload_carries_key(key: Seq<char>)
    ensures
        selector_payload_view(key).field_path(selector_key_path()) == Option::Some(
            JsonView::Str(key),
        ),
{
    reveal_with_fuel(JsonView::field_path, 8);
    reveal_with_fuel(JsonView::assoc_from, 2);
}

/// In the cluster payload, the one machine pool asks for five machines and
/// references the selector object — and so the key — by name; the embedded
/// Kubernetes version is pinned.
pub proof fn lemma_cluster_payload_carries_key(key: Seq<char>)
    ensures
        cluster_payload_view(key).field_path(cluster_pools_path()) == Option::Some(
            JsonView::Arr(seq![machine_pool_view(key)]),
        ),
        machine_pool_view(key).field("quantity"@) == Option::Some(JsonView::Int(5)),
        machine_pool_view(key).field("machineConfigRef"@) == Option::Some(
            machine_config_ref_view(key),
        ),
        machine_config_ref_view(key).field("name"@) == Option::Some(JsonView::Str(key)),
        cluster_payload_view(key).field_path(seq!["spec"@, "kubernetesVersion"@])
            == Option::Some(JsonView::Str("v1.24.8+k3s1"@)),
{
    reveal_with_fuel(JsonView::field_path, 5);
    reveal_with_fuel(JsonView::assoc_from, 7);
    reveal_strlit("spec");
    reveal_strlit("rkeConfig");
    reveal_strlit("machinePools");
    reveal_strlit("kubernetesVersion");
    reveal_strlit("controlPlaneRole");
    reveal_strlit("name");
    reveal_strlit("quantity");
    reveal_strlit("workerRole");
    reveal_strlit("machineConfigRef");
    reveal_strlit("apiVersion");
    reveal_strlit("kind");
    assert("controlPlaneRole"@.len() == 16);
    assert("quantity"@.len() == 8);
    assert("name"@.len() == 4);
    assert("workerRole"@.len() == 10);
    assert("machineConfigRef"@.len() == 16);
    assert("apiVersion"@.len() == 10);
    assert("kind"@.len() == 4);
    assert("controlPlaneRole"@ != "quantity"@);
    assert("name"@ != "quantity"@);
    assert("controlPlaneRole"@[0] != "machineConfigRef"@[0]);
    assert("controlPlaneRole"@ != "machineConfigRef"@);
    assert("name"@ != "machineConfigRef"@);
    assert("quantity"@ != "machineConfigRef"@);
    assert("workerRole"@ != "machineConfigRef"@);
    assert("rkeConfig"@.len() == 9);
    assert("kubernetesVersion"@.len() == 17);
    assert("rkeConfig"@ != "kubernetesVersion"@);
    assert("apiVersion"@ != "name"@);
    assert("kind"@[0] != "name"@[0]);
    assert("kind"@ != "name"@);
}

/// Builds the selector object for `key`: an empty key is rejected, any other
/// key yields exactly the creation request `selector_object_view(key)`.
pub fn build_selector(key: &String) -> (r: Result<DependentObjectSpec, InvalidKeyError>)
    ensures
        key@.len() == 0 <==> r is Err,
        r matches Ok(d) ==> d@ == selector_object_view(key@),
{
    if key.as_str().is_empty() {
        return Err(InvalidKeyError);
    }
    let payload = json_obj1(
        "spec",
        json_obj1(
            "template",
            json_obj1(
                "spec",
                json_obj1(
                    "selector",
                    json_obj1("matchLabels", json_obj1("autoClusterName", JsonValue::Str(key.clone()))),
                ),
            ),
        ),
    );
    Ok(
        DependentObjectSpec {
            target_group: "elemental.cattle.io".to_owned(),
            target_version: "v1beta1".to_owned(),
            target_kind: "MachineInventorySelectorTemplate".to_owned(),
            target_namespace: "fleet_default".to_owned(),
            object_name: key.clone(),
            payload,
        },
    )
}

/// Builds the cluster object for `key`: an empty key is rejected, any other
/// key yields exactly the creation request `cluster_object_view(key)`.
pub fn build_cluster(key: &String) -> (r: Result<DependentObjectSpec, InvalidKeyError>)
    ensures
        key@.len() == 0 <==> r is Err,
        r matches Ok(d) ==> d@ == cluster_object_view(key@),
{
    if key.as_str().is_empty() {
        return Err(InvalidKeyError);
    }
    let config_ref = json_obj(machine_config_ref_fields(key));
    let pool = json_obj(machine_pool_fields(key, config_ref));
    let payload = json_obj1(
        "spec",
        json_obj2(
            "rkeConfig",
            json_obj1("machinePools", json_arr1(pool)),
            "kubernetesVersion",
            json_str_k8s_version(),
        ),
    );
    Ok(
        DependentObjectSpec {
            target_group: "provisioning.cattle.io".to_owned(),
            target_version: "v1".to_owned(),
            target_kind: "Cluster".to_owned(),
            target_namespace: "fleet_default".to_owned(),
            object_name: key.clone(),
            payload,
        },
    )
}

/// The pinned Kubernetes version embedded in the provisioning template.
fn json_str_k8s_version() -> (r: JsonValue)
    ensures
        r@ == JsonView::Str("v1.24.8+k3s1"@),
{
    JsonValue::Str("v1.24.8+k3s1".to_owned())
}

/// Fields of the machine-config reference, in order.
fn machine_config_ref_fields(key: &String) -> (fields: Vec<JsonField>)
    ensures
        JsonValue::deep_fields(fields@) == machine_config_ref_view(key@)->Obj_0,
{
    let mut fields: Vec<JsonField> = Vec::new();
    push_field(&mut fields, "apiVersion", JsonValue::Str("elemental.cattle.io/v1beta1".to_owned()));
    push_field(&mut fields, "kind", JsonValue::Str("MachineInventorySelectorTemplate".to_owned()));
    push_field(&mut fields, "name", JsonValue::Str(key.clone()));
    proof {
        assert(JsonValue::deep_fields(fields@) =~= machine_config_ref_view(key@)->Obj_0);
    }
    fields
}

/// Fields of the one machine pool, in order; `config_ref` must already be the
/// machine-config reference for the same key.
fn machine_pool_fields(key: &String, config_ref: JsonValue) -> (fields: Vec<JsonField>)
    requires
        config_ref@ == machine_config_ref_view(key@),
    ensures
        JsonValue::deep_fields(fields@) == machine_pool_view(key@)->Obj_0,
{
    let mut fields: Vec<JsonField> = Vec::new();
    push_field(&mut fields, "controlPlaneRole", JsonValue::Bool(true));
    push_field(&mut fields, "name", JsonValue::Str("pool1".to_owned()));
    push_field(&mut fields, "quantity", JsonValue::Int(5));
    push_field(&mut fields, "workerRole", JsonValue::Bool(true));
    push_field(&mut fields, "machineConfigRef", config_ref);
    proof {
        assert(JsonValue::deep_fields(fields@) =~= machine_pool_view(key@)->Obj_0);
    }
    fields
}

} // verus!
