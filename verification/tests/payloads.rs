use autocluster::builder::{build_cluster, build_selector};
use autocluster::json::{json_arr1, json_obj1, json_obj2, json_str, JsonValue};

fn field<'a>(v: &'a JsonValue, key: &str) -> &'a JsonValue {
    match v.get_field(key) {
        Some(inner) => inner,
        None => panic!("object has no field named {}", key),
    }
}

fn str_of(v: &JsonValue) -> &str {
    match v {
        JsonValue::Str(s) => s.as_str(),
        _ => panic!("not a string"),
    }
}

fn field_count(v: &JsonValue) -> usize {
    match v {
        JsonValue::Obj(fields) => fields.len(),
        _ => panic!("not an object"),
    }
}

#[test]
fn selector_object_shape() {
    let d = build_selector(&"east-1".to_string()).expect("non-empty key");
    assert_eq!(d.target_group, "elemental.cattle.io");
    assert_eq!(d.target_version, "v1beta1");
    assert_eq!(d.target_kind, "MachineInventorySelectorTemplate");
    assert_eq!(d.target_namespace, "fleet_default");
    assert_eq!(d.object_name, "east-1");
    // Exactly one field at every level of the nesting.
    assert_eq!(field_count(&d.payload), 1);
    let spec = field(&d.payload, "spec");
    assert_eq!(field_count(spec), 1);
    let template = field(spec, "template");
    assert_eq!(field_count(template), 1);
    let inner = field(template, "spec");
    assert_eq!(field_count(inner), 1);
    let selector = field(inner, "selector");
    assert_eq!(field_count(selector), 1);
    let labels = field(selector, "matchLabels");
    assert_eq!(field_count(labels), 1);
    assert_eq!(str_of(field(labels, "autoClusterName")), "east-1");
}

#[test]
fn cluster_object_shape() {
    let d = build_cluster(&"east-1".to_string()).expect("non-empty key");
    assert_eq!(d.target_group, "provisioning.cattle.io");
    assert_eq!(d.target_version, "v1");
    assert_eq!(d.target_kind, "Cluster");
    assert_eq!(d.target_namespace, "fleet_default");
    assert_eq!(d.object_name, "east-1");

    assert_eq!(field_count(&d.payload), 1);
    let spec = field(&d.payload, "spec");
    assert_eq!(field_count(spec), 2);
    assert_eq!(str_of(field(spec, "kubernetesVersion")), "v1.24.8+k3s1");
    let rke = field(spec, "rkeConfig");
    assert_eq!(field_count(rke), 1);
    let pools = match field(rke, "machinePools") {
        JsonValue::Arr(pools) => pools,
        _ => panic!("machinePools is not an array"),
    };
    assert_eq!(pools.len(), 1);
    let pool = &pools[0];
    assert_eq!(field_count(pool), 5);
    assert!(matches!(field(pool, "controlPlaneRole"), JsonValue::Bool(true)));
    assert!(matches!(field(pool, "workerRole"), JsonValue::Bool(true)));
    assert_eq!(str_of(field(pool, "name")), "pool1");
    match field(pool, "quantity") {
        JsonValue::Int(n) => assert_eq!(*n, 5),
        _ => panic!("quantity is not a number"),
    }
    let config_ref = field(pool, "machineConfigRef");
    assert_eq!(field_count(config_ref), 3);
    assert_eq!(str_of(field(config_ref, "apiVersion")), "elemental.cattle.io/v1beta1");
    assert_eq!(str_of(field(config_ref, "kind")), "MachineInventorySelectorTemplate");
    assert_eq!(str_of(field(config_ref, "name")), "east-1");
}

#[test]
fn builders_reject_empty_key() {
    assert!(build_selector(&String::new()).is_err());
    assert!(build_cluster(&String::new()).is_err());
}

#[test]
fn json_builders_keep_field_order() {
    let v = json_obj2("first", json_str("a"), "second", json_obj1("inner", json_arr1(JsonValue::Null)));
    match &v {
        JsonValue::Obj(fields) => {
            assert_eq!(fields.len(), 2);
            assert_eq!(fields[0].key, "first");
            assert_eq!(fields[1].key, "second");
        }
        _ => panic!("not an object"),
    }
    assert_eq!(str_of(field(&v, "first")), "a");
    match field(field(&v, "second"), "inner") {
        JsonValue::Arr(elems) => {
            assert_eq!(elems.len(), 1);
            assert!(matches!(elems[0], JsonValue::Null));
        }
        _ => panic!("inner is not an array"),
    }
}
