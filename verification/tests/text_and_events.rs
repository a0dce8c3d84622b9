use kdash::events::KubeEvent;
use kdash::text::{int_to_string, str_eq, str_lt};

#[test]
fn test_event_from_api() {
    let age = String::from("6m");
    let event = KubeEvent::from_fields(
        Some("pod.123".into()),
        Some("default".into()),
        Some("Pod".into()),
        Some("Scheduled".into()),
        Some("Successfully assigned".into()),
        Some(3),
        age.clone(),
    );
    assert_eq!(
        event,
        KubeEvent {
            name: "pod.123".into(),
            namespace: "default".into(),
            involved_kind: "Pod".into(),
            reason: "Scheduled".into(),
            message: "Successfully assigned".into(),
            count: 3,
            age,
        }
    );
}

#[test]
fn event_missing_fields_default_to_empty() {
    let e = KubeEvent::from_fields(None, None, None, None, None, None, "1s".into());
    assert_eq!(e.name, "");
    assert_eq!(e.namespace, "");
    assert_eq!(e.involved_kind, "");
    assert_eq!(e.reason, "");
    assert_eq!(e.message, "");
    assert_eq!(e.count, 0);
    assert_eq!(e.get_name(), "");
}

#[test]
fn event_row_lists_columns() {
    let e = KubeEvent::from_fields(
        Some("n".into()),
        Some("ns".into()),
        Some("Node".into()),
        Some("R".into()),
        Some("M".into()),
        Some(-12),
        "2d".into(),
    );
    assert_eq!(e.table_row(), vec!["ns", "n", "Node", "R", "M", "-12", "2d"]);
}

#[test]
fn int_to_string_matches_std() {
    for i in [0, 7, 10, 99, 100, 12345, -1, -10, i32::MAX, i32::MIN] {
        assert_eq!(int_to_string(i), i.to_string());
    }
}

#[test]
fn str_order_matches_std() {
    let words = ["", "a", "ab", "b", "Networking", "Nodes", "é", "z", "Z"];
    for a in words {
        for b in words {
            assert_eq!(str_lt(a, b), a < b, "{} < {}", a, b);
            assert_eq!(str_eq(a, b), a == b);
        }
    }
}
