//! Tests for annotation extraction over the stability metadata model.

use wit_visitor::annotations::{
    combined_map_for, get_all_annotations, get_annotations_for_language,
    get_rust_annotations, has_annotations_for_language, Stability,
};

fn sample() -> Stability {
    Stability::Annotated {
        annotations: vec![
            ("rust".to_string(), "derive(Clone)".to_string()),
            ("python".to_string(), "dataclass".to_string()),
            ("rust".to_string(), "repr(C)".to_string()),
        ],
    }
}

#[test]
fn values_filtered_by_language_in_source_order() {
    let anns = get_annotations_for_language(&sample(), "rust");
    assert_eq!(anns, vec!["derive(Clone)".to_string(), "repr(C)".to_string()]);

    let py = get_annotations_for_language(&sample(), "python");
    assert_eq!(py, vec!["dataclass".to_string()]);

    let none = get_annotations_for_language(&sample(), "go");
    assert!(none.is_empty());
}

#[test]
fn values_empty_without_annotations() {
    assert!(get_annotations_for_language(&Stability::Unknown, "rust").is_empty());
    assert!(get_annotations_for_language(&Stability::Stable, "rust").is_empty());
    assert!(get_annotations_for_language(&Stability::Unstable, "rust").is_empty());
    let empty = Stability::Annotated { annotations: vec![] };
    assert!(get_annotations_for_language(&empty, "rust").is_empty());
}

#[test]
fn all_annotations_returned_as_pairs() {
    let all = get_all_annotations(&sample());
    assert_eq!(all.len(), 3);
    assert_eq!(all[0], ("rust".to_string(), "derive(Clone)".to_string()));
    assert_eq!(all[1], ("python".to_string(), "dataclass".to_string()));
    assert_eq!(all[2], ("rust".to_string(), "repr(C)".to_string()));

    assert!(get_all_annotations(&Stability::Unknown).is_empty());
}

#[test]
fn has_annotations_checks_presence() {
    assert!(has_annotations_for_language(&sample(), "rust"));
    assert!(has_annotations_for_language(&sample(), "python"));
    assert!(!has_annotations_for_language(&sample(), "go"));
    assert!(!has_annotations_for_language(&Stability::Unknown, "rust"));
}

#[test]
fn rust_annotations_shortcut() {
    let anns = get_rust_annotations(&sample());
    assert_eq!(anns, vec!["derive(Clone)".to_string(), "repr(C)".to_string()]);
    assert!(get_rust_annotations(&Stability::Stable).is_empty());
}

#[test]
fn combined_map_folds_occurrences_in_order() {
    let annotations = vec![
        (
            "serde".to_string(),
            vec![
                ("rename".to_string(), "camelCase".to_string()),
                ("deny".to_string(), "unknown".to_string()),
            ],
        ),
        (
            "other".to_string(),
            vec![("rename".to_string(), "ignored".to_string())],
        ),
        (
            "serde".to_string(),
            vec![
                ("rename".to_string(), "snake_case".to_string()),
                ("tag".to_string(), "kind".to_string()),
            ],
        ),
    ];

    let combined = combined_map_for(&annotations, "serde");
    // A later occurrence's key silently overwrites the earlier value; the
    // key keeps the place of its first appearance, and new keys append.
    assert_eq!(
        combined,
        vec![
            ("rename".to_string(), "snake_case".to_string()),
            ("deny".to_string(), "unknown".to_string()),
            ("tag".to_string(), "kind".to_string()),
        ]
    );
}

#[test]
fn combined_map_ignores_other_targets() {
    let annotations = vec![(
        "other".to_string(),
        vec![("k".to_string(), "v".to_string())],
    )];
    assert!(combined_map_for(&annotations, "serde").is_empty());
    assert!(combined_map_for(&Vec::new(), "serde").is_empty());
}
