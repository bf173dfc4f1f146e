use matbridge::adapter::{reexport_rules, select_dependency};

#[test]
fn capability_selects_matching_dependency() {
    assert_eq!(
        select_dependency(b"opencv-0_88"),
        Some(b"opencv_0_88".to_vec())
    );
    assert_eq!(
        select_dependency(b"opencv-0_92_clang_runtime"),
        Some(b"opencv_0_92_clang_runtime".to_vec())
    );
    assert_eq!(select_dependency(b"opencv-"), Some(b"opencv_".to_vec()));
}

#[test]
fn unrecognized_names_select_nothing() {
    assert_eq!(select_dependency(b"serde"), None);
    assert_eq!(select_dependency(b"opencv"), None);
    assert_eq!(select_dependency(b"opencv_0_88"), None);
    assert_eq!(select_dependency(b"Opencv-0_88"), None);
    assert_eq!(select_dependency(b""), None);
}

#[test]
fn rules_cover_exactly_the_recognized_capabilities() {
    let features: Vec<Vec<u8>> = vec![
        b"opencv-0_88".to_vec(),
        b"png".to_vec(),
        b"opencv-0_92".to_vec(),
        b"default".to_vec(),
    ];

    let rules = reexport_rules(&features);
    assert_eq!(rules.len(), 2);
    assert_eq!(rules[0].capability, b"opencv-0_88".to_vec());
    assert_eq!(rules[0].dependency, b"opencv_0_88".to_vec());
    assert_eq!(rules[1].capability, b"opencv-0_92".to_vec());
    assert_eq!(rules[1].dependency, b"opencv_0_92".to_vec());
}

#[test]
fn no_capabilities_no_rules() {
    let features: Vec<Vec<u8>> = vec![b"png".to_vec(), b"jpeg".to_vec()];
    assert!(reexport_rules(&features).is_empty());
}
