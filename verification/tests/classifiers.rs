use trove_classifiers::Classifier;
use trove_classifiers::UnknownTag;
use trove_classifiers::CLASSIFIER_COUNT;
use trove_classifiers::PYPA_VERSION;

#[test]
fn string_round_trip() {
    let trove = "Programming Language :: Rust";
    assert_eq!(Classifier::from_str(&trove).unwrap().as_str(), trove);
}

#[test]
fn split_round_trip() {
    let trove = Classifier::License__OSIApproved__GNUGeneralPublicLicensev3orlaterGPLv3plus;

    let vec_trove = trove.split();
    assert_eq!(
        vec_trove,
        vec![
            "License",
            "OSI Approved",
            "GNU General Public License v3 or later (GPLv3+)"
        ]
    );

    let string_trove = vec_trove.join(" :: ");
    assert_eq!(
        string_trove,
        "License :: OSI Approved :: GNU General Public License v3 or later (GPLv3+)"
    );

    let new_trove = Classifier::from_str(&string_trove).unwrap();
    assert_eq!(new_trove, trove);
}

#[test]
fn parse_rejects_unknown_strings() {
    assert_eq!(Classifier::from_str(""), Err(UnknownTag));
    assert_eq!(Classifier::from_str("not a real classifier"), Err(UnknownTag));
}

#[test]
fn parse_is_case_sensitive() {
    assert_eq!(
        Classifier::from_str("programming language :: rust"),
        Err(UnknownTag)
    );
    assert_eq!(
        Classifier::from_str("Programming Language :: Rust"),
        Ok(Classifier::ProgrammingLanguage__Rust)
    );
}

#[test]
fn parse_is_whitespace_sensitive() {
    assert_eq!(Classifier::from_str("Programming Language ::Rust"), Err(UnknownTag));
    assert_eq!(Classifier::from_str(" Programming Language :: Rust"), Err(UnknownTag));
    assert_eq!(Classifier::from_str("Programming Language :: Rust "), Err(UnknownTag));
}

#[test]
fn reparse_preserves_punctuation() {
    let tags = [
        "Framework :: AWS CDK :: 1",
        "License :: OSI Approved :: GNU General Public License v3 or later (GPLv3+)",
        "Development Status :: 5 - Production/Stable",
        "Programming Language :: Python :: 3.10",
    ];
    for tag in tags {
        assert_eq!(Classifier::from_str(tag).unwrap().as_str(), tag);
    }
}

#[test]
fn render_exact_values() {
    assert_eq!(
        Classifier::DevelopmentStatus__1Planning.as_str(),
        "Development Status :: 1 - Planning"
    );
    assert_eq!(
        Classifier::Framework__AWSCDK__1.as_str(),
        "Framework :: AWS CDK :: 1"
    );
    assert_eq!(Classifier::Typing__Typed.as_str(), "Typing :: Typed");
}

#[test]
fn parse_render_round_trip_samples() {
    let samples = [
        Classifier::DevelopmentStatus__1Planning,
        Classifier::Environment__GPU__NVIDIACUDA__10_0,
        Classifier::ProgrammingLanguage__Rust,
        Classifier::Typing__Typed,
    ];
    for c in samples {
        assert_eq!(Classifier::from_str(c.as_str()), Ok(c));
    }
}

#[test]
fn render_is_injective_on_samples() {
    assert_ne!(
        Classifier::DevelopmentStatus__1Planning.as_str(),
        Classifier::DevelopmentStatus__2PreAlpha.as_str()
    );
    assert_ne!(
        Classifier::ProgrammingLanguage__Python__3_10.as_str(),
        Classifier::ProgrammingLanguage__Python__3_1.as_str()
    );
}

#[test]
fn segment_count_matches_structure() {
    let parts = Classifier::License__OSIApproved__GNUGeneralPublicLicensev3orlaterGPLv3plus.split();
    assert_eq!(parts.len(), 3);
    let parts = Classifier::Typing__Typed.split();
    assert_eq!(parts, vec!["Typing", "Typed"]);
}

#[test]
fn segments_compose_back_to_tag() {
    for c in [
        Classifier::Framework__Django__5_1,
        Classifier::Topic__Utilities,
        Classifier::OperatingSystem__Microsoft__Windows__Windows10,
    ] {
        assert_eq!(c.split().join(" :: "), c.as_str());
    }
}

#[test]
fn version_label_is_stable() {
    assert!(!PYPA_VERSION.is_empty());
    assert_eq!(PYPA_VERSION, "2024.10.16");
}

#[test]
fn catalog_count_is_fixed() {
    assert_eq!(CLASSIFIER_COUNT, 865);
}

#[test]
fn split_tag_edge_cases() {
    assert_eq!(trove_classifiers::split_tag(""), vec![""]);
    assert_eq!(trove_classifiers::split_tag("abc"), vec!["abc"]);
    assert_eq!(trove_classifiers::split_tag("a :: b"), vec!["a", "b"]);
    assert_eq!(trove_classifiers::split_tag("a :: b :: "), vec!["a", "b", ""]);
    assert_eq!(trove_classifiers::split_tag(" :: "), vec!["", ""]);
}
