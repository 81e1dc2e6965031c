use rdashboard::domain::identifiers::{
    valid_application_schema_version, EvidenceDigest, GitCommitId, IdentifierError, ProjectId,
    RunbookId,
};

#[test]
fn application_schema_versions_have_one_cross_contract_format() {
    assert!(valid_application_schema_version("rimg-schema-v1"));
    assert!(valid_application_schema_version("2026.07.15+sha.abcdef"));
    assert!(!valid_application_schema_version(""));
    assert!(!valid_application_schema_version("v1 beta"));
    assert!(!valid_application_schema_version("схема-v1"));
    assert!(!valid_application_schema_version(&"v".repeat(97)));
}

#[test]
fn identifiers_accept_their_own_form_alone() {
    assert_eq!(ProjectId::parse("ralert-2").expect("project").as_str(), "ralert-2");
    for refused in ["", "-a", "a-", "Ralert", "a_b"] {
        assert_eq!(ProjectId::parse(refused).err(), Some(IdentifierError::InvalidProjectId));
        assert_eq!(RunbookId::parse(refused).err(), Some(IdentifierError::InvalidRunbookId));
    }
    assert!(GitCommitId::parse(&"a".repeat(40)).is_ok() && GitCommitId::parse(&"a".repeat(64)).is_ok());
    assert_eq!(
        GitCommitId::parse(&"A".repeat(40)).err(),
        Some(IdentifierError::InvalidGitCommit)
    );
    assert_eq!(
        EvidenceDigest::parse(&"a".repeat(63)).err(),
        Some(IdentifierError::InvalidEvidenceDigest)
    );
    assert_eq!(
        IdentifierError::InvalidRunbookId.message(),
        "runbook ID must follow the project-ID format"
    );
}

#[test]
fn digests_are_those_of_sha256() {
    let digest = EvidenceDigest::sha256(b"abc");
    assert_eq!(
        digest.as_str(),
        "ba7816bf8f01cfea414140de5dae2223b00361a396177a9cb410ff61f20015ad"
    );
    assert_eq!(EvidenceDigest::parse(digest.as_str()), Ok(digest));
}
