use secure_device_rotation::agent::{require_material, AgentError};
use secure_device_rotation::catalog::CatalogError;
use secure_device_rotation::catalog_path::catalog_path_components;
use secure_device_rotation::identity::Sha256Digest;
use secure_device_rotation::material::{CredentialError, ValidatedCredential};
use secure_device_rotation::state::StoreError;
use secure_device_rotation::store::{
    has_committed_revision, opening, revision_name, staging_name, verify_existing_revision,
    Opening,
};

fn names(list: &[&str]) -> Vec<String> {
    list.iter().map(|name| (*name).to_owned()).collect()
}

#[test]
fn revisions_and_their_staging_directories_have_fixed_names() {
    assert_eq!(revision_name(1), "revision-1");
    assert_eq!(revision_name(u64::MAX), "revision-18446744073709551615");
    assert_eq!(staging_name(12), ".revision-12.staging");
}

#[test]
fn only_installed_revisions_count_as_committed() {
    assert!(!has_committed_revision(&names(&[])));
    assert!(!has_committed_revision(&names(&[
        ".revision-1.staging",
        "revision",
        "notes"
    ])));
    assert!(has_committed_revision(&vec![staging_name(1), revision_name(1)]));
    assert!(has_committed_revision(&names(&["revision-"])));
}

#[test]
fn a_store_is_initialized_only_if_nothing_was_ever_installed() {
    assert_eq!(opening(true, &names(&["revision-1"])), Ok(Opening::Resume));
    assert_eq!(
        opening(false, &names(&[".revision-1.staging"])),
        Ok(Opening::Initialize)
    );
    assert_eq!(
        opening(false, &names(&["revision-1"])),
        Err(StoreError::InvalidState)
    );
}

#[test]
fn an_installed_revision_is_reused_only_with_the_same_files() {
    let credential = ValidatedCredential {
        ca: b"ca".to_vec(),
        certificate: b"certificate".to_vec(),
        private_key: b"key".to_vec(),
        expires_at: 1,
    };
    let verify = |ca: Option<&[u8]>, certificate: Option<&[u8]>, key: Option<&[u8]>| {
        verify_existing_revision(
            &ca.map(<[u8]>::to_vec),
            &certificate.map(<[u8]>::to_vec),
            &key.map(<[u8]>::to_vec),
            &credential,
        )
    };
    assert_eq!(
        verify(Some(b"ca"), Some(b"certificate"), Some(b"key")),
        Ok(())
    );
    for (ca, certificate, key) in [
        (None, Some(b"certificate".as_slice()), Some(b"key".as_slice())),
        (Some(b"ca".as_slice()), None, Some(b"key")),
        (Some(b"ca"), Some(b"certificate"), None),
        (Some(b"cb"), Some(b"certificate"), Some(b"key")),
        (Some(b"ca"), Some(b"certificat"), Some(b"key")),
        (Some(b"ca"), Some(b"certificate"), Some(b"key\n")),
    ] {
        assert_eq!(
            verify(ca, certificate, key),
            Err(StoreError::RevisionConflict)
        );
    }
}

#[test]
fn catalog_paths_are_walked_by_plain_names() {
    for raw in [
        "material/certificate.pem",
        "ca.pem",
        "material//nested/./key.pem",
        "material/",
    ] {
        let walked = std::path::Path::new(raw)
            .components()
            .map(|component| component.as_os_str().to_str().expect("name").to_owned())
            .collect::<Vec<_>>();
        assert_eq!(catalog_path_components(raw), Ok(walked), "{raw}");
    }
    for raw in ["", "/ca.pem", "../ca.pem", "a/../ca.pem", "a/..", "./ca.pem", "."] {
        assert_eq!(
            catalog_path_components(raw),
            Err(CatalogError::Malformed),
            "{raw}"
        );
    }
}

#[test]
fn missing_manifest_with_a_committed_revision_fails_closed() {
    // The state manifest is gone, the first revision is still installed.
    assert_eq!(
        opening(false, &vec![revision_name(1)]),
        Err(StoreError::InvalidState)
    );
}

#[test]
fn stale_temporary_files_are_recovered_without_becoming_current() {
    // A broken-off installation left its staging directory behind.
    let names = vec![staging_name(1)];
    assert!(!has_committed_revision(&names));
    assert_eq!(opening(false, &names), Ok(Opening::Initialize));
}

#[test]
fn bootstrap_material_is_validated_before_it_is_digested() {
    let credential = || ValidatedCredential {
        ca: Vec::new(),
        certificate: Vec::new(),
        private_key: Vec::new(),
        expires_at: 1,
    };
    let digest = || Sha256Digest::try_from(format!("sha256:{}", "a".repeat(64))).expect("digest");
    let (accepted, accepted_digest) =
        require_material(Ok(credential()), Some(digest())).expect("material");
    assert_eq!(accepted.expires_at, 1);
    assert_eq!(accepted_digest.expose(), digest().expose());
    for (credential, digest, expected) in [
        (
            Err(CredentialError::Untrusted),
            None,
            AgentError::Credential(CredentialError::Untrusted),
        ),
        (
            Ok(credential()),
            None,
            AgentError::InitialArtifactUnavailable,
        ),
    ] {
        assert_eq!(
            require_material(credential, digest).err(),
            Some(expected)
        );
    }
}
