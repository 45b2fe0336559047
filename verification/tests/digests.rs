use secure_device_rotation::agent::{command_fingerprint, malformed_fingerprint};
use secure_device_rotation::catalog::compute_artifact_digest_bytes;
use secure_device_rotation::digest::{digest_shaped, digest_text};
use secure_device_rotation::identity::{ArtifactId, CommandId, DeviceCommand, Sha256Digest, Uuid};
use secure_device_rotation::ledger::{event_id, settlement_token, state_hash};
use secure_device_rotation::model::{FenceEpoch, Generation};
use secure_device_rotation::nonzero::NonZeroU64;
use secure_device_rotation::text::{
    blank, control_char, decimal_text, hex_text, split_pieces, split_words, take_first_line,
    trim_end, white_space_char,
};
use sha2::{Digest, Sha256};

fn hexadecimal(parts: &[&[u8]]) -> String {
    let mut hasher = Sha256::new();
    for part in parts {
        hasher.update(part);
    }
    format!("{:x}", hasher.finalize())
}

#[test]
fn character_classes_are_the_standard_ones() {
    for c in '\0'..=char::MAX {
        assert_eq!(control_char(c), c.is_control(), "{c:?}");
        assert_eq!(white_space_char(c), c.is_whitespace(), "{c:?}");
    }
    assert!(blank(""));
    assert!(blank(" \u{3000}\n"));
    assert!(!blank(" a "));
}

#[test]
fn texts_split_as_the_standard_library_splits_them() {
    for text in ["", " ", "GET /a HTTP/1.1", "\ta  b\u{2003}c ", "abc"] {
        let words: Vec<&str> = text.split_whitespace().collect();
        assert_eq!(split_words(text), words, "{text:?}");
    }
    for text in ["", "/", "a/b", "/a//b/", "abc"] {
        let pieces: Vec<&str> = text.split('/').collect();
        assert_eq!(split_pieces(text, '/'), pieces, "{text:?}");
        assert_eq!(trim_end(text, '/'), text.trim_end_matches('/'), "{text:?}");
    }
    for text in ["", "a", "a\r\nb", "\r\n", "a\rb\nc", "a\r\r\nb"] {
        assert_eq!(
            take_first_line(text),
            text.split("\r\n").next().expect("line"),
            "{text:?}"
        );
    }
}

#[test]
fn numbers_and_bytes_are_rendered_exactly() {
    for number in [0, 7, 10, 1_000, u64::MAX] {
        assert_eq!(decimal_text(number), number.to_string());
    }
    assert_eq!(hex_text(&[0, 15, 16, 255]), "000f10ff");
}

#[test]
fn digest_texts_are_the_prefixed_lower_case_digest() {
    assert_eq!(
        digest_text(b""),
        "sha256:e3b0c44298fc1c149afbf4c8996fb92427ae41e4649b934ca495991b7852b855"
    );
    assert_eq!(
        digest_text(b"abc"),
        "sha256:ba7816bf8f01cfea414140de5dae2223b00361a396177a9cb410ff61f20015ad"
    );
    assert!(digest_shaped(&digest_text(b"abc")));
    assert!(!digest_shaped(&digest_text(b"abc").to_uppercase()));
}

#[test]
fn event_identities_cover_kind_and_source() {
    let domain = b"rss.reference-device-agent.event.v1\0".as_slice();
    assert_eq!(
        event_id("ack", "command-1"),
        format!(
            "reference-ack-{}",
            hexadecimal(&[domain, b"ack", b"\0", b"command-1"])
        )
    );
    assert_ne!(event_id("ack", "a"), event_id("ack", "b"));
    assert_eq!(
        settlement_token("topic", "command-1", "print"),
        format!(
            "reference-settlement-{}",
            hexadecimal(&[domain, b"settlement", b"\0", b"topic\0command-1\0print"])
        )
    );
    assert_ne!(
        settlement_token("a", "b", "c"),
        settlement_token("a", "c", "b")
    );
}

#[test]
fn state_hashes_cover_every_installed_coordinate() {
    let hash = |tenant: u128, generation: u64, desired: u64, fence: u64, revision: u64, digest: &str| {
        state_hash(
            Uuid::from_u128(tenant),
            Uuid::from_u128(2),
            generation,
            desired,
            fence,
            revision,
            digest,
        )
    };
    let expected = hexadecimal(&[
        b"rss.reference-device-agent.state.v1\0",
        &1_u128.to_be_bytes(),
        &2_u128.to_be_bytes(),
        &3_u64.to_be_bytes(),
        &4_u64.to_be_bytes(),
        &5_u64.to_be_bytes(),
        &6_u64.to_be_bytes(),
        b"sha256:artifact",
    ]);
    let base = hash(1, 3, 4, 5, 6, "sha256:artifact");
    assert_eq!(base, format!("sha256:{expected}"));
    for other in [
        hash(9, 3, 4, 5, 6, "sha256:artifact"),
        hash(1, 9, 4, 5, 6, "sha256:artifact"),
        hash(1, 3, 9, 5, 6, "sha256:artifact"),
        hash(1, 3, 4, 9, 6, "sha256:artifact"),
        hash(1, 3, 4, 5, 9, "sha256:artifact"),
        hash(1, 3, 4, 5, 6, "sha256:other"),
    ] {
        assert_ne!(base, other);
    }
}

fn command(command_id: &str, artifact_id: &str, fence: u64) -> DeviceCommand {
    let digest = |byte: char| {
        Sha256Digest::try_from(format!("sha256:{}", byte.to_string().repeat(64))).expect("digest")
    };
    DeviceCommand::new(
        CommandId::try_from(command_id).expect("command"),
        Uuid::from_u128(1),
        ArtifactId::try_from(artifact_id).expect("artifact"),
        digest('a'),
        Uuid::from_u128(2),
        NonZeroU64::new(3).expect("deadline"),
        Generation::try_from(4).expect("generation"),
        FenceEpoch::try_from(fence).expect("fence"),
        digest('b'),
        digest('c'),
    )
}

#[test]
fn command_fingerprints_cover_the_whole_command() {
    let artifact = "fixture-device-certificate-0001";
    let text = |byte: char| format!("sha256:{}\0", byte.to_string().repeat(64));
    let expected = hexadecimal(&[
        b"rss.reference-device-agent.command.v1\0",
        b"command-1\0",
        artifact.as_bytes(),
        b"\0",
        text('a').as_bytes(),
        text('b').as_bytes(),
        text('c').as_bytes(),
        &1_u128.to_be_bytes(),
        &2_u128.to_be_bytes(),
        &3_u64.to_be_bytes(),
        &4_u64.to_be_bytes(),
        &5_u64.to_be_bytes(),
    ]);
    let base = command_fingerprint(&command("command-1", artifact, 5));
    assert_eq!(base, format!("sha256:{expected}"));
    assert_ne!(base, command_fingerprint(&command("command-2", artifact, 5)));
    assert_ne!(base, command_fingerprint(&command("command-1", artifact, 6)));
}

#[test]
fn undecodable_deliveries_have_their_own_fingerprints() {
    let expected = hexadecimal(&[
        b"rss.reference-device-agent.malformed-command.v1\0",
        b"topic\0command-1\0",
        &Sha256::digest(b"payload"),
    ]);
    let base = malformed_fingerprint("topic", "command-1", b"payload");
    assert_eq!(base, format!("sha256:{expected}"));
    assert_ne!(base, malformed_fingerprint("topic", "command-1", b"other"));
    assert_ne!(base, malformed_fingerprint("topic-", "command-1", b"payload"));
}

#[test]
fn artifact_digests_frame_each_file_by_its_length() {
    let digest = |ca: &[u8], certificate: &[u8], key: &[u8]| {
        compute_artifact_digest_bytes(ca, certificate, key)
            .expect("digest")
            .expose()
            .to_owned()
    };
    let expected = hexadecimal(&[
        b"rss.reference-device-agent.artifact.v1\0",
        &2_u64.to_be_bytes(),
        b"ca",
        &4_u64.to_be_bytes(),
        b"cert",
        &3_u64.to_be_bytes(),
        b"key",
    ]);
    assert_eq!(digest(b"ca", b"cert", b"key"), format!("sha256:{expected}"));
    assert_ne!(digest(b"ca", b"cert", b"key"), digest(b"cac", b"ert", b"key"));
}
