//! What the protocol's digests are taken of. Each preimage names one set of
//! coordinates: two digests of different coordinates are digests of
//! different bytes.

use crate::agent;
use crate::digest;
use crate::identity;
use crate::identity::CommandView;
use crate::ledger;
use crate::text;
use vstd::prelude::*;
use vstd::utf8::*;

verus! {

/// A run of bytes without a zero.
pub open spec fn no_zero(bytes: Seq<u8>) -> bool {
    forall|i: int| 0 <= i < bytes.len() ==> #[trigger] bytes[i] != 0
}

proof fn lemma_scalar_has_no_zero(scalar: u32)
    requires
        0 < scalar <= 0x10ffff,
    ensures
        no_zero(encode_scalar(scalar)),
{
    assert(scalar <= 0x7f ==> (scalar & 0x7f) as u8 != 0) by (bit_vector)
        requires
            0 < scalar,
    ;
    assert(0xc0u8 | ((scalar >> 6) & 0x1f) as u8 != 0) by (bit_vector);
    assert(0xe0u8 | ((scalar >> 12) & 0x0f) as u8 != 0) by (bit_vector);
    assert(0xf0u8 | ((scalar >> 18) & 0x7) as u8 != 0) by (bit_vector);
    assert(0x80u8 | (scalar & 0x3f) as u8 != 0) by (bit_vector);
    assert(0x80u8 | ((scalar >> 6) & 0x3f) as u8 != 0) by (bit_vector);
    assert(0x80u8 | ((scalar >> 12) & 0x3f) as u8 != 0) by (bit_vector);
}

proof fn lemma_char_has_no_zero(c: char)
    requires
        c != '\0',
    ensures
        no_zero(encode_scalar(c as u32)),
{
    char_is_scalar(c);
    lemma_scalar_has_no_zero(c as u32);
}

/// Only the NUL character encodes to a zero byte.
pub proof fn lemma_text_has_no_zero(text: Seq<char>)
    requires
        !text.contains('\0'),
    ensures
        no_zero(encode_utf8(text)),
    decreases text.len(),
{
    if text.len() > 0 {
        let rest = text.drop_first();
        assert(!rest.contains('\0')) by {
            assert forall|i: int| 0 <= i < rest.len() implies rest[i] != '\0' by {
                assert(rest[i] == text[i + 1]);
            }
        }
        lemma_text_has_no_zero(rest);
        assert(text[0] != '\0');
        lemma_char_has_no_zero(text[0]);
    }
}

/// What stands before the first zero, and after it, is read back exactly.
proof fn lemma_split_at_zero(a: Seq<u8>, rest_a: Seq<u8>, b: Seq<u8>, rest_b: Seq<u8>)
    requires
        no_zero(a),
        no_zero(b),
        a + seq![0u8] + rest_a == b + seq![0u8] + rest_b,
    ensures
        a == b,
        rest_a == rest_b,
{
    let x = a + seq![0u8] + rest_a;
    let y = b + seq![0u8] + rest_b;
    assert(x[a.len() as int] == 0);
    assert(y[b.len() as int] == 0);
    if a.len() < b.len() {
        assert(y[a.len() as int] == b[a.len() as int]);
    } else if b.len() < a.len() {
        assert(x[b.len() as int] == a[b.len() as int]);
    }
    assert(x.take(a.len() as int) =~= a);
    assert(y.take(b.len() as int) =~= b);
    assert(x.skip(a.len() as int + 1) =~= rest_a);
    assert(y.skip(b.len() as int + 1) =~= rest_b);
}

/// The same for two texts without a NUL.
proof fn lemma_text_field(a: Seq<char>, rest_a: Seq<u8>, b: Seq<char>, rest_b: Seq<u8>)
    requires
        !a.contains('\0'),
        !b.contains('\0'),
        encode_utf8(a) + seq![0u8] + rest_a == encode_utf8(b) + seq![0u8] + rest_b,
    ensures
        a == b,
        rest_a == rest_b,
{
    lemma_text_has_no_zero(a);
    lemma_text_has_no_zero(b);
    lemma_split_at_zero(encode_utf8(a), rest_a, encode_utf8(b), rest_b);
    text::lemma_utf8_injective(a, b);
}

/// A number of fixed width in front of anything is read back exactly.
proof fn lemma_number_field(a: nat, rest_a: Seq<u8>, b: nat, rest_b: Seq<u8>, width: nat)
    requires
        a < vstd::arithmetic::power::pow(256, width),
        b < vstd::arithmetic::power::pow(256, width),
        text::be_bytes(a, width) + rest_a == text::be_bytes(b, width) + rest_b,
    ensures
        a == b,
        rest_a == rest_b,
{
    let x = text::be_bytes(a, width) + rest_a;
    let y = text::be_bytes(b, width) + rest_b;
    text::lemma_be_bytes_len(a, width);
    text::lemma_be_bytes_len(b, width);
    assert(x.take(width as int) =~= text::be_bytes(a, width));
    assert(y.take(width as int) =~= text::be_bytes(b, width));
    assert(x.skip(width as int) =~= rest_a);
    assert(y.skip(width as int) =~= rest_b);
    text::lemma_be_bytes_injective(a, b, width);
}

/// A common beginning can be left out.
proof fn lemma_same_rest(start: Seq<u8>, a: Seq<u8>, b: Seq<u8>)
    requires
        start + a == start + b,
    ensures
        a == b,
{
    assert((start + a).skip(start.len() as int) =~= a);
    assert((start + b).skip(start.len() as int) =~= b);
}

/// The bytes of an event name its kind and its source. A kind never holds a NUL.
pub proof fn law_event_bytes_name_one_event(
    kind: Seq<char>,
    source: Seq<char>,
    other_kind: Seq<char>,
    other_source: Seq<char>,
)
    requires
        !kind.contains('\0'),
        !other_kind.contains('\0'),
        ledger::event_bytes(kind, source) == ledger::event_bytes(other_kind, other_source),
    ensures
        kind == other_kind,
        source == other_source,
{
    let domain = encode_utf8("rss.reference-device-agent.event.v1\0"@);
    let a = encode_utf8(kind) + seq![0u8] + encode_utf8(source);
    let b = encode_utf8(other_kind) + seq![0u8] + encode_utf8(other_source);
    assert(ledger::event_bytes(kind, source) =~= domain + a);
    assert(ledger::event_bytes(other_kind, other_source) =~= domain + b);
    lemma_same_rest(domain, a, b);
    lemma_text_field(kind, encode_utf8(source), other_kind, encode_utf8(other_source));
    text::lemma_utf8_injective(source, other_source);
}

/// The source of a settlement token names its delivery: the topic, the
/// command and the content. Neither topic nor command holds a NUL.
pub proof fn law_settlement_sources_name_one_delivery(
    topic: Seq<char>,
    command_id: Seq<char>,
    fingerprint: Seq<char>,
    other_topic: Seq<char>,
    other_command_id: Seq<char>,
    other_fingerprint: Seq<char>,
)
    requires
        !topic.contains('\0'),
        !other_topic.contains('\0'),
        !command_id.contains('\0'),
        !other_command_id.contains('\0'),
        ledger::joined(ledger::joined(topic, command_id), fingerprint) == ledger::joined(
            ledger::joined(other_topic, other_command_id),
            other_fingerprint,
        ),
    ensures
        topic == other_topic,
        command_id == other_command_id,
        fingerprint == other_fingerprint,
{
    let rest = ledger::joined(command_id, fingerprint);
    let other_rest = ledger::joined(other_command_id, other_fingerprint);
    assert(ledger::joined(ledger::joined(topic, command_id), fingerprint) =~= ledger::joined(
        topic,
        rest,
    ));
    assert(ledger::joined(ledger::joined(other_topic, other_command_id), other_fingerprint)
        =~= ledger::joined(other_topic, other_rest));
    lemma_joined(topic, rest, other_topic, other_rest);
    lemma_joined(command_id, fingerprint, other_command_id, other_fingerprint);
}

proof fn lemma_joined(a: Seq<char>, rest_a: Seq<char>, b: Seq<char>, rest_b: Seq<char>)
    requires
        !a.contains('\0'),
        !b.contains('\0'),
        ledger::joined(a, rest_a) == ledger::joined(b, rest_b),
    ensures
        a == b,
        rest_a == rest_b,
{
    reveal_strlit("\0");
    let x = ledger::joined(a, rest_a);
    let y = ledger::joined(b, rest_b);
    assert(x[a.len() as int] == '\0');
    assert(y[b.len() as int] == '\0');
    if a.len() < b.len() {
        assert(y[a.len() as int] == b[a.len() as int]);
        assert(b.contains('\0'));
    } else if b.len() < a.len() {
        assert(x[b.len() as int] == a[b.len() as int]);
        assert(a.contains('\0'));
    }
    assert(x.take(a.len() as int) =~= a);
    assert(y.take(b.len() as int) =~= b);
    assert(x.skip(a.len() as int + 1) =~= rest_a);
    assert(y.skip(b.len() as int + 1) =~= rest_b);
}

/// What follows the device in a state preimage.
spec fn positions(
    credential_generation: u64,
    desired_generation: u64,
    fence: u64,
    revision: u64,
    artifact_digest: Seq<char>,
) -> Seq<u8> {
    text::be_bytes(credential_generation as nat, 8) + (text::be_bytes(desired_generation as nat, 8)
        + (text::be_bytes(fence as nat, 8) + (text::be_bytes(revision as nat, 8) + encode_utf8(
        artifact_digest,
    ))))
}

proof fn lemma_state_bytes_nested(
    tenant: u128,
    device: u128,
    credential_generation: u64,
    desired_generation: u64,
    fence: u64,
    revision: u64,
    artifact_digest: Seq<char>,
)
    ensures
        ledger::state_bytes(
            tenant,
            device,
            credential_generation,
            desired_generation,
            fence,
            revision,
            artifact_digest,
        ) == encode_utf8("rss.reference-device-agent.state.v1\0"@) + (text::be_bytes(
            tenant as nat,
            16,
        ) + (text::be_bytes(device as nat, 16) + positions(
            credential_generation,
            desired_generation,
            fence,
            revision,
            artifact_digest,
        ))),
{
    text::lemma_be_bytes_len(tenant as nat, 16);
    text::lemma_be_bytes_len(device as nat, 16);
    text::lemma_be_bytes_len(credential_generation as nat, 8);
    text::lemma_be_bytes_len(desired_generation as nat, 8);
    text::lemma_be_bytes_len(fence as nat, 8);
    text::lemma_be_bytes_len(revision as nat, 8);
    assert(ledger::state_bytes(
        tenant,
        device,
        credential_generation,
        desired_generation,
        fence,
        revision,
        artifact_digest,
    ) =~= encode_utf8("rss.reference-device-agent.state.v1\0"@) + (text::be_bytes(
        tenant as nat,
        16,
    ) + (text::be_bytes(device as nat, 16) + positions(
        credential_generation,
        desired_generation,
        fence,
        revision,
        artifact_digest,
    ))));
}

/// The bytes of a state hash name the device and everything that is installed on it.
pub proof fn law_state_bytes_name_one_installation(
    tenant: u128,
    device: u128,
    credential_generation: u64,
    desired_generation: u64,
    fence: u64,
    revision: u64,
    artifact_digest: Seq<char>,
    other_tenant: u128,
    other_device: u128,
    other_credential_generation: u64,
    other_desired_generation: u64,
    other_fence: u64,
    other_revision: u64,
    other_artifact_digest: Seq<char>,
)
    requires
        ledger::state_bytes(
            tenant,
            device,
            credential_generation,
            desired_generation,
            fence,
            revision,
            artifact_digest,
        ) == ledger::state_bytes(
            other_tenant,
            other_device,
            other_credential_generation,
            other_desired_generation,
            other_fence,
            other_revision,
            other_artifact_digest,
        ),
    ensures
        tenant == other_tenant,
        device == other_device,
        credential_generation == other_credential_generation,
        desired_generation == other_desired_generation,
        fence == other_fence,
        revision == other_revision,
        artifact_digest == other_artifact_digest,
{
    text::lemma_pow_256();
    lemma_state_bytes_nested(
        tenant,
        device,
        credential_generation,
        desired_generation,
        fence,
        revision,
        artifact_digest,
    );
    lemma_state_bytes_nested(
        other_tenant,
        other_device,
        other_credential_generation,
        other_desired_generation,
        other_fence,
        other_revision,
        other_artifact_digest,
    );
    let x5 = text::be_bytes(revision as nat, 8) + encode_utf8(artifact_digest);
    let x4 = text::be_bytes(fence as nat, 8) + x5;
    let x3 = text::be_bytes(desired_generation as nat, 8) + x4;
    let x2 = text::be_bytes(credential_generation as nat, 8) + x3;
    let x1 = text::be_bytes(device as nat, 16) + x2;
    let y5 = text::be_bytes(other_revision as nat, 8) + encode_utf8(other_artifact_digest);
    let y4 = text::be_bytes(other_fence as nat, 8) + y5;
    let y3 = text::be_bytes(other_desired_generation as nat, 8) + y4;
    let y2 = text::be_bytes(other_credential_generation as nat, 8) + y3;
    let y1 = text::be_bytes(other_device as nat, 16) + y2;
    lemma_same_rest(
        encode_utf8("rss.reference-device-agent.state.v1\0"@),
        text::be_bytes(tenant as nat, 16) + x1,
        text::be_bytes(other_tenant as nat, 16) + y1,
    );
    lemma_number_field(tenant as nat, x1, other_tenant as nat, y1, 16);
    lemma_number_field(device as nat, x2, other_device as nat, y2, 16);
    lemma_number_field(
        credential_generation as nat,
        x3,
        other_credential_generation as nat,
        y3,
        8,
    );
    lemma_number_field(desired_generation as nat, x4, other_desired_generation as nat, y4, 8);
    lemma_number_field(fence as nat, x5, other_fence as nat, y5, 8);
    lemma_number_field(
        revision as nat,
        encode_utf8(artifact_digest),
        other_revision as nat,
        encode_utf8(other_artifact_digest),
        8,
    );
    text::lemma_utf8_injective(artifact_digest, other_artifact_digest);
}

/// A command whose texts are canonical.
pub open spec fn canonical(command: CommandView) -> bool {
    &&& identity::is_command_id(command.command_id)
    &&& identity::is_artifact_id(command.artifact_id)
    &&& digest::is_digest_text(command.artifact_digest)
    &&& digest::is_digest_text(command.intent_digest)
    &&& digest::is_digest_text(command.policy_hash)
}

proof fn lemma_no_nul_without_control(text: Seq<char>)
    requires
        !text::has_control(text),
    ensures
        !text.contains('\0'),
{
    if text.contains('\0') {
        let i = choose|i: int| 0 <= i < text.len() && text[i] == '\0';
        assert(text::is_control(text[i]));
    }
}

proof fn lemma_no_nul_in_digest(text: Seq<char>)
    requires
        digest::is_digest_text(text),
    ensures
        !text.contains('\0'),
{
    reveal_strlit("sha256:");
    assert forall|i: int| 0 <= i < text.len() implies text[i] != '\0' by {
        if i < 7 {
            assert(text.take(7)[i] == "sha256:"@[i]);
        } else {
            assert(digest::is_hex_lower(text[i]));
        }
    }
}

spec fn numbers(command: CommandView) -> Seq<u8> {
    text::be_bytes(command.device_id as nat, 16) + (text::be_bytes(
        command.authorization_receipt_id as nat,
        16,
    ) + (text::be_bytes(command.deadline_epoch_seconds as nat, 8) + (text::be_bytes(
        command.desired_generation as nat,
        8,
    ) + text::be_bytes(command.fence_epoch as nat, 8))))
}

spec fn after_artifact(command: CommandView) -> Seq<u8> {
    encode_utf8(command.artifact_digest) + seq![0u8] + (encode_utf8(command.intent_digest)
        + seq![0u8] + (encode_utf8(command.policy_hash) + seq![0u8] + numbers(command)))
}

spec fn nested(command: CommandView) -> Seq<u8> {
    encode_utf8(command.command_id) + seq![0u8] + (encode_utf8(command.artifact_id) + seq![0u8]
        + after_artifact(command))
}

/// The fields of a command, one after the other, and nested.
proof fn lemma_command_bytes_nested(command: CommandView)
    ensures
        agent::command_bytes(command) == encode_utf8("rss.reference-device-agent.command.v1\0"@)
            + nested(command),
{
    let z = seq![0u8];
    let domain = encode_utf8("rss.reference-device-agent.command.v1\0"@);
    let t1 = encode_utf8(command.command_id);
    let t2 = encode_utf8(command.artifact_id);
    let t3 = encode_utf8(command.artifact_digest);
    let t4 = encode_utf8(command.intent_digest);
    let t5 = encode_utf8(command.policy_hash);
    let n1 = text::be_bytes(command.device_id as nat, 16);
    let n2 = text::be_bytes(command.authorization_receipt_id as nat, 16);
    let n3 = text::be_bytes(command.deadline_epoch_seconds as nat, 8);
    let n4 = text::be_bytes(command.desired_generation as nat, 8);
    let n5 = text::be_bytes(command.fence_epoch as nat, 8);
    let p1 = domain + t1 + z;
    let p2 = p1 + t2 + z;
    let p3 = p2 + t3 + z;
    let p4 = p3 + t4 + z;
    let p5 = p4 + t5 + z;
    let r5 = numbers(command);
    let r4 = t5 + z + r5;
    let r3 = t4 + z + r4;
    let r2 = t3 + z + r3;
    let r1 = t2 + z + r2;
    assert(p5 + n1 + n2 + n3 + n4 + n5 =~= p5 + r5);
    assert(p5 + r5 =~= p4 + r4);
    assert(p4 + r4 =~= p3 + r3);
    assert(p3 + r3 =~= p2 + r2);
    assert(p2 + r2 =~= p1 + r1);
    assert(p1 + r1 =~= domain + (t1 + z + r1));
}

/// The bytes of a command's fingerprint name the command: canonical commands
/// that differ in anything are told apart.
pub proof fn law_command_bytes_name_one_command(command: CommandView, other: CommandView)
    requires
        canonical(command),
        canonical(other),
        agent::command_bytes(command) == agent::command_bytes(other),
    ensures
        command == other,
{
    lemma_no_nul_without_control(command.command_id);
    lemma_no_nul_without_control(other.command_id);
    lemma_no_nul_without_control(command.artifact_id);
    lemma_no_nul_without_control(other.artifact_id);
    lemma_no_nul_in_digest(command.artifact_digest);
    lemma_no_nul_in_digest(other.artifact_digest);
    lemma_no_nul_in_digest(command.intent_digest);
    lemma_no_nul_in_digest(other.intent_digest);
    lemma_no_nul_in_digest(command.policy_hash);
    lemma_no_nul_in_digest(other.policy_hash);
    lemma_command_bytes_nested(command);
    lemma_command_bytes_nested(other);
    lemma_same_rest(
        encode_utf8("rss.reference-device-agent.command.v1\0"@),
        nested(command),
        nested(other),
    );
    let z = seq![0u8];
    let x4 = encode_utf8(command.policy_hash) + z + numbers(command);
    let x3 = encode_utf8(command.intent_digest) + z + x4;
    let x2 = encode_utf8(command.artifact_digest) + z + x3;
    let x1 = encode_utf8(command.artifact_id) + z + x2;
    let y4 = encode_utf8(other.policy_hash) + z + numbers(other);
    let y3 = encode_utf8(other.intent_digest) + z + y4;
    let y2 = encode_utf8(other.artifact_digest) + z + y3;
    let y1 = encode_utf8(other.artifact_id) + z + y2;
    lemma_text_field(command.command_id, x1, other.command_id, y1);
    lemma_text_field(command.artifact_id, x2, other.artifact_id, y2);
    lemma_text_field(command.artifact_digest, x3, other.artifact_digest, y3);
    lemma_text_field(command.intent_digest, x4, other.intent_digest, y4);
    lemma_text_field(command.policy_hash, numbers(command), other.policy_hash, numbers(other));
    lemma_numbers(command, other);
}

proof fn lemma_numbers(command: CommandView, other: CommandView)
    requires
        numbers(command) == numbers(other),
    ensures
        command.device_id == other.device_id,
        command.authorization_receipt_id == other.authorization_receipt_id,
        command.deadline_epoch_seconds == other.deadline_epoch_seconds,
        command.desired_generation == other.desired_generation,
        command.fence_epoch == other.fence_epoch,
{
    text::lemma_pow_256();
    let x4 = text::be_bytes(command.fence_epoch as nat, 8);
    let x3 = text::be_bytes(command.desired_generation as nat, 8) + x4;
    let x2 = text::be_bytes(command.deadline_epoch_seconds as nat, 8) + x3;
    let x1 = text::be_bytes(command.authorization_receipt_id as nat, 16) + x2;
    let y4 = text::be_bytes(other.fence_epoch as nat, 8);
    let y3 = text::be_bytes(other.desired_generation as nat, 8) + y4;
    let y2 = text::be_bytes(other.deadline_epoch_seconds as nat, 8) + y3;
    let y1 = text::be_bytes(other.authorization_receipt_id as nat, 16) + y2;
    lemma_number_field(command.device_id as nat, x1, other.device_id as nat, y1, 16);
    lemma_number_field(
        command.authorization_receipt_id as nat,
        x2,
        other.authorization_receipt_id as nat,
        y2,
        16,
    );
    lemma_number_field(
        command.deadline_epoch_seconds as nat,
        x3,
        other.deadline_epoch_seconds as nat,
        y3,
        8,
    );
    lemma_number_field(
        command.desired_generation as nat,
        x4,
        other.desired_generation as nat,
        y4,
        8,
    );
    text::lemma_be_bytes_injective(command.fence_epoch as nat, other.fence_epoch as nat, 8);
}

/// The bytes of an undecodable delivery name its topic, its command and the
/// digest of its payload. Neither topic nor command holds a NUL.
pub proof fn law_malformed_bytes_name_one_delivery(
    topic: Seq<char>,
    command_id: Seq<char>,
    payload: Seq<u8>,
    other_topic: Seq<char>,
    other_command_id: Seq<char>,
    other_payload: Seq<u8>,
)
    requires
        !topic.contains('\0'),
        !other_topic.contains('\0'),
        !command_id.contains('\0'),
        !other_command_id.contains('\0'),
        agent::malformed_bytes(topic, command_id, payload) == agent::malformed_bytes(
            other_topic,
            other_command_id,
            other_payload,
        ),
    ensures
        topic == other_topic,
        command_id == other_command_id,
        digest::sha256_of(payload) == digest::sha256_of(other_payload),
{
    let z = seq![0u8];
    let domain = encode_utf8("rss.reference-device-agent.malformed-command.v1\0"@);
    let x = encode_utf8(command_id) + z + digest::sha256_of(payload);
    let y = encode_utf8(other_command_id) + z + digest::sha256_of(other_payload);
    assert(agent::malformed_bytes(topic, command_id, payload) =~= domain + (encode_utf8(topic) + z
        + x));
    assert(agent::malformed_bytes(other_topic, other_command_id, other_payload) =~= domain + (
    encode_utf8(other_topic) + z + y));
    lemma_same_rest(domain, encode_utf8(topic) + z + x, encode_utf8(other_topic) + z + y);
    lemma_text_field(topic, x, other_topic, y);
    lemma_text_field(
        command_id,
        digest::sha256_of(payload),
        other_command_id,
        digest::sha256_of(other_payload),
    );
}

} // verus!
