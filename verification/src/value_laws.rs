//! Laws of the values that identify a device and its commands.

use crate::digest;
use crate::identity;
use crate::identity::{
    ArtifactId, CommandId, CredentialFiles, CredentialGeneration, DeviceCommand, DeviceIdentity,
    MqttConnectionConfig, OutboundFact, Sha256Digest, TopicSet, Uuid, ValueError,
};
use crate::model::{FenceEpoch, Generation};
use crate::nonzero::{NonZeroU32, NonZeroU64, NonZeroUsize};
use crate::reference_laws::plain;
use crate::setup_laws::{connectable, principal};
use crate::text;
use crate::text_laws;
use crate::text_laws::{controls, hex_value, number};
use std::path::PathBuf;
use vstd::prelude::*;

verus! {

/// A number that is never zero is made of every other number, and gives it back.
pub proof fn law_positive_numbers_are_not_zero(
    a: u32,
    b: u64,
    c: usize,
    x: Option<NonZeroU32>,
    y: Option<NonZeroU64>,
    z: Option<NonZeroUsize>,
)
    requires
        call_ensures(NonZeroU32::new, (a,), x),
        call_ensures(NonZeroU64::new, (b,), y),
        call_ensures(NonZeroUsize::new, (c,), z),
    ensures
        x is Some <==> a != 0,
        y is Some <==> b != 0,
        z is Some <==> c != 0,
        x is Some ==> x->0@ == a,
        y is Some ==> y->0@ == b,
        z is Some ==> z->0@ == c,
{
}

/// A positive number gives back its value.
pub proof fn law_positive_numbers_give_back_their_value(
    x: NonZeroU32,
    y: NonZeroU64,
    z: NonZeroUsize,
    a: u32,
    b: u64,
    c: usize,
)
    requires
        call_ensures(NonZeroU32::get, (x,), a),
        call_ensures(NonZeroU64::get, (y,), b),
        call_ensures(NonZeroUsize::get, (z,), c),
    ensures
        a == x@ && a > 0,
        b == y@ && b > 0,
        c == z@ && c > 0,
{
}

/// An identifier gives back its number, is nil exactly at zero, and is the
/// same as another exactly if the numbers are.
pub proof fn law_identifiers_are_their_numbers(
    value: u128,
    made: Uuid,
    told: u128,
    nil: bool,
    other: Uuid,
    same: bool,
)
    requires
        call_ensures(Uuid::from_u128, (value,), made),
        call_ensures(Uuid::as_u128, (made,), told),
        call_ensures(Uuid::is_nil, (made,), nil),
        call_ensures(Uuid::same, (made, other), same),
    ensures
        told == value,
        made@ == value,
        nil <==> value == 0,
        same <==> other@ == value,
{
}

/// The text of an identifier has its hyphens in four places and hexadecimal
/// digits everywhere else.
pub proof fn law_identifiers_are_written_with_four_hyphens(id: Uuid, r: String)
    requires
        call_ensures(Uuid::text, (id,), r),
    ensures
        r@.len() == 36,
        forall|i: int|
            0 <= i < 36 ==> (#[trigger] r@[i] == '-' <==> i == 8 || i == 13 || i == 18 || i == 23),
        forall|i: int|
            0 <= i < 36 && #[trigger] r@[i] != '-' ==> ('0' <= r@[i] && r@[i] <= '9') || ('a'
                <= r@[i] && r@[i] <= 'f'),
{
    text::lemma_be_bytes_len(id@ as nat, 16);
    let digits = text::hex(text::be_bytes(id@ as nat, 16));
    reveal_strlit("-");
    assert(digits.len() == 32);
    assert forall|i: int| 0 <= i < 32 implies #[trigger] digits[i] != '-' && (('0' <= digits[i]
        && digits[i] <= '9') || ('a' <= digits[i] && digits[i] <= 'f')) by {}
    assert forall|i: int| 0 <= i < 36 implies #[trigger] r@[i] == (if i < 8 {
        digits[i]
    } else if i == 8 {
        '-'
    } else if i < 13 {
        digits[i - 1]
    } else if i == 13 {
        '-'
    } else if i < 18 {
        digits[i - 2]
    } else if i == 18 {
        '-'
    } else if i < 23 {
        digits[i - 3]
    } else if i == 23 {
        '-'
    } else {
        digits[i - 4]
    }) by {}
}

/// The number that some hexadecimal digits stand for.
pub open spec fn hex_number(digits: Seq<char>) -> int
    decreases digits.len(),
{
    if digits.len() == 0 {
        0
    } else {
        16 * hex_number(digits.drop_last()) + hex_value(digits.last())
    }
}

proof fn lemma_hex_number(bytes: Seq<u8>)
    ensures
        hex_number(text::hex(bytes)) == number(bytes),
    decreases bytes.len(),
{
    let digits = text::hex(bytes);
    if bytes.len() > 0 {
        let front = bytes.drop_last();
        lemma_hex_number(front);
        let b = bytes.last();
        let n = bytes.len() as int;
        assert(digits.drop_last().drop_last() =~= text::hex(front)) by {
            assert forall|i: int| 0 <= i < 2 * front.len() implies #[trigger] digits[i]
                == text::hex(front)[i] by {
                assert(front[i / 2] == bytes[i / 2]);
            }
        }
        assert((2 * n - 1) / 2 == n - 1 && (2 * n - 1) % 2 == 1);
        assert((2 * n - 2) / 2 == n - 1 && (2 * n - 2) % 2 == 0);
        assert(digits.last() == text::hex_digit(b % 16));
        assert(digits.drop_last().last() == text::hex_digit(b / 16));
        assert(hex_value(text::hex_digit(b % 16)) == b % 16);
        assert(hex_value(text::hex_digit(b / 16)) == b / 16);
        assert(hex_number(digits) == 16 * hex_number(digits.drop_last()) + b % 16);
        assert(hex_number(digits.drop_last()) == 16 * hex_number(text::hex(front)) + b / 16);
        assert(b == 16 * (b / 16) + b % 16);
    } else {
        assert(digits =~= Seq::<char>::empty());
    }
}

/// The text of an identifier reads back as its number, once the hyphens are
/// left out.
pub proof fn law_identifiers_read_back(id: Uuid, r: String)
    requires
        call_ensures(Uuid::text, (id,), r),
    ensures
        hex_number(
            r@.subrange(0, 8) + r@.subrange(9, 13) + r@.subrange(14, 18) + r@.subrange(19, 23)
                + r@.subrange(24, 36),
        ) == id@,
{
    text::lemma_pow_256();
    text_laws::lemma_number(id@ as nat, 16);
    let bytes = text::be_bytes(id@ as nat, 16);
    let digits = text::hex(bytes);
    reveal_strlit("-");
    lemma_hex_number(bytes);
    assert(r@.subrange(0, 8) =~= digits.subrange(0, 8));
    assert(r@.subrange(9, 13) =~= digits.subrange(8, 12));
    assert(r@.subrange(14, 18) =~= digits.subrange(12, 16));
    assert(r@.subrange(19, 23) =~= digits.subrange(16, 20));
    assert(r@.subrange(24, 36) =~= digits.subrange(20, 32));
    assert(r@.subrange(0, 8) + r@.subrange(9, 13) + r@.subrange(14, 18) + r@.subrange(19, 23)
        + r@.subrange(24, 36) =~= digits);
}

/// A credential generation is a positive number and gives it back.
pub proof fn law_credential_generations_are_positive(
    value: u64,
    r: Result<CredentialGeneration, ValueError>,
    generation: CredentialGeneration,
    told: u64,
)
    requires
        call_ensures(<CredentialGeneration as TryFrom<u64>>::try_from, (value,), r),
        call_ensures(CredentialGeneration::get, (generation,), told),
    ensures
        r is Ok <==> value > 0,
        r is Ok ==> r->Ok_0@ == value,
        r is Err ==> r->Err_0 is Zero,
        told == generation@ && told > 0,
{
}

/// An identity has its tenant, device and generation; one that can be
/// authenticated has neither identifier nil.
pub proof fn law_identities_have_their_coordinates(
    tenant: Uuid,
    device: Uuid,
    generation: CredentialGeneration,
    made: DeviceIdentity,
    checked: Result<DeviceIdentity, ValueError>,
    told_tenant: Uuid,
    told_device: Uuid,
    told_generation: CredentialGeneration,
)
    requires
        call_ensures(DeviceIdentity::new, (tenant, device, generation), made),
        call_ensures(DeviceIdentity::try_new, (tenant, device, generation), checked),
        call_ensures(DeviceIdentity::tenant, (&made,), told_tenant),
        call_ensures(DeviceIdentity::device, (&made,), told_device),
        call_ensures(DeviceIdentity::credential_generation, (&made,), told_generation),
    ensures
        told_tenant@ == tenant@ && made@.tenant == tenant@,
        told_device@ == device@ && made@.device == device@,
        told_generation@ == generation@ && made@.credential_generation == generation@,
        checked is Ok <==> tenant@ != 0 && device@ != 0,
        checked is Ok ==> checked->Ok_0@ == made@,
        checked is Err ==> checked->Err_0 is Zero,
{
}

/// The principal names tenant, device and generation; the client identity
/// names tenant and device and outlives the generation.
pub proof fn law_principals_and_clients_are_named_by_coordinates(
    identity: &DeviceIdentity,
    urn: String,
    client: String,
)
    requires
        call_ensures(DeviceIdentity::principal_urn, (identity,), urn),
        call_ensures(DeviceIdentity::mqtt_client_id, (identity,), client),
    ensures
        urn@ == principal(identity@.tenant, identity@.device, identity@.credential_generation),
        client@ == "rss-reference-device-"@ + identity::hyphenated(identity@.tenant) + "-"@
            + identity::hyphenated(identity@.device),
{
    assert(urn@ =~= principal(
        identity@.tenant,
        identity@.device,
        identity@.credential_generation,
    ));
}

/// The place under which a device's topics stand.
pub open spec fn topics_under(tenant: u128, device: u128, generation: u64) -> Seq<char> {
    "rss/v1/"@ + identity::hyphenated(tenant) + "/"@ + identity::hyphenated(device) + "/"@
        + text::decimal(generation as nat) + "/"@
}

/// A device's topics stand under its own coordinates: commands come down,
/// acknowledgements and reports go up, and no other topic carries commands.
pub proof fn law_topics_stand_under_the_device(
    identity: &DeviceIdentity,
    topics: TopicSet,
    of: &DeviceIdentity,
    command: &str,
    acknowledged: &str,
    reported: &str,
    topic: &str,
    accepts: bool,
)
    requires
        call_ensures(TopicSet::new, (identity,), topics),
        call_ensures(TopicSet::identity, (&topics,), of),
        call_ensures(TopicSet::command, (&topics,), command),
        call_ensures(TopicSet::command_acknowledged, (&topics,), acknowledged),
        call_ensures(TopicSet::certificate_reported, (&topics,), reported),
        call_ensures(TopicSet::accepts_command, (&topics, topic), accepts),
    ensures
        of@ == identity@,
        ({
            let place = topics_under(
                identity@.tenant,
                identity@.device,
                identity@.credential_generation,
            );
            &&& command@ == place + "downlink/identity.commands.apply-device-certificate"@
            &&& acknowledged@ == place + "uplink/identity.device-command-acked"@
            &&& reported@ == place + "uplink/identity.device-certificate-reported"@
        }),
        accepts <==> topic@ == command@,
{
}

/// A text that can name an artifact: sixteen to 256 plain characters without
/// a separator of paths, and never two dots in a row.
pub open spec fn names_artifact(value: Seq<char>) -> bool {
    &&& 16 <= value.len() <= 256
    &&& plain(value)
    &&& forall|i: int| 0 <= i < value.len() ==> #[trigger] value[i] != '/' && value[i] != '\\'
    &&& forall|i: int, j: int|
        0 <= i < value.len() && j == i + 1 && j < value.len() ==> !(#[trigger] value[i] == '.'
            && #[trigger] value[j] == '.')
}

/// A text that can name a command: one to 256 plain characters.
pub open spec fn names_command(value: Seq<char>) -> bool {
    1 <= value.len() <= 256 && plain(value)
}

/// A text that is a digest: its method and 64 lower-case hexadecimal digits.
pub open spec fn names_digest(value: Seq<char>) -> bool {
    &&& value.len() == 71
    &&& value.take(7) == "sha256:"@
    &&& forall|i: int|
        7 <= i < 71 ==> ('0' <= #[trigger] value[i] && value[i] <= '9') || ('a' <= value[i]
            && value[i] <= 'f')
}

proof fn lemma_plain(value: Seq<char>)
    ensures
        plain(value) <==> !text::has_control(value),
{
    if plain(value) {
        assert forall|i: int| 0 <= i < value.len() implies !text::is_control(
            #[trigger] value[i],
        ) by {
            assert(!controls(value[i]));
        }
    } else {
        let i = choose|i: int| 0 <= i < value.len() && controls(#[trigger] value[i]);
        assert(text::is_control(value[i]));
    }
}

pub(crate) proof fn lemma_names(value: Seq<char>)
    ensures
        names_artifact(value) <==> identity::is_artifact_id(value),
        names_command(value) <==> identity::is_command_id(value),
        names_digest(value) <==> digest::is_digest_text(value),
{
    lemma_plain(value);
    reveal_strlit("sha256:");
    if names_artifact(value) {
        assert forall|i: int| 0 <= i < value.len() - 1 implies !(#[trigger] value[i] == '.' && value[
        i + 1] == '.') by {
            let j = i + 1;
            assert(!(value[i] == '.' && value[j] == '.'));
        }
    }
    if names_digest(value) {
        assert forall|i: int| 7 <= i < 71 implies digest::is_hex_lower(#[trigger] value[i]) by {}
    }
    if digest::is_digest_text(value) {
        assert forall|i: int| 7 <= i < 71 implies ('0' <= #[trigger] value[i] && value[i] <= '9')
            || ('a' <= value[i] && value[i] <= 'f') by {
            assert(digest::is_hex_lower(value[i]));
        }
    }
}

/// Artifact names are the texts that can name an artifact, however given,
/// and show the text they were made of.
pub proof fn law_artifact_names_are_no_paths(
    value: &str,
    owned: String,
    id: ArtifactId,
    r: Result<ArtifactId, ValueError>,
    s: Result<ArtifactId, ValueError>,
    shown: &str,
)
    requires
        call_ensures(<ArtifactId as TryFrom<&str>>::try_from, (value,), r),
        call_ensures(<ArtifactId as TryFrom<String>>::try_from, (owned,), s),
        call_ensures(ArtifactId::expose, (&id,), shown),
    ensures
        r is Ok <==> names_artifact(value@),
        s is Ok <==> names_artifact(owned@),
        r is Ok ==> r->Ok_0@ == value@,
        s is Ok ==> s->Ok_0@ == owned@,
        r is Err ==> r->Err_0 is InvalidArtifactId,
        s is Err ==> s->Err_0 is InvalidArtifactId,
        shown@ == id@ && names_artifact(shown@),
{
    lemma_names(value@);
    lemma_names(owned@);
    lemma_names(shown@);
}

/// Command names are the texts that can name a command, however given, and
/// show the text they were made of.
pub proof fn law_command_names_are_plain(
    value: &str,
    owned: String,
    id: CommandId,
    r: Result<CommandId, ValueError>,
    s: Result<CommandId, ValueError>,
    shown: &str,
)
    requires
        call_ensures(<CommandId as TryFrom<&str>>::try_from, (value,), r),
        call_ensures(<CommandId as TryFrom<String>>::try_from, (owned,), s),
        call_ensures(CommandId::expose, (&id,), shown),
    ensures
        r is Ok <==> names_command(value@),
        s is Ok <==> names_command(owned@),
        r is Ok ==> r->Ok_0@ == value@,
        s is Ok ==> s->Ok_0@ == owned@,
        r is Err ==> r->Err_0 is InvalidCommandId,
        s is Err ==> s->Err_0 is InvalidCommandId,
        shown@ == id@ && names_command(shown@),
{
    lemma_names(value@);
    lemma_names(owned@);
    lemma_names(shown@);
}

/// Digests are the texts that are one, however given, and show the text they
/// were made of.
pub proof fn law_digests_are_lower_case_texts(
    value: &str,
    owned: String,
    id: Sha256Digest,
    r: Result<Sha256Digest, ValueError>,
    s: Result<Sha256Digest, ValueError>,
    shown: &str,
    shaped: bool,
)
    requires
        call_ensures(<Sha256Digest as TryFrom<&str>>::try_from, (value,), r),
        call_ensures(<Sha256Digest as TryFrom<String>>::try_from, (owned,), s),
        call_ensures(Sha256Digest::expose, (&id,), shown),
        call_ensures(digest::digest_shaped, (value,), shaped),
    ensures
        r is Ok <==> names_digest(value@),
        s is Ok <==> names_digest(owned@),
        shaped <==> names_digest(value@),
        r is Ok ==> r->Ok_0@ == value@,
        s is Ok ==> s->Ok_0@ == owned@,
        r is Err ==> r->Err_0 is InvalidDigest,
        s is Err ==> s->Err_0 is InvalidDigest,
        shown@ == id@ && names_digest(shown@),
{
    lemma_names(value@);
    lemma_names(owned@);
    lemma_names(shown@);
}

/// The text of a digest is one, and is the digest of the bytes.
pub proof fn law_digest_texts_are_digests(data: &[u8], r: String)
    requires
        call_ensures(digest::digest_text, (data,), r),
    ensures
        names_digest(r@),
        r@ == "sha256:"@ + text::hex(digest::sha256_of(data@)),
{
    lemma_names(r@);
}

/// A command tells every value that it was made of.
pub proof fn law_commands_tell_their_values(
    command_id: CommandId,
    device_id: Uuid,
    artifact_id: ArtifactId,
    artifact_digest: Sha256Digest,
    receipt: Uuid,
    deadline: NonZeroU64,
    generation: Generation,
    fence: FenceEpoch,
    intent: Sha256Digest,
    policy: Sha256Digest,
    made: DeviceCommand,
)
    requires
        call_ensures(
            DeviceCommand::new,
            (
                command_id,
                device_id,
                artifact_id,
                artifact_digest,
                receipt,
                deadline,
                generation,
                fence,
                intent,
                policy,
            ),
            made,
        ),
    ensures
        made@.command_id == command_id@,
        made@.device_id == device_id@,
        made@.artifact_id == artifact_id@,
        made@.artifact_digest == artifact_digest@,
        made@.authorization_receipt_id == receipt@,
        made@.deadline_epoch_seconds == deadline@,
        made@.desired_generation == generation@,
        made@.fence_epoch == fence@,
        made@.intent_digest == intent@,
        made@.policy_hash == policy@,
{
}

/// What is read of a command is what it tells.
pub proof fn law_commands_are_read_as_they_tell(
    command: &DeviceCommand,
    command_id: &CommandId,
    device_id: Uuid,
    artifact_id: &ArtifactId,
    artifact_digest: &Sha256Digest,
    receipt: Uuid,
    deadline: NonZeroU64,
    generation: Generation,
    fence: FenceEpoch,
    intent: &Sha256Digest,
    policy: &Sha256Digest,
)
    requires
        call_ensures(DeviceCommand::command_id, (command,), command_id),
        call_ensures(DeviceCommand::device_id, (command,), device_id),
        call_ensures(DeviceCommand::artifact_id, (command,), artifact_id),
        call_ensures(DeviceCommand::artifact_digest, (command,), artifact_digest),
        call_ensures(DeviceCommand::authorization_receipt_id, (command,), receipt),
        call_ensures(DeviceCommand::deadline_epoch_seconds, (command,), deadline),
        call_ensures(DeviceCommand::desired_generation, (command,), generation),
        call_ensures(DeviceCommand::fence_epoch, (command,), fence),
        call_ensures(DeviceCommand::intent_digest, (command,), intent),
        call_ensures(DeviceCommand::policy_hash, (command,), policy),
    ensures
        command_id@ == command@.command_id,
        device_id@ == command@.device_id,
        artifact_id@ == command@.artifact_id,
        artifact_digest@ == command@.artifact_digest,
        receipt@ == command@.authorization_receipt_id,
        deadline@ == command@.deadline_epoch_seconds,
        generation@ == command@.desired_generation,
        fence@ == command@.fence_epoch,
        intent@ == command@.intent_digest,
        policy@ == command@.policy_hash,
{
}

/// A fact goes by its own event identity, whatever it tells.
pub proof fn law_facts_go_by_their_event(fact: &OutboundFact, r: &str)
    requires
        call_ensures(OutboundFact::event_id, (fact,), r),
    ensures
        *fact is CommandAcknowledged ==> r@ == (*fact)->CommandAcknowledged_event_id@,
        *fact is CertificateReported ==> r@ == (*fact)->CertificateReported_event_id@,
{
}

/// Credential files lie where they were said to.
pub proof fn law_credential_files_lie_where_said(
    ca: PathBuf,
    chain: PathBuf,
    key: PathBuf,
    made: CredentialFiles,
    told_ca: &PathBuf,
    told_chain: &PathBuf,
    told_key: &PathBuf,
)
    requires
        call_ensures(CredentialFiles::new, (ca, chain, key), made),
        call_ensures(CredentialFiles::ca_certificate, (&made,), told_ca),
        call_ensures(CredentialFiles::certificate_chain, (&made,), told_chain),
        call_ensures(CredentialFiles::private_key, (&made,), told_key),
    ensures
        *told_ca == ca,
        *told_chain == chain,
        *told_key == key,
{
}

/// A connection is configured exactly with coordinates that can be connected
/// to; what is wrong is told in the order host, port, client.
pub proof fn law_connections_have_usable_coordinates(
    host: &str,
    port: u16,
    client_id: &str,
    expiry: NonZeroU32,
    capacity: NonZeroUsize,
    r: Result<MqttConnectionConfig, ValueError>,
)
    requires
        call_ensures(MqttConnectionConfig::new, (host, port, client_id, expiry, capacity), r),
    ensures
        r is Ok <==> connectable(host@, port, client_id@),
        r is Ok ==> {
            &&& r->Ok_0@.host == host@
            &&& r->Ok_0@.port == port
            &&& r->Ok_0@.client_id == client_id@
            &&& r->Ok_0@.session_expiry_seconds == expiry@
            &&& r->Ok_0@.request_capacity == capacity@
        },
        r is Err ==> r->Err_0 is InvalidHost || r->Err_0 is InvalidPort
            || r->Err_0 is InvalidClientId,
        host@.len() == 0 || !plain(host@) ==> r->Err_0 is InvalidHost,
        r is Err && r->Err_0 is InvalidPort ==> port == 0,
        r is Err && r->Err_0 is InvalidClientId ==> port != 0 && (client_id@.len() == 0 || !plain(
            client_id@,
        )),
{
    lemma_plain(host@);
    lemma_plain(client_id@);
    crate::setup_laws::lemma_connectable(
        identity::ConnectionView {
            host: host@,
            port,
            client_id: client_id@,
            session_expiry_seconds: expiry@,
            request_capacity: capacity@,
        },
    );
}

/// A connection tells the coordinates it was configured with.
pub proof fn law_connections_tell_their_coordinates(
    connection: &MqttConnectionConfig,
    host: &str,
    port: u16,
    client_id: &str,
    expiry: NonZeroU32,
    capacity: NonZeroUsize,
)
    requires
        call_ensures(MqttConnectionConfig::host, (connection,), host),
        call_ensures(MqttConnectionConfig::port, (connection,), port),
        call_ensures(MqttConnectionConfig::client_id, (connection,), client_id),
        call_ensures(MqttConnectionConfig::session_expiry_seconds, (connection,), expiry),
        call_ensures(MqttConnectionConfig::request_capacity, (connection,), capacity),
    ensures
        host@ == connection@.host,
        port == connection@.port && port > 0,
        client_id@ == connection@.client_id,
        expiry@ == connection@.session_expiry_seconds,
        capacity@ == connection@.request_capacity,
{
}

} // verus!
