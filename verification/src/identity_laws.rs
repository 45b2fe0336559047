//! The texts that name a device session determine the session.

use crate::identity;
use crate::identity::IdentityView;
use crate::text;
use vstd::prelude::*;

verus! {

proof fn lemma_hex_digit_injective(a: u8, b: u8)
    requires
        a < 16,
        b < 16,
        text::hex_digit(a) == text::hex_digit(b),
    ensures
        a == b,
{
}

/// Different bytes have different hexadecimal renderings.
pub proof fn lemma_hex_injective(a: Seq<u8>, b: Seq<u8>)
    requires
        text::hex(a) == text::hex(b),
    ensures
        a == b,
{
    let x = text::hex(a);
    let y = text::hex(b);
    assert(x.len() == 2 * a.len() && y.len() == 2 * b.len());
    assert forall|i: int| 0 <= i < a.len() implies a[i] == b[i] by {
        assert(x[2 * i] == y[2 * i]);
        assert(x[2 * i + 1] == y[2 * i + 1]);
        assert((2 * i) / 2 == i && (2 * i + 1) / 2 == i);
        lemma_hex_digit_injective(a[i] / 16, b[i] / 16);
        lemma_hex_digit_injective(a[i] % 16, b[i] % 16);
    }
    assert(a =~= b);
}

/// The canonical text of an identifier has 36 characters.
pub proof fn lemma_hyphenated_len(value: u128)
    ensures
        identity::hyphenated(value).len() == 36,
{
    reveal_strlit("-");
    text::lemma_be_bytes_len(value as nat, 16);
}

/// Different identifiers have different canonical texts.
pub proof fn lemma_hyphenated_injective(a: u128, b: u128)
    requires
        identity::hyphenated(a) == identity::hyphenated(b),
    ensures
        a == b,
{
    reveal_strlit("-");
    text::lemma_be_bytes_len(a as nat, 16);
    text::lemma_be_bytes_len(b as nat, 16);
    let x = text::hex(text::be_bytes(a as nat, 16));
    let y = text::hex(text::be_bytes(b as nat, 16));
    let s = identity::hyphenated(a);
    let t = identity::hyphenated(b);
    assert forall|i: int| 0 <= i < 32 implies x[i] == y[i] by {
        let k = if i < 8 {
            i
        } else if i < 12 {
            i + 1
        } else if i < 16 {
            i + 2
        } else if i < 20 {
            i + 3
        } else {
            i + 4
        };
        assert(s[k] == x[i]);
        assert(t[k] == y[i]);
    }
    assert(x =~= y);
    lemma_hex_injective(text::be_bytes(a as nat, 16), text::be_bytes(b as nat, 16));
    text::lemma_pow_256();
    text::lemma_be_bytes_injective(a as nat, b as nat, 16);
}

proof fn lemma_decimal_digit_injective(a: nat, b: nat)
    requires
        a < 10,
        b < 10,
        text::decimal_digit(a) == text::decimal_digit(b),
    ensures
        a == b,
{
}

proof fn lemma_decimal_len(n: nat)
    ensures
        text::decimal(n).len() >= 1,
        n >= 10 ==> text::decimal(n).len() >= 2,
    decreases n,
{
    if n >= 10 {
        lemma_decimal_len(n / 10);
    }
}

/// Different numbers have different decimal renderings.
pub proof fn lemma_decimal_injective(a: nat, b: nat)
    requires
        text::decimal(a) == text::decimal(b),
    ensures
        a == b,
    decreases a,
{
    lemma_decimal_len(a);
    lemma_decimal_len(b);
    if a < 10 && b < 10 {
        assert(text::decimal(a)[0] == text::decimal_digit(a));
        assert(text::decimal(b)[0] == text::decimal_digit(b));
        lemma_decimal_digit_injective(a, b);
    } else if a >= 10 && b >= 10 {
        assert(text::decimal(a).drop_last() =~= text::decimal(a / 10));
        assert(text::decimal(b).drop_last() =~= text::decimal(b / 10));
        assert(text::decimal(a).last() == text::decimal_digit(a % 10));
        assert(text::decimal(b).last() == text::decimal_digit(b % 10));
        lemma_decimal_digit_injective(a % 10, b % 10);
        lemma_decimal_injective(a / 10, b / 10);
    }
}

/// The principal text determines tenant, device and credential generation.
pub proof fn law_principal_names_one_identity(a: IdentityView, b: IdentityView)
    requires
        a.principal_urn() == b.principal_urn(),
    ensures
        a == b,
{
    reveal_strlit("urn:rss:mqtt-device:v1:");
    reveal_strlit(":");
    let s = a.principal_urn();
    let t = b.principal_urn();
    lemma_hyphenated_len(a.tenant);
    lemma_hyphenated_len(b.tenant);
    lemma_hyphenated_len(a.device);
    lemma_hyphenated_len(b.device);
    let p = "urn:rss:mqtt-device:v1:"@.len() as int;
    assert(s.subrange(p, p + 36) =~= identity::hyphenated(a.tenant));
    assert(t.subrange(p, p + 36) =~= identity::hyphenated(b.tenant));
    assert(s.subrange(p + 37, p + 73) =~= identity::hyphenated(a.device));
    assert(t.subrange(p + 37, p + 73) =~= identity::hyphenated(b.device));
    assert(s.skip(p + 74) =~= text::decimal(a.credential_generation as nat));
    assert(t.skip(p + 74) =~= text::decimal(b.credential_generation as nat));
    lemma_hyphenated_injective(a.tenant, b.tenant);
    lemma_hyphenated_injective(a.device, b.device);
    lemma_decimal_injective(a.credential_generation as nat, b.credential_generation as nat);
}

/// The command topic binds tenant, device and credential generation: two
/// identities that accept the same command topic are the same identity.
pub proof fn law_command_topic_names_one_identity(a: IdentityView, b: IdentityView)
    requires
        a.command_topic() == b.command_topic(),
    ensures
        a == b,
{
    reveal_strlit("rss/v1/");
    reveal_strlit("/");
    let s = a.command_topic();
    let t = b.command_topic();
    lemma_hyphenated_len(a.tenant);
    lemma_hyphenated_len(b.tenant);
    lemma_hyphenated_len(a.device);
    lemma_hyphenated_len(b.device);
    let tail = "downlink/identity.commands.apply-device-certificate"@;
    let x = text::decimal(a.credential_generation as nat);
    let y = text::decimal(b.credential_generation as nat);
    assert(s.len() == 7 + 36 + 1 + 36 + 1 + x.len() + 1 + tail.len());
    assert(t.len() == 7 + 36 + 1 + 36 + 1 + y.len() + 1 + tail.len());
    assert(s.subrange(7, 43) =~= identity::hyphenated(a.tenant));
    assert(t.subrange(7, 43) =~= identity::hyphenated(b.tenant));
    assert(s.subrange(44, 80) =~= identity::hyphenated(a.device));
    assert(t.subrange(44, 80) =~= identity::hyphenated(b.device));
    assert(s.subrange(81, 81 + x.len() as int) =~= x);
    assert(t.subrange(81, 81 + y.len() as int) =~= y);
    lemma_hyphenated_injective(a.tenant, b.tenant);
    lemma_hyphenated_injective(a.device, b.device);
    lemma_decimal_injective(a.credential_generation as nat, b.credential_generation as nat);
}

/// The MQTT client identity determines tenant and device, and stays the
/// same over credential generations.
pub proof fn law_client_id_names_one_device(a: IdentityView, b: IdentityView)
    ensures
        a.mqtt_client_id() == b.mqtt_client_id() <==> a.tenant == b.tenant && a.device == b.device,
{
    if a.mqtt_client_id() == b.mqtt_client_id() {
        reveal_strlit("rss-reference-device-");
        reveal_strlit("-");
        let s = a.mqtt_client_id();
        let t = b.mqtt_client_id();
        lemma_hyphenated_len(a.tenant);
        lemma_hyphenated_len(b.tenant);
        lemma_hyphenated_len(a.device);
        lemma_hyphenated_len(b.device);
        let p = "rss-reference-device-"@.len() as int;
        assert(s.subrange(p, p + 36) =~= identity::hyphenated(a.tenant));
        assert(t.subrange(p, p + 36) =~= identity::hyphenated(b.tenant));
        assert(s.skip(p + 37) =~= identity::hyphenated(a.device));
        assert(t.skip(p + 37) =~= identity::hyphenated(b.device));
        lemma_hyphenated_injective(a.tenant, b.tenant);
        lemma_hyphenated_injective(a.device, b.device);
    }
}

} // verus!
