use smart_pot::error::SmartPotError;
use smart_pot::sas::{
    assemble_token, dps_resource_uri, generate_sas_token, generate_sas_token_dps,
    hub_resource_uri, message_to_sign, sign, token_from_signature,
};
use smart_pot::text::push_decimal;

const KEY: &str = "c21hcnQtcG90LXNoYXJlZC1rZXk=";

const HUB_TOKEN: &str = "SharedAccessSignature sr=myhub.example.net%2Fdevices%2Fdev1&sig=iXgvewbfkwur0ZdN8Xg6XWGaPB9fZcAd5QTtsEKifzc%3D&se=1700000000";

#[test]
fn hub_token_matches_fixed_vector() {
    let t = sign("myhub.example.net/devices/dev1", KEY, 1700000000, None).unwrap();
    assert_eq!(t, HUB_TOKEN);
    assert!(t.ends_with("&se=1700000000"));
    assert!(!t.contains("skn"));
}

#[test]
fn provisioning_variant_appends_key_name() {
    let t = sign("myhub.example.net/devices/dev1", KEY, 1700000000, Some("registration")).unwrap();
    assert_eq!(t, format!("{}&skn=registration", HUB_TOKEN));
}

#[test]
fn sign_is_deterministic() {
    let a = sign("myhub.example.net/devices/dev1", KEY, 1700000000, None);
    let b = sign("myhub.example.net/devices/dev1", KEY, 1700000000, None);
    assert_eq!(a, b);
}

#[test]
fn signature_changes_with_expiry() {
    let a = sign("myhub.example.net/devices/dev1", KEY, 1700000000, None).unwrap();
    let b = sign("myhub.example.net/devices/dev1", KEY, 1700000001, None).unwrap();
    assert_ne!(a, b);
}

#[test]
fn placeholder_key_is_a_key_decode_error() {
    let r = sign("myhub.example.net/devices/dev1", "BASE64KEY", 1700000000, None);
    assert_eq!(r, Err(SmartPotError::KeyDecodeError));
}

#[test]
fn key_with_invalid_symbols_is_rejected() {
    assert_eq!(
        generate_sas_token("myhub.example.net", "dev1", "not base64!", 1),
        Err(SmartPotError::KeyDecodeError)
    );
    assert_eq!(
        generate_sas_token_dps("scope", "reg", "@@@@", 1),
        Err(SmartPotError::KeyDecodeError)
    );
}

#[test]
fn generate_hub_token() {
    let t = generate_sas_token("myhub.example.net", "dev1", KEY, 1700000000).unwrap();
    assert_eq!(t, HUB_TOKEN);
}

#[test]
fn generate_provisioning_token() {
    let t = generate_sas_token_dps("0ne00ABC123", "pot-01", KEY, 1700003600).unwrap();
    assert_eq!(
        t,
        "SharedAccessSignature sr=0ne00ABC123%2Fregistrations%2Fpot-01&sig=4%2F8q9xVUVXzeSaywrgnukm682WKGhSqfSnmzVnImfio%3D&se=1700003600&skn=registration"
    );
}

#[test]
fn reserved_characters_are_percent_encoded() {
    let t = sign("hub.azure-devices.net/devices/dev 1", KEY, 0, None).unwrap();
    assert_eq!(
        t,
        "SharedAccessSignature sr=hub.azure-devices.net%2Fdevices%2Fdev%201&sig=%2BqXI6rzDJHglZaD%2BkmswIcTvJORFTTh0Ol8tDaNUhG8%3D&se=0"
    );
}

#[test]
fn token_from_known_signature() {
    let t = token_from_signature(
        "myhub.example.net/devices/dev1",
        "iXgvewbfkwur0ZdN8Xg6XWGaPB9fZcAd5QTtsEKifzc=",
        1700000000,
        None,
    );
    assert_eq!(t, HUB_TOKEN);
}

#[test]
fn assemble_token_puts_fields_in_order() {
    assert_eq!(
        assemble_token("a%2Fb", "c%3D", 42, Some("registration")),
        "SharedAccessSignature sr=a%2Fb&sig=c%3D&se=42&skn=registration"
    );
    assert_eq!(assemble_token("", "", 0, None), "SharedAccessSignature sr=&sig=&se=0");
}

#[test]
fn message_to_sign_has_line_feed_and_expiry() {
    assert_eq!(message_to_sign("h/devices/d", 1700000000), "h/devices/d\n1700000000");
}

#[test]
fn resource_uris() {
    assert_eq!(hub_resource_uri("myhub.example.net", "dev1"), "myhub.example.net/devices/dev1");
    assert_eq!(dps_resource_uri("0ne00ABC123", "pot-01"), "0ne00ABC123/registrations/pot-01");
}

#[test]
fn decimal_rendering() {
    for (n, text) in [(0u64, "0"), (7, "7"), (10, "10"), (1700000000, "1700000000"), (u64::MAX, "18446744073709551615")] {
        let mut s = String::from("x=");
        push_decimal(&mut s, n);
        assert_eq!(s, format!("x={}", text));
    }
}

#[test]
fn error_messages_are_distinct() {
    assert_ne!(SmartPotError::KeyDecodeError.message(), SmartPotError::AuthError.message());
    assert_ne!(SmartPotError::ProtocolError.message(), SmartPotError::TimeoutError.message());
}

#[test]
fn token_from_raw_digest() {
    let digest: Vec<u8> = (0u8..32).collect();
    let t = smart_pot::sas::token_from_digest("h/devices/d", &digest, 5, None);
    assert_eq!(
        t,
        "SharedAccessSignature sr=h%2Fdevices%2Fd&sig=AAECAwQFBgcICQoLDA0ODxAREhMUFRYXGBkaGxwdHh8%3D&se=5"
    );
}

#[test]
fn sign_with_decoded_key() {
    let t = smart_pot::sas::sign_with_key("myhub.example.net/devices/dev1", b"smart-pot-shared-key", 1700000000, None);
    assert_eq!(t, HUB_TOKEN);
}
