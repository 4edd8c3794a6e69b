use birds_psy::assemble::{assemble, PushRequest, TIME_TO_LIVE};
use birds_psy::codec::{decimal, key_conversion};
use birds_psy::encrypt::{
    encrypt, has_keys, EncryptedPayload, AUTH_SECRET_LENGTH, MAX_PLAINTEXT, PUBLIC_KEY_LENGTH,
};
use birds_psy::fanout::prepare;
use birds_psy::outcome::PushError;
use birds_psy::owner::EyeError;
use birds_psy::subscription::SubscriptionDescriptor;
use birds_psy::vapid::{SigningKeyPair, VapidAssertion};

const PRIVATE_KEY: &str = "IQ9Ur0ykXoHS9gzfYX0aBjy9lvdrjx_PFUXmie9YRcY";
const P256DH: &str =
    "BLMbF9ffKBiWQLCKvTHb6LO8Nb6dcUh6TItC455vu2kElga6PQvUmaFyCdykxY2nOSSL3yKgfbmFLRTUaGv4yV8";
const AUTH: &str = "xS03Fi5ErfTNH_l9WHE9Ig";

fn signer() -> SigningKeyPair {
    match SigningKeyPair::from_base64(PRIVATE_KEY) {
        Ok(signer) => signer,
        Err(_) => panic!("the key is valid"),
    }
}

fn header<'a>(request: &'a PushRequest, name: &str) -> Option<&'a str> {
    request.headers.iter().find(|h| h.name == name).map(|h| h.value.as_str())
}

fn url_safe(bytes: &[u8]) -> String {
    base64::encode_config(bytes, base64::URL_SAFE_NO_PAD)
}

#[test]
fn decimal_writes_numbers() {
    assert_eq!(decimal(0), "0");
    assert_eq!(decimal(7), "7");
    assert_eq!(decimal(10), "10");
    assert_eq!(decimal(305), "305");
    assert_eq!(decimal(3052), "3052");
    assert_eq!(decimal(2419200), "2419200");
    assert_eq!(decimal(1234567890), "1234567890");
    assert_eq!(decimal(usize::MAX), format!("{}", usize::MAX));
}

#[test]
fn key_conversion_decodes_base64url() {
    assert_eq!(key_conversion("AQID"), Ok(vec![1u8, 2, 3]));
    assert_eq!(key_conversion(""), Ok(vec![]));
    assert_eq!(key_conversion("-_8"), Ok(vec![0xfb, 0xff]));
    let key = match key_conversion(P256DH) {
        Ok(key) => key,
        Err(_) => panic!("the key is base64url"),
    };
    assert_eq!(key.len(), 65);
    assert_eq!(key[0], 4);
}

#[test]
fn key_conversion_refuses_other_text() {
    assert_eq!(key_conversion("!!!"), Err(EyeError::ConfigError));
    assert_eq!(key_conversion("AQID="), Err(EyeError::ConfigError));
    assert_eq!(key_conversion("+/8"), Err(EyeError::ConfigError));
    assert_eq!(key_conversion("A"), Err(EyeError::ConfigError));
}

#[test]
fn signing_key_loads_from_base64url() {
    let signer = signer();
    let public = signer.public_key_bytes();
    assert_eq!(public.len(), 65);
    assert_eq!(public[0], 4);
}

#[test]
fn malformed_signing_key_is_a_config_error() {
    assert!(matches!(SigningKeyPair::from_base64(""), Err(EyeError::ConfigError)));
    assert!(matches!(SigningKeyPair::from_base64("not base64 at all"), Err(EyeError::ConfigError)));
    assert!(matches!(SigningKeyPair::from_base64("AQID"), Err(EyeError::ConfigError)));
}

#[test]
fn assertion_carries_the_public_key() {
    let signer = signer();
    let assertion = match signer.sign("https://push.example/a") {
        Ok(assertion) => assertion,
        Err(e) => panic!("signing failed: {:?}", e),
    };
    assert_eq!(assertion.public_key, signer.public_key_bytes());
    assert_eq!(assertion.token.split('.').count(), 3);
}

#[test]
fn endpoint_without_origin_is_not_signed() {
    let signer = signer();
    assert!(matches!(signer.sign("not a uri"), Err(PushError::InvalidUri)));
    assert!(matches!(signer.sign(""), Err(PushError::InvalidUri)));
    assert!(matches!(signer.sign("push.example"), Err(PushError::InvalidUri)));
    assert!(matches!(signer.sign("/wpush/v1/abc"), Err(PushError::InvalidUri)));
}

#[test]
fn assertions_for_different_services_differ() {
    let signer = signer();
    let a = signer.sign("https://push.example/a").ok().map(|a| a.token);
    let b = signer.sign("https://updates.example.org/b").ok().map(|a| a.token);
    assert!(a.is_some());
    assert!(b.is_some());
    assert_ne!(a, b);
}

#[test]
fn no_message_is_an_empty_payload() {
    let d = SubscriptionDescriptor::new("https://push.example/a", P256DH, AUTH);
    assert!(matches!(encrypt(&d, None), Ok(EncryptedPayload::Empty)));
    let broken = SubscriptionDescriptor::new("https://push.example/a", "???", "???");
    assert!(matches!(encrypt(&broken, None), Ok(EncryptedPayload::Empty)));
    assert!(matches!(encrypt(&d, Some("".as_bytes())), Ok(EncryptedPayload::Empty)));
}

#[test]
fn malformed_keys_are_an_error_for_an_empty_message_too() {
    let empty = Some("".as_bytes());
    let bad_auth = SubscriptionDescriptor::new("https://push.example/a", P256DH, "!!!");
    assert!(matches!(encrypt(&bad_auth, empty), Err(PushError::InvalidCryptoKeys)));
    let bad_key = SubscriptionDescriptor::new("https://push.example/a", "???", AUTH);
    assert!(matches!(encrypt(&bad_key, empty), Err(PushError::InvalidCryptoKeys)));
    let short_auth = SubscriptionDescriptor::new("https://push.example/a", P256DH, "AQID");
    assert!(matches!(encrypt(&short_auth, empty), Err(PushError::InvalidCryptoKeys)));
    let no_keys = SubscriptionDescriptor::new("https://push.example/a", "", "");
    assert!(matches!(encrypt(&no_keys, empty), Err(PushError::InvalidCryptoKeys)));
    assert!(!has_keys(&bad_auth));
    assert!(!has_keys(&bad_key));
    assert!(!has_keys(&short_auth));
    assert!(!has_keys(&no_keys));
    assert!(has_keys(&SubscriptionDescriptor::new("nowhere", P256DH, AUTH)));
    assert!(matches!(
        prepare(&signer(), &bad_auth, &Some(String::new())),
        Err(PushError::InvalidCryptoKeys)
    ));
}

#[test]
fn public_key_must_be_the_uncompressed_point() {
    let full = match key_conversion(P256DH) {
        Ok(full) => full,
        Err(_) => panic!("the key is base64url"),
    };
    let mut compressed = vec![2 + (full[64] & 1)];
    compressed.extend_from_slice(&full[1..33]);
    let d = SubscriptionDescriptor::new("https://push.example/a", &url_safe(&compressed), AUTH);
    assert!(!has_keys(&d));
    assert!(matches!(encrypt(&d, Some("Demo".as_bytes())), Err(PushError::InvalidCryptoKeys)));
    assert_eq!((PUBLIC_KEY_LENGTH, AUTH_SECRET_LENGTH), (65, 16));
}

#[test]
fn too_long_a_message_is_told_from_malformed_keys() {
    let too_long = vec![b'x'; MAX_PLAINTEXT + 1];
    let bad_auth = SubscriptionDescriptor::new("https://push.example/a", P256DH, "!!!");
    assert!(matches!(encrypt(&bad_auth, Some(&too_long)), Err(PushError::InvalidCryptoKeys)));
    let nowhere = SubscriptionDescriptor::new("not a uri", P256DH, AUTH);
    assert!(matches!(encrypt(&nowhere, Some(&too_long)), Err(PushError::InvalidUri)));
    let d = SubscriptionDescriptor::new("https://push.example/a", P256DH, AUTH);
    assert!(matches!(
        prepare(&signer(), &d, &Some("x".repeat(MAX_PLAINTEXT + 1))),
        Err(PushError::PayloadTooLarge)
    ));
}

#[test]
fn message_is_encrypted() {
    let d = SubscriptionDescriptor::new("https://push.example/a", P256DH, AUTH);
    let bytes = match encrypt(&d, Some("Demo".as_bytes())) {
        Ok(EncryptedPayload::Aes128Gcm(bytes)) => bytes,
        other => panic!("no ciphertext: {:?}", other),
    };
    assert!(bytes.len() > "Demo".len());
    assert!(!bytes.windows(4).any(|w| w == "Demo".as_bytes()));
}

#[test]
fn payloads_are_fresh_for_every_call() {
    let a = SubscriptionDescriptor::new("https://push.example/a", P256DH, AUTH);
    let first = match encrypt(&a, Some("Demo".as_bytes())) {
        Ok(EncryptedPayload::Aes128Gcm(bytes)) => bytes,
        other => panic!("no ciphertext: {:?}", other),
    };
    let second = match encrypt(&a, Some("Demo".as_bytes())) {
        Ok(EncryptedPayload::Aes128Gcm(bytes)) => bytes,
        other => panic!("no ciphertext: {:?}", other),
    };
    assert_ne!(first, second);
    assert_ne!(first[..16], second[..16]);
}

#[test]
fn payloads_for_two_subscribers_differ() {
    let (key_b, auth_b) = match ece::generate_keypair_and_auth_secret() {
        Ok(pair) => pair,
        Err(e) => panic!("no key pair: {:?}", e),
    };
    let public_b = match key_b.raw_components() {
        Ok(components) => url_safe(components.public_key()),
        Err(e) => panic!("no components: {:?}", e),
    };
    let signer = signer();
    let a = SubscriptionDescriptor::new("https://push.example/a", P256DH, AUTH);
    let b = SubscriptionDescriptor::new("https://updates.example.org/b", &public_b, &url_safe(&auth_b));
    let msg = Some("Demo".to_string());
    let for_a = match prepare(&signer, &a, &msg) {
        Ok(request) => request,
        Err(e) => panic!("a failed: {:?}", e),
    };
    let for_b = match prepare(&signer, &b, &msg) {
        Ok(request) => request,
        Err(e) => panic!("b failed: {:?}", e),
    };
    assert_ne!(for_a.body, for_b.body);
    assert_ne!(header(&for_a, "Authorization"), header(&for_b, "Authorization"));
    assert_eq!(for_a.url, "https://push.example/a");
    assert_eq!(for_b.url, "https://updates.example.org/b");
}

#[test]
fn subscriber_can_decrypt_its_message() {
    let (key, auth) = match ece::generate_keypair_and_auth_secret() {
        Ok(pair) => pair,
        Err(e) => panic!("no key pair: {:?}", e),
    };
    let components = match key.raw_components() {
        Ok(components) => components,
        Err(e) => panic!("no components: {:?}", e),
    };
    let d = SubscriptionDescriptor::new(
        "https://push.example/a",
        &url_safe(components.public_key()),
        &url_safe(&auth),
    );
    let plaintext = "Demo av notifikation";
    let bytes = match encrypt(&d, Some(plaintext.as_bytes())) {
        Ok(EncryptedPayload::Aes128Gcm(bytes)) => bytes,
        other => panic!("no ciphertext: {:?}", other),
    };
    let back = match ece::decrypt(&components, &auth, &bytes) {
        Ok(back) => back,
        Err(e) => panic!("the subscriber cannot decrypt: {:?}", e),
    };
    assert_eq!(back, plaintext.as_bytes());
}

#[test]
fn malformed_keys_are_an_encryption_error() {
    let bad_auth = SubscriptionDescriptor::new("https://push.example/a", P256DH, "!!not base64!!");
    assert!(matches!(
        encrypt(&bad_auth, Some("Demo".as_bytes())),
        Err(PushError::InvalidCryptoKeys)
    ));
    let short_auth = SubscriptionDescriptor::new("https://push.example/a", P256DH, "AQID");
    assert!(matches!(
        encrypt(&short_auth, Some("Demo".as_bytes())),
        Err(PushError::InvalidCryptoKeys)
    ));
    let bad_key = SubscriptionDescriptor::new("https://push.example/a", "AQID", AUTH);
    assert!(matches!(
        encrypt(&bad_key, Some("Demo".as_bytes())),
        Err(PushError::InvalidCryptoKeys)
    ));
}

#[test]
fn message_length_limit() {
    let d = SubscriptionDescriptor::new("https://push.example/a", P256DH, AUTH);
    let longest = vec![b'x'; MAX_PLAINTEXT];
    assert!(matches!(encrypt(&d, Some(&longest)), Ok(EncryptedPayload::Aes128Gcm(_))));
    let too_long = vec![b'x'; MAX_PLAINTEXT + 1];
    assert!(matches!(encrypt(&d, Some(&too_long)), Err(PushError::PayloadTooLarge)));
    assert_eq!(MAX_PLAINTEXT, 3052);
}

#[test]
fn request_with_payload_has_all_headers() {
    let d = SubscriptionDescriptor::new("https://push.example/a", P256DH, AUTH);
    let assertion = VapidAssertion { token: "a.b.c".to_string(), public_key: vec![1, 2, 3] };
    let request = assemble(&d, &assertion, EncryptedPayload::Aes128Gcm(vec![9; 305]));
    assert_eq!(request.url, "https://push.example/a");
    assert_eq!(request.body, vec![9u8; 305]);
    let lines: Vec<(&str, &str)> =
        request.headers.iter().map(|h| (h.name.as_str(), h.value.as_str())).collect();
    assert_eq!(
        lines,
        vec![
            ("TTL", "2419200"),
            ("Content-Encoding", "aes128gcm"),
            ("Content-Length", "305"),
            ("Content-Type", "application/octet-stream"),
            ("Authorization", "vapid t=a.b.c, k=AQID"),
        ]
    );
    assert_eq!(TIME_TO_LIVE, 2419200);
}

#[test]
fn request_without_payload_has_empty_body() {
    let d = SubscriptionDescriptor::new("https://push.example/a", P256DH, AUTH);
    let assertion = VapidAssertion { token: "a.b.c".to_string(), public_key: vec![0xfb, 0xff] };
    let request = assemble(&d, &assertion, EncryptedPayload::Empty);
    assert_eq!(request.url, "https://push.example/a");
    assert!(request.body.is_empty());
    let lines: Vec<(&str, &str)> =
        request.headers.iter().map(|h| (h.name.as_str(), h.value.as_str())).collect();
    assert_eq!(lines, vec![("TTL", "2419200"), ("Authorization", "vapid t=a.b.c, k=-_8")]);
}

#[test]
fn prepared_request_is_addressed_and_signed() {
    let signer = signer();
    let d = SubscriptionDescriptor::new("https://push.example/a", P256DH, AUTH);
    let request = match prepare(&signer, &d, &Some("Demo".to_string())) {
        Ok(request) => request,
        Err(e) => panic!("not prepared: {:?}", e),
    };
    assert_eq!(request.url, "https://push.example/a");
    assert_eq!(header(&request, "Content-Encoding"), Some("aes128gcm"));
    assert_eq!(header(&request, "Content-Length"), Some(format!("{}", request.body.len()).as_str()));
    let authorization = match header(&request, "Authorization") {
        Some(value) => value,
        None => panic!("no assertion"),
    };
    assert!(authorization.starts_with("vapid t="));
    assert!(authorization.ends_with(&format!(", k={}", url_safe(&signer.public_key_bytes()))));
}

#[test]
fn prepared_tickle_has_no_payload() {
    let signer = signer();
    let d = SubscriptionDescriptor::new("https://push.example/a", "???", "???");
    let request = match prepare(&signer, &d, &None) {
        Ok(request) => request,
        Err(e) => panic!("not prepared: {:?}", e),
    };
    assert!(request.body.is_empty());
    assert_eq!(header(&request, "Content-Encoding"), None);
    assert!(header(&request, "Authorization").is_some());
}

#[test]
fn prepare_reports_the_first_failure() {
    let signer = signer();
    let no_origin = SubscriptionDescriptor::new("nowhere", "???", "???");
    assert!(matches!(
        prepare(&signer, &no_origin, &Some("Demo".to_string())),
        Err(PushError::InvalidUri)
    ));
    let bad_keys = SubscriptionDescriptor::new("https://push.example/a", P256DH, "???");
    assert!(matches!(
        prepare(&signer, &bad_keys, &Some("Demo".to_string())),
        Err(PushError::InvalidCryptoKeys)
    ));
}

#[test]
fn keys_of_the_wrong_length_are_a_config_error() {
    let zeros = "A".repeat(43);
    assert!(matches!(SigningKeyPair::from_base64(&zeros), Err(EyeError::ConfigError)));
    let thirty_one = url_safe(&[7u8; 31]);
    assert!(matches!(SigningKeyPair::from_base64(&thirty_one), Err(EyeError::ConfigError)));
    let thirty_three = url_safe(&[7u8; 33]);
    assert!(matches!(SigningKeyPair::from_base64(&thirty_three), Err(EyeError::ConfigError)));
    let ones = url_safe(&[0xffu8; 32]);
    assert!(matches!(SigningKeyPair::from_base64(&ones), Err(EyeError::ConfigError)));
    let thirty_two = url_safe(&[7u8; 32]);
    assert!(SigningKeyPair::from_base64(&thirty_two).is_ok());
}

#[test]
fn empty_and_odd_key_material_is_an_encryption_error() {
    let msg = Some("Demo".as_bytes());
    let empty = SubscriptionDescriptor::new("https://push.example/a", "", "");
    assert!(matches!(encrypt(&empty, msg), Err(PushError::InvalidCryptoKeys)));
    let no_auth = SubscriptionDescriptor::new("https://push.example/a", P256DH, "");
    assert!(matches!(encrypt(&no_auth, msg), Err(PushError::InvalidCryptoKeys)));
    let off_curve = url_safe(&[4u8; 65]);
    let not_a_point = SubscriptionDescriptor::new("https://push.example/a", &off_curve, AUTH);
    assert!(matches!(encrypt(&not_a_point, msg), Err(PushError::InvalidCryptoKeys)));
    let long = url_safe(&[4u8; 4000]);
    let too_much = SubscriptionDescriptor::new("https://push.example/a", &long, &long);
    assert!(matches!(encrypt(&too_much, msg), Err(PushError::InvalidCryptoKeys)));
    let nowhere = SubscriptionDescriptor::new("not a uri", P256DH, AUTH);
    assert!(matches!(encrypt(&nowhere, msg), Err(PushError::InvalidUri)));
}

#[test]
fn endpoints_of_many_shapes_are_signed_or_refused() {
    let signer = signer();
    assert!(signer.sign("https://push.example").is_ok());
    assert!(signer.sign("http://localhost:8080/push/1?x=y").is_ok());
    assert!(signer.sign("https://[::1]:443/push").is_ok());
    assert!(matches!(signer.sign("https://"), Err(PushError::InvalidUri)));
    assert!(matches!(signer.sign("*"), Err(PushError::InvalidUri)));
    assert!(matches!(signer.sign("localhost:8080"), Err(PushError::InvalidUri)));
    assert!(matches!(signer.sign("https://push.example/a b"), Err(PushError::InvalidUri)));
    assert!(matches!(signer.sign("mailto:someone@push.example"), Err(PushError::InvalidUri)));
}

fn lines_of(request: &PushRequest) -> Vec<(String, String)> {
    let mut lines: Vec<(String, String)> = request
        .headers
        .iter()
        .map(|h| (h.name.to_ascii_lowercase(), h.value.clone()))
        .collect();
    lines.sort();
    lines
}

fn lines_of_posted(posted: &http::Request<Vec<u8>>) -> Vec<(String, String)> {
    let mut lines: Vec<(String, String)> = posted
        .headers()
        .iter()
        .map(|(name, value)| {
            (name.as_str().to_string(), String::from_utf8_lossy(value.as_bytes()).into_owned())
        })
        .collect();
    lines.sort();
    lines
}

#[test]
fn request_agrees_with_the_request_builder_of_web_push() {
    let signer = signer();
    let d = SubscriptionDescriptor::new("https://push.example/wpush/v1/abc", P256DH, AUTH);
    let assertion = match signer.sign(&d.endpoint) {
        Ok(assertion) => assertion,
        Err(e) => panic!("signing failed: {:?}", e),
    };
    let content = vec![5u8; 1234];
    let authorization =
        format!("vapid t={}, k={}", assertion.token, url_safe(&assertion.public_key));
    let message = web_push::WebPushMessage {
        endpoint: match d.endpoint.parse() {
            Ok(uri) => uri,
            Err(_) => panic!("the endpoint is a uri"),
        },
        ttl: 2_419_200,
        urgency: None,
        topic: None,
        payload: Some(web_push::WebPushPayload {
            content: content.clone(),
            crypto_headers: vec![("Authorization", authorization)],
            content_encoding: web_push::ContentEncoding::Aes128Gcm,
        }),
    };
    let posted = web_push::request_builder::build_request::<Vec<u8>>(message);
    let request = assemble(&d, &assertion, EncryptedPayload::Aes128Gcm(content));
    assert_eq!(posted.uri().to_string(), request.url);
    assert_eq!(posted.method().as_str(), "POST");
    assert_eq!(lines_of_posted(&posted), lines_of(&request));
    assert_eq!(posted.body(), &request.body);
}

#[test]
fn ttl_is_the_default_of_the_message_builder() {
    let info = web_push::SubscriptionInfo::new("https://push.example/a", P256DH, AUTH);
    let message = match web_push::WebPushMessageBuilder::new(&info).build() {
        Ok(message) => message,
        Err(e) => panic!("not built: {:?}", e),
    };
    assert_eq!(message.ttl as usize, TIME_TO_LIVE);
    let posted = web_push::request_builder::build_request::<Vec<u8>>(message);
    assert!(posted.body().is_empty());
}

#[test]
fn short_and_non_ascii_messages_are_encrypted() {
    let (key, auth) = match ece::generate_keypair_and_auth_secret() {
        Ok(pair) => pair,
        Err(e) => panic!("no key pair: {:?}", e),
    };
    let components = match key.raw_components() {
        Ok(components) => components,
        Err(e) => panic!("no components: {:?}", e),
    };
    let d = SubscriptionDescriptor::new(
        "https://push.example/a",
        &url_safe(components.public_key()),
        &url_safe(&auth),
    );
    let nothing = match prepare(&signer(), &d, &Some(String::new())) {
        Ok(request) => request,
        Err(e) => panic!("not prepared: {:?}", e),
    };
    assert!(nothing.body.is_empty());
    assert_eq!(header(&nothing, "Content-Encoding"), None);
    for plaintext in ["x", "N\u{e5}got gick fel", "\u{1f514}"] {
        let request = match prepare(&signer(), &d, &Some(plaintext.to_string())) {
            Ok(request) => request,
            Err(e) => panic!("not prepared: {:?} for {:?}", e, plaintext),
        };
        assert_eq!(header(&request, "Content-Encoding"), Some("aes128gcm"));
        let back = match ece::decrypt(&components, &auth, &request.body) {
            Ok(back) => back,
            Err(e) => panic!("the subscriber cannot decrypt: {:?}", e),
        };
        assert_eq!(back, plaintext.as_bytes());
    }
}
