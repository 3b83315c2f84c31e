use charted_helm_plugin::auth::{HeaderValueError, Repr, ReprStrError, Secret};
use charted_helm_plugin::config::{Path, PathFromStrError};
use charted_helm_plugin::http::{CertKind, Certificate, CertificateFromStrError};
use charted_helm_plugin::name::{Name, NameError};

#[test]
fn repr_parse_empty() {
    assert!(Repr::from_str("") == Err(ReprStrError::Empty));
}

#[test]
fn repr_parse_excessive_delimiter() {
    assert!(Repr::from_str("basic:alice:pa:ss") == Err(ReprStrError::ExcessiveDelimiter { delim: ':' }));
}

#[test]
fn repr_parse_invalid_syntax() {
    assert!(Repr::from_str("basic:alice") == Err(ReprStrError::InvalidSyntax));
}

#[test]
fn repr_parse_unknown_prefix() {
    assert!(Repr::from_str("ftp:x") == Err(ReprStrError::UnknownPrefix));
}

#[test]
fn repr_parse_env_uppercases() {
    let parsed = Repr::from_str("env:charted_token").unwrap();
    assert!(parsed == Repr::EnvironmentVariable(String::from("CHARTED_TOKEN")));
}

#[test]
fn repr_parse_apikey() {
    let parsed = Repr::from_str("apikey:sekret").unwrap();
    assert!(parsed == Repr::ApiKey(Secret::new(String::from("sekret"))));
}

#[test]
fn repr_parse_apikey_empty_payload() {
    let parsed = Repr::from_str("apikey:").unwrap();
    assert!(parsed == Repr::ApiKey(Secret::new(String::new())));
}

#[test]
fn repr_parse_basic() {
    let parsed = Repr::from_str("basic:alice:pass").unwrap();
    assert!(
        parsed
            == Repr::Basic {
                username: String::from("alice"),
                password: Secret::new(String::from("pass")),
            }
    );
}

#[test]
fn repr_round_trips() {
    // each variant, rendered by the grammar and parsed back
    let env = Repr::from_str("env:CHARTED_TOKEN").unwrap();
    assert!(env == Repr::EnvironmentVariable(String::from("CHARTED_TOKEN")));
    let apikey = Repr::from_str("apikey:tok").unwrap();
    assert!(apikey == Repr::ApiKey(Secret::new(String::from("tok"))));
    let basic = Repr::from_str("basic:u:p").unwrap();
    assert!(
        basic
            == Repr::Basic { username: String::from("u"), password: Secret::new(String::from("p")) }
    );
}

#[test]
fn header_value_env_uses_the_resolved_value() {
    // the variable's value, read at use time, is the key; its name never is
    let repr = Repr::EnvironmentVariable(String::from("CHARTED_TOKEN"));
    assert!(repr.to_header_value(Some("s3kret")) == Ok(String::from("ApiKey s3kret")));
}

#[test]
fn header_value_env_without_a_value_fails() {
    let repr = Repr::EnvironmentVariable(String::from("CHARTED_TOKEN"));
    assert!(repr.to_header_value(None) == Err(HeaderValueError::MissingEnvironmentValue));
}

#[test]
fn header_value_apikey() {
    let repr = Repr::ApiKey(Secret::new(String::from("sekret")));
    assert!(repr.to_header_value(None) == Ok(String::from("ApiKey sekret")));
}

#[test]
fn header_value_basic_encodes() {
    let repr = Repr::Basic {
        username: String::from("alice"),
        password: Secret::new(String::from("pass")),
    };
    assert!(repr.to_header_value(None) == Ok(String::from("YWxpY2U6cGFzcw==")));
}

#[test]
fn header_value_basic_short() {
    let repr = Repr::Basic {
        username: String::from("u"),
        password: Secret::new(String::from("p")),
    };
    assert!(repr.to_header_value(None) == Ok(String::from("dTpw")));
}

#[test]
fn header_value_rejects_control_characters() {
    let repr = Repr::EnvironmentVariable(String::from("CHARTED_TOKEN"));
    assert!(
        repr.to_header_value(Some("bad\nvalue")) == Err(HeaderValueError::InvalidCharacter)
    );
    let key = Repr::ApiKey(Secret::new(String::from("bad\u{7f}key")));
    assert!(key.to_header_value(None) == Err(HeaderValueError::InvalidCharacter));
}

#[test]
fn secret_exposes_only_explicitly() {
    let secret = Secret::new(String::from("hunter2"));
    assert_eq!(secret.expose_secret(), "hunter2");
}

#[test]
fn name_parse_ok() {
    let name = Name::parse("noel").unwrap();
    assert_eq!(name.as_str(), "noel");
}

#[test]
fn name_parse_empty() {
    assert!(Name::parse("") == Err(NameError::Empty));
}

#[test]
fn name_parse_too_long() {
    assert!(Name::parse("abcdefghijklmnopqrstuvwxyz0123456") == Err(NameError::TooLong));
}

#[test]
fn name_parse_invalid_character() {
    assert!(Name::parse("we~ird") == Err(NameError::InvalidCharacter));
}

#[test]
fn path_parse_round_trip() {
    let path = Path::parse("noel/ume").unwrap();
    assert_eq!(path.owner.as_str(), "noel");
    assert_eq!(path.repository.as_str(), "ume");
    assert_eq!(path.to_string(), "noel/ume");
}

#[test]
fn path_parse_excessive_delimiter() {
    assert!(Path::parse("a/b/c") == Err(PathFromStrError::ExcessiveDelimiter { delim: '/' }));
}

#[test]
fn path_parse_invalid_syntax() {
    assert!(Path::parse("justowner") == Err(PathFromStrError::InvalidSyntax));
}

#[test]
fn path_parse_empty() {
    assert!(Path::parse("") == Err(PathFromStrError::Empty));
}

#[test]
fn path_parse_bad_owner() {
    assert!(Path::parse("we~ird/repo") == Err(PathFromStrError::Name(NameError::InvalidCharacter)));
}

#[test]
fn certificate_pem_prefix() {
    let cert = Certificate::from_str("pem:/etc/ssl/my.crt").unwrap();
    assert_eq!(cert.path(), "/etc/ssl/my.crt");
    assert!(cert.kind() == CertKind::Pem);
}

#[test]
fn certificate_der_prefix() {
    let cert = Certificate::from_str("der:certs/my.bin").unwrap();
    assert_eq!(cert.path(), "certs/my.bin");
    assert!(cert.kind() == CertKind::Der);
}

#[test]
fn certificate_pem_extension() {
    let cert = Certificate::from_str("certs/server.pem").unwrap();
    assert_eq!(cert.path(), "certs/server.pem");
    assert!(cert.kind() == CertKind::Pem);
}

#[test]
fn certificate_der_extension() {
    let cert = Certificate::from_str("server.der").unwrap();
    assert_eq!(cert.path(), "server.der");
    assert!(cert.kind() == CertKind::Der);
}

#[test]
fn certificate_invalid_extension() {
    assert!(
        Certificate::from_str("server.txt")
            == Err(CertificateFromStrError::InvalidExtension {
                path: String::from("server.txt"),
                ext: String::from("txt"),
            })
    );
}

#[test]
fn certificate_no_extension_defaults_to_pem() {
    let cert = Certificate::from_str("server").unwrap();
    assert_eq!(cert.path(), "server");
    assert!(cert.kind() == CertKind::Pem);
}

#[test]
fn certificate_empty() {
    assert!(Certificate::from_str("") == Err(CertificateFromStrError::Empty));
}

#[test]
fn repr_parse_env_empty_name() {
    assert!(Repr::from_str("env:") == Ok(Repr::EnvironmentVariable(String::new())));
}

#[test]
fn repr_parse_basic_empty_halves() {
    assert!(
        Repr::from_str("basic:alice:")
            == Ok(Repr::Basic {
                username: String::from("alice"),
                password: Secret::new(String::new()),
            })
    );
    assert!(
        Repr::from_str("basic::pass")
            == Ok(Repr::Basic {
                username: String::new(),
                password: Secret::new(String::from("pass")),
            })
    );
}

#[test]
fn header_value_basic_encodes_utf8() {
    let repr = Repr::Basic {
        username: String::from("alice"),
        password: Secret::new(String::from("p\u{e4}ss")),
    };
    assert!(repr.to_header_value(None) == Ok(String::from("YWxpY2U6cMOkc3M=")));
}

#[test]
fn name_parse_accepts_the_full_character_set() {
    let name = Name::parse("Mixed-CASE_09").unwrap();
    assert_eq!(name.as_str(), "Mixed-CASE_09");
}
