use manual_signaling::codec::{decode, encode};
use manual_signaling::descriptor::{SdpKind, SessionDescriptor, SignalingMessage};
use manual_signaling::error::SignalError;

fn descriptor(kind: SdpKind, sdp: &str) -> SessionDescriptor {
    SessionDescriptor::new(kind, sdp.to_string())
}

#[test]
fn kinds_have_their_words() {
    assert_eq!(SdpKind::Offer.as_str(), "offer");
    assert_eq!(SdpKind::Pranswer.as_str(), "pranswer");
    assert_eq!(SdpKind::Answer.as_str(), "answer");
    assert_eq!(SdpKind::Rollback.as_str(), "rollback");
}

#[test]
fn words_have_their_kinds() {
    assert_eq!(SdpKind::from_tag("offer"), Some(SdpKind::Offer));
    assert_eq!(SdpKind::from_tag("pranswer"), Some(SdpKind::Pranswer));
    assert_eq!(SdpKind::from_tag("answer"), Some(SdpKind::Answer));
    assert_eq!(SdpKind::from_tag("rollback"), Some(SdpKind::Rollback));
    assert_eq!(SdpKind::from_tag("Offer"), None);
    assert_eq!(SdpKind::from_tag("Unspecified"), None);
    assert_eq!(SdpKind::from_tag(""), None);
    assert_eq!(SdpKind::from_tag("offer "), None);
}

#[test]
fn every_kind_is_the_kind_of_its_word() {
    for kind in [SdpKind::Offer, SdpKind::Pranswer, SdpKind::Answer, SdpKind::Rollback] {
        assert_eq!(SdpKind::from_tag(kind.as_str()), Some(kind));
    }
}

#[test]
fn new_keeps_its_arguments() {
    let d = SessionDescriptor::new(SdpKind::Answer, "v=0".to_string());
    assert_eq!(d.kind(), SdpKind::Answer);
    assert_eq!(d.sdp(), "v=0");
}

#[test]
fn to_json_writes_type_then_sdp() {
    assert_eq!(
        descriptor(SdpKind::Offer, "sdp").to_json(),
        Ok("{\"type\":\"offer\",\"sdp\":\"sdp\"}".to_string())
    );
    assert_eq!(
        descriptor(SdpKind::Pranswer, "sdp").to_json(),
        Ok("{\"type\":\"pranswer\",\"sdp\":\"sdp\"}".to_string())
    );
    assert_eq!(
        descriptor(SdpKind::Answer, "sdp").to_json(),
        Ok("{\"type\":\"answer\",\"sdp\":\"sdp\"}".to_string())
    );
    assert_eq!(
        descriptor(SdpKind::Rollback, "sdp").to_json(),
        Ok("{\"type\":\"rollback\",\"sdp\":\"sdp\"}".to_string())
    );
}

#[test]
fn to_json_escapes_the_session_description() {
    assert_eq!(
        descriptor(SdpKind::Offer, "v=0\r\ns=\"x\"\\\r\n").to_json(),
        Ok("{\"type\":\"offer\",\"sdp\":\"v=0\\r\\ns=\\\"x\\\"\\\\\\r\\n\"}".to_string())
    );
}

#[test]
fn from_json_reads_the_two_members() {
    assert_eq!(
        SessionDescriptor::from_json("{\"type\":\"offer\",\"sdp\":\"v=0\"}"),
        Ok(descriptor(SdpKind::Offer, "v=0"))
    );
    assert_eq!(
        SessionDescriptor::from_json(" { \"sdp\" : \"a\\nb\" , \"type\" : \"answer\" } "),
        Ok(descriptor(SdpKind::Answer, "a\nb"))
    );
}

#[test]
fn from_json_passes_over_other_members() {
    assert_eq!(
        SessionDescriptor::from_json(
            "{\"type\":\"rollback\",\"extra\":[1,2,{\"sdp\":\"no\"}],\"sdp\":\"\",\"n\":null}"
        ),
        Ok(descriptor(SdpKind::Rollback, ""))
    );
}

#[test]
fn from_json_takes_the_last_of_members_that_come_twice() {
    assert_eq!(
        SessionDescriptor::from_json("{\"type\":\"offer\",\"sdp\":\"a\",\"type\":\"answer\"}"),
        Ok(descriptor(SdpKind::Answer, "a"))
    );
}

#[test]
fn from_json_reads_escapes() {
    assert_eq!(
        SessionDescriptor::from_json("{\"type\":\"\\u006fffer\",\"sdp\":\"\\u00e9\\n\"}"),
        Ok(descriptor(SdpKind::Offer, "é\n"))
    );
}

#[test]
fn from_json_refuses_what_is_not_json() {
    assert_eq!(SessionDescriptor::from_json(""), Err(SignalError::InvalidJson));
    assert_eq!(SessionDescriptor::from_json("{"), Err(SignalError::InvalidJson));
    assert_eq!(SessionDescriptor::from_json("offer"), Err(SignalError::InvalidJson));
    assert_eq!(
        SessionDescriptor::from_json("{\"type\":\"offer\",\"sdp\":\"v=0\"} x"),
        Err(SignalError::InvalidJson)
    );
}

#[test]
fn from_json_asks_for_a_type() {
    assert_eq!(SessionDescriptor::from_json("{}"), Err(SignalError::MissingType));
    assert_eq!(SessionDescriptor::from_json("{\"sdp\":\"v=0\"}"), Err(SignalError::MissingType));
    assert_eq!(
        SessionDescriptor::from_json("{\"type\":1,\"sdp\":\"v=0\"}"),
        Err(SignalError::MissingType)
    );
    assert_eq!(SessionDescriptor::from_json("[\"offer\",\"v=0\"]"), Err(SignalError::MissingType));
    assert_eq!(SessionDescriptor::from_json("\"offer\""), Err(SignalError::MissingType));
    assert_eq!(SessionDescriptor::from_json("null"), Err(SignalError::MissingType));
}

#[test]
fn from_json_asks_for_a_known_type() {
    assert_eq!(
        SessionDescriptor::from_json("{\"type\":\"Unspecified\",\"sdp\":\"v=0\"}"),
        Err(SignalError::UnknownType)
    );
    assert_eq!(
        SessionDescriptor::from_json("{\"type\":\"\",\"sdp\":\"v=0\"}"),
        Err(SignalError::UnknownType)
    );
    assert_eq!(SessionDescriptor::from_json("{\"type\":\"OFFER\"}"), Err(SignalError::UnknownType));
}

#[test]
fn from_json_asks_for_an_sdp() {
    assert_eq!(SessionDescriptor::from_json("{\"type\":\"offer\"}"), Err(SignalError::MissingSdp));
    assert_eq!(
        SessionDescriptor::from_json("{\"type\":\"offer\",\"sdp\":null}"),
        Err(SignalError::MissingSdp)
    );
    assert_eq!(
        SessionDescriptor::from_json("{\"type\":\"offer\",\"sdp\":{\"v\":0}}"),
        Err(SignalError::MissingSdp)
    );
}

#[test]
fn from_fields_follows_the_same_order() {
    assert_eq!(SessionDescriptor::from_fields(None, None), Err(SignalError::MissingType));
    assert_eq!(
        SessionDescriptor::from_fields(None, Some("v=0".to_string())),
        Err(SignalError::MissingType)
    );
    assert_eq!(
        SessionDescriptor::from_fields(Some("nope".to_string()), None),
        Err(SignalError::UnknownType)
    );
    assert_eq!(
        SessionDescriptor::from_fields(Some("answer".to_string()), None),
        Err(SignalError::MissingSdp)
    );
    assert_eq!(
        SessionDescriptor::from_fields(Some("answer".to_string()), Some("v=0".to_string())),
        Ok(descriptor(SdpKind::Answer, "v=0"))
    );
}

#[test]
fn json_round_trip() {
    for kind in [SdpKind::Offer, SdpKind::Pranswer, SdpKind::Answer, SdpKind::Rollback] {
        let sdps = [
            "",
            "v=0",
            "v=0\r\no=- 0 0 IN IP4 0.0.0.0\r\n",
            "\"\\/\u{8}\u{c}\n\r\t\u{0}\u{7f}é日本\u{1F600}",
        ];
        for sdp in sdps {
            let d = descriptor(kind, sdp);
            let json = d.to_json().unwrap();
            assert_eq!(SessionDescriptor::from_json(&json), Ok(d));
        }
    }
}

#[test]
fn to_wire_is_base64_of_json() {
    let d = descriptor(SdpKind::Offer, "v=0");
    assert_eq!(d.to_wire(), Ok("eyJ0eXBlIjoib2ZmZXIiLCJzZHAiOiJ2PTAifQ==".to_string()));
    assert_eq!(d.to_wire().unwrap(), encode(&d.to_json().unwrap()));
    assert_eq!(decode(&d.to_wire().unwrap()), d.to_json());
}

#[test]
fn from_wire_reads_base64_of_json() {
    assert_eq!(
        SessionDescriptor::from_wire("eyJ0eXBlIjoib2ZmZXIiLCJzZHAiOiJ2PTAifQ=="),
        Ok(descriptor(SdpKind::Offer, "v=0"))
    );
    assert_eq!(
        SessionDescriptor::from_wire(&encode("{\"sdp\":\"x\",\"type\":\"answer\"}")),
        Ok(descriptor(SdpKind::Answer, "x"))
    );
}

#[test]
fn from_wire_gives_each_error() {
    assert_eq!(SessionDescriptor::from_wire("not base64"), Err(SignalError::InvalidBase64));
    assert_eq!(SessionDescriptor::from_wire("/w=="), Err(SignalError::InvalidUtf8));
    assert_eq!(SessionDescriptor::from_wire(""), Err(SignalError::InvalidJson));
    assert_eq!(SessionDescriptor::from_wire(&encode("{")), Err(SignalError::InvalidJson));
    assert_eq!(SessionDescriptor::from_wire(&encode("{}")), Err(SignalError::MissingType));
    assert_eq!(
        SessionDescriptor::from_wire(&encode("{\"type\":\"x\"}")),
        Err(SignalError::UnknownType)
    );
    assert_eq!(
        SessionDescriptor::from_wire(&encode("{\"type\":\"offer\"}")),
        Err(SignalError::MissingSdp)
    );
}

#[test]
fn wire_round_trip() {
    for kind in [SdpKind::Offer, SdpKind::Pranswer, SdpKind::Answer, SdpKind::Rollback] {
        let sdps = [
            "",
            "v",
            "v=",
            "v=0",
            "v=0\r\na=candidate:1 1 UDP 1 192.0.2.1 3478 typ host\r\n",
            "é日本\u{1F600}\"\\",
        ];
        for sdp in sdps {
            let d = descriptor(kind, sdp);
            let wire = d.to_wire().unwrap();
            assert_eq!(SessionDescriptor::from_wire(&wire), Ok(d));
        }
    }
}

#[test]
fn to_json_always_writes() {
    for kind in [SdpKind::Offer, SdpKind::Pranswer, SdpKind::Answer, SdpKind::Rollback] {
        for sdp in ["", "\u{0}", "\"", "\\", "\u{1f}\u{7f}\u{80}", "\u{10ffff}", "{}", "\n"] {
            assert!(descriptor(kind, sdp).to_json().is_ok());
            assert!(descriptor(kind, sdp).to_wire().is_ok());
        }
    }
    let long = "v".repeat(1_000_000);
    assert!(descriptor(SdpKind::Offer, &long).to_json().is_ok());
    assert!(descriptor(SdpKind::Offer, &long).to_wire().is_ok());
}

#[test]
fn to_message_holds_the_json_text_and_its_base64() {
    let d = descriptor(SdpKind::Answer, "v=0");
    assert_eq!(
        d.to_message(),
        Ok(SignalingMessage {
            json: "{\"type\":\"answer\",\"sdp\":\"v=0\"}".to_string(),
            wire: "eyJ0eXBlIjoiYW5zd2VyIiwic2RwIjoidj0wIn0=".to_string(),
        })
    );
    let m = d.to_message().unwrap();
    assert_eq!(Ok(m.json.clone()), d.to_json());
    assert_eq!(Ok(m.wire.clone()), d.to_wire());
    assert_eq!(m.wire, encode(&m.json));
    assert_eq!(SessionDescriptor::from_wire(&m.wire), Ok(d));
}
