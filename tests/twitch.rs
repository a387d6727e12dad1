use cdn::errors::Error;
use cdn::twitch::{channel_query, parse_channel};

#[test]
fn parses_channel_answer() {
    let body = r#"[{"data":{"userOrError":{"bannerImageURL":"b","id":"42","displayName":"Name","primaryColorHex":"FF0000","profileImageURL":"a"}}}]"#;
    let c = parse_channel(body).unwrap();
    assert_eq!((c.id.as_str(), c.name.as_str(), c.color.as_str(), c.avatar.as_str(), c.banner.as_str()), ("42", "Name", "FF0000", "a", "b"));
}

#[test]
fn missing_field_fails() {
    let body = r#"[{"data":{"userOrError":{"id":"42"}}}]"#;
    assert!(matches!(parse_channel(body), Err(Error::InternalRequestFailed)));
    assert!(matches!(parse_channel("not json"), Err(Error::InternalRequestFailed)));
}

#[test]
fn query_names_login() {
    let q = channel_query("somechannel");
    assert!(q.starts_with("[{\"operationName\":\"ChannelShell\""));
    assert!(q.contains("\"login\":\"somechannel\""));
}
