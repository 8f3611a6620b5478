use rlstats::dispatch::{dispatch, Event, Step};
use rlstats::{ApiError, Platform, Player, ResponseCode, Season, Stats};
use std::collections::BTreeMap;

fn json_failure() -> serde_json::Error {
    serde_json::from_str::<Vec<i32>>("{\"unexpected\":\"shape\"}").unwrap_err()
}

fn player(id: &str) -> Player {
    Player {
        unique_id: id.to_string(),
        display_name: format!("name of {}", id),
        platform: Platform { id: 1, name: "Steam".to_string() },
        avatar: None,
        profile_url: format!("https://example.invalid/{}", id),
        signature_url: format!("https://example.invalid/{}.png", id),
        stats: Stats { wins: 1, goals: 2, mvps: 3, saves: 4, shots: 5, assists: 6 },
        ranked_seasons: BTreeMap::new(),
        last_requested: 10,
        created_at: 11,
        updated_at: 12,
        next_update_at: 13,
    }
}

/// Decodes a platform list by hand, the way a typed decoder of the records would.
fn decode_platforms(body: &str) -> Result<Vec<Platform>, serde_json::Error> {
    let items = serde_json::from_str::<Vec<BTreeMap<String, serde_json::Value>>>(body)?;
    let mut out = Vec::new();
    for item in items {
        let id = item.get("id").and_then(|v| v.as_i64());
        let name = item.get("name").and_then(|v| v.as_str());
        match (id, name) {
            (Some(id), Some(name)) => out.push(Platform { id: id as i32, name: name.to_string() }),
            _ => return Err(json_failure()),
        }
    }
    Ok(out)
}

fn decode_envelope(body: &str) -> Result<ResponseCode, serde_json::Error> {
    let map = serde_json::from_str::<BTreeMap<String, serde_json::Value>>(body)?;
    let code = map.get("code").and_then(|v| v.as_i64());
    let message = map.get("message").and_then(|v| v.as_str());
    match (code, message) {
        (Some(code), Some(message)) => {
            Ok(ResponseCode { code: code as i32, message: message.to_string() })
        }
        _ => Err(json_failure()),
    }
}

#[test]
fn success_decode_ignores_status() {
    for status in [200u16, 404, 500] {
        assert!(matches!(dispatch::<Vec<i32>>(Event::Responded(status)), Step::DecodeSuccess));
        match dispatch(Event::SuccessDecoded(Ok(vec![1, 2, 3]))) {
            Step::Finish(Ok(v)) => assert_eq!(v, vec![1, 2, 3]),
            _ => panic!("expected the decoded value"),
        }
    }
}

#[test]
fn empty_sequence_is_a_success() {
    match dispatch::<Vec<Season>>(Event::SuccessDecoded(Ok(Vec::new()))) {
        Step::Finish(Ok(v)) => assert!(v.is_empty()),
        _ => panic!("an empty list is a valid success"),
    }
}

#[test]
fn failed_success_decode_asks_for_envelope() {
    assert!(matches!(
        dispatch::<Vec<Platform>>(Event::SuccessDecoded(Err(json_failure()))),
        Step::DecodeEnvelope
    ));
}

#[test]
fn envelope_gives_service_error() {
    let rc = ResponseCode { code: 500, message: "Oops".to_string() };
    match dispatch::<Vec<Platform>>(Event::EnvelopeDecoded(Ok(rc.clone()))) {
        Step::Finish(Err(ApiError::ResponseCode(got))) => assert_eq!(got, rc),
        _ => panic!("expected a service error"),
    }
}

#[test]
fn neither_shape_gives_json_error() {
    assert!(matches!(
        dispatch::<Vec<Platform>>(Event::EnvelopeDecoded(Err(json_failure()))),
        Step::Finish(Err(ApiError::JsonError(_)))
    ));
}

#[test]
fn rate_limit_short_circuits() {
    assert!(matches!(
        dispatch::<Vec<Platform>>(Event::Responded(429)),
        Step::Finish(Err(ApiError::RateLimited))
    ));
}

#[test]
fn scenario_platforms_listed() {
    let client = rlstats::RlStats::new("abc123");
    assert!(client.is_ok());
    let body = "[{\"id\":1,\"name\":\"Steam\"},{\"id\":2,\"name\":\"PS4\"}]";
    assert!(matches!(dispatch::<Vec<Platform>>(Event::Responded(200)), Step::DecodeSuccess));
    match dispatch(Event::SuccessDecoded(decode_platforms(body))) {
        Step::Finish(Ok(v)) => assert_eq!(
            v,
            vec![
                Platform { id: 1, name: "Steam".to_string() },
                Platform { id: 2, name: "PS4".to_string() },
            ]
        ),
        _ => panic!("expected two platforms"),
    }
}

#[test]
fn scenario_player_not_found() {
    let body = "{\"code\":404,\"message\":\"Player not found\"}";
    let success = serde_json::from_str::<Vec<serde_json::Value>>(body).map(|_| player("x"));
    assert!(success.is_err());
    assert!(matches!(dispatch(Event::SuccessDecoded(success)), Step::DecodeEnvelope));
    match dispatch::<Player>(Event::EnvelopeDecoded(decode_envelope(body))) {
        Step::Finish(Err(ApiError::ResponseCode(rc))) => {
            assert_eq!(rc.code, 404);
            assert_eq!(rc.message, "Player not found");
        }
        _ => panic!("expected ServiceError(404)"),
    }
}

#[test]
fn scenario_rate_limited_empty_body() {
    match dispatch::<Player>(Event::Responded(429)) {
        Step::Finish(Err(e)) => {
            assert!(matches!(e, ApiError::RateLimited));
            assert!(!matches!(e, ApiError::ResponseCode(_)));
        }
        _ => panic!("expected RateLimited"),
    }
}

#[test]
fn scenario_unexpected_shape() {
    let body = "{\"unexpected\":\"shape\"}";
    let success = serde_json::from_str::<Vec<serde_json::Value>>(body).map(|_| Vec::<Season>::new());
    assert!(matches!(dispatch(Event::SuccessDecoded(success)), Step::DecodeEnvelope));
    let envelope = decode_envelope(body);
    assert!(envelope.is_err());
    assert!(matches!(
        dispatch::<Vec<Season>>(Event::EnvelopeDecoded(envelope)),
        Step::Finish(Err(ApiError::JsonError(_)))
    ));
}

#[test]
fn scenario_batch_leaves_out_unknown() {
    let known: Vec<Player> = (0..8).map(|i| player(&format!("id{}", i))).collect();
    match dispatch(Event::SuccessDecoded(Ok(known.clone()))) {
        Step::Finish(Ok(v)) => {
            assert_eq!(v.len(), 8);
            assert_eq!(v, known);
        }
        _ => panic!("expected eight players"),
    }
}
