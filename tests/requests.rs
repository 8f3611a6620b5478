use rlstats::client::{DefaultHeader, RlStats, ACCEPT_JSON, USER_AGENT};
use rlstats::endpoint::{
    batch_players_request, encode_batch, platforms_request, player_request, playlists_request,
    ranked_leaderboard_request, search_players_request, seasons_request, stat_leaderboard_request,
    tiers_request, Method, Request, API_URL,
};
use rlstats::text::push_decimal;
use rlstats::{ApiError, BatchPlayer};

fn get(path: &str) -> Request {
    Request { method: Method::Get, url: format!("{}{}", API_URL, path), body: None }
}

fn decimal(n: i64) -> String {
    let mut s = String::from("x");
    push_decimal(&mut s, n);
    s[1..].to_string()
}

#[test]
fn decimal_rendering() {
    assert_eq!(decimal(0), "0");
    assert_eq!(decimal(7), "7");
    assert_eq!(decimal(10), "10");
    assert_eq!(decimal(123456), "123456");
    assert_eq!(decimal(-42), "-42");
    assert_eq!(decimal(i64::MAX), "9223372036854775807");
    assert_eq!(decimal(i64::MIN), "-9223372036854775808");
}

#[test]
fn list_requests() {
    assert_eq!(API_URL, "https://api.rocketleaguestats.com/v1");
    assert_eq!(platforms_request(), get("/data/platforms"));
    assert_eq!(seasons_request(), get("/data/seasons"));
    assert_eq!(playlists_request(), get("/data/playlists"));
    assert_eq!(tiers_request(), get("/data/tiers"));
}

#[test]
fn parameterised_requests() {
    assert_eq!(
        player_request("76561198000000000", 1),
        get("/player?unique_id=76561198000000000&platform_id=1")
    );
    assert_eq!(
        search_players_request("Kronovi", 2),
        get("/search/players?display_name=Kronovi&page=2")
    );
    assert_eq!(search_players_request("a b", 0), get("/search/players?display_name=a b&page=0"));
    assert_eq!(ranked_leaderboard_request(13), get("/leaderboard/ranked?playlist_id=13"));
    assert_eq!(ranked_leaderboard_request(-1), get("/leaderboard/ranked?playlist_id=-1"));
    assert_eq!(stat_leaderboard_request("goals"), get("/leaderboard/stat?type=goals"));
}

#[test]
fn batch_body_exact() {
    assert_eq!(encode_batch(&Vec::new()), "[]");
    let players = vec![
        BatchPlayer { id: "76561198033338223".to_string(), platform_id: 1 },
        BatchPlayer { id: "Loo\"ney\\".to_string(), platform_id: 2 },
    ];
    assert_eq!(
        encode_batch(&players),
        "[{\"uniqueId\":\"76561198033338223\",\"platformId\":1},{\"uniqueId\":\"Loo\\\"ney\\\\\",\"platformId\":2}]"
    );
    let r = batch_players_request(&players);
    assert_eq!(r.method, Method::Post);
    assert_eq!(r.url, format!("{}/player/batch", API_URL));
    assert_eq!(r.body, Some(encode_batch(&players)));
}

#[test]
fn batch_body_round_trip() {
    let players: Vec<BatchPlayer> = (0..10)
        .map(|i| BatchPlayer { id: format!("player \"{}\"\n\u{e9}", i), platform_id: i - 3 })
        .collect();
    let body = encode_batch(&players);
    let decoded = serde_json::from_str::<Vec<serde_json::Value>>(&body).unwrap();
    assert_eq!(decoded.len(), players.len());
    for (value, p) in decoded.iter().zip(players.iter()) {
        let obj = value.as_object().unwrap();
        assert_eq!(obj.len(), 2);
        assert_eq!(obj["uniqueId"].as_str().unwrap(), p.id);
        assert_eq!(obj["platformId"].as_i64().unwrap(), p.platform_id as i64);
    }
}

#[test]
fn batch_of_ten_is_sent_whole() {
    let players: Vec<BatchPlayer> =
        (0..10).map(|i| BatchPlayer { id: format!("id{}", i), platform_id: 1 }).collect();
    let r = batch_players_request(&players);
    let decoded = serde_json::from_str::<Vec<serde_json::Value>>(&r.body.unwrap()).unwrap();
    assert_eq!(decoded.len(), 10);
}

#[test]
fn client_accepts_plain_key() {
    assert!(RlStats::new("abc123").is_ok());
    assert_eq!(USER_AGENT, "rlstats (v 0.1.0)");
    assert_eq!(ACCEPT_JSON, "application/json");
}

#[test]
fn client_rejects_key_with_newline() {
    assert!(matches!(RlStats::new("abc\n123"), Err(ApiError::Invalid)));
    assert!(matches!(RlStats::new("abc\u{7f}"), Err(ApiError::Invalid)));
}

#[test]
fn client_accepts_tab_and_non_ascii() {
    assert!(RlStats::new("abc\t123").is_ok());
    assert!(RlStats::new("cl\u{e9}").is_ok());
    assert!(RlStats::new("").is_ok());
}

#[test]
fn error_conversions() {
    let e = serde_json::from_str::<i32>("x").unwrap_err();
    assert!(matches!(ApiError::from(e), ApiError::JsonError(_)));
}

#[test]
fn client_headers_fixed_at_construction() {
    let client = RlStats::new("abc123").unwrap();
    assert_eq!(client.header(DefaultHeader::Authorization), "abc123");
    assert_eq!(client.header(DefaultHeader::Accept), "application/json");
    assert_eq!(client.header(DefaultHeader::UserAgent), "rlstats (v 0.1.0)");
}

#[test]
fn batch_body_escapes_control_characters() {
    let players = vec![BatchPlayer {
        id: "a\u{8}\u{c}\n\r\t\u{1}\u{1f}/\u{e9}".to_string(),
        platform_id: 3,
    }];
    assert_eq!(
        encode_batch(&players),
        "[{\"uniqueId\":\"a\\b\\f\\n\\r\\t\\u0001\\u001f/\u{e9}\",\"platformId\":3}]"
    );
}
