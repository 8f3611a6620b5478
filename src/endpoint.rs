//! How each remote operation maps to a request.
use crate::json::{escape_chars, json_string_of, lemma_escape_round_trip, scan_string};
use crate::model::BatchPlayer;
use crate::text::{
    decimal_of, decimal_value, digit_char, digits_of, lemma_decimal_round_trip, push_decimal,
};
use vstd::prelude::*;

verus! {

/// The base of every endpoint's URL.
pub const API_URL: &'static str = "https://api.rocketleaguestats.com/v1";

/// The HTTP verb of a request.
#[derive(Clone, Copy, Debug, PartialEq, Eq)]
pub enum Method {
    Get,
    Post,
}

/// A request to send: verb, absolute URL and, for a POST, a JSON body.
#[derive(Clone, Debug, PartialEq, Eq)]
pub struct Request {
    pub method: Method,
    pub url: String,
    pub body: Option<String>,
}

/// The absolute URL of an endpoint path.
pub open spec fn url_of(path: Seq<char>) -> Seq<char> {
    API_URL@ + path
}

/// A GET request of `path` without a body.
pub open spec fn is_get_of(r: Request, path: Seq<char>) -> bool {
    &&& r.method == Method::Get
    &&& r.url@ == url_of(path)
    &&& r.body is None
}

/// Relies on `serde_json::to_string` on a `str` (its `format_escaped_str` and
/// escape table): the result is the JSON string literal of `s`. It writes into memory, whose writer never fails, so the
/// result is `Ok`.
#[verifier::external_body]
fn json_string(s: &str) -> (r: Result<String, serde_json::Error>)
    ensures
        r is Ok,
        r is Ok ==> r->Ok_0@ == json_string_of(s@),
{
    serde_json::to_string(s)
}

/// The JSON object that stands for one player of a batch.
pub open spec fn batch_entry(p: BatchPlayer) -> Seq<char> {
    "{\"uniqueId\":"@ + json_string_of(p.id@) + ",\"platformId\":"@ + decimal_of(
        p.platform_id as int,
    ) + "}"@
}

/// The entries of a batch, separated by commas.
pub open spec fn batch_entries(ps: Seq<BatchPlayer>) -> Seq<char>
    decreases ps.len(),
{
    if ps.len() == 0 {
        Seq::empty()
    } else if ps.len() == 1 {
        batch_entry(ps[0])
    } else {
        batch_entries(ps.drop_last()) + seq![','] + batch_entry(ps.last())
    }
}

/// The JSON array of a batch, in the order of the players.
pub open spec fn batch_body(ps: Seq<BatchPlayer>) -> Seq<char> {
    seq!['['] + batch_entries(ps) + seq![']']
}

/// What a batch body says of each player: its id and its platform id.
pub open spec fn batch_pairs(ps: Seq<BatchPlayer>) -> Seq<(Seq<char>, int)> {
    ps.map_values(|p: BatchPlayer| (p.id@, p.platform_id as int))
}

/// The position of the first `}` in `t`, or its length where there is none.
pub open spec fn brace_at(t: Seq<char>) -> int
    decreases t.len(),
{
    if t.len() == 0 || t[0] == '}' {
        0
    } else {
        1 + brace_at(t.drop_first())
    }
}

/// Reads one `{"uniqueId":"..","platformId":..}` object at the start of `t`:
/// the id and platform id it holds, and how many characters it takes.
#[verifier::opaque]
pub open spec fn read_entry(t: Seq<char>) -> Option<((Seq<char>, int), int)> {
    let open = "{\"uniqueId\":"@ + seq!['"'];
    let key = ",\"platformId\":"@;
    if t.len() >= open.len() && t.subrange(0, open.len() as int) == open {
        let u = t.subrange(open.len() as int, t.len() as int);
        match scan_string(u) {
            Some((id, n)) => {
                let w = u.subrange(n, u.len() as int);
                if 0 < n <= u.len() && w.len() >= key.len() && w.subrange(0, key.len() as int) == key {
                    let x = w.subrange(key.len() as int, w.len() as int);
                    let k = brace_at(x);
                    if k < x.len() {
                        Some(
                            (
                                (id, decimal_value(x.subrange(0, k))),
                                open.len() + n + key.len() + k + 1,
                            ),
                        )
                    } else {
                        None
                    }
                } else {
                    None
                }
            },
            None => None,
        }
    } else {
        None
    }
}

/// Reads comma-separated entries up to the closing `]`, which must end `t`.
pub open spec fn read_entries(t: Seq<char>) -> Option<Seq<(Seq<char>, int)>>
    decreases t.len(),
{
    match read_entry(t) {
        Some((e, n)) => if 0 < n < t.len() && t[n] == ',' {
            match read_entries(t.subrange(n + 1, t.len() as int)) {
                Some(es) => Some(seq![e] + es),
                None => None,
            }
        } else if 0 < n < t.len() && t[n] == ']' && n + 1 == t.len() {
            Some(seq![e])
        } else {
            None
        },
        None => None,
    }
}

/// Reads a batch body back into the ids and platform ids it holds, in order.
pub open spec fn read_batch(body: Seq<char>) -> Option<Seq<(Seq<char>, int)>> {
    if body == seq!['[', ']'] {
        Some(Seq::empty())
    } else if body.len() > 0 && body[0] == '[' {
        read_entries(body.drop_first())
    } else {
        None
    }
}

proof fn lemma_digits_no_brace(m: nat)
    ensures
        forall|i: int| 0 <= i < digits_of(m).len() ==> digits_of(m)[i] != '}',
    decreases m,
{
    assert(digit_char(m % 10) as int == m % 10 + 48);
    if m >= 10 {
        lemma_digits_no_brace(m / 10);
        assert forall|i: int| 0 <= i < digits_of(m).len() implies digits_of(m)[i] != '}' by {
            if i < digits_of(m).len() - 1 {
                assert(digits_of(m)[i] == digits_of(m / 10)[i]);
            } else {
                assert(digits_of(m)[i] == digit_char(m % 10));
            }
        }
    } else {
        assert(digits_of(m)[0] == digit_char(m));
    }
}

proof fn lemma_brace_after(s: Seq<char>, rest: Seq<char>)
    requires
        forall|i: int| 0 <= i < s.len() ==> s[i] != '}',
    ensures
        brace_at(s + seq!['}'] + rest) == s.len(),
    decreases s.len(),
{
    let t = s + seq!['}'] + rest;
    if s.len() > 0 {
        lemma_brace_after(s.drop_first(), rest);
        assert(t.drop_first() =~= s.drop_first() + seq!['}'] + rest);
    }
}

proof fn lemma_read_entry(p: BatchPlayer, rest: Seq<char>)
    ensures
        read_entry(batch_entry(p) + rest) == Some(
            ((p.id@, p.platform_id as int), batch_entry(p).len() as int),
        ),
{
    reveal(read_entry);
    reveal_strlit("}");
    let open = "{\"uniqueId\":"@ + seq!['"'];
    let key = ",\"platformId\":"@;
    let esc = escape_chars(p.id@);
    let dec = decimal_of(p.platform_id as int);
    let t = batch_entry(p) + rest;
    let after = key + dec + seq!['}'] + rest;
    assert(t =~= open + esc + seq!['"'] + after);
    assert(t.subrange(0, open.len() as int) =~= open);
    let u = t.subrange(open.len() as int, t.len() as int);
    assert(u =~= esc + seq!['"'] + after);
    lemma_escape_round_trip(p.id@, after);
    let n = esc.len() + 1 as int;
    let w = u.subrange(n, u.len() as int);
    assert(w =~= after);
    assert(w.subrange(0, key.len() as int) =~= key);
    let x = w.subrange(key.len() as int, w.len() as int);
    assert(x =~= dec + seq!['}'] + rest);
    if p.platform_id < 0 {
        lemma_digits_no_brace((-p.platform_id) as nat);
        assert forall|i: int| 0 <= i < dec.len() implies dec[i] != '}' by {
            if i > 0 {
                assert(dec[i] == digits_of((-p.platform_id) as nat)[i - 1]);
            }
        }
    } else {
        lemma_digits_no_brace(p.platform_id as nat);
    }
    lemma_brace_after(dec, rest);
    assert(x.subrange(0, dec.len() as int) =~= dec);
    lemma_decimal_round_trip(p.platform_id as int);
}

proof fn lemma_entries_front(ps: Seq<BatchPlayer>)
    requires
        ps.len() >= 2,
    ensures
        batch_entries(ps) == batch_entry(ps[0]) + seq![','] + batch_entries(ps.drop_first()),
    decreases ps.len(),
{
    if ps.len() == 2 {
        assert(ps.drop_last().len() == 1);
        assert(ps.drop_first().len() == 1);
        assert(ps.drop_last()[0] == ps[0]);
        assert(ps.drop_first()[0] == ps[1]);
        assert(batch_entries(ps.drop_last()) == batch_entry(ps[0]));
        assert(batch_entries(ps.drop_first()) == batch_entry(ps[1]));
        assert(batch_entries(ps) == batch_entries(ps.drop_last()) + seq![','] + batch_entry(
            ps.last(),
        ));
    } else {
        lemma_entries_front(ps.drop_last());
        assert(ps.drop_last().drop_first() =~= ps.drop_first().drop_last());
        assert(ps.drop_first().last() == ps.last());
        assert(ps.drop_last()[0] == ps[0]);
        assert(batch_entries(ps.drop_first()) == batch_entries(ps.drop_first().drop_last())
            + seq![','] + batch_entry(ps.drop_first().last()));
        assert(batch_entries(ps) =~= batch_entry(ps[0]) + seq![','] + batch_entries(
            ps.drop_first(),
        ));
    }
}

proof fn lemma_read_entries(ps: Seq<BatchPlayer>)
    requires
        ps.len() >= 1,
    ensures
        read_entries(batch_entries(ps) + seq![']']) == Some(batch_pairs(ps)),
    decreases ps.len(),
{
    let e = batch_entry(ps[0]);
    let t = batch_entries(ps) + seq![']'];
    if ps.len() == 1 {
        assert(t =~= e + seq![']']);
        lemma_read_entry(ps[0], seq![']']);
        assert(batch_pairs(ps) =~= seq![(ps[0].id@, ps[0].platform_id as int)]);
    } else {
        lemma_entries_front(ps);
        let tail = batch_entries(ps.drop_first()) + seq![']'];
        assert(t =~= e + (seq![','] + tail));
        lemma_read_entry(ps[0], seq![','] + tail);
        assert(t.subrange(e.len() + 1 as int, t.len() as int) =~= tail);
        lemma_read_entries(ps.drop_first());
        assert(batch_pairs(ps) =~= seq![(ps[0].id@, ps[0].platform_id as int)] + batch_pairs(
            ps.drop_first(),
        ));
    }
}

/// Reading a batch body back gives each player's id and platform id, in the
/// order of the players: nothing is lost, added or reordered by the encoding.
pub proof fn lemma_batch_round_trip(ps: Seq<BatchPlayer>)
    ensures
        read_batch(batch_body(ps)) == Some(batch_pairs(ps)),
{
    let body = batch_body(ps);
    if ps.len() == 0 {
        assert(body =~= seq!['[', ']']);
        assert(batch_pairs(ps) =~= Seq::<(Seq<char>, int)>::empty());
    } else {
        lemma_read_entries(ps);
        assert(body.drop_first() =~= batch_entries(ps) + seq![']']);
        assert(body != seq!['[', ']']) by {
            lemma_read_entry(ps[0], Seq::empty());
            if ps.len() == 1 {
                assert(batch_entries(ps) == batch_entry(ps[0]));
            } else {
                lemma_entries_front(ps);
            }
            assert(body.len() > 2);
        };
    }
}

fn push_batch_entry(out: &mut String, p: &BatchPlayer)
    ensures
        final(out)@ == old(out)@ + batch_entry(*p),
{
    out.push_str("{\"uniqueId\":");
    match json_string(p.id.as_str()) {
        Ok(quoted) => out.push_str(quoted.as_str()),
        Err(_) => {},
    }
    out.push_str(",\"platformId\":");
    push_decimal(out, p.platform_id as i64);
    out.push_str("}");
    proof {
        assert(final(out)@ =~= old(out)@ + batch_entry(*p));
    }
}

/// The JSON body of a batch lookup: an array of `{uniqueId, platformId}`
/// objects, one for each player, in order.
pub fn encode_batch(players: &Vec<BatchPlayer>) -> (r: String)
    ensures
        r@ == batch_body(players@),
{
    let mut out = String::new();
    out.push('[');
    let mut i: usize = 0;
    while i < players.len()
        invariant
            i <= players@.len(),
            out@ == seq!['['] + batch_entries(players@.take(i as int)),
        decreases players@.len() - i,
    {
        if i > 0 {
            out.push(',');
        }
        push_batch_entry(&mut out, &players[i]);
        proof {
            let next = players@.take(i + 1);
            assert(next.drop_last() =~= players@.take(i as int));
            assert(next.last() == players@[i as int]);
            if i == 0 {
                assert(batch_entries(players@.take(0)) =~= Seq::<char>::empty());
            }
            assert(out@ =~= seq!['['] + batch_entries(next));
        }
        i = i + 1;
    }
    assert(players@.take(players@.len() as int) =~= players@);
    out.push(']');
    out
}

fn get(path: String) -> (r: Request)
    ensures
        is_get_of(r, path@),
{
    let mut url = API_URL.to_owned();
    url.push_str(path.as_str());
    Request { method: Method::Get, url, body: None }
}

/// Lists the platforms: `GET /data/platforms`.
pub fn platforms_request() -> (r: Request)
    ensures
        is_get_of(r, "/data/platforms"@),
{
    get("/data/platforms".to_owned())
}

/// Lists the seasons: `GET /data/seasons`.
pub fn seasons_request() -> (r: Request)
    ensures
        is_get_of(r, "/data/seasons"@),
{
    get("/data/seasons".to_owned())
}

/// Lists the playlists: `GET /data/playlists`.
pub fn playlists_request() -> (r: Request)
    ensures
        is_get_of(r, "/data/playlists"@),
{
    get("/data/playlists".to_owned())
}

/// Lists the ranked tiers: `GET /data/tiers`.
pub fn tiers_request() -> (r: Request)
    ensures
        is_get_of(r, "/data/tiers"@),
{
    get("/data/tiers".to_owned())
}

/// The path that looks up one player.
pub open spec fn player_path(unique_id: Seq<char>, platform_id: int) -> Seq<char> {
    "/player?unique_id="@ + unique_id + "&platform_id="@ + decimal_of(platform_id)
}

/// Looks up one player: `GET /player?unique_id={id}&platform_id={pid}`, the
/// id passed through as it is.
pub fn player_request(unique_id: &str, platform_id: i32) -> (r: Request)
    ensures
        is_get_of(r, player_path(unique_id@, platform_id as int)),
{
    let mut path = "/player?unique_id=".to_owned();
    path.push_str(unique_id);
    path.push_str("&platform_id=");
    push_decimal(&mut path, platform_id as i64);
    get(path)
}

/// The path that searches players by display name.
pub open spec fn search_path(display_name: Seq<char>, page: int) -> Seq<char> {
    "/search/players?display_name="@ + display_name + "&page="@ + decimal_of(page)
}

/// Searches the service's player database by display name:
/// `GET /search/players?display_name={name}&page={n}`.
pub fn search_players_request(display_name: &str, page: u32) -> (r: Request)
    ensures
        is_get_of(r, search_path(display_name@, page as int)),
{
    let mut path = "/search/players?display_name=".to_owned();
    path.push_str(display_name);
    path.push_str("&page=");
    push_decimal(&mut path, page as i64);
    get(path)
}

/// Looks up several players at once: `POST /player/batch` with the JSON
/// array of the players. The service caps a batch at ten players and leaves
/// out the ones it does not know; neither is enforced here.
pub fn batch_players_request(players: &Vec<BatchPlayer>) -> (r: Request)
    ensures
        r.method == Method::Post,
        r.url@ == url_of("/player/batch"@),
        r.body matches Some(b) && b@ == batch_body(players@),
{
    let mut url = API_URL.to_owned();
    url.push_str("/player/batch");
    Request { method: Method::Post, url, body: Some(encode_batch(players)) }
}

/// The path of a playlist's ranked leaderboard.
pub open spec fn ranked_leaderboard_path(playlist_id: int) -> Seq<char> {
    "/leaderboard/ranked?playlist_id="@ + decimal_of(playlist_id)
}

/// The ranked leaderboard of a playlist:
/// `GET /leaderboard/ranked?playlist_id={id}`.
pub fn ranked_leaderboard_request(playlist_id: i32) -> (r: Request)
    ensures
        is_get_of(r, ranked_leaderboard_path(playlist_id as int)),
{
    let mut path = "/leaderboard/ranked?playlist_id=".to_owned();
    push_decimal(&mut path, playlist_id as i64);
    get(path)
}

/// The path of a stat leaderboard.
pub open spec fn stat_leaderboard_path(ty: Seq<char>) -> Seq<char> {
    "/leaderboard/stat?type="@ + ty
}

/// The leaderboard of one stat: `GET /leaderboard/stat?type={name}`.
pub fn stat_leaderboard_request(ty: &str) -> (r: Request)
    ensures
        is_get_of(r, stat_leaderboard_path(ty@)),
{
    let mut path = "/leaderboard/stat?type=".to_owned();
    path.push_str(ty);
    get(path)
}

} // verus!
