use spotify_sync::api::{like_request_urls, LikedSongsFetch, BATCH_SIZE, PAGE_SIZE};
use spotify_sync::auth::{AuthConfig, SpotifyAuth};
use spotify_sync::error::SyncError;
use spotify_sync::session::{saved_slots, Session, Slot, SlotState};
use spotify_sync::storage::LocalStorage;
use spotify_sync::types::{Album, Artist, LikedSongsResponse, SpotifyTrack, TokenResponse, Track, TrackInfo};

fn info(id: &str) -> TrackInfo {
    TrackInfo {
        id: id.to_string(),
        name: format!("name {}", id),
        artists: vec![Artist { name: format!("artist {}", id) }, Artist { name: "guest".to_string() }],
        album: Album { name: format!("album {}", id) },
        uri: format!("spotify:track:{}", id),
    }
}

fn page(ids: &[&str], next: bool) -> LikedSongsResponse {
    LikedSongsResponse {
        items: ids.iter().map(|i| SpotifyTrack { track: info(i) }).collect(),
        next: if next { Some("more".to_string()) } else { None },
    }
}

fn track(id: &str) -> Track {
    Track::from_info(&info(id))
}

fn ids_of(tracks: &[Track]) -> Vec<String> {
    tracks.iter().map(|t| t.id.clone()).collect()
}

fn config() -> AuthConfig {
    AuthConfig {
        client_id: Some("cid".to_string()),
        client_secret: Some("secret".to_string()),
        redirect_uri: Some("http://localhost/cb".to_string()),
    }
}

/// Drives a fetch over the given pages, as a caller does; returns the tracks and
/// the URLs that were asked for.
fn drive(pages: Vec<LikedSongsResponse>) -> (Vec<Track>, Vec<String>) {
    let mut fetch = LikedSongsFetch::new();
    let mut asked = Vec::new();
    let mut pages = pages.into_iter();
    while let Some(url) = fetch.next_request() {
        asked.push(url);
        let p = pages.next().expect("upstream ran out of pages");
        fetch.on_page(&p);
    }
    (fetch.into_tracks(), asked)
}

#[test]
fn pagination_concatenates_pages_in_order() {
    let (tracks, asked) = drive(vec![page(&["a", "b"], true), page(&["c"], true), page(&["d", "e"], false)]);
    assert_eq!(ids_of(&tracks), vec!["a", "b", "c", "d", "e"]);
    assert_eq!(
        asked,
        vec![
            "https://api.spotify.com/v1/me/tracks?limit=50&offset=0",
            "https://api.spotify.com/v1/me/tracks?limit=50&offset=50",
            "https://api.spotify.com/v1/me/tracks?limit=50&offset=100",
        ]
    );
}

#[test]
fn pagination_stops_when_next_is_absent() {
    let (tracks, asked) = drive(vec![page(&["a"], true), page(&["b"], false), page(&["c"], false)]);
    assert_eq!(ids_of(&tracks), vec!["a", "b"]);
    assert_eq!(asked.len(), 2);
}

#[test]
fn pagination_full_pages() {
    let first: Vec<String> = (0..50).map(|i| format!("p{}", i)).collect();
    let first_refs: Vec<&str> = first.iter().map(|s| s.as_str()).collect();
    let (tracks, asked) = drive(vec![page(&first_refs, true), page(&["last"], false)]);
    assert_eq!(tracks.len(), 51);
    assert_eq!(tracks[0].id, "p0");
    assert_eq!(tracks[50].id, "last");
    assert_eq!(asked.len(), 2);
    assert_eq!(PAGE_SIZE, 50);
}

#[test]
fn pagination_single_empty_page() {
    let (tracks, asked) = drive(vec![page(&[], false)]);
    assert!(tracks.is_empty());
    assert_eq!(asked.len(), 1);
}

#[test]
fn fetch_offsets_are_written_in_decimal() {
    let mut fetch = LikedSongsFetch::new();
    for _ in 0..25 {
        fetch.on_page(&page(&[], true));
    }
    assert_eq!(fetch.offset(), 1250);
    assert!(!fetch.is_finished());
    assert_eq!(
        fetch.next_request(),
        Some("https://api.spotify.com/v1/me/tracks?limit=50&offset=1250".to_string())
    );
    fetch.on_page(&page(&["x"], false));
    assert!(fetch.is_finished());
    assert_eq!(fetch.next_request(), None);
    assert_eq!(fetch.offset(), 1250);
}

#[test]
fn track_is_flattened() {
    let t = track("7");
    assert_eq!(t.id, "7");
    assert_eq!(t.name, "name 7");
    assert_eq!(t.artists, vec!["artist 7".to_string(), "guest".to_string()]);
    assert_eq!(t.album, "album 7");
    assert_eq!(t.uri, "spotify:track:7");
}

#[test]
fn chunking_120_ids_into_50_50_20() {
    let tracks: Vec<Track> = (0..120).map(|i| track(&format!("t{}", i))).collect();
    let urls = like_request_urls(&tracks);
    assert_eq!(urls.len(), 3);
    let prefix = "https://api.spotify.com/v1/me/tracks?ids=";
    let batches: Vec<Vec<String>> = urls
        .iter()
        .map(|u| {
            assert!(u.starts_with(prefix));
            u[prefix.len()..].split(',').map(|s| s.to_string()).collect()
        })
        .collect();
    assert_eq!(batches.iter().map(|b| b.len()).collect::<Vec<_>>(), vec![50, 50, 20]);
    let all: Vec<String> = batches.concat();
    assert_eq!(all, ids_of(&tracks));
    assert_eq!(BATCH_SIZE, 50);
}

#[test]
fn chunking_exact_request_url() {
    let tracks = vec![track("a1"), track("b2"), track("c3")];
    assert_eq!(
        like_request_urls(&tracks),
        vec!["https://api.spotify.com/v1/me/tracks?ids=a1,b2,c3".to_string()]
    );
}

#[test]
fn chunking_exactly_one_full_batch() {
    let tracks: Vec<Track> = (0..50).map(|i| track(&format!("{}", i))).collect();
    assert_eq!(like_request_urls(&tracks).len(), 1);
    let tracks: Vec<Track> = (0..51).map(|i| track(&format!("{}", i))).collect();
    let urls = like_request_urls(&tracks);
    assert_eq!(urls.len(), 2);
    assert_eq!(urls[1], "https://api.spotify.com/v1/me/tracks?ids=50");
}

#[test]
fn empty_write_makes_no_request() {
    assert!(like_request_urls(&Vec::new()).is_empty());
}

#[test]
fn token_path_layout() {
    let storage = LocalStorage::in_home(Some("/home/ann".to_string()));
    assert_eq!(storage.dir(), "/home/ann/.spotify_sync");
    assert_eq!(storage.get_token_path("from"), "/home/ann/.spotify_sync/from_token.txt");
    let storage = LocalStorage::in_home(Some("/".to_string()));
    assert_eq!(storage.get_token_path("to"), "/.spotify_sync/to_token.txt");
    let storage = LocalStorage::in_home(None);
    assert_eq!(storage.get_token_path("to"), ".spotify_sync/to_token.txt");
}

#[test]
fn storage_under_home_directory() {
    let storage = LocalStorage::new();
    assert!(storage.dir().ends_with(".spotify_sync"));
}

#[test]
fn token_load_without_file_is_empty() {
    assert_eq!(LocalStorage::token_or_empty(None), "");
    assert_eq!(LocalStorage::token_or_empty(Some("abc".to_string())), "abc");
}

#[test]
fn saved_slots_lists_non_empty_tokens() {
    assert_eq!(saved_slots("abc", ""), vec![Slot::From]);
    assert_eq!(saved_slots("", "xyz"), vec![Slot::To]);
    assert_eq!(saved_slots("a", "b"), vec![Slot::From, Slot::To]);
    assert!(saved_slots("", "").is_empty());
}

#[test]
fn slot_names_round_trip() {
    assert_eq!(Slot::parse("from"), Some(Slot::From));
    assert_eq!(Slot::parse("to"), Some(Slot::To));
    assert_eq!(Slot::parse("From"), None);
    assert_eq!(Slot::parse("t"), None);
    assert_eq!(Slot::parse(""), None);
    assert_eq!(Slot::From.name(), "from");
    assert_eq!(Slot::To.name(), "to");
}

#[test]
fn authorize_url_embeds_slot() {
    let url = SpotifyAuth::get_auth_url("to", &config()).unwrap();
    assert_eq!(
        url,
        "https://accounts.spotify.com/authorize?client_id=cid&response_type=code&redirect_uri=http://localhost/cb&scope=user-library-read user-library-modify&state=to"
    );
}

#[test]
fn authorize_url_needs_configuration() {
    let mut c = config();
    c.redirect_uri = None;
    assert_eq!(SpotifyAuth::get_auth_url("from", &c), Err(SyncError::Config));
    let mut c = config();
    c.client_id = None;
    assert_eq!(SpotifyAuth::get_auth_url("from", &c), Err(SyncError::Config));
    let mut c = config();
    c.client_secret = None;
    assert!(SpotifyAuth::get_auth_url("from", &c).is_ok());
}

#[test]
fn token_form_fields() {
    let form = SpotifyAuth::token_form("the-code", &config()).unwrap();
    let expected: Vec<(String, String)> = [
        ("grant_type", "authorization_code"),
        ("code", "the-code"),
        ("redirect_uri", "http://localhost/cb"),
        ("client_id", "cid"),
        ("client_secret", "secret"),
    ]
    .iter()
    .map(|(a, b)| (a.to_string(), b.to_string()))
    .collect();
    assert_eq!(form, expected);
    let mut c = config();
    c.client_secret = None;
    assert_eq!(SpotifyAuth::token_form("x", &c), Err(SyncError::Config));
}

#[test]
fn token_response_replaces_credential() {
    let mut auth = SpotifyAuth::new();
    assert_eq!(auth.access_token, "");
    assert_eq!(auth.refresh_token, None);
    auth.apply_token_response(TokenResponse {
        access_token: "acc".to_string(),
        refresh_token: Some("ref".to_string()),
        expires_in: 3600,
    });
    assert_eq!(auth.access_token, "acc");
    assert_eq!(auth.refresh_token, Some("ref".to_string()));
    auth.apply_token_response(TokenResponse { access_token: "acc2".to_string(), refresh_token: None, expires_in: 1 });
    assert_eq!(auth.access_token, "acc2");
    assert_eq!(auth.refresh_token, None);
}

fn credential(token: &str) -> SpotifyAuth {
    SpotifyAuth { access_token: token.to_string(), refresh_token: None }
}

#[test]
fn transfer_without_destination_credential_fails() {
    let mut s = Session::new();
    s.authenticate(Slot::From, credential("src"));
    s.record_fetch(Slot::From, Ok(vec![track("a")])).unwrap();
    assert!(matches!(s.plan_transfer(), Err(SyncError::Precondition)));
}

#[test]
fn transfer_without_source_library_fails() {
    let mut s = Session::new();
    s.authenticate(Slot::From, credential("src"));
    s.authenticate(Slot::To, credential("dst"));
    assert!(matches!(s.plan_transfer(), Err(SyncError::Precondition)));
}

#[test]
fn transfer_plan_uses_destination_token() {
    let mut s = Session::new();
    s.authenticate(Slot::From, credential("src"));
    s.authenticate(Slot::To, credential("dst"));
    s.record_fetch(Slot::From, Ok(vec![track("a"), track("b")])).unwrap();
    let plan = s.plan_transfer().unwrap();
    assert_eq!(plan.access_token, "dst");
    assert_eq!(plan.urls, vec!["https://api.spotify.com/v1/me/tracks?ids=a,b".to_string()]);
}

#[test]
fn failed_fetch_caches_nothing() {
    let mut s = Session::new();
    s.authenticate(Slot::From, credential("src"));
    let mut fetch = LikedSongsFetch::new();
    fetch.on_page(&page(&["a", "b"], true));
    // the second page fails in transport: the fetch is abandoned
    drop(fetch);
    assert_eq!(s.record_fetch(Slot::From, Err(SyncError::Network)), Err(SyncError::Network));
    assert!(matches!(s.state(Slot::From), SlotState::Authenticated(a) if a.access_token == "src"));
    assert!(matches!(s.plan_transfer(), Err(SyncError::Precondition)));
}

#[test]
fn fetch_needs_credential() {
    let mut s = Session::new();
    assert_eq!(s.access_token(Slot::To), Err(SyncError::Precondition));
    assert_eq!(s.record_fetch(Slot::To, Ok(vec![track("a")])), Err(SyncError::Precondition));
    assert!(matches!(s.state(Slot::To), SlotState::Unauthenticated));
    s.authenticate(Slot::To, credential("t"));
    assert_eq!(s.access_token(Slot::To), Ok("t".to_string()));
    assert_eq!(s.access_token(Slot::From), Err(SyncError::Precondition));
}

#[test]
fn reauthentication_discards_library() {
    let mut s = Session::new();
    s.authenticate(Slot::From, credential("one"));
    s.record_fetch(Slot::From, Ok(vec![track("a")])).unwrap();
    assert!(matches!(s.state(Slot::From), SlotState::Populated(_, v) if v.len() == 1));
    s.authenticate(Slot::From, credential("two"));
    assert!(matches!(s.state(Slot::From), SlotState::Authenticated(a) if a.access_token == "two"));
    assert!(matches!(s.state(Slot::To), SlotState::Unauthenticated));
}

#[test]
fn error_messages_are_readable() {
    assert!(!SyncError::Precondition.message().is_empty());
    assert_ne!(SyncError::Config.message(), SyncError::Auth.message());
}
