use music_bot::playlists::{
    get_spotify_access_token, list_of_urls, playlist_tracks_url, resolve_spotify, resolve_youtube,
    spotify_tracks, tracks_request, Artists, Items, ResolveError, SpotifyPlaylistResponse, Track,
    YTPlayListError,
};

fn refs(stdout: &[u8]) -> Vec<String> {
    let res = resolve_youtube(true, &stdout.to_vec(), Vec::new()).unwrap();
    res.tracks.iter().map(|t| t.playable_reference.clone()).collect()
}

fn track(name: &str, artists: &[&str]) -> Items {
    Items {
        track: Track {
            name: name.to_string(),
            artists: artists.iter().map(|a| Artists { name: a.to_string() }).collect(),
        },
    }
}

#[test]
fn two_flat_entries_keep_their_order() {
    let out = b"{\"url\":\"https://v/a\"}\n{\"url\":\"https://v/b\"}\n".to_vec();
    let res = resolve_youtube(true, &out, Vec::new()).unwrap();
    assert_eq!(res.tracks.len(), 2);
    assert_eq!(res.tracks[0].playable_reference, "https://v/a");
    assert_eq!(res.tracks[1].playable_reference, "https://v/b");
    assert_eq!(res.tracks[0].title, "");
    assert!(res.tracks[0].artists.is_empty());
}

#[test]
fn one_track_per_line_with_other_members() {
    let out = b"{\"_type\":\"url\",\"url\":\"https://v/x\",\"duration\":12.5}\r\n{\"id\":\"q\",\"url\":\"https://v/y\"}\r\n\n{\"url\":\"https://v/z\"}";
    assert_eq!(refs(out), vec!["https://v/x", "https://v/y", "https://v/z"]);
}

#[test]
fn list_of_urls_reads_each_url() {
    let out = b"{\"url\":\"https://www.youtube.com/watch?v=abc\"}\n".to_vec();
    let entries = list_of_urls(true, &out, Vec::new()).unwrap();
    assert_eq!(entries.len(), 1);
    assert_eq!(entries[0].url, "https://www.youtube.com/watch?v=abc");
}

#[test]
fn empty_enumeration_is_an_empty_playlist() {
    assert!(refs(b"").is_empty());
    assert!(refs(b"\n\n").is_empty());
}

#[test]
fn failed_enumeration_keeps_error_bytes() {
    let err = vec![b'E', b'R', 0xff, 0xfe, b'\n'];
    let r = resolve_youtube(false, &b"{\"url\":\"https://v/a\"}\n".to_vec(), err.clone());
    assert_eq!(
        r.unwrap_err(),
        ResolveError::ExternalTool(YTPlayListError::ListOfUrlsError(err))
    );
}

#[test]
fn malformed_line_fails_whole_enumeration() {
    let out = b"{\"url\":\"https://v/a\"}\nnot json\n{\"url\":\"https://v/b\"}\n".to_vec();
    assert_eq!(resolve_youtube(true, &out, Vec::new()).unwrap_err(), ResolveError::Deserialization);
}

#[test]
fn line_without_url_fails() {
    let out = b"{\"url\":\"https://v/a\"}\n{\"id\":\"b\"}\n".to_vec();
    assert_eq!(list_of_urls(true, &out, Vec::new()).unwrap_err(), ResolveError::Deserialization);
    let out = b"{\"url\":7}\n".to_vec();
    assert_eq!(list_of_urls(true, &out, Vec::new()).unwrap_err(), ResolveError::Deserialization);
}

#[test]
fn non_utf8_output_fails() {
    let out = vec![b'{', b'"', b'u', b'r', b'l', b'"', b':', b'"', 0xff, b'"', b'}'];
    assert_eq!(list_of_urls(true, &out, Vec::new()).unwrap_err(), ResolveError::Deserialization);
}

#[test]
fn repeated_flat_resolution_is_identical() {
    let out = b"{\"url\":\"https://v/a\"}\n{\"url\":\"https://v/b\"}\n".to_vec();
    let first = resolve_youtube(true, &out, Vec::new()).unwrap();
    let second = resolve_youtube(true, &out, Vec::new()).unwrap();
    assert_eq!(first, second);
}

#[test]
fn token_is_read_from_its_member() {
    let tok = get_spotify_access_token(b"{\"clientId\":\"c\",\"accessToken\":\"BQabc\",\"isAnonymous\":true}").unwrap();
    assert_eq!(tok.access_token, "BQabc");
}

#[test]
fn non_json_token_body_asks_for_nothing() {
    let r = tracks_request("5I1uPiJpPmphKfQHDjWHFa", b"<html>rate limited</html>");
    assert_eq!(r.unwrap_err(), ResolveError::Deserialization);
    let r = tracks_request("5I1uPiJpPmphKfQHDjWHFa", b"{\"token\":\"x\"}");
    assert_eq!(r.unwrap_err(), ResolveError::Deserialization);
}

#[test]
fn token_body_leads_to_tracks_request() {
    let req = tracks_request("5I1uPiJpPmphKfQHDjWHFa", b"{\"accessToken\":\"BQabc\"}").unwrap();
    assert_eq!(req.url, "https://api.spotify.com/v1/playlists/5I1uPiJpPmphKfQHDjWHFa/tracks");
    assert_eq!(req.bearer_token, "BQabc");
    assert_eq!(playlist_tracks_url("x"), "https://api.spotify.com/v1/playlists/x/tracks");
}

#[test]
fn missing_playlist_is_an_api_failure() {
    let body = b"{\"error\":{\"status\":404,\"message\":\"Not found.\"}}".to_vec();
    let r = resolve_spotify(404, body.clone(), None);
    assert_eq!(r.unwrap_err(), ResolveError::ApiResponse { status: 404, body });
}

#[test]
fn undecodable_success_body_is_an_api_failure() {
    let body = b"{}".to_vec();
    let r = resolve_spotify(200, body.clone(), None);
    assert_eq!(r.unwrap_err(), ResolveError::ApiResponse { status: 200, body });
}

#[test]
fn playlist_items_become_tracks_in_order() {
    let page = SpotifyPlaylistResponse {
        items: vec![
            track("Song A", &["Ann", "Bob"]),
            track("Song B", &["Cid"]),
            track("Song C", &[]),
        ],
    };
    let res = resolve_spotify(200, Vec::new(), Some(page.clone())).unwrap();
    assert_eq!(res.tracks.len(), 3);
    assert_eq!(res.tracks[0].title, "Song A");
    assert_eq!(res.tracks[0].artists, vec!["Ann", "Bob"]);
    assert_eq!(res.tracks[0].playable_reference, "Ann, Bob - Song A");
    assert_eq!(res.tracks[1].playable_reference, "Cid - Song B");
    assert!(res.tracks[2].artists.is_empty());
    assert_eq!(res.tracks[2].playable_reference, "Song C");
    assert_eq!(spotify_tracks(&page), res);
}

#[test]
fn empty_playlist_page_is_empty() {
    let res = resolve_spotify(200, Vec::new(), Some(SpotifyPlaylistResponse { items: vec![] })).unwrap();
    assert!(res.tracks.is_empty());
}
