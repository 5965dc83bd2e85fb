use vstd::prelude::*;
use vstd::string::*;

verus! {

/// One entry of a flat playlist enumeration: the entry's direct media URL.
#[derive(Debug, Clone, PartialEq, Eq)]
pub struct YTPlayListResponse {
    pub url: String,
}

/// The flat playlist enumerator exited with a failure; holds the exact bytes of its error stream.
#[derive(Debug, Clone, PartialEq, Eq)]
pub enum YTPlayListError {
    ListOfUrlsError(Vec<u8>),
}

/// Why a playlist could not be resolved.
#[derive(Debug, Clone, PartialEq, Eq)]
pub enum ResolveError {
    /// A network call could not complete.
    Transport,
    /// The external enumerator exited with a failure.
    ExternalTool(YTPlayListError),
    /// Bytes arrived but did not have the expected shape.
    Deserialization,
    /// The API answered with a failure status, or with a success body of the wrong shape.
    ApiResponse { status: u16, body: Vec<u8> },
}

/// The string member `key` of the JSON object written in `text`, if `text` is one well-formed
/// JSON document (in UTF-8) that is an object holding such a member.
pub uninterp spec fn json_str_member(text: Seq<u8>, key: Seq<char>) -> Option<Seq<char>>;

/// Relies on `serde_json::from_slice` to read `text` as one JSON document (bytes that are not
/// UTF-8 fail to parse), then on `Value::get` and `Value::as_str` to pick the string member `key`.
#[verifier::external_body]
fn str_member(text: &[u8], key: &str) -> (r: Option<String>)
    ensures
        match r {
            Some(s) => json_str_member(text@, key@) == Some(s@),
            None => json_str_member(text@, key@) is None,
        },
{
    match serde_json::from_slice::<serde_json::Value>(text) {
        Ok(v) => v.get(key).and_then(serde_json::Value::as_str).map(String::from),
        Err(_) => None,
    }
}

pub open spec fn newline() -> u8 {
    10u8
}

pub open spec fn carriage_return() -> u8 {
    13u8
}

/// A line that holds no record: empty, or only the `\r` of a `\r\n` ending.
pub open spec fn is_blank(line: Seq<u8>) -> bool {
    line.len() == 0 || line == seq![carriage_return()]
}

/// Reads `s` line by line: the non-blank lines ended by a newline so far, and the line not
/// yet ended.
pub open spec fn scan_lines(s: Seq<u8>) -> (Seq<Seq<u8>>, Seq<u8>)
    decreases s.len(),
{
    if s.len() == 0 {
        (Seq::empty(), Seq::empty())
    } else {
        let prev = scan_lines(s.drop_last());
        if s.last() == newline() {
            (if is_blank(prev.1) { prev.0 } else { prev.0.push(prev.1) }, Seq::empty())
        } else {
            (prev.0, prev.1.push(s.last()))
        }
    }
}

/// The non-blank lines of `s`, in order; a last line needs no newline after it.
pub open spec fn output_records(s: Seq<u8>) -> Seq<Seq<u8>> {
    let sc = scan_lines(s);
    if is_blank(sc.1) {
        sc.0
    } else {
        sc.0.push(sc.1)
    }
}

pub open spec fn url_key() -> Seq<char> {
    seq!['u', 'r', 'l']
}

/// Every record is a JSON object with a string `url` member.
pub open spec fn records_parse(recs: Seq<Seq<u8>>) -> bool {
    forall|k: int| 0 <= k < recs.len() ==> (#[trigger] json_str_member(recs[k], url_key())) is Some
}

/// The `url` member of each record, in order.
pub open spec fn record_urls(recs: Seq<Seq<u8>>) -> Seq<Seq<char>> {
    recs.map_values(|r: Seq<u8>| json_str_member(r, url_key())->0)
}

/// The URLs that a successful enumeration wrote, one per non-blank line.
pub open spec fn flat_playlist_urls(stdout: Seq<u8>) -> Seq<Seq<char>> {
    record_urls(output_records(stdout))
}

pub open spec fn entry_urls(v: Seq<YTPlayListResponse>) -> Seq<Seq<char>> {
    v.map_values(|e: YTPlayListResponse| e.url@)
}

fn is_blank_line(line: &Vec<u8>) -> (r: bool)
    ensures
        r == is_blank(line@),
{
    if line.len() == 0 {
        true
    } else if line.len() == 1 && line[0] == 13u8 {
        assert(line@ =~= seq![carriage_return()]);
        true
    } else {
        false
    }
}

fn parse_entry(line: &Vec<u8>) -> (r: Option<YTPlayListResponse>)
    ensures
        match r {
            Some(e) => json_str_member(line@, url_key()) == Some(e.url@),
            None => json_str_member(line@, url_key()) is None,
        },
{
    proof {
        reveal_strlit("url");
        assert("url"@ =~= url_key());
    }
    match str_member(line.as_slice(), "url") {
        Some(url) => Some(YTPlayListResponse { url }),
        None => None,
    }
}

/// Reads what the flat playlist enumerator left behind: whether it exited successfully, and
/// the bytes of its output and error streams. Each non-blank output line is one JSON record
/// with a `url` member. One malformed record fails the whole enumeration: no partial list is
/// returned.
pub fn list_of_urls(success: bool, stdout: &Vec<u8>, stderr: Vec<u8>) -> (r: Result<
    Vec<YTPlayListResponse>,
    ResolveError,
>)
    ensures
        !success ==> r == Err::<Vec<YTPlayListResponse>, ResolveError>(
            ResolveError::ExternalTool(YTPlayListError::ListOfUrlsError(stderr)),
        ),
        success ==> match r {
            Ok(v) => records_parse(output_records(stdout@)) && entry_urls(v@) == flat_playlist_urls(
                stdout@,
            ),
            Err(e) => !records_parse(output_records(stdout@)) && e is Deserialization,
        },
{
    if !success {
        return Err(ResolveError::ExternalTool(YTPlayListError::ListOfUrlsError(stderr)));
    }
    let mut entries: Vec<YTPlayListResponse> = Vec::new();
    let mut cur: Vec<u8> = Vec::new();
    let mut ok = true;
    let mut i: usize = 0;
    while i < stdout.len()
        invariant
            0 <= i <= stdout.len(),
            cur@ == scan_lines(stdout@.take(i as int)).1,
            ok == records_parse(scan_lines(stdout@.take(i as int)).0),
            ok ==> entry_urls(entries@) == record_urls(scan_lines(stdout@.take(i as int)).0),
        decreases stdout.len() - i,
    {
        let b = stdout[i];
        proof {
            assert(stdout@.take(i + 1).drop_last() =~= stdout@.take(i as int));
        }
        let ghost done = scan_lines(stdout@.take(i as int)).0;
        if b == 10u8 {
            if !is_blank_line(&cur) {
                if ok {
                    match parse_entry(&cur) {
                        Some(e) => {
                            entries.push(e);
                        },
                        None => {
                            ok = false;
                        },
                    }
                }
                proof {
                    lemma_push_record(done, cur@);
                }
            }
            cur = Vec::new();
        } else {
            cur.push(b);
        }
        i += 1;
        proof {
            if ok {
                assert(entry_urls(entries@) =~= record_urls(scan_lines(stdout@.take(i as int)).0));
            }
        }
    }
    proof {
        assert(stdout@.take(i as int) =~= stdout@);
    }
    if !is_blank_line(&cur) {
        let ghost done = scan_lines(stdout@).0;
        if ok {
            match parse_entry(&cur) {
                Some(e) => {
                    entries.push(e);
                },
                None => {
                    ok = false;
                },
            }
        }
        proof {
            lemma_push_record(done, cur@);
            if ok {
                assert(entry_urls(entries@) =~= record_urls(output_records(stdout@)));
            }
        }
    }
    if ok {
        Ok(entries)
    } else {
        Err(ResolveError::Deserialization)
    }
}

proof fn lemma_push_record(done: Seq<Seq<u8>>, line: Seq<u8>)
    ensures
        records_parse(done.push(line)) == (records_parse(done) && json_str_member(line, url_key()) is Some),
        record_urls(done.push(line)) =~= record_urls(done).push(json_str_member(line, url_key())->0),
{
    let d = done.push(line);
    if records_parse(d) {
        assert forall|k: int| 0 <= k < done.len() implies (#[trigger] json_str_member(done[k], url_key())) is Some by {
            assert(d[k] == done[k]);
        }
        assert(d[done.len() as int] == line);
    }
    if records_parse(done) && json_str_member(line, url_key()) is Some {
        assert forall|k: int| 0 <= k < d.len() implies (#[trigger] json_str_member(d[k], url_key())) is Some by {
            if k < done.len() {
                assert(d[k] == done[k]);
            }
        }
    }
}

/// One playable unit handed to the playback side.
#[derive(Debug, Clone, PartialEq, Eq)]
pub struct ResolvedTrack {
    pub title: String,
    pub artists: Vec<String>,
    /// A direct media URL, or a query that a search resolves to the track.
    pub playable_reference: String,
}

/// The tracks of one playlist, in the order the source gave them.
#[derive(Debug, Clone, PartialEq, Eq)]
pub struct PlaylistResolution {
    pub tracks: Vec<ResolvedTrack>,
}

pub open spec fn names_view(v: Seq<String>) -> Seq<Seq<char>> {
    v.map_values(|s: String| s@)
}

/// What a track is to its listener: title, artist names, playable reference.
pub open spec fn track_view(t: ResolvedTrack) -> (Seq<char>, Seq<Seq<char>>, Seq<char>) {
    (t.title@, names_view(t.artists@), t.playable_reference@)
}

pub open spec fn tracks_view(ts: Seq<ResolvedTrack>) -> Seq<(Seq<char>, Seq<Seq<char>>, Seq<char>)> {
    ts.map_values(|t: ResolvedTrack| track_view(t))
}

/// A flat playlist entry as a track: the URL is the reference, title and artists stay empty.
pub open spec fn url_track(url: Seq<char>) -> (Seq<char>, Seq<Seq<char>>, Seq<char>) {
    (Seq::empty(), Seq::empty(), url)
}

/// Turns flat playlist entries into tracks, keeping their order.
pub fn youtube_tracks(entries: &Vec<YTPlayListResponse>) -> (r: PlaylistResolution)
    ensures
        tracks_view(r.tracks@) == entry_urls(entries@).map_values(|u: Seq<char>| url_track(u)),
{
    let mut tracks: Vec<ResolvedTrack> = Vec::new();
    let mut i: usize = 0;
    while i < entries.len()
        invariant
            i <= entries.len(),
            tracks_view(tracks@) =~= entry_urls(entries@.take(i as int)).map_values(
                |u: Seq<char>| url_track(u),
            ),
        decreases entries.len() - i,
    {
        proof {
            assert(entries@.take(i + 1) =~= entries@.take(i as int).push(entries@[i as int]));
        }
        let url = entries[i].url.clone();
        let artists: Vec<String> = Vec::new();
        let t = ResolvedTrack { title: String::new(), artists, playable_reference: url };
        proof {
            assert(names_view(t.artists@) =~= Seq::<Seq<char>>::empty());
            assert(track_view(t) == url_track(entries@[i as int].url@));
        }
        let ghost before = tracks@;
        tracks.push(t);
        proof {
            assert(tracks@ =~= before.push(t));
            assert(tracks_view(tracks@) =~= tracks_view(before).push(track_view(t)));
        }
        i += 1;
    }
    proof {
        assert(entries@.take(i as int) =~= entries@);
    }
    PlaylistResolution { tracks }
}

/// Resolves a flat playlist from what its enumerator left behind: on success, one track per
/// record in output order, each referring to the record's URL; otherwise the classified failure.
pub fn resolve_youtube(success: bool, stdout: &Vec<u8>, stderr: Vec<u8>) -> (r: Result<
    PlaylistResolution,
    ResolveError,
>)
    ensures
        !success ==> r == Err::<PlaylistResolution, ResolveError>(
            ResolveError::ExternalTool(YTPlayListError::ListOfUrlsError(stderr)),
        ),
        success ==> match r {
            Ok(res) => records_parse(output_records(stdout@)) && tracks_view(res.tracks@)
                == flat_playlist_urls(stdout@).map_values(|u: Seq<char>| url_track(u)),
            Err(e) => !records_parse(output_records(stdout@)) && e is Deserialization,
        },
{
    match list_of_urls(success, stdout, stderr) {
        Ok(entries) => Ok(youtube_tracks(&entries)),
        Err(e) => Err(e),
    }
}

/// A bearer credential for the playlist API.
#[derive(Debug, Clone, PartialEq, Eq)]
pub struct AccessToken {
    pub access_token: String,
}

/// One artist credited on a playlist track.
#[derive(Debug, Clone, PartialEq, Eq)]
pub struct Artists {
    pub name: String,
}

/// A track as the playlist API describes it.
#[derive(Debug, Clone, PartialEq, Eq)]
pub struct Track {
    pub name: String,
    pub artists: Vec<Artists>,
}

/// One entry of a playlist's track list.
#[derive(Debug, Clone, PartialEq, Eq)]
pub struct Items {
    pub track: Track,
}

/// The first page of a playlist's track list.
#[derive(Debug, Clone, PartialEq, Eq)]
pub struct SpotifyPlaylistResponse {
    pub items: Vec<Items>,
}

/// The request that fetches a playlist's tracks.
#[derive(Debug, Clone, PartialEq, Eq)]
pub struct TracksRequest {
    pub url: String,
    pub bearer_token: String,
}

pub open spec fn token_key() -> Seq<char> {
    seq!['a', 'c', 'c', 'e', 's', 's', 'T', 'o', 'k', 'e', 'n']
}

/// Reads the token endpoint's body: a JSON object whose string member `accessToken` is the
/// token. The token is not checked against the API.
pub fn get_spotify_access_token(body: &[u8]) -> (r: Result<AccessToken, ResolveError>)
    ensures
        match json_str_member(body@, token_key()) {
            Some(t) => r matches Ok(tok) && tok.access_token@ == t,
            None => r matches Err(e) && e is Deserialization,
        },
{
    proof {
        reveal_strlit("accessToken");
        assert("accessToken"@ =~= token_key());
    }
    match str_member(body, "accessToken") {
        Some(access_token) => Ok(AccessToken { access_token }),
        None => Err(ResolveError::Deserialization),
    }
}

pub open spec fn tracks_url(playlist_id: Seq<char>) -> Seq<char> {
    "https://api.spotify.com/v1/playlists/"@ + playlist_id + "/tracks"@
}

/// The endpoint that lists the tracks of `playlist_id`.
pub fn playlist_tracks_url(playlist_id: &str) -> (r: String)
    ensures
        r@ == tracks_url(playlist_id@),
{
    let mut url = String::from_str("https://api.spotify.com/v1/playlists/");
    url.append(playlist_id);
    url.append("/tracks");
    url
}

/// Decides, from the token endpoint's body, whether the tracks of `playlist_id` are asked for:
/// only a body that yields a token leads to a request, which carries that token.
pub fn tracks_request(playlist_id: &str, token_body: &[u8]) -> (r: Result<TracksRequest, ResolveError>)
    ensures
        match json_str_member(token_body@, token_key()) {
            Some(t) => r matches Ok(req) && req.url@ == tracks_url(playlist_id@) && req.bearer_token@ == t,
            None => r matches Err(e) && e is Deserialization,
        },
{
    match get_spotify_access_token(token_body) {
        Ok(token) => Ok(TracksRequest { url: playlist_tracks_url(playlist_id), bearer_token: token.access_token }),
        Err(e) => Err(e),
    }
}

pub open spec fn is_success_status(status: u16) -> bool {
    200 <= status <= 299
}

/// Checks the tracks endpoint's answer: its status, its raw body, and the body read as a track
/// list where it could be (`None` where it could not).
pub fn check_playlist_response(status: u16, body: Vec<u8>, decoded: Option<SpotifyPlaylistResponse>) -> (r: Result<
    SpotifyPlaylistResponse,
    ResolveError,
>)
    ensures
        is_success_status(status) && decoded is Some ==> r == Ok::<SpotifyPlaylistResponse, ResolveError>(
            decoded->0,
        ),
        !(is_success_status(status) && decoded is Some) ==> r == Err::<SpotifyPlaylistResponse, ResolveError>(
            ResolveError::ApiResponse { status, body },
        ),
{
    if 200 <= status && status <= 299 {
        match decoded {
            Some(d) => Ok(d),
            None => Err(ResolveError::ApiResponse { status, body }),
        }
    } else {
        Err(ResolveError::ApiResponse { status, body })
    }
}

/// The names joined by `", "`, in order.
pub open spec fn join_names(names: Seq<Seq<char>>) -> Seq<char>
    decreases names.len(),
{
    if names.len() == 0 {
        Seq::empty()
    } else if names.len() == 1 {
        names[0]
    } else {
        join_names(names.drop_last()) + ", "@ + names.last()
    }
}

/// The search query that finds a track: `"artists - title"`, or the title alone when no
/// artist is credited.
pub open spec fn search_query(title: Seq<char>, artists: Seq<Seq<char>>) -> Seq<char> {
    if artists.len() == 0 {
        title
    } else {
        join_names(artists) + " - "@ + title
    }
}

pub open spec fn artist_names(t: Track) -> Seq<Seq<char>> {
    t.artists@.map_values(|a: Artists| a.name@)
}

pub open spec fn spotify_track(t: Track) -> (Seq<char>, Seq<Seq<char>>, Seq<char>) {
    (t.name@, artist_names(t), search_query(t.name@, artist_names(t)))
}

/// The tracks that a playlist page lists, in its order.
pub open spec fn spotify_tracks_view(resp: SpotifyPlaylistResponse) -> Seq<(Seq<char>, Seq<Seq<char>>, Seq<char>)> {
    resp.items@.map_values(|i: Items| spotify_track(i.track))
}

/// Turns one listed track into a playable one, its reference being its search query.
pub fn spotify_track_of(t: &Track) -> (r: ResolvedTrack)
    ensures
        track_view(r) == spotify_track(*t),
{
    let mut artists: Vec<String> = Vec::new();
    let mut joined = String::new();
    let mut j: usize = 0;
    let ghost names = artist_names(*t);
    while j < t.artists.len()
        invariant
            j <= t.artists.len(),
            names == artist_names(*t),
            names_view(artists@) =~= names.take(j as int),
            joined@ == join_names(names.take(j as int)),
        decreases t.artists.len() - j,
    {
        proof {
            assert(names.take(j + 1).drop_last() =~= names.take(j as int));
            assert(names.take(j + 1).last() == names[j as int]);
            if j == 0 {
                assert(joined@ + names[0] =~= names[0]);
            }
        }
        if j > 0 {
            joined.append(", ");
        }
        joined.append(t.artists[j].name.as_str());
        artists.push(t.artists[j].name.clone());
        j += 1;
    }
    proof {
        assert(names.take(j as int) =~= names);
    }
    let title = t.name.clone();
    let reference = if j == 0 {
        t.name.clone()
    } else {
        joined.append(" - ");
        joined.append(t.name.as_str());
        joined
    };
    ResolvedTrack { title, artists, playable_reference: reference }
}

/// Turns a playlist page into tracks, one per listed item, in order.
pub fn spotify_tracks(resp: &SpotifyPlaylistResponse) -> (r: PlaylistResolution)
    ensures
        tracks_view(r.tracks@) == spotify_tracks_view(*resp),
{
    let mut tracks: Vec<ResolvedTrack> = Vec::new();
    let mut i: usize = 0;
    while i < resp.items.len()
        invariant
            i <= resp.items.len(),
            tracks_view(tracks@) =~= spotify_tracks_view(*resp).take(i as int),
        decreases resp.items.len() - i,
    {
        let t = spotify_track_of(&resp.items[i].track);
        let ghost before = tracks@;
        tracks.push(t);
        proof {
            assert(tracks@ =~= before.push(t));
            assert(tracks_view(tracks@) =~= tracks_view(before).push(track_view(t)));
            assert(spotify_tracks_view(*resp).take(i + 1) =~= spotify_tracks_view(*resp).take(i as int).push(
                spotify_track(resp.items@[i as int].track),
            ));
        }
        i += 1;
    }
    proof {
        assert(spotify_tracks_view(*resp).take(i as int) =~= spotify_tracks_view(*resp));
    }
    PlaylistResolution { tracks }
}

/// Resolves a playlist from the tracks endpoint's answer: the listed tracks in order where the
/// status is a success and the body reads as a track list, otherwise an API failure that keeps
/// the status and the raw body. Only this one page is read.
pub fn resolve_spotify(status: u16, body: Vec<u8>, decoded: Option<SpotifyPlaylistResponse>) -> (r: Result<
    PlaylistResolution,
    ResolveError,
>)
    ensures
        match r {
            Ok(res) => is_success_status(status) && decoded is Some && tracks_view(res.tracks@)
                == spotify_tracks_view(decoded->0),
            Err(e) => !(is_success_status(status) && decoded is Some) && e == (ResolveError::ApiResponse { status, body }),
        },
{
    match check_playlist_response(status, body, decoded) {
        Ok(resp) => Ok(spotify_tracks(&resp)),
        Err(e) => Err(e),
    }
}

/// Resolving the same flat playlist twice, with the enumerator writing the same output, gives
/// the same tracks.
pub proof fn lemma_youtube_repeatable(stdout: Seq<u8>, first: PlaylistResolution, second: PlaylistResolution)
    requires
        tracks_view(first.tracks@) == flat_playlist_urls(stdout).map_values(|u: Seq<char>| url_track(u)),
        tracks_view(second.tracks@) == flat_playlist_urls(stdout).map_values(|u: Seq<char>| url_track(u)),
    ensures
        tracks_view(first.tracks@) == tracks_view(second.tracks@),
{
}

/// Resolving the same Spotify playlist twice gives the same tracks when the API lists the same
/// page, even where the two tokens differ: both requests go to the same endpoint, and the tracks
/// depend on the page alone.
pub proof fn lemma_spotify_repeatable(
    playlist_id: Seq<char>,
    first_token_body: Seq<u8>,
    second_token_body: Seq<u8>,
    first_request: TracksRequest,
    second_request: TracksRequest,
    page: SpotifyPlaylistResponse,
    first: PlaylistResolution,
    second: PlaylistResolution,
)
    requires
        json_str_member(first_token_body, token_key()) == Some(first_request.bearer_token@),
        json_str_member(second_token_body, token_key()) == Some(second_request.bearer_token@),
        first_request.url@ == tracks_url(playlist_id),
        second_request.url@ == tracks_url(playlist_id),
        tracks_view(first.tracks@) == spotify_tracks_view(page),
        tracks_view(second.tracks@) == spotify_tracks_view(page),
    ensures
        first_request.url@ == second_request.url@,
        tracks_view(first.tracks@) == tracks_view(second.tracks@),
{
}

} // verus!
