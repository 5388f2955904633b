//! The presence summary that the HTTP API and the websocket hand out.

use vstd::prelude::*;
use vstd::string::*;
use crate::api::utils::{active, is_active_status, status_view};
use crate::discord::{Activity, ActivityType, Presence, Timestamps, User};
use crate::text::{str_eq, strip_prefix};

verus! {

/// The activity id that Discord gives to Spotify listening activities.
pub const SPOTIFY_ACTIVITY_ID: &'static str = "spotify:1";

/// The prefix of the large image of a Spotify activity; the rest is the
/// album art's image id.
pub const SPOTIFY_IMAGE_PREFIX: &'static str = "spotify:";

/// Where album art images are served from.
pub const SPOTIFY_ART_BASE: &'static str = "https://i.scdn.co/image/";

/// The song that a user is listening to on Spotify.
#[derive(Debug, Clone)]
pub struct ResponseSpotify {
    pub track_id: String,
    pub song: String,
    pub artist: String,
    pub album: String,
    pub album_art_url: String,
    pub timestamps: Timestamps,
}

/// `ResponseSpotify` with its texts as character sequences.
pub struct SpotifyView {
    pub track_id: Seq<char>,
    pub song: Seq<char>,
    pub artist: Seq<char>,
    pub album: Seq<char>,
    pub album_art_url: Seq<char>,
    pub timestamps: Timestamps,
}

impl View for ResponseSpotify {
    type V = SpotifyView;

    open spec fn view(&self) -> SpotifyView {
        SpotifyView {
            track_id: self.track_id@,
            song: self.song@,
            artist: self.artist@,
            album: self.album@,
            album_art_url: self.album_art_url@,
            timestamps: self.timestamps,
        }
    }
}

pub open spec fn has_prefix(s: Seq<char>, prefix: Seq<char>) -> bool {
    prefix.len() <= s.len() && s.subrange(0, prefix.len() as int) == prefix
}

/// A Spotify listening activity: of type "listening" with the Spotify id.
pub open spec fn is_spotify_activity(a: Activity) -> bool {
    &&& a.kind == ActivityType::Listening
    &&& a.id matches Some(id) && id@ == SPOTIFY_ACTIVITY_ID@
}

/// The first Spotify listening activity of a list.
pub open spec fn first_spotify_activity(acts: Seq<Activity>) -> Option<Activity>
    decreases acts.len(),
{
    if acts.len() == 0 {
        None
    } else if is_spotify_activity(acts[0]) {
        Some(acts[0])
    } else {
        first_spotify_activity(acts.drop_first())
    }
}

/// The song of a Spotify activity: present when the activity names the
/// track, song, artist, album and timestamps, and its large image is a
/// Spotify image.
pub open spec fn song_of(a: Activity) -> Option<SpotifyView> {
    let assets = a.assets->0;
    let image = assets.large_image->0;
    if a.assets is Some && assets.large_image is Some && a.sync_id is Some && a.details is Some
        && a.state is Some && assets.large_text is Some && a.timestamps is Some && has_prefix(
        image@,
        SPOTIFY_IMAGE_PREFIX@,
    ) {
        Some(
            SpotifyView {
                track_id: a.sync_id->0@,
                song: a.details->0@,
                artist: a.state->0@,
                album: assets.large_text->0@,
                album_art_url: SPOTIFY_ART_BASE@ + image@.skip(SPOTIFY_IMAGE_PREFIX@.len() as int),
                timestamps: a.timestamps->0,
            },
        )
    } else {
        None
    }
}

/// The Spotify song of a presence: that of its first Spotify activity.
pub open spec fn spotify_of(acts: Seq<Activity>) -> Option<SpotifyView> {
    match first_spotify_activity(acts) {
        Some(a) => song_of(a),
        None => None,
    }
}

/// An optional `ResponseSpotify` as an optional view.
pub open spec fn spotify_view(s: Option<ResponseSpotify>) -> Option<SpotifyView> {
    match s {
        Some(s) => Some(s@),
        None => None,
    }
}

fn is_spotify(a: &Activity) -> (r: bool)
    ensures
        r == is_spotify_activity(*a),
{
    if a.kind != ActivityType::Listening {
        return false;
    }
    match &a.id {
        Some(id) => str_eq(id.as_str(), SPOTIFY_ACTIVITY_ID),
        None => false,
    }
}

fn song_from_activity(a: &Activity) -> (r: Option<ResponseSpotify>)
    ensures
        spotify_view(r) == song_of(*a),
{
    let assets = match &a.assets {
        Some(assets) => assets,
        None => return None,
    };
    let large_image = match &assets.large_image {
        Some(image) => image,
        None => return None,
    };
    let track_id = match &a.sync_id {
        Some(s) => s.clone(),
        None => return None,
    };
    let song = match &a.details {
        Some(s) => s.clone(),
        None => return None,
    };
    let artist = match &a.state {
        Some(s) => s.clone(),
        None => return None,
    };
    let album = match &assets.large_text {
        Some(s) => s.clone(),
        None => return None,
    };
    let image_id = match strip_prefix(large_image.as_str(), SPOTIFY_IMAGE_PREFIX) {
        Some(rest) => rest,
        None => return None,
    };
    let timestamps = match &a.timestamps {
        Some(t) => Timestamps { start: t.start, end: t.end },
        None => return None,
    };
    let mut album_art_url = SPOTIFY_ART_BASE.to_string();
    album_art_url.append(image_id.as_str());
    proof {
        assert(large_image@.subrange(0, SPOTIFY_IMAGE_PREFIX@.len() as int) =~= SPOTIFY_IMAGE_PREFIX@);
        assert(has_prefix(large_image@, SPOTIFY_IMAGE_PREFIX@));
        assert(image_id@ =~= large_image@.skip(SPOTIFY_IMAGE_PREFIX@.len() as int));
    }
    Some(ResponseSpotify { track_id, song, artist, album, album_art_url, timestamps })
}

impl ResponseSpotify {
    /// The song of the presence's first Spotify activity, if it has one
    /// and that activity carries every detail of the song.
    pub fn from_presence(presence: &Presence) -> (r: Option<Self>)
        ensures
            spotify_view(r) == spotify_of(presence.activities@),
    {
        let acts = &presence.activities;
        let n = acts.len();
        let mut i: usize = 0;
        assert(acts@.skip(0) =~= acts@);
        while i < n
            invariant
                n == acts@.len(),
                acts@ == presence.activities@,
                i <= n,
                first_spotify_activity(acts@) == first_spotify_activity(acts@.skip(i as int)),
            decreases n - i,
        {
            assert(acts@.skip(i as int).drop_first() =~= acts@.skip(i + 1));
            assert(acts@.skip(i as int)[0] == acts@[i as int]);
            if is_spotify(&acts[i]) {
                return song_from_activity(&acts[i]);
            }
            i = i + 1;
        }
        assert(acts@.skip(n as int).len() == 0);
        None
    }
}

/// What the API tells about a user.
#[derive(Debug, Clone)]
pub struct ResponseData {
    pub active_on_discord_web: bool,
    pub active_on_discord_mobile: bool,
    pub active_on_discord_desktop: bool,
    pub active_on_discord_embedded: bool,
    pub active_on_discord_vr: bool,
    pub listening_to_spotify: bool,
    pub spotify: Option<ResponseSpotify>,
    pub discord_user: User,
    pub discord_status: String,
    pub activities: Vec<Activity>,
}

impl ResponseData {
    /// Whether `self` is the summary of `user` with `presence`.
    pub open spec fn summarizes(self, user: User, presence: Presence) -> bool {
        let status = presence.client_status;
        &&& self.active_on_discord_web == active(status_view(status.web))
        &&& self.active_on_discord_mobile == active(status_view(status.mobile))
        &&& self.active_on_discord_desktop == active(status_view(status.desktop))
        &&& self.active_on_discord_embedded == active(status_view(status.embedded))
        &&& self.active_on_discord_vr == active(status_view(status.vr))
        &&& spotify_view(self.spotify) == spotify_of(presence.activities@)
        &&& self.listening_to_spotify == (self.spotify is Some)
        &&& self.discord_user == user
        &&& self.discord_status == presence.status
        &&& self.activities == presence.activities
    }

    /// The summary of a user and their presence.
    pub fn build(user: User, presence: Presence) -> (r: Self)
        ensures
            r.summarizes(user, presence),
    {
        let spotify = ResponseSpotify::from_presence(&presence);
        let web = is_active_status(&presence.client_status.web);
        let mobile = is_active_status(&presence.client_status.mobile);
        let desktop = is_active_status(&presence.client_status.desktop);
        let embedded = is_active_status(&presence.client_status.embedded);
        let vr = is_active_status(&presence.client_status.vr);
        let listening = spotify.is_some();
        ResponseData {
            active_on_discord_web: web,
            active_on_discord_mobile: mobile,
            active_on_discord_desktop: desktop,
            active_on_discord_embedded: embedded,
            active_on_discord_vr: vr,
            listening_to_spotify: listening,
            spotify,
            discord_user: user,
            discord_status: presence.status,
            activities: presence.activities,
        }
    }
}

/// Each platform flag of a summary comes from that platform's own status:
/// it is set exactly when the status is present and is not "offline".
pub proof fn lemma_platform_flags(r: ResponseData, user: User, presence: Presence)
    requires
        r.summarizes(user, presence),
    ensures
        r.active_on_discord_web == (presence.client_status.web matches Some(s) && s@
            != "offline"@),
        r.active_on_discord_mobile == (presence.client_status.mobile matches Some(s) && s@
            != "offline"@),
        r.active_on_discord_desktop == (presence.client_status.desktop matches Some(s) && s@
            != "offline"@),
        r.active_on_discord_embedded == (presence.client_status.embedded matches Some(s) && s@
            != "offline"@),
        r.active_on_discord_vr == (presence.client_status.vr matches Some(s) && s@
            != "offline"@),
        r.discord_user == user,
        r.discord_status == presence.status,
        r.activities == presence.activities,
{
}

/// The activity that a song is taken from is the first one that is of type
/// "listening" and has the id "spotify:1"; no other activity is ever chosen,
/// and when there is no such activity there is no song.
pub proof fn lemma_first_spotify_activity(acts: Seq<Activity>)
    ensures
        first_spotify_activity(acts) is Some ==> exists|i: int|
            #![trigger acts[i]]
            0 <= i < acts.len() && acts[i] == first_spotify_activity(acts)->0 && (acts[i].kind == ActivityType::Listening && acts[i].id is Some && acts[i].id->0@ == "spotify:1"@)
                && forall|j: int| 0 <= j < i ==> !(acts[j].kind == ActivityType::Listening && acts[j].id is Some && acts[j].id->0@ == "spotify:1"@),
        first_spotify_activity(acts) is None ==> forall|j: int|
            0 <= j < acts.len() ==> !(acts[j].kind == ActivityType::Listening && acts[j].id is Some && acts[j].id->0@ == "spotify:1"@),
    decreases acts.len(),
{
    if acts.len() > 0 {
        let rest = acts.drop_first();
        lemma_first_spotify_activity(rest);
        if is_spotify_activity(acts[0]) {
            assert(acts[0] == first_spotify_activity(acts)->0);
        } else if first_spotify_activity(rest) is Some {
            let k = choose|k: int|
                #![trigger rest[k]]
                0 <= k < rest.len() && rest[k] == first_spotify_activity(rest)->0 && (rest[k].kind == ActivityType::Listening && rest[k].id is Some && rest[k].id->0@ == "spotify:1"@)
                    && forall|j: int| 0 <= j < k ==> !(rest[j].kind == ActivityType::Listening && rest[j].id is Some && rest[j].id->0@ == "spotify:1"@);
            assert(acts[k + 1] == rest[k]);
            assert forall|j: int| 0 <= j < k + 1 implies !(acts[j].kind == ActivityType::Listening && acts[j].id is Some && acts[j].id->0@ == "spotify:1"@) by {
                if j > 0 {
                    assert(acts[j] == rest[j - 1]);
                }
            }
        } else {
            assert forall|j: int| 0 <= j < acts.len() implies !(acts[j].kind == ActivityType::Listening && acts[j].id is Some && acts[j].id->0@ == "spotify:1"@) by {
                if j > 0 {
                    assert(acts[j] == rest[j - 1]);
                }
            }
        }
    }
}

/// The song of a presence is made of its first Spotify activity's details:
/// track id, song, artist, album, timestamps, and the album art at the
/// image CDN under the image id that follows "spotify:".
pub proof fn lemma_song_fields(acts: Seq<Activity>)
    ensures
        spotify_of(acts) is Some ==> {
            let v = spotify_of(acts)->0;
            let a = first_spotify_activity(acts)->0;
            let image = a.assets->0.large_image->0;
            &&& first_spotify_activity(acts) is Some
            &&& a.assets is Some
            &&& a.assets->0.large_image is Some
            &&& a.sync_id is Some && v.track_id == a.sync_id->0@
            &&& a.details is Some && v.song == a.details->0@
            &&& a.state is Some && v.artist == a.state->0@
            &&& a.assets->0.large_text is Some && v.album == a.assets->0.large_text->0@
            &&& a.timestamps == Some(v.timestamps)
            &&& image@.len() >= 8 && image@.subrange(0, 8) == "spotify:"@
            &&& v.album_art_url == "https://i.scdn.co/image/"@ + image@.skip(8)
        },
{
    reveal_strlit("spotify:");
}

/// A summary says the user listens to Spotify exactly when it carries a
/// song, and it carries one exactly when the presence has a complete first
/// Spotify activity.
pub proof fn lemma_listening_iff_song(r: ResponseData, user: User, presence: Presence)
    requires
        r.summarizes(user, presence),
    ensures
        r.listening_to_spotify <==> r.spotify is Some,
        r.listening_to_spotify <==> spotify_of(presence.activities@) is Some,
{
}

} // verus!
