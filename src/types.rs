use vstd::prelude::*;

verus! {

/// A liked track as the library keeps it: the catalog record flattened to text.
#[derive(Clone, Debug)]
pub struct Track {
    pub id: String,
    pub name: String,
    pub artists: Vec<String>,
    pub album: String,
    pub uri: String,
}

/// The mathematical model of a track: its fields as character sequences.
pub struct TrackView {
    pub id: Seq<char>,
    pub name: Seq<char>,
    pub artists: Seq<Seq<char>>,
    pub album: Seq<char>,
    pub uri: Seq<char>,
}

/// The characters of each string, in order.
pub open spec fn texts(v: Seq<String>) -> Seq<Seq<char>> {
    v.map_values(|s: String| s@)
}

impl View for Track {
    type V = TrackView;

    open spec fn view(&self) -> TrackView {
        TrackView {
            id: self.id@,
            name: self.name@,
            artists: texts(self.artists@),
            album: self.album@,
            uri: self.uri@,
        }
    }
}

/// One entry of a liked-songs page, as the service sends it.
pub struct SpotifyTrack {
    pub track: TrackInfo,
}

/// The catalog record of a track, as the service sends it.
pub struct TrackInfo {
    pub id: String,
    pub name: String,
    pub artists: Vec<Artist>,
    pub album: Album,
    pub uri: String,
}

/// A contributor to a track; only the name is kept.
pub struct Artist {
    pub name: String,
}

/// The collection a track belongs to; only the name is kept.
pub struct Album {
    pub name: String,
}

/// One page of the liked-songs listing.
pub struct LikedSongsResponse {
    pub items: Vec<SpotifyTrack>,
    pub next: Option<String>,
}

/// The reply of the token endpoint.
pub struct TokenResponse {
    pub access_token: String,
    pub refresh_token: Option<String>,
    pub expires_in: u64,
}

/// The names of the contributors, in order.
pub open spec fn artist_names(a: Seq<Artist>) -> Seq<Seq<char>> {
    a.map_values(|x: Artist| x.name@)
}

impl View for TrackInfo {
    type V = TrackView;

    /// A catalog record stands for the flattened track it describes.
    open spec fn view(&self) -> TrackView {
        TrackView {
            id: self.id@,
            name: self.name@,
            artists: artist_names(self.artists@),
            album: self.album.name@,
            uri: self.uri@,
        }
    }
}

impl View for SpotifyTrack {
    type V = TrackView;

    open spec fn view(&self) -> TrackView {
        self.track@
    }
}

/// The model of a page: the tracks it carries and whether it names a next page.
pub struct PageView {
    pub tracks: Seq<TrackView>,
    pub has_next: bool,
}

impl View for LikedSongsResponse {
    type V = PageView;

    open spec fn view(&self) -> PageView {
        PageView { tracks: self.items@.map_values(|t: SpotifyTrack| t@), has_next: self.next.is_some() }
    }
}

impl Track {
    /// Flattens a catalog record: contributors to their names, the collection to
    /// its name, the other fields as they are.
    pub fn from_info(info: &TrackInfo) -> (r: Track)
        ensures
            r@ == info@,
    {
        let mut artists: Vec<String> = Vec::new();
        let mut i: usize = 0;
        while i < info.artists.len()
            invariant
                i <= info.artists@.len(),
                texts(artists@) =~= artist_names(info.artists@.take(i as int)),
            decreases info.artists@.len() - i,
        {
            let ghost prev = artists@;
            let name = info.artists[i].name.clone();
            artists.push(name);
            assert(texts(artists@) =~= texts(prev).push(name@));
            assert(info.artists@.take(i as int + 1) =~= info.artists@.take(i as int).push(info.artists@[i as int]));
            assert(artist_names(info.artists@.take(i as int + 1)) =~= artist_names(info.artists@.take(i as int)).push(
                info.artists@[i as int].name@,
            ));
            i = i + 1;
        }
        assert(info.artists@.take(i as int) =~= info.artists@);
        Track {
            id: info.id.clone(),
            name: info.name.clone(),
            artists,
            album: info.album.name.clone(),
            uri: info.uri.clone(),
        }
    }
}

} // verus!
