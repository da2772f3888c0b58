use vstd::prelude::*;
use crate::text::{decimal, join_commas, push_decimal};
use crate::types::{texts, LikedSongsResponse, PageView, Track, TrackView};

verus! {

/// How many tracks one page request asks for.
pub const PAGE_SIZE: usize = 50;

/// The most ids that one write request carries.
pub const BATCH_SIZE: usize = 50;

/// The liked-tracks endpoint, for reading and for writing.
pub open spec fn tracks_endpoint() -> Seq<char> {
    "https://api.spotify.com/v1/me/tracks"@
}

/// The URL of the page of liked tracks that starts at `offset`.
pub open spec fn page_url(offset: nat) -> Seq<char> {
    tracks_endpoint() + "?limit="@ + decimal(PAGE_SIZE as nat) + "&offset="@ + decimal(offset)
}

/// The URL of the request that marks the tracks `ids` as liked.
pub open spec fn like_url(ids: Seq<Seq<char>>) -> Seq<char> {
    tracks_endpoint() + "?ids="@ + join_commas(ids)
}

/// The models of the tracks, in order.
pub open spec fn track_views(v: Seq<Track>) -> Seq<TrackView> {
    v.map_values(|t: Track| t@)
}

/// The ids of the tracks, in order.
pub open spec fn track_ids(v: Seq<Track>) -> Seq<Seq<char>> {
    v.map_values(|t: Track| t.id@)
}

/// How many write requests `n` ids take.
pub open spec fn batch_count(n: nat) -> nat {
    ((n + BATCH_SIZE - 1) / (BATCH_SIZE as int)) as nat
}

/// The `k`-th batch of `s`: at most `BATCH_SIZE` consecutive entries.
pub open spec fn batch<A>(s: Seq<A>, k: nat) -> Seq<A> {
    let start = k * BATCH_SIZE;
    let end = if start + BATCH_SIZE <= s.len() { start + BATCH_SIZE } else { s.len() as int };
    s.subrange(start as int, end)
}

/// `s` cut into consecutive batches of `BATCH_SIZE`, the last one possibly shorter.
pub open spec fn batches<A>(s: Seq<A>) -> Seq<Seq<A>> {
    Seq::new(batch_count(s.len()), |k: int| batch(s, k as nat))
}

/// The sequences laid end to end.
pub open spec fn concat<A>(ss: Seq<Seq<A>>) -> Seq<A>
    decreases ss.len(),
{
    if ss.len() == 0 {
        Seq::empty()
    } else {
        concat(ss.drop_last()) + ss.last()
    }
}

/// The URLs of the write requests for `tracks`: one per batch, in input order.
pub open spec fn like_requests(tracks: Seq<Track>) -> Seq<Seq<char>> {
    batches(track_ids(tracks)).map_values(|b: Seq<Seq<char>>| like_url(b))
}

/// The URLs of the write requests for `tracks`: one per batch, in input order.
pub fn like_request_urls(tracks: &Vec<Track>) -> (r: Vec<String>)
    ensures
        texts(r@) == like_requests(tracks@),
        r@.len() == batch_count(tracks@.len()),
        forall|k: int| 0 <= k < r@.len() ==> #[trigger] r@[k]@ == like_url(batch(track_ids(tracks@), k as nat)),
        tracks@.len() == 0 ==> r@.len() == 0,
{
    let ghost ids = track_ids(tracks@);
    let n = tracks.len();
    let mut r: Vec<String> = Vec::new();
    let mut start: usize = 0;
    while start < n
        invariant
            n == tracks@.len(),
            ids == track_ids(tracks@),
            start <= n,
            start < n ==> start == r@.len() * BATCH_SIZE && r@.len() < batch_count(n as nat),
            start == n ==> r@.len() == batch_count(n as nat),
            forall|k: int| 0 <= k < r@.len() ==> #[trigger] r@[k]@ == like_url(batch(ids, k as nat)),
        decreases n - start,
    {
        let end: usize = if n - start > BATCH_SIZE { start + BATCH_SIZE } else { n };
        let ghost chunk = batch(ids, r@.len() as nat);
        assert(chunk =~= ids.subrange(start as int, end as int));
        let mut url = String::from_str("https://api.spotify.com/v1/me/tracks");
        url.append("?ids=");
        let mut j: usize = start;
        while j < end
            invariant
                start <= j <= end <= n,
                n == tracks@.len(),
                ids == track_ids(tracks@),
                url@ == tracks_endpoint() + "?ids="@ + join_commas(ids.subrange(start as int, j as int)),
            decreases end - j,
        {
            let ghost before = ids.subrange(start as int, j as int);
            if j > start {
                url.append(",");
            }
            url.append(tracks[j].id.as_str());
            proof {
                let after = ids.subrange(start as int, j + 1);
                assert(after.drop_last() =~= before);
                if j == start {
                    assert(after =~= seq![ids[j as int]]);
                }
            }
            assert(url@ =~= tracks_endpoint() + "?ids="@ + join_commas(ids.subrange(start as int, j + 1)));
            j = j + 1;
        }
        r.push(url);
        start = end;
    }
    assert(texts(r@) =~= like_requests(tracks@));
    r
}

/// The model of a fetch in progress: the offset of the next page, the tracks
/// gathered so far, and whether the last page has come.
pub struct FetchView {
    pub offset: nat,
    pub tracks: Seq<TrackView>,
    pub finished: bool,
}

/// A fetch that has asked for nothing yet.
pub open spec fn fetch_start() -> FetchView {
    FetchView { offset: 0, tracks: Seq::empty(), finished: false }
}

/// What a page does to a fetch: its tracks are appended; the fetch moves on by
/// one page if the page names a next one, and is finished otherwise.
pub open spec fn fetch_step(s: FetchView, p: PageView) -> FetchView {
    FetchView {
        offset: if p.has_next { (s.offset + PAGE_SIZE) as nat } else { s.offset },
        tracks: s.tracks + p.tracks,
        finished: !p.has_next,
    }
}

/// The paged read of a liked-songs library. The caller asks for the URL of the
/// next page, performs the request, and hands the page back, until no request is
/// left; a failed request abandons the fetch with everything it gathered.
pub struct LikedSongsFetch {
    offset: usize,
    tracks: Vec<Track>,
    finished: bool,
}

impl View for LikedSongsFetch {
    type V = FetchView;

    closed spec fn view(&self) -> FetchView {
        FetchView { offset: self.offset as nat, tracks: track_views(self.tracks@), finished: self.finished }
    }
}

impl LikedSongsFetch {
    /// A fetch that starts from the first page.
    pub fn new() -> (r: LikedSongsFetch)
        ensures
            r@ == fetch_start(),
    {
        let r = LikedSongsFetch { offset: 0, tracks: Vec::new(), finished: false };
        assert(track_views(r.tracks@) =~= Seq::<TrackView>::empty());
        r
    }

    /// The offset of the next page to ask for.
    pub fn offset(&self) -> (r: usize)
        ensures
            r as nat == self@.offset,
    {
        self.offset
    }

    /// Whether the last page has come.
    pub fn is_finished(&self) -> (r: bool)
        ensures
            r == self@.finished,
    {
        self.finished
    }

    /// The URL of the next page, or `None` once the last page has come.
    pub fn next_request(&self) -> (r: Option<String>)
        ensures
            r.is_none() <==> self@.finished,
            r matches Some(u) ==> u@ == page_url(self@.offset),
    {
        if self.finished {
            return None;
        }
        let mut url = String::from_str("https://api.spotify.com/v1/me/tracks");
        url.append("?limit=");
        push_decimal(&mut url, PAGE_SIZE);
        url.append("&offset=");
        push_decimal(&mut url, self.offset);
        assert(url@ =~= page_url(self@.offset));
        Some(url)
    }

    /// Takes in the page that the last request returned.
    pub fn on_page(&mut self, page: &LikedSongsResponse)
        requires
            !old(self)@.finished,
            page.next.is_some() ==> old(self)@.offset + PAGE_SIZE <= usize::MAX,
        ensures
            final(self)@ == fetch_step(old(self)@, page@),
    {
        let mut i: usize = 0;
        while i < page.items.len()
            invariant
                i <= page.items@.len(),
                track_views(self.tracks@) =~= track_views(old(self).tracks@) + page@.tracks.take(i as int),
                self.offset == old(self).offset,
                self.finished == old(self).finished,
            decreases page.items@.len() - i,
        {
            let ghost prev = self.tracks@;
            let t = Track::from_info(&page.items[i].track);
            self.tracks.push(t);
            assert(track_views(self.tracks@) =~= track_views(prev).push(t@));
            assert(page@.tracks.take(i + 1) =~= page@.tracks.take(i as int).push(page@.tracks[i as int]));
            i = i + 1;
        }
        assert(page@.tracks.take(i as int) =~= page@.tracks);
        if page.next.is_some() {
            self.offset = self.offset + PAGE_SIZE;
        } else {
            self.finished = true;
        }
    }

    /// The tracks of a finished fetch, in page order.
    pub fn into_tracks(self) -> (r: Vec<Track>)
        requires
            self@.finished,
        ensures
            track_views(r@) == self@.tracks,
    {
        self.tracks
    }
}

/// The tracks of the pages laid end to end, first page first.
pub open spec fn page_tracks(pages: Seq<PageView>) -> Seq<TrackView>
    decreases pages.len(),
{
    if pages.len() == 0 {
        Seq::empty()
    } else {
        pages[0].tracks + page_tracks(pages.drop_first())
    }
}

/// A fetch driven over `pages`: each page is handed in while the fetch is not
/// finished; the pages after that are never asked for.
pub open spec fn fetch_run(s: FetchView, pages: Seq<PageView>) -> FetchView
    decreases pages.len(),
{
    if pages.len() == 0 || s.finished {
        s
    } else {
        fetch_run(fetch_step(s, pages[0]), pages.drop_first())
    }
}

/// How many of `pages` a fetch reads: up to and including the first page that
/// names no next page, or all of them.
pub open spec fn pages_read(pages: Seq<PageView>) -> nat
    decreases pages.len(),
{
    if pages.len() == 0 {
        0
    } else if !pages[0].has_next {
        1
    } else {
        1 + pages_read(pages.drop_first())
    }
}

proof fn lemma_fetch_run_from(s: FetchView, pages: Seq<PageView>)
    requires
        !s.finished,
    ensures
        ({
            let k = pages_read(pages);
            let r = fetch_run(s, pages);
            &&& k <= pages.len()
            &&& forall|i: int| 0 <= i < k - 1 ==> #[trigger] pages[i].has_next
            &&& r.tracks == s.tracks + page_tracks(pages.take(k as int))
            &&& r.finished == (k > 0 && !pages[k - 1].has_next)
            &&& !r.finished ==> k == pages.len()
            &&& r.offset == s.offset + PAGE_SIZE * (if r.finished { k - 1 } else { k as int })
        }),
    decreases pages.len(),
{
    if pages.len() == 0 {
        assert(pages.take(0) =~= Seq::<PageView>::empty());
        assert(s.tracks + Seq::<TrackView>::empty() =~= s.tracks);
    } else {
        let t = fetch_step(s, pages[0]);
        let rest = pages.drop_first();
        if !pages[0].has_next {
            let one = pages.take(1);
            assert(one.drop_first() =~= Seq::<PageView>::empty());
            assert(one[0] == pages[0]);
            assert(page_tracks(one) == one[0].tracks + page_tracks(one.drop_first()));
            assert(pages[0].tracks + Seq::<TrackView>::empty() =~= pages[0].tracks);
            assert(fetch_run(t, rest) == t);
        } else {
            lemma_fetch_run_from(t, rest);
            let k = pages_read(pages);
            assert(pages.take(k as int).drop_first() =~= rest.take(k - 1));
            assert(s.tracks + page_tracks(pages.take(k as int)) =~= t.tracks + page_tracks(rest.take(k - 1)));
            assert forall|i: int| 0 <= i < k - 1 implies #[trigger] pages[i].has_next by {
                if i > 0 {
                    assert(pages[i] == rest[i - 1]);
                }
            }
        }
    }
}

/// A fetch from the start over a run of pages returns exactly the tracks of the
/// pages it read, in page order, and reads up to and including the first page
/// that names no next page: every page before it names one, and the fetch is then
/// finished and asks for nothing more. If every page names a next one, all of
/// them are read and the fetch is not finished. The `i`-th page is asked for at
/// offset `PAGE_SIZE * i`.
pub proof fn lemma_pagination(pages: Seq<PageView>)
    ensures
        ({
            let k = pages_read(pages);
            let r = fetch_run(fetch_start(), pages);
            &&& k <= pages.len()
            &&& forall|i: int| 0 <= i < k - 1 ==> #[trigger] pages[i].has_next
            &&& r.tracks == page_tracks(pages.take(k as int))
            &&& r.finished == (k > 0 && !pages[k - 1].has_next)
            &&& !r.finished ==> k == pages.len()
            &&& r.offset == PAGE_SIZE * (if r.finished { k - 1 } else { k as int })
        }),
{
    lemma_fetch_run_from(fetch_start(), pages);
    let k = pages_read(pages);
    assert(Seq::<TrackView>::empty() + page_tracks(pages.take(k as int)) =~= page_tracks(pages.take(k as int)));
}

proof fn lemma_batches_prefix<A>(s: Seq<A>, j: nat)
    requires
        j <= batch_count(s.len()),
    ensures
        concat(batches(s).take(j as int)) =~= s.take(
            if j * BATCH_SIZE <= s.len() { j * BATCH_SIZE } else { s.len() as int },
        ),
    decreases j,
{
    if j == 0 {
        assert(batches(s).take(0) =~= Seq::<Seq<A>>::empty());
    } else {
        lemma_batches_prefix(s, (j - 1) as nat);
        assert(batches(s).take(j as int).drop_last() =~= batches(s).take(j - 1));
    }
}

/// Batching loses, repeats and reorders nothing: the batches laid end to end
/// give back the input. Every batch holds between one and `BATCH_SIZE` entries,
/// and all but the last hold exactly `BATCH_SIZE`. An empty input has no batch.
pub proof fn lemma_batches_partition<A>(s: Seq<A>)
    ensures
        concat(batches(s)) == s,
        batches(s).len() == batch_count(s.len()),
        forall|k: int| 0 <= k < batches(s).len() ==> 0 < #[trigger] batches(s)[k].len() <= BATCH_SIZE,
        forall|k: int| 0 <= k < batches(s).len() - 1 ==> #[trigger] batches(s)[k].len() == BATCH_SIZE,
        s.len() == 0 ==> batches(s).len() == 0,
{
    let m = batch_count(s.len());
    lemma_batches_prefix(s, m);
    assert(batches(s).take(m as int) =~= batches(s));
    assert(s.take(s.len() as int) =~= s);
}

} // verus!
