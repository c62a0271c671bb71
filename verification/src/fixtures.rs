//! Canned provider responses: the queues that the fixture read transport
//! hands out, one body per request and in the order they were given, and
//! how a provider read request is matched to its queue.

use vstd::prelude::*;
use crate::model::{media_kind_name, provider_name, MediaKind, Provider};
use crate::sync_inputs::{FixtureResponseEndpoint, FixtureResponseInput};
use crate::text::{
    chars_of, concat, contains_text, find_from, first_from, owned, push_str, str_contains,
    string_from_chars,
};

verus! {

// ---------------------------------------------------------------------------
// Read requests
// ---------------------------------------------------------------------------

/// A provider read request as the fixture transport sees it.
pub struct ReadRequest {
    pub provider: Provider,
    pub url: String,
    pub body: Option<String>,
}

/// The marker of a Bangumi collection path.
pub open spec fn collections_marker() -> Seq<char> {
    "/v0/users/-/collections/"@
}

/// The marker of a Bangumi episode listing.
pub open spec fn episodes_marker() -> Seq<char> {
    "/episodes?"@
}

/// A request for the episodes of one Bangumi subject.
pub open spec fn is_episode_request(provider: Provider, url: Seq<char>) -> bool {
    provider == Provider::Bangumi && contains_text(url, collections_marker()) && contains_text(
        url,
        episodes_marker(),
    ) && contains_text(url, "episode_type=0"@)
}

/// Whether the request asks for a Bangumi subject's episodes.
pub fn is_bangumi_episode_collection_request(request: &ReadRequest) -> (r: bool)
    ensures
        r == is_episode_request(request.provider, request.url@),
{
    request.provider == Provider::Bangumi && str_contains(
        request.url.as_str(),
        "/v0/users/-/collections/",
    ) && str_contains(request.url.as_str(), "/episodes?") && str_contains(
        request.url.as_str(),
        "episode_type=0",
    )
}

/// `split(pat).nth(1)`: the text between the first occurrence of `pat` and
/// the next one, or the end.
pub open spec fn second_segment(s: Seq<char>, pat: Seq<char>) -> Option<Seq<char>> {
    match first_from(s, pat, 0) {
        Some(i) => {
            let rest = s.subrange(i + pat.len(), s.len() as int);
            Some(
                match first_from(rest, pat, 0) {
                    Some(j) => rest.subrange(0, j),
                    None => rest,
                },
            )
        },
        None => None,
    }
}

/// `split(pat).next()`: the text before the first occurrence of `pat`, or
/// all of it.
pub open spec fn first_segment(s: Seq<char>, pat: Seq<char>) -> Seq<char> {
    match first_from(s, pat, 0) {
        Some(j) => s.subrange(0, j),
        None => s,
    }
}

/// The Bangumi subject whose episodes the request asks for: the path
/// segment between the collections marker and the episodes marker.
pub open spec fn episode_subject(provider: Provider, url: Seq<char>) -> Option<Seq<char>> {
    if !is_episode_request(provider, url) {
        None
    } else {
        match second_segment(url, collections_marker()) {
            Some(seg) => {
                let subject = first_segment(seg, episodes_marker());
                if subject.len() == 0 {
                    None
                } else {
                    Some(subject)
                }
            },
            None => None,
        }
    }
}

fn sub_chars(v: &Vec<char>, from: usize, to: usize) -> (r: Vec<char>)
    requires
        from <= to <= v.len(),
    ensures
        r@ == v@.subrange(from as int, to as int),
{
    let mut r: Vec<char> = Vec::new();
    let mut i = from;
    while i < to
        invariant
            from <= i <= to <= v.len(),
            r@ == v@.subrange(from as int, i as int),
        decreases to - i,
    {
        r.push(v[i]);
        i = i + 1;
        assert(r@ =~= v@.subrange(from as int, i as int));
    }
    r
}

/// The Bangumi subject whose episodes the request asks for, if it asks for
/// one.
pub fn bangumi_episode_collection_subject_id(request: &ReadRequest) -> (r: Option<String>)
    ensures
        match r {
            Some(s) => episode_subject(request.provider, request.url@) == Some(s@),
            None => episode_subject(request.provider, request.url@) is None,
        },
{
    if !is_bangumi_episode_collection_request(request) {
        return None;
    }
    let url = chars_of(request.url.as_str());
    let marker = chars_of("/v0/users/-/collections/");
    let episodes = chars_of("/episodes?");
    let i = match find_from(&url, &marker, 0) {
        Some(i) => i,
        None => {
            return None;
        },
    };
    proof {
        crate::text::lemma_first_from(url@, marker@, 0);
    }
    assert(crate::text::occurs_at(url@, marker@, i as int));
    assert(i + marker@.len() <= url@.len());
    assert(i + marker.len() <= url.len());
    let rest = sub_chars(&url, i + marker.len(), url.len());
    let seg = match find_from(&rest, &marker, 0) {
        Some(j) => {
            proof {
                crate::text::lemma_first_from(rest@, marker@, 0);
            }
            sub_chars(&rest, 0, j)
        },
        None => rest,
    };
    let subject = match find_from(&seg, &episodes, 0) {
        Some(j) => {
            proof {
                crate::text::lemma_first_from(seg@, episodes@, 0);
            }
            sub_chars(&seg, 0, j)
        },
        None => seg,
    };
    if subject.len() == 0 {
        None
    } else {
        Some(string_from_chars(&subject))
    }
}

/// The media kind a read request asks for, as the fixture transport tells
/// it from the request's URL or body.
pub open spec fn request_media_kind(provider: Provider, url: Seq<char>,
    body: Option<Seq<char>>) -> Option<
    MediaKind,
> {
    match provider {
        Provider::Bangumi => if is_episode_request(provider, url) || contains_text(
            url,
            "subject_type=2"@,
        ) {
            Some(MediaKind::Anime)
        } else if contains_text(url, "subject_type=1"@) {
            Some(MediaKind::Manga)
        } else {
            None
        },
        Provider::AniList => {
            let b = match body {
                Some(b) => b,
                None => Seq::empty(),
            };
            if contains_text(b, "\"ANIME\""@) {
                Some(MediaKind::Anime)
            } else if contains_text(b, "\"MANGA\""@) {
                Some(MediaKind::Manga)
            } else {
                None
            }
        },
        Provider::MyAnimeList => if contains_text(url, "/animelist?"@) {
            Some(MediaKind::Anime)
        } else if contains_text(url, "/mangalist?"@) {
            Some(MediaKind::Manga)
        } else {
            None
        },
    }
}

pub open spec fn opt_body(body: Option<String>) -> Option<Seq<char>> {
    match body {
        Some(b) => Some(b@),
        None => None,
    }
}

/// The media kind a read request asks for, if it can be told.
pub fn infer_request_media_kind(request: &ReadRequest) -> (r: Option<MediaKind>)
    ensures
        r == request_media_kind(request.provider, request.url@, opt_body(request.body)),
{
    match request.provider {
        Provider::Bangumi => {
            let episode = is_bangumi_episode_collection_request(request);
            let anime = str_contains(request.url.as_str(), "subject_type=2");
            assert(episode == is_episode_request(request.provider, request.url@));
            assert(anime == contains_text(request.url@, "subject_type=2"@));
            if episode || anime {
                Some(MediaKind::Anime)
            } else if str_contains(request.url.as_str(), "subject_type=1") {
                Some(MediaKind::Manga)
            } else {
                None
            }
        },
        Provider::AniList => {
            let body: &str = match &request.body {
                Some(b) => b.as_str(),
                None => "",
            };
            proof {
                reveal_strlit("");
            }
            assert(body@ == match opt_body(request.body) {
                Some(b) => b,
                None => Seq::<char>::empty(),
            });
            if str_contains(body, "\"ANIME\"") {
                Some(MediaKind::Anime)
            } else if str_contains(body, "\"MANGA\"") {
                Some(MediaKind::Manga)
            } else {
                None
            }
        },
        Provider::MyAnimeList => {
            if str_contains(request.url.as_str(), "/animelist?") {
                Some(MediaKind::Anime)
            } else if str_contains(request.url.as_str(), "/mangalist?") {
                Some(MediaKind::Manga)
            } else {
                None
            }
        },
    }
}

// ---------------------------------------------------------------------------
// Response queues
// ---------------------------------------------------------------------------

/// The queue of episode listings for one Bangumi subject.
pub struct EpisodeQueue {
    subject_id: String,
    bodies: Vec<String>,
}

/// The canned responses of a run: one queue per provider and media kind
/// that was given at least one response, and one per Bangumi subject whose
/// episodes were given.
pub struct FixtureResponseMap {
    collections: Vec<Option<Vec<String>>>,
    episodes: Vec<EpisodeQueue>,
}

pub open spec fn provider_slot(p: Provider) -> int {
    match p {
        Provider::Bangumi => 0,
        Provider::AniList => 1,
        Provider::MyAnimeList => 2,
    }
}

pub open spec fn kind_slot(k: MediaKind) -> int {
    match k {
        MediaKind::Anime => 0,
        MediaKind::Manga => 1,
    }
}

/// Where the queue of a provider and media kind is kept.
pub open spec fn slot(p: Provider, k: MediaKind) -> int {
    provider_slot(p) * 2 + kind_slot(k)
}

fn slot_of(p: Provider, k: MediaKind) -> (r: usize)
    ensures
        r == slot(p, k),
        r < 6,
{
    let ps: usize = match p {
        Provider::Bangumi => 0,
        Provider::AniList => 1,
        Provider::MyAnimeList => 2,
    };
    let ks: usize = match k {
        MediaKind::Anime => 0,
        MediaKind::Manga => 1,
    };
    ps * 2 + ks
}

proof fn lemma_slot_injective(p1: Provider, k1: MediaKind, p2: Provider, k2: MediaKind)
    ensures
        slot(p1, k1) == slot(p2, k2) <==> (p1 == p2 && k1 == k2),
{
}

/// The queue of the subject: the last entry for it.
spec fn episode_lookup(entries: Seq<EpisodeQueue>, s: Seq<char>) -> Option<Seq<String>>
    decreases entries.len(),
{
    if entries.len() == 0 {
        None
    } else if entries.last().subject_id@ == s {
        Some(entries.last().bodies@)
    } else {
        episode_lookup(entries.drop_last(), s)
    }
}

proof fn lemma_lookup_last(entries: Seq<EpisodeQueue>, s: Seq<char>, j: int)
    requires
        -1 <= j < entries.len(),
        j >= 0 ==> entries[j].subject_id@ == s,
        forall|k: int| j < k < entries.len() ==> entries[k].subject_id@ != s,
    ensures
        episode_lookup(entries, s) == if j >= 0 {
            Some(entries[j].bodies@)
        } else {
            None
        },
    decreases entries.len(),
{
    if entries.len() == 0 {
    } else if j == entries.len() - 1 {
    } else {
        lemma_lookup_last(entries.drop_last(), s, j);
    }
}

proof fn lemma_lookup_update(entries: Seq<EpisodeQueue>, i: int, e: EpisodeQueue, s: Seq<char>)
    requires
        0 <= i < entries.len(),
        e.subject_id@ == entries[i].subject_id@,
        forall|k: int| i < k < entries.len() ==> entries[k].subject_id@ != entries[i].subject_id@,
    ensures
        episode_lookup(entries.update(i, e), s) == if s == entries[i].subject_id@ {
            Some(e.bodies@)
        } else {
            episode_lookup(entries, s)
        },
    decreases entries.len(),
{
    if i == entries.len() - 1 {
        assert(entries.update(i, e).drop_last() =~= entries.drop_last());
    } else {
        assert(entries.update(i, e).drop_last() =~= entries.drop_last().update(i, e));
        lemma_lookup_update(entries.drop_last(), i, e, s);
    }
}

/// The outcome of asking a queue for its next body.
#[derive(Debug)]
pub enum QueueRead {
    Body(String),
    Missing,
    Exhausted,
}

pub open spec fn queue_read_spec(q: Option<Seq<String>>) -> QueueReadView {
    match q {
        None => QueueReadView::Missing,
        Some(q) => if q.len() == 0 {
            QueueReadView::Exhausted
        } else {
            QueueReadView::Body(q[0])
        },
    }
}

/// What a queue read gives, in the queue's own terms.
pub enum QueueReadView {
    Body(String),
    Missing,
    Exhausted,
}

impl View for QueueRead {
    type V = QueueReadView;

    open spec fn view(&self) -> QueueReadView {
        match self {
            QueueRead::Body(b) => QueueReadView::Body(*b),
            QueueRead::Missing => QueueReadView::Missing,
            QueueRead::Exhausted => QueueReadView::Exhausted,
        }
    }
}

/// The queue after a read: the first body is gone when there was one.
pub open spec fn after_read(q: Option<Seq<String>>) -> Option<Seq<String>> {
    match q {
        Some(q) => if q.len() == 0 {
            Some(q)
        } else {
            Some(q.drop_first())
        },
        None => None,
    }
}

/// A queue after a body was added at its end; a missing queue starts.
pub open spec fn after_add(q: Option<Seq<String>>, body: String) -> Option<Seq<String>> {
    match q {
        Some(q) => Some(q.push(body)),
        None => Some(seq![body]),
    }
}

impl FixtureResponseMap {
    /// The map is well formed: a slot for every provider and media kind.
    pub closed spec fn wf(self) -> bool {
        self.collections@.len() == 6
    }

    /// The responses left for a provider and media kind; `None` when none
    /// was ever given.
    pub closed spec fn collection_queue(self, p: Provider, k: MediaKind) -> Option<Seq<String>> {
        match self.collections@[slot(p, k)] {
            Some(v) => Some(v@),
            None => None,
        }
    }

    /// The episode listings left for a Bangumi subject; `None` when none
    /// was ever given.
    pub closed spec fn episode_queue(self, subject: Seq<char>) -> Option<Seq<String>> {
        episode_lookup(self.episodes@, subject)
    }

    /// An empty map.
    pub fn new() -> (r: FixtureResponseMap)
        ensures
            r.wf(),
            forall|p: Provider, k: MediaKind| #[trigger] r.collection_queue(p, k) is None,
            forall|s: Seq<char>| #[trigger] r.episode_queue(s) is None,
    {
        let mut collections: Vec<Option<Vec<String>>> = Vec::new();
        let mut i: usize = 0;
        while i < 6
            invariant
                i <= 6,
                collections@.len() == i,
                forall|j: int| 0 <= j < i ==> collections@[j] is None,
            decreases 6 - i,
        {
            collections.push(None);
            i = i + 1;
        }
        let r = FixtureResponseMap { collections, episodes: Vec::new() };
        assert forall|p: Provider, k: MediaKind| #[trigger] r.collection_queue(p, k) is None by {
            assert(0 <= slot(p, k) < 6);
        }
        r
    }

    /// Adds a response at the end of the queue of a provider and media kind.
    pub fn add_collection(&mut self, provider: Provider, media_kind: MediaKind, body: String)
        requires
            old(self).wf(),
        ensures
            final(self).wf(),
            final(self).collection_queue(provider, media_kind) == after_add(
                old(self).collection_queue(provider, media_kind),
                body,
            ),
            forall|p: Provider, k: MediaKind|
                !(p == provider && k == media_kind) ==> #[trigger] final(self).collection_queue(
                    p,
                    k,
                ) == old(self).collection_queue(p, k),
            forall|s: Seq<char>| #[trigger] final(self).episode_queue(s) == old(self).episode_queue(
                s,
            ),
    {
        let i = slot_of(provider, media_kind);
        let ghost before = self.collections@;
        let current = self.collections.remove(i);
        let next = match current {
            Some(mut q) => {
                q.push(body);
                Some(q)
            },
            None => {
                let mut q: Vec<String> = Vec::new();
                q.push(body);
                Some(q)
            },
        };
        let ghost g = next;
        self.collections.insert(i, next);
        assert(self.collections@ =~= before.update(i as int, g));
        assert forall|p: Provider, k: MediaKind|
            !(p == provider && k == media_kind) implies #[trigger] self.collection_queue(p, k)
            == old(self).collection_queue(p, k) by {
            lemma_slot_injective(p, k, provider, media_kind);
        }
        proof {
            match g {
                Some(q) => {
                    match before[i as int] {
                        Some(o) => assert(q@ =~= o@.push(body)),
                        None => assert(q@ =~= seq![body]),
                    }
                },
                None => {},
            }
        }
    }

    /// Adds an episode listing at the end of the queue of a Bangumi subject.
    pub fn add_episode_collection(&mut self, subject_id: String, body: String)
        requires
            old(self).wf(),
        ensures
            final(self).wf(),
            final(self).episode_queue(subject_id@) == after_add(
                old(self).episode_queue(subject_id@),
                body,
            ),
            forall|s: Seq<char>|
                s != subject_id@ ==> #[trigger] final(self).episode_queue(s) == old(
                    self,
                ).episode_queue(s),
            forall|p: Provider, k: MediaKind| #[trigger]
                final(self).collection_queue(p, k) == old(self).collection_queue(p, k),
    {
        let ghost before = self.episodes@;
        match self.find_episode_queue(subject_id.as_str()) {
            Some(i) => {
                let mut e = self.episodes.remove(i);
                e.bodies.push(body);
                let ghost g = e;
                self.episodes.insert(i, e);
                assert(self.episodes@ =~= before.update(i as int, g));
                proof {
                    assert forall|s: Seq<char>| #[trigger]
                        episode_lookup(before.update(i as int, g), s) == if s
                            == before[i as int].subject_id@ {
                            Some(g.bodies@)
                        } else {
                            episode_lookup(before, s)
                        } by {
                        lemma_lookup_update(before, i as int, g, s);
                    }
                    lemma_lookup_last(before, subject_id@, i as int);
                    assert(g.bodies@ =~= before[i as int].bodies@.push(body));
                }
            },
            None => {
                let mut q: Vec<String> = Vec::new();
                q.push(body);
                let e = EpisodeQueue { subject_id, bodies: q };
                let ghost g = e;
                self.episodes.push(e);
                assert(self.episodes@ =~= before.push(g));
                proof {
                    assert(before.push(g).drop_last() =~= before);
                    lemma_lookup_last(before, g.subject_id@, -1);
                    assert(g.bodies@ =~= seq![body]);
                }
            },
        }
    }

    /// The last entry for the subject, if any.
    fn find_episode_queue(&self, subject_id: &str) -> (r: Option<usize>)
        ensures
            match r {
                Some(i) => i < self.episodes@.len() && self.episodes@[i as int].subject_id@
                    == subject_id@ && forall|k: int|
                    i < k < self.episodes@.len() ==> self.episodes@[k].subject_id@ != subject_id@,
                None => forall|k: int|
                    0 <= k < self.episodes@.len() ==> self.episodes@[k].subject_id@ != subject_id@,
            },
    {
        let mut i = self.episodes.len();
        while i > 0
            invariant
                i <= self.episodes@.len(),
                forall|k: int|
                    i <= k < self.episodes@.len() ==> self.episodes@[k].subject_id@
                        != subject_id@,
            decreases i,
        {
            if crate::text::str_eq(self.episodes[i - 1].subject_id.as_str(), subject_id) {
                return Some(i - 1);
            }
            i = i - 1;
        }
        None
    }

    /// Whether responses were ever given for a provider and media kind.
    pub fn contains_collection(&self, provider: Provider, media_kind: MediaKind) -> (r: bool)
        requires
            self.wf(),
        ensures
            r == (self.collection_queue(provider, media_kind) is Some),
    {
        let i = slot_of(provider, media_kind);
        self.collections[i].is_some()
    }

    /// Takes the next response for a provider and media kind.
    pub fn next_collection(&mut self, provider: Provider, media_kind: MediaKind) -> (r: QueueRead)
        requires
            old(self).wf(),
        ensures
            final(self).wf(),
            r@ == queue_read_spec(old(self).collection_queue(provider, media_kind)),
            final(self).collection_queue(provider, media_kind) == after_read(
                old(self).collection_queue(provider, media_kind),
            ),
            forall|p: Provider, k: MediaKind|
                !(p == provider && k == media_kind) ==> #[trigger] final(self).collection_queue(
                    p,
                    k,
                ) == old(self).collection_queue(p, k),
            forall|s: Seq<char>| #[trigger] final(self).episode_queue(s) == old(self).episode_queue(
                s,
            ),
    {
        let i = slot_of(provider, media_kind);
        let ghost before = self.collections@;
        let current = self.collections.remove(i);
        let (next, read) = match current {
            Some(mut q) => {
                if q.len() == 0 {
                    (Some(q), QueueRead::Exhausted)
                } else {
                    let ghost old_q = q@;
                    let b = q.remove(0);
                    assert(q@ =~= old_q.drop_first());
                    (Some(q), QueueRead::Body(b))
                }
            },
            None => (None, QueueRead::Missing),
        };
        let ghost g = next;
        self.collections.insert(i, next);
        assert(self.collections@ =~= before.update(i as int, g));
        assert forall|p: Provider, k: MediaKind|
            !(p == provider && k == media_kind) implies #[trigger] self.collection_queue(p, k)
            == old(self).collection_queue(p, k) by {
            lemma_slot_injective(p, k, provider, media_kind);
        }
        read
    }

    /// Takes the next episode listing for a Bangumi subject.
    pub fn next_episode_collection(&mut self, subject_id: &str) -> (r: QueueRead)
        requires
            old(self).wf(),
        ensures
            final(self).wf(),
            r@ == queue_read_spec(old(self).episode_queue(subject_id@)),
            final(self).episode_queue(subject_id@) == after_read(
                old(self).episode_queue(subject_id@),
            ),
            forall|s: Seq<char>|
                s != subject_id@ ==> #[trigger] final(self).episode_queue(s) == old(
                    self,
                ).episode_queue(s),
            forall|p: Provider, k: MediaKind| #[trigger]
                final(self).collection_queue(p, k) == old(self).collection_queue(p, k),
    {
        let ghost before = self.episodes@;
        match self.find_episode_queue(subject_id) {
            Some(i) => {
                proof {
                    lemma_lookup_last(before, subject_id@, i as int);
                }
                if self.episodes[i].bodies.len() == 0 {
                    return QueueRead::Exhausted;
                }
                let mut e = self.episodes.remove(i);
                let ghost old_bodies = e.bodies@;
                let b = e.bodies.remove(0);
                assert(e.bodies@ =~= old_bodies.drop_first());
                let ghost g = e;
                self.episodes.insert(i, e);
                assert(self.episodes@ =~= before.update(i as int, g));
                proof {
                    assert forall|s: Seq<char>| #[trigger]
                        episode_lookup(before.update(i as int, g), s) == if s
                            == before[i as int].subject_id@ {
                            Some(g.bodies@)
                        } else {
                            episode_lookup(before, s)
                        } by {
                        lemma_lookup_update(before, i as int, g, s);
                    }
                }
                QueueRead::Body(b)
            },
            None => {
                proof {
                    lemma_lookup_last(before, subject_id@, -1);
                }
                QueueRead::Missing
            },
        }
    }
}

// ---------------------------------------------------------------------------
// The fixture read transport
// ---------------------------------------------------------------------------

/// How the transport names a provider in its own messages.
pub open spec fn provider_debug_name(p: Provider) -> Seq<char> {
    match p {
        Provider::Bangumi => "Bangumi"@,
        Provider::AniList => "AniList"@,
        Provider::MyAnimeList => "MyAnimeList"@,
    }
}

fn provider_debug(p: Provider) -> (r: &'static str)
    ensures
        r@ == provider_debug_name(p),
{
    match p {
        Provider::Bangumi => "Bangumi",
        Provider::AniList => "AniList",
        Provider::MyAnimeList => "MyAnimeList",
    }
}

/// The body served for a subject whose episodes were never given.
pub open spec fn empty_episode_listing() -> Seq<char> {
    "{\"data\":[]}"@
}

pub open spec fn collection_missing_message(p: Provider, k: MediaKind) -> Seq<char> {
    "missing fixture response for provider="@ + provider_name(p) + " kind="@ + media_kind_name(k)
}

pub open spec fn collection_exhausted_message(p: Provider, k: MediaKind) -> Seq<char> {
    "fixture response exhausted for provider="@ + provider_name(p) + " kind="@ + media_kind_name(
        k,
    )
}

/// Two maps hold the same queues.
pub open spec fn same_queues(a: FixtureResponseMap, b: FixtureResponseMap) -> bool {
    &&& a.wf()
    &&& forall|p: Provider, k: MediaKind| #[trigger]
        a.collection_queue(p, k) == b.collection_queue(p, k)
    &&& forall|t: Seq<char>| #[trigger] a.episode_queue(t) == b.episode_queue(t)
}

/// What the fixture read transport answers and how its queues change: the
/// next body of the queue the request belongs to. A Bangumi episode
/// listing comes from its subject's queue (an empty listing when that
/// subject was never given); every other request from the queue of its
/// provider and media kind. A request whose media kind or subject cannot be
/// told, whose queue is missing, or whose queue is used up is refused, and
/// nothing changes.
pub open spec fn read_served(m: FixtureResponseMap, r: ReadRequest, served: Result<String, String>,
    after: FixtureResponseMap) -> bool {
    let p = r.provider;
    match request_media_kind(p, r.url@, opt_body(r.body)) {
        None => served matches Err(e) && e@ == "could not infer fixture media kind for "@
            + provider_debug_name(p) && same_queues(after, m),
        Some(k) => if is_episode_request(p, r.url@) {
            match episode_subject(p, r.url@) {
                None => served matches Err(e) && e@
                    == "could not infer Bangumi episode fixture subject"@ && same_queues(after, m),
                Some(s) => match m.episode_queue(s) {
                    None => served matches Ok(b) && b@ == empty_episode_listing()
                        && same_queues(after, m),
                    Some(q) => if q.len() == 0 {
                        served matches Err(e) && e@
                            == "fixture response exhausted for provider=bangumi kind=anime endpoint=episodes"@
                            && same_queues(after, m)
                    } else {
                        served == Ok::<String, String>(q[0]) && after.wf()
                            && after.episode_queue(s) == Some(q.drop_first()) && (forall|
                            t: Seq<char>,
                        |
                            t != s ==> #[trigger] after.episode_queue(t) == m.episode_queue(t))
                            && (forall|p2: Provider, k2: MediaKind| #[trigger]
                            after.collection_queue(p2, k2) == m.collection_queue(p2, k2))
                    },
                },
            }
        } else {
            match m.collection_queue(p, k) {
                None => served matches Err(e) && e@ == collection_missing_message(p, k)
                    && same_queues(after, m),
                Some(q) => if q.len() == 0 {
                    served matches Err(e) && e@ == collection_exhausted_message(p, k)
                        && same_queues(after, m)
                } else {
                    served == Ok::<String, String>(q[0]) && after.wf() && after.collection_queue(
                        p,
                        k,
                    ) == Some(q.drop_first()) && (forall|p2: Provider, k2: MediaKind|
                        !(p2 == p && k2 == k) ==> #[trigger] after.collection_queue(p2, k2)
                            == m.collection_queue(p2, k2)) && (forall|t: Seq<char>| #[trigger]
                        after.episode_queue(t) == m.episode_queue(t))
                },
            }
        },
    }
}

impl FixtureResponseMap {
    /// Serves a provider read request from the canned responses.
    pub fn send_authorized_provider_read_request(&mut self, request: &ReadRequest) -> (r: Result<
        String,
        String,
    >)
        requires
            old(self).wf(),
        ensures
            final(self).wf(),
            read_served(*old(self), *request, r, *final(self)),
    {
        let provider = request.provider;
        let media_kind = match infer_request_media_kind(request) {
            Some(k) => k,
            None => {
                return Err(concat("could not infer fixture media kind for ",
                    provider_debug(provider)));
            },
        };
        if is_bangumi_episode_collection_request(request) {
            let subject_id = match bangumi_episode_collection_subject_id(request) {
                Some(s) => s,
                None => {
                    return Err(owned("could not infer Bangumi episode fixture subject"));
                },
            };
            match self.next_episode_collection(subject_id.as_str()) {
                QueueRead::Body(b) => Ok(b),
                QueueRead::Missing => Ok(owned("{\"data\":[]}")),
                QueueRead::Exhausted => Err(
                    owned(
                        "fixture response exhausted for provider=bangumi kind=anime endpoint=episodes",
                    ),
                ),
            }
        } else {
            match self.next_collection(provider, media_kind) {
                QueueRead::Body(b) => Ok(b),
                QueueRead::Missing => {
                    let mut e = owned("missing fixture response for provider=");
                    push_str(&mut e, provider.as_str());
                    push_str(&mut e, " kind=");
                    push_str(&mut e, media_kind.as_str());
                    Err(e)
                },
                QueueRead::Exhausted => {
                    let mut e = owned("fixture response exhausted for provider=");
                    push_str(&mut e, provider.as_str());
                    push_str(&mut e, " kind=");
                    push_str(&mut e, media_kind.as_str());
                    Err(e)
                },
            }
        }
    }
}

// ---------------------------------------------------------------------------
// Loading and checking the canned responses
// ---------------------------------------------------------------------------

impl FixtureResponseMap {
    /// Files the body of a fixture response under its queue: the queue of
    /// its provider and media kind, or of its Bangumi subject.
    pub fn add_fixture_response(&mut self, fixture: &FixtureResponseInput, body: String)
        requires
            old(self).wf(),
        ensures
            final(self).wf(),
            match fixture.endpoint {
                FixtureResponseEndpoint::Collection => {
                    &&& final(self).collection_queue(fixture.provider, fixture.media_kind)
                        == after_add(
                        old(self).collection_queue(fixture.provider, fixture.media_kind),
                        body,
                    )
                    &&& forall|p: Provider, k: MediaKind|
                        !(p == fixture.provider && k == fixture.media_kind)
                            ==> #[trigger] final(self).collection_queue(p, k) == old(
                            self,
                        ).collection_queue(p, k)
                    &&& forall|s: Seq<char>| #[trigger]
                        final(self).episode_queue(s) == old(self).episode_queue(s)
                },
                FixtureResponseEndpoint::BangumiEpisodeCollection { subject_id } => {
                    &&& final(self).episode_queue(subject_id@) == after_add(
                        old(self).episode_queue(subject_id@),
                        body,
                    )
                    &&& forall|s: Seq<char>|
                        s != subject_id@ ==> #[trigger] final(self).episode_queue(s) == old(
                            self,
                        ).episode_queue(s)
                    &&& forall|p: Provider, k: MediaKind| #[trigger]
                        final(self).collection_queue(p, k) == old(self).collection_queue(p, k)
                },
            },
    {
        match &fixture.endpoint {
            FixtureResponseEndpoint::Collection => {
                self.add_collection(fixture.provider, fixture.media_kind, body);
            },
            FixtureResponseEndpoint::BangumiEpisodeCollection { subject_id } => {
                self.add_episode_collection(subject_id.clone(), body);
            },
        }
    }

    /// The first provider and media kind, media kinds outermost and each in
    /// the order given, for which no response was given.
    pub fn first_missing_collection(
        &self,
        media_kinds: &Vec<MediaKind>,
        providers: &Vec<Provider>,
    ) -> (r: Option<(Provider, MediaKind)>)
        requires
            self.wf(),
        ensures
            match r {
                None => forall|i: int, j: int|
                    0 <= i < media_kinds@.len() && 0 <= j < providers@.len()
                        ==> #[trigger] self.collection_queue(providers@[j],
                            media_kinds@[i]) is Some,
                Some((p, k)) => exists|i: int, j: int|
                    0 <= i < media_kinds@.len() && 0 <= j < providers@.len() && media_kinds@[i]
                        == k && providers@[j] == p && self.collection_queue(p, k) is None && (
                    forall|i2: int, j2: int|
                        (0 <= i2 < i && 0 <= j2 < providers@.len()) || (i2 == i && 0 <= j2 < j)
                            ==> #[trigger] self.collection_queue(providers@[j2], media_kinds@[i2])
                            is Some),
            },
    {
        let mut i: usize = 0;
        while i < media_kinds.len()
            invariant
                self.wf(),
                i <= media_kinds.len(),
                forall|i2: int, j2: int|
                    0 <= i2 < i && 0 <= j2 < providers@.len() ==> #[trigger] self.collection_queue(
                        providers@[j2],
                        media_kinds@[i2],
                    ) is Some,
            decreases media_kinds.len() - i,
        {
            let mut j: usize = 0;
            while j < providers.len()
                invariant
                    self.wf(),
                    i < media_kinds.len(),
                    j <= providers.len(),
                    forall|i2: int, j2: int|
                        (0 <= i2 < i && 0 <= j2 < providers@.len()) || (i2 == i && 0 <= j2 < j)
                            ==> #[trigger] self.collection_queue(providers@[j2], media_kinds@[i2])
                            is Some,
                decreases providers.len() - j,
            {
                if !self.contains_collection(providers[j], media_kinds[i]) {
                    return Some((providers[j], media_kinds[i]));
                }
                j = j + 1;
            }
            i = i + 1;
        }
        None
    }
}

/// The message for a provider and media kind that was given no response.
pub fn missing_fixture_response_message(provider: Provider, media_kind: MediaKind) -> (r: String)
    ensures
        r@ == "missing --fixture-response for provider="@ + provider_name(provider) + " kind="@
            + media_kind_name(media_kind),
{
    let mut e = owned("missing --fixture-response for provider=");
    push_str(&mut e, provider.as_str());
    push_str(&mut e, " kind=");
    push_str(&mut e, media_kind.as_str());
    e
}

/// What the test write transport answers for a recorded write.
pub fn test_write_transport_response(provider: Provider) -> (r: String)
    ensures
        r@ == "{\"ok\":true,\"provider\":\""@ + provider_name(provider)
            + "\",\"test_write_transport\":true}"@,
{
    let mut out = owned("{\"ok\":true,\"provider\":\"");
    push_str(&mut out, provider.as_str());
    push_str(&mut out, "\",\"test_write_transport\":true}");
    out
}

/// Responses come back in the order they were given: after a body is added
/// to a queue, the next read gives the queue's first body when it had one
/// (and the added body stays behind the rest), and the added body itself
/// when the queue was missing or used up.
pub proof fn lemma_queue_first_in_first_out(q: Option<Seq<String>>, body: String)
    ensures
        queue_read_spec(after_add(q, body)) == match q {
            Some(s) => if s.len() > 0 {
                QueueReadView::Body(s[0])
            } else {
                QueueReadView::Body(body)
            },
            None => QueueReadView::Body(body),
        },
        after_read(after_add(q, body)) == match q {
            Some(s) => if s.len() > 0 {
                after_add(after_read(q), body)
            } else {
                Some(Seq::<String>::empty())
            },
            None => Some(Seq::<String>::empty()),
        },
{
    match q {
        Some(s) => {
            assert(s.push(body)[0] == if s.len() > 0 {
                s[0]
            } else {
                body
            });
            if s.len() > 0 {
                assert(s.push(body).drop_first() =~= s.drop_first().push(body));
            } else {
                assert(s.push(body).drop_first() =~= Seq::<String>::empty());
            }
        },
        None => {
            assert(seq![body].drop_first() =~= Seq::<String>::empty());
        },
    }
}

} // verus!
