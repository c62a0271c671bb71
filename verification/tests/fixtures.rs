use sync_cli::fixtures::{
    bangumi_episode_collection_subject_id, infer_request_media_kind,
    is_bangumi_episode_collection_request, missing_fixture_response_message,
    test_write_transport_response, FixtureResponseMap, QueueRead, ReadRequest,
};
use sync_cli::model::{MediaKind, Provider};
use sync_cli::sync_inputs::{FixtureResponseEndpoint, FixtureResponseInput};

fn req(provider: Provider, url: &str, body: Option<&str>) -> ReadRequest {
    ReadRequest { provider, url: url.to_owned(), body: body.map(|b| b.to_owned()) }
}

const EPISODES: &str = "https://api.bgm.tv/v0/users/-/collections/12345/episodes?episode_type=0&limit=100";

#[test]
fn media_kinds_of_read_requests() {
    assert_eq!(infer_request_media_kind(&req(Provider::Bangumi, "https://x?subject_type=2", None)), Some(MediaKind::Anime));
    assert_eq!(infer_request_media_kind(&req(Provider::Bangumi, "https://x?subject_type=1", None)), Some(MediaKind::Manga));
    assert_eq!(infer_request_media_kind(&req(Provider::Bangumi, EPISODES, None)), Some(MediaKind::Anime));
    assert_eq!(infer_request_media_kind(&req(Provider::Bangumi, "https://x", None)), None);
    assert_eq!(infer_request_media_kind(&req(Provider::AniList, "https://graphql", Some("{\"type\":\"MANGA\"}"))), Some(MediaKind::Manga));
    assert_eq!(infer_request_media_kind(&req(Provider::AniList, "https://graphql", Some("{\"t\":\"ANIME\"}"))), Some(MediaKind::Anime));
    assert_eq!(infer_request_media_kind(&req(Provider::AniList, "https://graphql", None)), None);
    assert_eq!(infer_request_media_kind(&req(Provider::MyAnimeList, "https://m/users/@me/mangalist?x", None)), Some(MediaKind::Manga));
    assert_eq!(infer_request_media_kind(&req(Provider::MyAnimeList, "https://m/users/@me/animelist?x", None)), Some(MediaKind::Anime));
}

#[test]
fn bangumi_episode_subjects() {
    assert!(is_bangumi_episode_collection_request(&req(Provider::Bangumi, EPISODES, None)));
    assert!(!is_bangumi_episode_collection_request(&req(Provider::AniList, EPISODES, None)));
    assert!(!is_bangumi_episode_collection_request(&req(Provider::Bangumi, "https://api.bgm.tv/v0/users/-/collections/1/episodes?episode_type=1", None)));
    assert_eq!(bangumi_episode_collection_subject_id(&req(Provider::Bangumi, EPISODES, None)), Some("12345".to_owned()));
    assert_eq!(
        bangumi_episode_collection_subject_id(&req(Provider::Bangumi, "/v0/users/-/collections//episodes?episode_type=0", None)),
        None
    );
    assert_eq!(bangumi_episode_collection_subject_id(&req(Provider::Bangumi, "https://x?subject_type=2", None)), None);
}

#[test]
fn collection_responses_come_back_in_order_then_run_out() {
    let mut map = FixtureResponseMap::new();
    assert!(!map.contains_collection(Provider::AniList, MediaKind::Anime));
    map.add_collection(Provider::AniList, MediaKind::Anime, "first".to_owned());
    map.add_collection(Provider::AniList, MediaKind::Anime, "second".to_owned());
    map.add_collection(Provider::AniList, MediaKind::Manga, "manga".to_owned());
    assert!(map.contains_collection(Provider::AniList, MediaKind::Anime));
    let anime = req(Provider::AniList, "https://graphql", Some("\"ANIME\""));
    assert_eq!(map.send_authorized_provider_read_request(&anime), Ok("first".to_owned()));
    assert_eq!(map.send_authorized_provider_read_request(&anime), Ok("second".to_owned()));
    assert_eq!(
        map.send_authorized_provider_read_request(&anime),
        Err("fixture response exhausted for provider=anilist kind=anime".to_owned())
    );
    assert!(map.contains_collection(Provider::AniList, MediaKind::Anime));
    let manga = req(Provider::AniList, "https://graphql", Some("\"MANGA\""));
    assert_eq!(map.send_authorized_provider_read_request(&manga), Ok("manga".to_owned()));
    let mal = req(Provider::MyAnimeList, "https://m/animelist?x", None);
    assert_eq!(
        map.send_authorized_provider_read_request(&mal),
        Err("missing fixture response for provider=myanimelist kind=anime".to_owned())
    );
    let unknown = req(Provider::Bangumi, "https://x", None);
    assert_eq!(
        map.send_authorized_provider_read_request(&unknown),
        Err("could not infer fixture media kind for Bangumi".to_owned())
    );
}

#[test]
fn episode_listings_default_to_empty_and_run_out() {
    let mut map = FixtureResponseMap::new();
    let episodes = req(Provider::Bangumi, EPISODES, None);
    assert_eq!(map.send_authorized_provider_read_request(&episodes), Ok("{\"data\":[]}".to_owned()));
    let input = FixtureResponseInput {
        provider: Provider::Bangumi,
        media_kind: MediaKind::Anime,
        endpoint: FixtureResponseEndpoint::BangumiEpisodeCollection { subject_id: "12345".to_owned() },
        path: "/tmp/e.json".to_owned(),
    };
    map.add_fixture_response(&input, "ep1".to_owned());
    assert!(!map.contains_collection(Provider::Bangumi, MediaKind::Anime));
    assert_eq!(map.send_authorized_provider_read_request(&episodes), Ok("ep1".to_owned()));
    assert_eq!(
        map.send_authorized_provider_read_request(&episodes),
        Err("fixture response exhausted for provider=bangumi kind=anime endpoint=episodes".to_owned())
    );
    match map.next_episode_collection("other") {
        QueueRead::Missing => {}
        _ => panic!("no listing was given for that subject"),
    }
    let bad = req(Provider::Bangumi, "/v0/users/-/collections//episodes?episode_type=0", None);
    assert_eq!(
        map.send_authorized_provider_read_request(&bad),
        Err("could not infer Bangumi episode fixture subject".to_owned())
    );
}

#[test]
fn missing_responses_are_found_in_order() {
    let mut map = FixtureResponseMap::new();
    map.add_collection(Provider::AniList, MediaKind::Anime, "a".to_owned());
    let kinds = vec![MediaKind::Anime, MediaKind::Manga];
    let providers = vec![Provider::AniList, Provider::Bangumi];
    assert_eq!(map.first_missing_collection(&kinds, &providers), Some((Provider::Bangumi, MediaKind::Anime)));
    map.add_collection(Provider::Bangumi, MediaKind::Anime, "b".to_owned());
    assert_eq!(map.first_missing_collection(&kinds, &providers), Some((Provider::AniList, MediaKind::Manga)));
    assert_eq!(map.first_missing_collection(&vec![MediaKind::Anime], &providers), None);
    assert_eq!(
        missing_fixture_response_message(Provider::AniList, MediaKind::Manga),
        "missing --fixture-response for provider=anilist kind=manga"
    );
}

#[test]
fn write_transport_answer() {
    assert_eq!(
        test_write_transport_response(Provider::MyAnimeList),
        "{\"ok\":true,\"provider\":\"myanimelist\",\"test_write_transport\":true}"
    );
}
