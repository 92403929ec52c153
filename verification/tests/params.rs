use bilidl::bilibili::collection::collection_params;
use bilidl::bilibili::video::{player_info_params, stream_params, video_details_params, QueryType};

fn pairs(v: &[(String, String)]) -> Vec<(&str, &str)> {
    v.iter().map(|(k, v)| (k.as_str(), v.as_str())).collect()
}

#[test]
fn details_by_bvid_or_aid() {
    assert_eq!(pairs(&video_details_params(QueryType::BVID, "BV1xx".to_string())), vec![("bvid", "BV1xx")]);
    assert_eq!(pairs(&video_details_params(QueryType::AVID, "170001".to_string())), vec![("aid", "170001")]);
}

#[test]
fn player_and_stream_params() {
    assert_eq!(pairs(&player_info_params("BV1".to_string(), 279786)), vec![("bvid", "BV1"), ("cid", "279786")]);
    assert_eq!(
        pairs(&stream_params("BV1".to_string(), -5)),
        vec![("bvid", "BV1"), ("cid", "-5"), ("gaia_source", "view-card"), ("fnval", "16"), ("platform", "pc")]
    );
}

#[test]
fn collection_page_params() {
    assert_eq!(
        pairs(&collection_params(123, 20, 2)),
        vec![("media_id", "123"), ("order", "mtime"), ("ps", "20"), ("pn", "2"), ("platform", "web")]
    );
}
