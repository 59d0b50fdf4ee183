use yt_mirror::youtube::{get_youtube_video_id, video_id_from_parts, UrlParts};

#[test]
fn it_requires_youtube_host() {
    let url = "https://google.com/watch?v=nrssnHz0Wz8";
    let result = get_youtube_video_id(&url).unwrap();
    assert_eq!(result, None);
}

#[test]
fn it_works_without_www() {
    let url = "https://youtube.com/watch?v=nrssnHz0Wz8";
    let result = get_youtube_video_id(&url).unwrap();
    assert_eq!(result, Some("nrssnHz0Wz8".to_string()));
}

#[test]
fn it_works_with_www() {
    let url = "https://www.youtube.com/watch?v=nrssnHz0Wz8";
    let result = get_youtube_video_id(&url).unwrap();
    assert_eq!(result, Some("nrssnHz0Wz8".to_string()));
}

#[test]
fn it_works_with_mobile() {
    let url = "https://m.youtube.com/watch?v=nrssnHz0Wz8";
    let result = get_youtube_video_id(&url).unwrap();
    assert_eq!(result, Some("nrssnHz0Wz8".to_string()));
}

#[test]
fn it_works_with_mobile_www() {
    let url = "https://www.m.youtube.com/watch?v=nrssnHz0Wz8";
    let result = get_youtube_video_id(&url).unwrap();
    assert_eq!(result, Some("nrssnHz0Wz8".to_string()));
}

#[test]
fn it_works_with_music() {
    let url = "https://music.youtube.com/watch?v=nrssnHz0Wz8";
    let result = get_youtube_video_id(&url).unwrap();
    assert_eq!(result, Some("nrssnHz0Wz8".to_string()));
}

#[test]
fn it_works_with_http() {
    let url = "http://youtube.com/watch?v=nrssnHz0Wz8";
    let result = get_youtube_video_id(&url).unwrap();
    assert_eq!(result, Some("nrssnHz0Wz8".to_string()));
}

#[test]
fn it_requires_watch() {
    let url = "http://youtube.com/";
    let result = get_youtube_video_id(&url).unwrap();
    assert_eq!(result, None);
}

#[test]
fn it_requires_v_query() {
    let url = "http://youtube.com/watch?test=test";
    let result = get_youtube_video_id(&url).unwrap();
    assert_eq!(result, None);
}

#[test]
fn it_rejects_what_is_no_address() {
    assert!(get_youtube_video_id("not an address").is_err());
    assert!(get_youtube_video_id("").is_err());
    assert!(get_youtube_video_id("/watch?v=nrssnHz0Wz8").is_err());
}

#[test]
fn it_takes_the_first_v_of_the_query() {
    let url = "https://youtube.com/watch?t=10&v=first&v=second";
    assert_eq!(get_youtube_video_id(url).unwrap(), Some("first".to_string()));
}

#[test]
fn it_decodes_the_query() {
    let url = "https://youtube.com/watch?v=a%20b";
    assert_eq!(get_youtube_video_id(url).unwrap(), Some("a b".to_string()));
}

#[test]
fn it_requires_watch_as_the_first_segment() {
    let nested = "https://youtube.com/embed/watch?v=nrssnHz0Wz8";
    assert_eq!(get_youtube_video_id(nested).unwrap(), None);
    let below = "https://youtube.com/watch/more?v=nrssnHz0Wz8";
    assert_eq!(get_youtube_video_id(below).unwrap(), Some("nrssnHz0Wz8".to_string()));
}

#[test]
fn it_requires_a_domain_name() {
    let url = "https://127.0.0.1/watch?v=nrssnHz0Wz8";
    assert_eq!(get_youtube_video_id(url).unwrap(), None);
}

#[test]
fn parts_without_a_path_point_to_no_video() {
    let parts = UrlParts {
        domain: Some("youtube.com".to_string()),
        path_segments: None,
        query_pairs: vec![("v".to_string(), "x".to_string())],
    };
    assert_eq!(video_id_from_parts(&parts), None);
    let empty_path = UrlParts {
        domain: Some("youtube.com".to_string()),
        path_segments: Some(vec![]),
        query_pairs: vec![("v".to_string(), "x".to_string())],
    };
    assert_eq!(video_id_from_parts(&empty_path), None);
}

#[test]
fn parts_of_a_video_address_point_to_the_video() {
    let parts = UrlParts {
        domain: Some("music.youtube.com".to_string()),
        path_segments: Some(vec!["watch".to_string()]),
        query_pairs: vec![
            ("list".to_string(), "l".to_string()),
            ("v".to_string(), "x".to_string()),
        ],
    };
    assert_eq!(video_id_from_parts(&parts), Some("x".to_string()));
    let other_host = UrlParts {
        domain: Some("youtube.org".to_string()),
        path_segments: Some(vec!["watch".to_string()]),
        query_pairs: vec![("v".to_string(), "x".to_string())],
    };
    assert_eq!(video_id_from_parts(&other_host), None);
    let no_host = UrlParts {
        domain: None,
        path_segments: Some(vec!["watch".to_string()]),
        query_pairs: vec![("v".to_string(), "x".to_string())],
    };
    assert_eq!(video_id_from_parts(&no_host), None);
}
