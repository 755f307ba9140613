use deeplx::{
    build_upstream_body, classify_status, complete_translation, default_source_text,
    default_target_lang, extract_translation, get_i_count, get_random_number, get_timestamp,
    next_request_id, prepare_request, proxy_plan, render_body, session_cookie, skew_timestamp,
    verify_api_key, ClientPool, Json, PayloadFree, RelayError,
};
use deeplx::{base_from_draw, request_id_from_draw, timestamp_from_reading};

fn s(x: &str) -> String {
    x.to_string()
}

fn obj(members: Vec<(&str, Json)>) -> Json {
    Json::Object(members.into_iter().map(|(k, v)| (s(k), v)).collect())
}

fn now_ms() -> u128 {
    std::time::SystemTime::now()
        .duration_since(std::time::UNIX_EPOCH)
        .unwrap()
        .as_millis()
}

#[test]
fn i_count_counts_lowercase_i_only() {
    assert_eq!(get_i_count(""), 0);
    assert_eq!(get_i_count("this is it"), 3);
    assert_eq!(get_i_count("IÎíi"), 1);
    assert_eq!(get_i_count("Hello"), 0);
}

#[test]
fn timestamp_without_i_is_clock() {
    assert_eq!(skew_timestamp(1_700_000_000_123, 0), 1_700_000_000_123);
    let before = now_ms();
    let t = get_timestamp(get_i_count("Hello world")).unwrap();
    let after = now_ms();
    assert!(before <= t && t <= after);
}

#[test]
fn timestamp_with_i_is_skewed() {
    assert_eq!(skew_timestamp(1007, 3), 1008);
    assert_eq!(skew_timestamp(1008, 3), 1011);
    assert_eq!(skew_timestamp(10, 1), 11);
    let n = get_i_count("this is it") as u128;
    let before = now_ms();
    let t = get_timestamp(n as usize).unwrap();
    assert_eq!((t - n) % n, 0);
    assert!(t + n > before);
    assert!(t <= now_ms() + n);
}

#[test]
fn ids_end_in_001() {
    for _ in 0..200 {
        let id = next_request_id();
        assert_eq!(id % 1000, 1);
        assert!((8_300_000_001..=8_399_999_001).contains(&id));
        let base = get_random_number();
        assert_eq!(base % 1000, 0);
        assert!((8_300_000_000..=8_399_999_000).contains(&base));
    }
}

#[test]
fn single_client_pool_always_same() {
    let mut pool = ClientPool::from_clients(vec![42u8]).unwrap();
    for _ in 0..10 {
        assert_eq!(pool.next_index(), 0);
        assert_eq!(*pool.next(), 42);
    }
}

#[test]
fn pool_rotates_in_order() {
    let mut pool = ClientPool::from_clients(vec![10u8, 20, 30]).unwrap();
    let got: Vec<u8> = (0..7).map(|_| *pool.next()).collect();
    assert_eq!(got, vec![20, 30, 10, 20, 30, 10, 20]);
    assert_eq!(pool.len(), 3);
}

#[test]
fn pool_rotation_is_uniform_over_cycles() {
    let mut pool = ClientPool::from_clients(vec![0usize, 1, 2, 3]).unwrap();
    let mut counts = [0usize; 4];
    for _ in 0..4000 {
        counts[pool.next_index()] += 1;
    }
    assert_eq!(counts, [1000, 1000, 1000, 1000]);
}

#[test]
fn empty_pool_is_refused() {
    assert!(ClientPool::<u8>::from_clients(vec![]).is_none());
}

#[test]
fn proxy_plan_one_client_per_proxy() {
    assert_eq!(proxy_plan(None), vec![None]);
    assert_eq!(proxy_plan(Some(vec![])), vec![None]);
    assert_eq!(
        proxy_plan(Some(vec![s("http://a:1"), s("socks5://b:2")])),
        vec![Some(s("http://a:1")), Some(s("socks5://b:2"))]
    );
}

#[test]
fn extractor_reads_text_and_alternatives() {
    let body = obj(vec![(
        "result",
        obj(vec![(
            "texts",
            Json::Array(vec![obj(vec![
                ("text", Json::Str(s("Hallo"))),
                (
                    "alternatives",
                    Json::Array(vec![
                        obj(vec![("text", Json::Str(s("Hi")))]),
                        obj(vec![("text", Json::Str(s("Hey")))]),
                    ]),
                ),
            ])]),
        )]),
    )]);
    let t = extract_translation(&body);
    assert_eq!(t.data, "Hallo");
    assert_eq!(t.alternatives, vec![s("Hi"), s("Hey")]);
}

#[test]
fn extractor_tolerates_missing_texts() {
    let body = obj(vec![("result", obj(vec![]))]);
    let t = extract_translation(&body);
    assert_eq!(t.data, "");
    assert!(t.alternatives.is_empty());
}

#[test]
fn extractor_skips_malformed_parts() {
    let body = obj(vec![(
        "result",
        obj(vec![(
            "texts",
            Json::Array(vec![
                obj(vec![
                    ("text", Json::Number(s("5"))),
                    (
                        "alternatives",
                        Json::Array(vec![
                            obj(vec![("text", Json::Str(s("A")))]),
                            Json::Null,
                            obj(vec![("other", Json::Str(s("x")))]),
                            obj(vec![("text", Json::Str(s("B")))]),
                        ]),
                    ),
                ]),
                obj(vec![("text", Json::Str(s("ignored")))]),
            ]),
        )]),
    )]);
    let t = extract_translation(&body);
    assert_eq!(t.data, "");
    assert_eq!(t.alternatives, vec![s("A"), s("B")]);
    let t = extract_translation(&Json::Array(vec![]));
    assert_eq!(t.data, "");
    assert!(t.alternatives.is_empty());
    let empty_texts = obj(vec![("result", obj(vec![("texts", Json::Array(vec![]))]))]);
    assert_eq!(extract_translation(&empty_texts).data, "");
}

#[test]
fn auth_gate() {
    let key = s("secret");
    let other = s("Secret");
    assert_eq!(verify_api_key(Some(&key), Some(&key)), Ok(()));
    assert_eq!(verify_api_key(Some(&other), Some(&key)), Err(RelayError::Unauthorized));
    assert_eq!(verify_api_key(None, Some(&key)), Err(RelayError::Unauthorized));
    assert_eq!(verify_api_key(None, None), Ok(()));
    assert_eq!(verify_api_key(Some(&other), None), Ok(()));
}

#[test]
fn unauthorized_request_is_not_prepared() {
    let key = s("secret");
    let other = s("wrong");
    let req = PayloadFree::new(s("Hello"), None, None);
    assert!(matches!(
        prepare_request(&req, Some(&other), Some(&key)),
        Err(RelayError::Unauthorized)
    ));
    assert!(matches!(prepare_request(&req, None, Some(&key)), Err(RelayError::Unauthorized)));
    let ok = prepare_request(&req, Some(&key), Some(&key)).unwrap();
    assert_eq!(ok.id % 1000, 1);
    assert!(ok.body.contains("\"text\":\"Hello\""));
    assert!(ok.body.contains("\"source_lang_user_selected\":\"AUTO\""));
}

#[test]
fn status_classification() {
    assert_eq!(classify_status(429), Err(RelayError::RateLimited));
    assert_eq!(classify_status(200), Ok(()));
    assert_eq!(classify_status(204), Ok(()));
    assert_eq!(classify_status(500), Err(RelayError::UpstreamStatus(500)));
    assert_eq!(classify_status(302), Err(RelayError::UpstreamStatus(302)));
    assert_eq!(RelayError::RateLimited.status_code(), 429);
    assert_eq!(RelayError::Unauthorized.status_code(), 401);
    assert_eq!(RelayError::Gateway.status_code(), 502);
    assert_eq!(RelayError::UpstreamStatus(404).status_code(), 500);
    assert_eq!(RelayError::Internal.status_code(), 500);
}

#[test]
fn rate_limit_stops_before_body() {
    let req = PayloadFree::new(s("Hello"), None, None);
    let outcome = classify_status(429).and_then(|_| {
        complete_translation(1, &req, Some(&obj(vec![("result", obj(vec![]))])))
    });
    assert!(matches!(outcome, Err(RelayError::RateLimited)));
}

#[test]
fn complete_translation_shapes_reply() {
    let req = PayloadFree::new(s("Hallo"), Some(s("de")), Some(s("en")));
    assert!(matches!(complete_translation(7, &req, None), Err(RelayError::Gateway)));
    let body = obj(vec![(
        "result",
        obj(vec![("texts", Json::Array(vec![obj(vec![("text", Json::Str(s("Hello")))])]))]),
    )]);
    let f = complete_translation(7, &req, Some(&body)).ok().unwrap();
    assert_eq!(f.code, 200);
    assert_eq!(f.id, 7);
    assert_eq!(f.data, "Hello");
    assert!(f.alternatives.is_empty());
    assert_eq!(f.source_lang, "de");
    assert_eq!(f.target_lang, "en");
    assert_eq!(f.method, "Free");
}

#[test]
fn defaults() {
    assert_eq!(default_source_text(), "AUTO");
    assert_eq!(default_target_lang(), "ZH");
    let req = PayloadFree::new(s("x"), None, Some(s("fr")));
    assert_eq!(req.source_lang, "AUTO");
    assert_eq!(req.target_lang, "fr");
}

#[test]
fn body_with_space_after_colon() {
    let body = render_body("\"hi\"", "\"AUTO\"", "\"ZH\"", 8300000001, 1000);
    assert_eq!(
        body,
        "{\"id\":8300000001,\"jsonrpc\":\"2.0\",\"method\": \"LMT_handle_texts\",\"params\":{\"commonJobParams\":{\"transcribe_as\":\"\",\"wasSpoken\":false},\"lang\":{\"source_lang_user_selected\":\"AUTO\",\"target_lang\":\"ZH\"},\"splitting\":\"newlines\",\"texts\":[{\"requestAlternatives\":0,\"text\":\"hi\"}],\"timestamp\":1000}}"
    );
}

#[test]
fn body_with_spaces_around_colon() {
    for id in [24u64, 10u64] {
        let body = render_body("\"a\"", "\"EN\"", "\"DE\"", id, 0);
        assert!(body.starts_with(&format!("{{\"id\":{},\"jsonrpc\":\"2.0\",\"method\" : \"LMT", id)));
        assert!(body.ends_with("\"timestamp\":0}}"));
    }
}

#[test]
fn body_quotes_and_uppercases() {
    let body = build_upstream_body("say \"hi\"\n", "en", "de", 1, 42);
    assert_eq!(
        body,
        "{\"id\":1,\"jsonrpc\":\"2.0\",\"method\": \"LMT_handle_texts\",\"params\":{\"commonJobParams\":{\"transcribe_as\":\"\",\"wasSpoken\":false},\"lang\":{\"source_lang_user_selected\":\"EN\",\"target_lang\":\"DE\"},\"splitting\":\"newlines\",\"texts\":[{\"requestAlternatives\":0,\"text\":\"say \\\"hi\\\"\\n\"}],\"timestamp\":42}}"
    );
    let text_with_key = build_upstream_body("\"method\":\"x", "auto", "zh", 1, 0);
    assert!(text_with_key.contains("\"text\":\"\\\"method\\\":\\\"x\""));
}

#[test]
fn cookie_carries_session() {
    assert_eq!(session_cookie("abc"), "dl_session=abc;");
    assert_eq!(session_cookie(""), "dl_session=;");
}

#[test]
fn id_arithmetic_from_draw() {
    assert_eq!(base_from_draw(0), 8_300_000_000);
    assert_eq!(base_from_draw(99_999), 8_399_999_000);
    assert_eq!(base_from_draw(12_345), 8_312_345_000);
    assert_eq!(request_id_from_draw(0), 8_300_000_001);
    assert_eq!(request_id_from_draw(99_999), 8_399_999_001);
}

#[test]
fn timestamp_from_clock_reading() {
    assert_eq!(timestamp_from_reading(None, 0), Err(RelayError::Internal));
    assert_eq!(timestamp_from_reading(None, 4), Err(RelayError::Internal));
    assert_eq!(timestamp_from_reading(Some(1_000), 0), Ok(1_000));
    assert_eq!(timestamp_from_reading(Some(1_007), 3), Ok(1_008));
    assert_eq!(timestamp_from_reading(Some(u128::MAX), 1), Err(RelayError::Internal));
    assert_eq!(timestamp_from_reading(Some(u128::MAX), 0), Ok(u128::MAX));
}

#[test]
fn any_parsed_reply_succeeds() {
    let req = PayloadFree::new(s("Hallo"), None, None);
    for body in [Json::Null, Json::Bool(true), Json::Array(vec![]), obj(vec![("result", obj(vec![]))])] {
        let f = complete_translation(3, &req, Some(&body)).ok().unwrap();
        assert_eq!(f.data, "");
        assert!(f.alternatives.is_empty());
        assert_eq!(f.code, 200);
    }
}
