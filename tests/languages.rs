use instances_finder::{collect_languages, fetch_languages, AppState, ApiError, Instance, InstanceInfo};

fn with_langs(langs: Option<Vec<&str>>) -> Instance {
    Instance {
        name: "x.org".to_string(),
        up: true,
        users: "1".to_string(),
        open_registrations: true,
        info: Some(InstanceInfo {
            short_description: None,
            languages: langs.map(|l| l.into_iter().map(|s| s.to_string()).collect()),
        }),
    }
}

#[test]
fn languages_are_normalized_distinct_and_sorted() {
    let entries = vec![
        with_langs(Some(vec!["fr", " EN ", "de"])),
        with_langs(Some(vec!["en", "", "   ", "FR"])),
        with_langs(None),
        Instance { info: None, ..with_langs(None) },
        with_langs(Some(vec!["Es\t"])),
    ];
    assert_eq!(collect_languages(&entries), vec!["de", "en", "es", "fr"]);
}

#[test]
fn no_languages_gives_empty_list() {
    assert!(collect_languages(&Vec::new()).is_empty());
    assert!(collect_languages(&vec![with_langs(Some(vec![" "]))]).is_empty());
}

#[test]
fn order_is_by_code_point() {
    let entries = vec![with_langs(Some(vec!["zh", "ab", "a", "é", "b"]))];
    assert_eq!(collect_languages(&entries), vec!["a", "ab", "b", "zh", "é"]);
}

#[test]
fn language_sample_request() {
    let state = AppState { token: Some("tok".to_string()) };
    let req = fetch_languages(&state, || None).unwrap();
    assert_eq!(req.path, "instances/list");
    assert_eq!(req.authorization, "Bearer tok");
    assert_eq!(req.query, vec![("count".to_string(), "500".to_string())]);
    assert_eq!(fetch_languages(&AppState::new(), || None), Err(ApiError::NoToken));
}
