use url::Url;
use y2mp3::error::{Error, ErrorKind};
use y2mp3::youtube_url::{
    find_query_value, find_segment_after, kind_from_matches, UrlParts, YouTubeURL, YouTubeURLKind,
};

fn parts(text: &str) -> UrlParts {
    let url = Url::parse(text).unwrap();
    UrlParts {
        href: url.as_str().to_string(),
        host: url.host_str().map(|h| h.to_string()),
        path: url.path().to_string(),
        query: url.query().map(|q| q.to_string()),
    }
}

#[test]
fn test_get_id() {
    let test_cases = vec![
        (
            "https://www.youtube.com/watch?v=yPvoKz6tyJs",
            YouTubeURLKind::Regular,
            "yPvoKz6tyJs",
        ),
        (
            "https://www.youtube.com/embed/3rLN_-VNcfs",
            YouTubeURLKind::Embed,
            "3rLN_-VNcfs",
        ),
        (
            "https://www.youtube.com/shorts/3rLN_-VNcfs",
            YouTubeURLKind::Short,
            "3rLN_-VNcfs",
        ),
        (
            "https://www.youtube.com/invalid/invalid",
            YouTubeURLKind::Invalid,
            "invalid",
        ),
    ];

    for (url, kind, exp) in test_cases {
        let id = YouTubeURL::get_id(parts(url), kind).unwrap();
        assert_eq!(id, exp);
    }
}

#[test]
fn test_get_type() {
    let test_cases = vec![
        (
            "https://www.youtube.com/shorts/3rLN_-VNcfs",
            YouTubeURLKind::Short,
        ),
        (
            "https://www.youtube.com/embed/3rLN_-VNcfs",
            YouTubeURLKind::Embed,
        ),
        (
            "https://www.youtube.com/watch?v=yPvoKz6tyJs",
            YouTubeURLKind::Regular,
        ),
        (
            "https://www.youtube.com/invalid/invalid",
            YouTubeURLKind::Invalid,
        ),
    ];

    for (url, exp) in test_cases {
        let kind = YouTubeURL::get_type(parts(url)).unwrap();
        assert_eq!(kind.to_string(), exp.to_string());
        assert_eq!(kind, exp);
    }
}

#[test]
fn kind_is_shown_as_a_line() {
    assert_eq!(YouTubeURLKind::Short.to_string(), "Short\n");
    assert_eq!(YouTubeURLKind::Embed.to_string(), "Embed\n");
    assert_eq!(YouTubeURLKind::Regular.to_string(), "Regular\n");
    assert_eq!(YouTubeURLKind::Invalid.to_string(), "Invalid\n");
}

#[test]
fn get_type_goes_by_the_start_of_the_path() {
    let cases = vec![
        ("https://www.youtube.com/watchers", YouTubeURLKind::Regular),
        ("https://www.youtube.com/watch/abc", YouTubeURLKind::Regular),
        ("https://www.youtube.com/shortsxyz", YouTubeURLKind::Short),
        ("https://www.youtube.com/shorts", YouTubeURLKind::Short),
        ("https://www.youtube.com/embedded/x", YouTubeURLKind::Embed),
        ("https://www.youtube.com/", YouTubeURLKind::Invalid),
        ("https://www.youtube.com/Watch?v=yPvoKz6tyJs", YouTubeURLKind::Invalid),
        ("https://www.youtube.com/x/watch", YouTubeURLKind::Invalid),
        ("https://youtu.be/yPvoKz6tyJs", YouTubeURLKind::Invalid),
        ("https://example.org/embed/yPvoKz6tyJs", YouTubeURLKind::Embed),
    ];
    for (url, exp) in cases {
        assert_eq!(YouTubeURL::get_type(parts(url)).unwrap(), exp, "{}", url);
    }
}

#[test]
fn get_type_reads_the_path_alone() {
    let url = UrlParts {
        href: String::from("https://www.youtube.com/watch?v=yPvoKz6tyJs"),
        host: None,
        path: String::from("/shorts/x"),
        query: Some(String::from("v=yPvoKz6tyJs")),
    };
    assert_eq!(YouTubeURL::get_type(url).unwrap(), YouTubeURLKind::Short);
}

#[test]
fn kind_from_matches_prefers_regular_then_short_then_embed() {
    for regular in [false, true] {
        for short in [false, true] {
            for embed in [false, true] {
                let exp = if regular {
                    YouTubeURLKind::Regular
                } else if short {
                    YouTubeURLKind::Short
                } else if embed {
                    YouTubeURLKind::Embed
                } else {
                    YouTubeURLKind::Invalid
                };
                assert_eq!(kind_from_matches(regular, short, embed), exp);
            }
        }
    }
}

#[test]
fn get_id_of_a_regular_link_is_the_value_of_v() {
    let cases = vec![
        ("https://www.youtube.com/watch?v=yPvoKz6tyJs&t=42", "yPvoKz6tyJs"),
        ("https://www.youtube.com/watch?t=42&v=yPvoKz6tyJs", "yPvoKz6tyJs"),
        ("https://www.youtube.com/watch?v=first&v=second", "first"),
        ("https://www.youtube.com/watch?v=a=b", "a=b"),
        ("https://www.youtube.com/watch?v=yPvoKz6tyJs#t=1", "yPvoKz6tyJs"),
        ("https://www.youtube.com/watch?vv=yPvoKz6tyJs", ""),
        ("https://www.youtube.com/watch?av=1", ""),
        ("https://www.youtube.com/watch?v", ""),
        ("https://www.youtube.com/watch?v=", ""),
        ("https://www.youtube.com/watch?", ""),
        ("https://www.youtube.com/watch", ""),
        ("https://www.youtube.com/watch?&&v=x", "x"),
        ("https://www.youtube.com/embed/3rLN_-VNcfs", ""),
    ];
    for (url, exp) in cases {
        let id = YouTubeURL::get_id(parts(url), YouTubeURLKind::Regular).unwrap();
        assert_eq!(id, exp, "{}", url);
    }
}

#[test]
fn get_id_of_a_short_or_embed_link_is_the_segment_after_the_keyword() {
    let cases = vec![
        ("https://www.youtube.com/shorts/3rLN_-VNcfs/", YouTubeURLKind::Short, "3rLN_-VNcfs"),
        ("https://www.youtube.com/shorts/3rLN_-VNcfs/more", YouTubeURLKind::Short, "3rLN_-VNcfs"),
        ("https://www.youtube.com/shorts/3rLN_-VNcfs?feature=share", YouTubeURLKind::Short, "3rLN_-VNcfs"),
        ("https://www.youtube.com/shorts/", YouTubeURLKind::Short, ""),
        ("https://www.youtube.com/shorts", YouTubeURLKind::Short, ""),
        ("https://www.youtube.com/shortsxyz/abc", YouTubeURLKind::Short, ""),
        ("https://www.youtube.com/x/shorts/abc", YouTubeURLKind::Short, "abc"),
        ("https://www.youtube.com/shorts/abc", YouTubeURLKind::Embed, ""),
        ("https://www.youtube.com/embed/abc", YouTubeURLKind::Short, ""),
        ("https://www.youtube.com/embed/embed/x", YouTubeURLKind::Embed, "embed"),
        ("https://www.youtube.com/embed//x", YouTubeURLKind::Embed, ""),
        ("https://www.youtube.com/watch?v=yPvoKz6tyJs", YouTubeURLKind::Embed, ""),
    ];
    for (url, kind, exp) in cases {
        let id = YouTubeURL::get_id(parts(url), kind).unwrap();
        assert_eq!(id, exp, "{}", url);
    }
}

#[test]
fn get_id_of_an_invalid_link_is_the_placeholder() {
    let id = YouTubeURL::get_id(
        parts("https://www.youtube.com/watch?v=yPvoKz6tyJs"),
        YouTubeURLKind::Invalid,
    )
    .unwrap();
    assert_eq!(id, "invalid");
}

#[test]
fn find_query_value_takes_the_first_parameter_of_that_name() {
    assert_eq!(find_query_value("v=1", "v"), Some(String::from("1")));
    assert_eq!(find_query_value("a=1&v=2&v=3", "v"), Some(String::from("2")));
    assert_eq!(find_query_value("a=1&b=2", "v"), None);
    assert_eq!(find_query_value("", "v"), None);
    assert_eq!(find_query_value("", ""), Some(String::new()));
    assert_eq!(find_query_value("v", "v"), Some(String::new()));
    assert_eq!(find_query_value("v=", "v"), Some(String::new()));
    assert_eq!(find_query_value("=x", ""), Some(String::from("x")));
    assert_eq!(find_query_value("list=é&v=ü=ö", "v"), Some(String::from("ü=ö")));
    assert_eq!(find_query_value("a&", "v"), None);
    assert_eq!(find_query_value("a&", ""), Some(String::new()));
}

#[test]
fn find_segment_after_takes_what_follows_the_first_keyword() {
    assert_eq!(find_segment_after("/shorts/abc", "shorts"), "abc");
    assert_eq!(find_segment_after("/shorts/abc/def", "shorts"), "abc");
    assert_eq!(find_segment_after("/shorts", "shorts"), "");
    assert_eq!(find_segment_after("/shorts/", "shorts"), "");
    assert_eq!(find_segment_after("shorts/x", "shorts"), "x");
    assert_eq!(find_segment_after("/a/b/c", "b"), "c");
    assert_eq!(find_segment_after("/a/b/c", "c"), "");
    assert_eq!(find_segment_after("/a/b/c", "d"), "");
    assert_eq!(find_segment_after("/a/b/c", ""), "a");
    assert_eq!(find_segment_after("", ""), "");
    assert_eq!(find_segment_after("/é/ü/ö", "ü"), "ö");
}

fn link(text: &str, kind: YouTubeURLKind, id: &str) -> YouTubeURL {
    YouTubeURL { url: parts(text), kind, id: String::from(id) }
}

#[test]
fn validate_accepts_the_known_forms() {
    let cases = vec![
        ("https://www.youtube.com/watch?v=yPvoKz6tyJs", YouTubeURLKind::Regular),
        ("https://www.youtube.com/watch?t=1&v=yPvoKz6tyJs&x=2", YouTubeURLKind::Regular),
        ("https://www.youtube.com/embed/3rLN_-VNcfs", YouTubeURLKind::Embed),
        ("https://www.youtube.com/shorts/3rLN_-VNcfs", YouTubeURLKind::Short),
        ("https://www.youtube.com/shorts/3rLN_-VNcfs?feature=share", YouTubeURLKind::Short),
        ("https://m.youtube.com/watch?v=yPvoKz6tyJs", YouTubeURLKind::Regular),
    ];
    for (url, kind) in cases {
        assert_eq!(link(url, kind, "x").validate(), Ok(()), "{}", url);
    }
}

#[test]
fn validate_rejects_a_link_without_an_identifier_of_eleven_characters() {
    let cases = vec![
        "https://www.youtube.com/watch?v=short",
        "https://www.youtube.com/watch?v=yPvoKz6tyJsX",
        "https://www.youtube.com/watch?v=yPvoKz6ty.s",
        "https://www.youtube.com/watch",
        "https://www.youtube.com/shorts/",
        "https://www.example.org/watch?v=yPvoKz6tyJs",
        "https://www.youtube.com/invalid/invalid",
    ];
    for url in cases {
        let err = link(url, YouTubeURLKind::Regular, "x").validate().unwrap_err();
        assert_eq!(err, Error { kind: ErrorKind::InvalidURL, value: format!("bad url: {}", url) });
    }
}

#[test]
fn validate_tells_an_unknown_shape_from_a_bad_link() {
    let err = link("https://youtu.be/yPvoKz6tyJs", YouTubeURLKind::Invalid, "invalid")
        .validate()
        .unwrap_err();
    assert_eq!(
        err,
        Error { kind: ErrorKind::InvalidURLType, value: String::from("bad type: Invalid\n") }
    );
    let err = link("https://www.youtube.com/nothing", YouTubeURLKind::Invalid, "invalid")
        .validate()
        .unwrap_err();
    assert_eq!(err.kind, ErrorKind::InvalidURL);
}

#[test]
fn new_reads_shape_and_identifier() {
    let cases = vec![
        ("https://www.youtube.com/watch?v=yPvoKz6tyJs", YouTubeURLKind::Regular, "yPvoKz6tyJs"),
        ("https://www.youtube.com/watch?v=yPvoKz6tyJs&t=3", YouTubeURLKind::Regular, "yPvoKz6tyJs"),
        ("https://www.youtube.com/embed/3rLN_-VNcfs", YouTubeURLKind::Embed, "3rLN_-VNcfs"),
        ("https://www.youtube.com/shorts/3rLN_-VNcfs", YouTubeURLKind::Short, "3rLN_-VNcfs"),
    ];
    for (url, kind, id) in cases {
        let made = YouTubeURL::new(parts(url)).unwrap();
        assert_eq!(made, YouTubeURL { url: parts(url), kind, id: String::from(id) });
    }
}

#[test]
fn new_wraps_the_reason_for_refusal() {
    let url = "https://www.youtube.com/watch?v=short";
    let inner = Error { kind: ErrorKind::InvalidURL, value: format!("bad url: {}", url) };
    let err = YouTubeURL::new(parts(url)).unwrap_err();
    assert_eq!(err.kind, ErrorKind::InvalidURL);
    assert_eq!(err.value, format!("error: {:?}", inner));
    assert_eq!(
        err.value,
        "error: Error { kind: InvalidURL, value: \"bad url: https://www.youtube.com/watch?v=short\" }"
    );

    let err = YouTubeURL::new(parts("https://youtu.be/yPvoKz6tyJs")).unwrap_err();
    assert_eq!(err.kind, ErrorKind::InvalidURL);
    assert_eq!(
        err.value,
        "error: Error { kind: InvalidURLType, value: \"bad type: Invalid\\n\" }"
    );
}

#[test]
fn clone_keeps_every_part() {
    let one = YouTubeURL::new(parts("https://www.youtube.com/watch?v=yPvoKz6tyJs")).unwrap();
    let two = one.clone();
    assert_eq!(one, two);
    let bare = UrlParts {
        href: String::from("a"),
        host: None,
        path: String::from("b"),
        query: None,
    };
    assert_eq!(bare.clone(), bare);
}

#[test]
fn an_identifier_is_one_value_or_one_segment() {
    let links = [
        "https://www.youtube.com/watch?v=a&b=c/d",
        "https://www.youtube.com/watch?x=1&v=a/b&c",
        "https://www.youtube.com/shorts/a&b/c?v=d&e",
        "https://www.youtube.com/embed/a/b/c",
        "https://www.youtube.com/embed/embed/shorts/x&y",
    ];
    for link in links {
        let id = YouTubeURL::get_id(parts(link), YouTubeURLKind::Regular).unwrap();
        assert!(!id.contains('&'), "{}", link);
        let id = YouTubeURL::get_id(parts(link), YouTubeURLKind::Short).unwrap();
        assert!(!id.contains('/'), "{}", link);
        let id = YouTubeURL::get_id(parts(link), YouTubeURLKind::Embed).unwrap();
        assert!(!id.contains('/'), "{}", link);
    }
}

#[test]
fn new_accepts_what_has_a_known_shape_and_matches() {
    let links = [
        "https://www.youtube.com/watch?v=yPvoKz6tyJs",
        "https://www.youtube.com/watch?v=short",
        "https://www.youtube.com/embed/3rLN_-VNcfs",
        "https://www.youtube.com/embed/",
        "https://www.youtube.com/shorts/3rLN_-VNcfs",
        "https://youtu.be/yPvoKz6tyJs",
        "https://www.youtube.com/v/yPvoKz6tyJs",
        "https://www.youtube.com/invalid/invalid",
    ];
    for link in links {
        let kind = YouTubeURL::get_type(parts(link)).unwrap();
        let probe = YouTubeURL { url: parts(link), kind, id: String::new() };
        let acceptable = kind != YouTubeURLKind::Invalid && probe.validate().is_ok();
        assert_eq!(YouTubeURL::new(parts(link)).is_ok(), acceptable, "{}", link);
    }
}

#[test]
fn judge_goes_by_match_and_shape() {
    let watch = "https://www.youtube.com/watch?v=yPvoKz6tyJs";
    for kind in [YouTubeURLKind::Regular, YouTubeURLKind::Short, YouTubeURLKind::Embed] {
        assert_eq!(link(watch, kind, "x").judge(true), Ok(()));
        assert_eq!(
            link(watch, kind, "x").judge(false),
            Err(Error { kind: ErrorKind::InvalidURL, value: format!("bad url: {}", watch) })
        );
    }
    assert_eq!(
        link(watch, YouTubeURLKind::Invalid, "x").judge(true),
        Err(Error { kind: ErrorKind::InvalidURLType, value: String::from("bad type: Invalid\n") })
    );
    assert_eq!(
        link(watch, YouTubeURLKind::Invalid, "x").judge(false),
        Err(Error { kind: ErrorKind::InvalidURL, value: format!("bad url: {}", watch) })
    );
}

#[test]
fn accept_keeps_the_link_or_wraps_the_reason() {
    let watch = "https://www.youtube.com/watch?v=yPvoKz6tyJs";
    assert_eq!(
        YouTubeURL::accept(link(watch, YouTubeURLKind::Regular, "yPvoKz6tyJs"), Ok(())),
        Ok(link(watch, YouTubeURLKind::Regular, "yPvoKz6tyJs"))
    );
    let reason = Error { kind: ErrorKind::InvalidURLType, value: String::from("a \"reason\"\n") };
    assert_eq!(
        YouTubeURL::accept(link(watch, YouTubeURLKind::Invalid, "invalid"), Err(reason)),
        Err(Error {
            kind: ErrorKind::InvalidURL,
            value: String::from(
                "error: Error { kind: InvalidURLType, value: \"a \\\"reason\\\"\\n\" }"
            ),
        })
    );
}

fn texts_over(alphabet: &[char], longest: usize) -> Vec<String> {
    let mut all = vec![String::new()];
    let mut last = vec![String::new()];
    for _ in 0..longest {
        let mut next = Vec::new();
        for text in &last {
            for c in alphabet {
                let mut longer = text.clone();
                longer.push(*c);
                next.push(longer);
            }
        }
        all.extend(next.iter().cloned());
        last = next;
    }
    all
}

#[test]
fn find_query_value_reads_a_query_as_split_does() {
    for query in texts_over(&['v', 'w', '=', '&'], 6) {
        for name in ["v", "w", "", "vv"] {
            let mut expected = None;
            for pair in query.split('&') {
                let (key, value) = pair.split_once('=').unwrap_or((pair, ""));
                if key == name {
                    expected = Some(String::from(value));
                    break;
                }
            }
            assert_eq!(find_query_value(&query, name), expected, "{:?} {:?}", query, name);
        }
    }
}

#[test]
fn find_segment_after_reads_a_path_as_split_does() {
    for path in texts_over(&['a', 'b', '/'], 7) {
        for keyword in ["a", "b", "", "ab"] {
            let segments: Vec<&str> = path.split('/').collect();
            let mut expected = "";
            for i in 0..segments.len() {
                if segments[i] == keyword && i + 1 < segments.len() {
                    expected = segments[i + 1];
                    break;
                }
            }
            assert_eq!(find_segment_after(&path, keyword), expected, "{:?} {:?}", path, keyword);
        }
    }
}

#[test]
fn get_type_asks_how_the_path_begins() {
    let mut paths = texts_over(&['/', 'w', 'e', 's'], 4);
    for word in ["watch", "shorts", "embed", "watc", "short", "embe", "Watch", "watchh"] {
        for tail in ["", "/", "/x", "?v=1", "x"] {
            paths.push(format!("/{}{}", word, tail));
            paths.push(format!("{}{}", word, tail));
            paths.push(format!("/x/{}{}", word, tail));
            paths.push(format!("\n/{}{}", word, tail));
        }
    }
    for path in paths {
        let expected = if path.starts_with("/watch") {
            YouTubeURLKind::Regular
        } else if path.starts_with("/shorts") {
            YouTubeURLKind::Short
        } else if path.starts_with("/embed") {
            YouTubeURLKind::Embed
        } else {
            YouTubeURLKind::Invalid
        };
        let url = UrlParts {
            href: String::from("https://www.youtube.com/"),
            host: None,
            path: path.clone(),
            query: None,
        };
        assert_eq!(YouTubeURL::get_type(url), Ok(expected), "{:?}", path);
    }
}

#[test]
fn an_anchored_pattern_asks_how_the_haystack_begins() {
    let words = ["a", "z", "watch", "shorts", "embed", "abcdefghijklmnop", "zzzzzzzzzzzzzzzz"];
    for word in words {
        let pattern = format!("^\\/{}", word);
        let compiled = regex::Regex::new(&pattern).unwrap();
        let begin = format!("/{}", word);
        for haystack in [
            String::new(),
            String::from("/"),
            begin.clone(),
            format!("{}x", begin),
            format!("{}/x", begin),
            format!("x{}", begin),
            format!("\n{}", begin),
            format!("/x{}", begin),
            begin.to_uppercase(),
            begin[..begin.len() - 1].to_string(),
        ] {
            assert_eq!(compiled.is_match(&haystack), haystack.starts_with(&begin));
        }
    }
}
