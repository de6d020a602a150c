use frame_sampler::identity::{url_fingerprint, StreamSession};
use frame_sampler::naming::{
    artifact_name, artifact_path, get_current_str, timestamp_pattern, try_current_str,
};

#[test]
fn fingerprint_of_known_texts() {
    assert_eq!(url_fingerprint(""), "d41d8cd98f00b204e9800998ecf8427e");
    assert_eq!(url_fingerprint("hello"), "5d41402abc4b2a76b9719d911017c592");
    assert_eq!(
        url_fingerprint("The quick brown fox jumps over the lazy dog"),
        "9e107d9d372bb6826bd81d3542a419d6"
    );
}

#[test]
fn fingerprint_is_the_digest_in_lower_case() {
    let url = "rtmp://example.org/live/stream";
    assert_eq!(url_fingerprint(url), format!("{:x}", md5::compute(url.as_bytes())));
    let wide = "rtmp://例え.jp/ライブ";
    assert_eq!(url_fingerprint(wide), format!("{:x}", md5::compute(wide.as_bytes())));
}

#[test]
fn fingerprint_is_stable_and_tells_addresses_apart() {
    let a = url_fingerprint("rtmp://a/1");
    let b = url_fingerprint("rtmp://a/2");
    assert_eq!(a, url_fingerprint("rtmp://a/1"));
    assert_ne!(a, b);
    assert_eq!(a.len(), 32);
    assert!(a.chars().all(|c| c.is_ascii_digit() || ('a'..='f').contains(&c)));
}

#[test]
fn session_keeps_what_it_was_given() {
    let session = StreamSession::open("rtmp://a/1", "subject", "project", "org", 5_000_000_000);
    assert_eq!(session.url(), "rtmp://a/1");
    assert_eq!(session.fingerprint(), url_fingerprint("rtmp://a/1"));
    assert_eq!(session.uuid(), "subject");
    assert_eq!(session.project_uuid(), "project");
    assert_eq!(session.organization_uuid(), "org");
    assert_eq!(session.budget_nanos(), 5_000_000_000);
}

#[test]
fn pattern_without_separator() {
    assert_eq!(timestamp_pattern(None), "%Y-%m-%d %H:%M:%S");
}

#[test]
fn pattern_with_separators() {
    assert_eq!(timestamp_pattern(Some("")), "%Y%m%d%H%M%S");
    assert_eq!(timestamp_pattern(Some("_")), "%Y_%m_%d_%H_%M_%S");
    assert_eq!(timestamp_pattern(Some("::")), "%Y::%m::%d::%H::%M::%S");
}

#[test]
fn current_time_in_the_default_form() {
    let text = get_current_str(None);
    let chars: Vec<char> = text.chars().collect();
    assert_eq!(chars.len(), 19);
    for (i, c) in chars.iter().enumerate() {
        match i {
            4 | 7 => assert_eq!(*c, '-'),
            10 => assert_eq!(*c, ' '),
            13 | 16 => assert_eq!(*c, ':'),
            _ => assert!(c.is_ascii_digit()),
        }
    }
}

#[test]
fn current_time_as_a_token() {
    let token = get_current_str(Some(""));
    assert_eq!(token.len(), 14);
    assert!(token.chars().all(|c| c.is_ascii_digit()));
    let month: u32 = token[4..6].parse().unwrap();
    let day: u32 = token[6..8].parse().unwrap();
    let hour: u32 = token[8..10].parse().unwrap();
    assert!((1..=12).contains(&month));
    assert!((1..=31).contains(&day));
    assert!(hour < 24);
}

#[test]
fn current_time_with_a_separator() {
    let text = get_current_str(Some("/"));
    let parts: Vec<&str> = text.split('/').collect();
    assert_eq!(parts.len(), 6);
    assert_eq!(parts[0].len(), 4);
    for part in &parts[1..] {
        assert_eq!(part.len(), 2);
    }
}

#[test]
fn current_time_keeps_the_separator_as_it_is() {
    for sep in [" - ", "T", "  ", "é", "a b"] {
        let text = get_current_str(Some(sep));
        let parts: Vec<&str> = text.split(sep).collect();
        assert_eq!(parts.len(), 6);
        assert!(parts[0].len() >= 4);
        assert!(parts[0].chars().all(|c| c.is_ascii_digit()));
        for part in &parts[1..] {
            assert_eq!(part.len(), 2);
            assert!(part.chars().all(|c| c.is_ascii_digit()));
        }
        assert_eq!(try_current_str(Some(sep)).map(|t| t.len()), Some(text.len()));
    }
}

#[test]
fn current_time_agrees_with_the_clock() {
    let before = chrono::Local::now().format("%Y%m%d%H%M%S").to_string();
    let token = get_current_str(Some(""));
    let after = chrono::Local::now().format("%Y%m%d%H%M%S").to_string();
    assert!(before <= token);
    assert!(token <= after);
}

#[test]
fn current_time_is_there_for_plain_separators() {
    assert_eq!(try_current_str(None).map(|t| t.len()), Some(19));
    assert_eq!(try_current_str(Some("")).map(|t| t.len()), Some(14));
    assert_eq!(try_current_str(Some("-")).map(|t| t.len()), Some(19));
    assert_eq!(try_current_str(Some("é")).map(|t| t.chars().count()), Some(19));
}

#[test]
fn current_time_with_a_percent_sign_in_the_separator() {
    let doubled = try_current_str(Some("%%")).unwrap();
    assert_eq!(doubled.matches('%').count(), 5);
    assert_eq!(doubled.len(), 19);
    assert_eq!(try_current_str(Some("%Q")), None);
    assert_eq!(try_current_str(Some("% ")), None);
}

#[test]
fn name_of_an_image() {
    assert_eq!(artifact_name("abc", "20240131130559", 30), "abc_20240131130559_30.jpg");
    assert_eq!(artifact_name("", "", 0), "__0.jpg");
    assert_eq!(
        artifact_name("f", "t", u128::MAX),
        "f_t_340282366920938463463374607431768211455.jpg"
    );
}

#[test]
fn name_agrees_with_the_formatted_text() {
    let fingerprint = url_fingerprint("rtmp://a/1");
    for ordinal in [1u128, 9, 10, 99, 100, 12345, 4_000_000_000] {
        assert_eq!(
            artifact_name(&fingerprint, "20240131130559", ordinal),
            format!("{}_{}_{}.jpg", fingerprint, "20240131130559", ordinal)
        );
    }
}

#[test]
fn path_under_a_directory() {
    assert_eq!(artifact_path("/data/dump", "a.jpg"), "/data/dump/a.jpg");
    assert_eq!(artifact_path("/data/dump/", "a.jpg"), "/data/dump/a.jpg");
    assert_eq!(artifact_path("dump", "a.jpg"), "dump/a.jpg");
    assert_eq!(artifact_path("", "a.jpg"), "a.jpg");
    assert_eq!(artifact_path("/", "a.jpg"), "/a.jpg");
    assert_eq!(artifact_path("./out", "a.jpg"), "./out/a.jpg");
}

#[test]
fn path_of_a_rooted_or_empty_name() {
    assert_eq!(artifact_path("/data/dump", "/tmp/a.jpg"), "/tmp/a.jpg");
    assert_eq!(artifact_path("/data/dump", ""), "/data/dump/");
    assert_eq!(artifact_path("", ""), "");
}

#[test]
fn path_with_wide_characters() {
    assert_eq!(artifact_path("/données/é", "ü.jpg"), "/données/é/ü.jpg");
    assert_eq!(artifact_path("/données/", "ü.jpg"), "/données/ü.jpg");
}

#[test]
fn path_agrees_with_the_standard_join() {
    let dirs = ["/data/dump", "/data/dump/", "dump", "", "/", "a/b/c", "./x"];
    let names = ["a.jpg", "abc_20240131130559_30.jpg", "/rooted.jpg", ""];
    for dir in dirs {
        for name in names {
            let joined = std::path::PathBuf::from(dir).join(name);
            assert_eq!(artifact_path(dir, name), joined.to_str().unwrap());
        }
    }
}
