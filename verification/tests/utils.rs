use bilidl::bilibili::utils::{decimal_string, extract_title, get_user_agent, TITLE_PATTERN};

#[test]
fn title_between_the_first_pair_of_quotes() {
    assert_eq!(extract_title("music: 《Blue Bird》 cover"), Some("Blue Bird".to_string()));
    assert_eq!(extract_title("《a》《b》"), Some("a".to_string()));
    assert_eq!(extract_title("《》《b》"), Some("b".to_string()));
    assert_eq!(extract_title("《《nested》"), Some("《nested".to_string()));
    assert_eq!(extract_title("plain"), None);
    assert_eq!(extract_title("《open only"), None);
    assert_eq!(extract_title(""), None);
    assert_eq!(TITLE_PATTERN, "《([^》]+)》");
}

#[test]
fn user_agent_has_browser_shape() {
    for _ in 0..20 {
        let ua = get_user_agent();
        assert!(ua.contains(" AppleWebKit/"));
        assert!(ua.contains(" (KHTML, like Gecko) "));
    }
}

#[test]
fn decimal_matches_to_string() {
    for n in [0i64, 7, 10, 279786, -1, -90, i64::MAX, i64::MIN] {
        assert_eq!(decimal_string(n), n.to_string());
    }
}
