use anime_cli::client::build_search_url;

const ENDPOINT: &str = "https://kitsu.io/api/edge/anime?filter[text]=";

/// Undoes percent-encoding the way a URL parser would, so the tests can
/// check the round trip on the query parameter.
fn percent_decode(s: &str) -> Vec<u8> {
    let chars: Vec<char> = s.chars().collect();
    let mut out: Vec<u8> = Vec::new();
    let mut i = 0;
    while i < chars.len() {
        if chars[i] == '%' && i + 2 < chars.len() {
            let hi = chars[i + 1].to_digit(16).unwrap();
            let lo = chars[i + 2].to_digit(16).unwrap();
            out.push((hi * 16 + lo) as u8);
            i += 3;
        } else {
            out.push(chars[i] as u8);
            i += 1;
        }
    }
    out
}

#[test]
fn plain_query_is_kept_verbatim() {
    let url = build_search_url("naruto");
    assert_eq!(url, format!("{}naruto", ENDPOINT));
}

#[test]
fn unreserved_characters_are_not_escaped() {
    let url = build_search_url("AZaz09-_.~");
    assert_eq!(url, format!("{}AZaz09-_.~", ENDPOINT));
}

#[test]
fn space_is_percent_encoded() {
    let url = build_search_url("cowboy bebop");
    assert_eq!(url, format!("{}cowboy%20bebop", ENDPOINT));
}

#[test]
fn url_metacharacters_are_percent_encoded() {
    let url = build_search_url("a&b=c?d#e");
    assert_eq!(url, format!("{}a%26b%3Dc%3Fd%23e", ENDPOINT));
}

#[test]
fn multibyte_text_is_encoded_as_utf8_bytes() {
    let url = build_search_url("アニメ");
    assert_eq!(url, format!("{}%E3%82%A2%E3%83%8B%E3%83%A1", ENDPOINT));
}

#[test]
fn query_round_trips_through_a_url_parser() {
    for q in ["cowboy bebop", "a&b=c", "100% anime?", "アニメ big-O_9.~", ""] {
        let url = build_search_url(q);
        let param = &url[ENDPOINT.len()..];
        let decoded = percent_decode(param);
        assert_eq!(String::from_utf8(decoded).unwrap(), q);
    }
}
