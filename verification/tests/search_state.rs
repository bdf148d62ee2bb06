use mango_tango::adapters::youtube::YtSearchResult;
use mango_tango::helpers::search_state::SearchState;

fn hit(t: &str) -> YtSearchResult {
    YtSearchResult { title: t.to_string(), url: format!("https://youtu.be/{t}"), duration: Some(1) }
}

#[test]
fn store_then_get() {
    let mut s = SearchState::new();
    assert!(s.get_results(1, 2).is_none());
    s.store_results(1, 2, vec![hit("a"), hit("b")]);
    let got = s.get_results(1, 2).unwrap();
    assert_eq!(got.len(), 2);
    assert_eq!(got[1].title, "b");
    assert!(s.get_results(2, 1).is_none());
    assert!(s.get_results(1, 3).is_none());
    s.store_results(1, 3, vec![hit("c")]);
    s.store_results(1, 2, vec![]);
    assert_eq!(s.get_results(1, 2).unwrap().len(), 0);
    assert_eq!(s.get_results(1, 3).unwrap()[0].url, "https://youtu.be/c");
}
