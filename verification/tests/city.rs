use adsb_deku::city::City;

fn fields(s: &str) -> Option<(String, String, String)> {
    City::from_str(s).map(|c| (c.name, c.lat, c.long))
}

fn three(a: &str, b: &str, c: &str) -> Option<(String, String, String)> {
    Some((a.to_string(), b.to_string(), c.to_string()))
}

#[test]
fn city_with_and_without_brackets() {
    assert_eq!(fields("(Paris,48.85,2.35)"), three("Paris", "48.85", "2.35"));
    assert_eq!(fields("Paris,48.85,2.35"), three("Paris", "48.85", "2.35"));
    assert_eq!(fields("((Paris,48.85,2.35))"), three("Paris", "48.85", "2.35"));
    assert_eq!(fields(")(Paris,48.85,2.35"), three("Paris", "48.85", "2.35"));
    assert_eq!(fields("(Z\u{fc}rich,47.37,-8.54)"), three("Z\u{fc}rich", "47.37", "-8.54"));
    assert_eq!(fields("(New York, 40.7 ,-74)"), three("New York", " 40.7 ", "-74"));
}

#[test]
fn city_brackets_inside_stay() {
    assert_eq!(fields("(a(b),1,2)"), three("a(b)", "1", "2"));
    assert_eq!(fields("a,(1),2"), three("a", "(1)", "2"));
}

#[test]
fn city_needs_two_commas() {
    assert_eq!(fields(""), None);
    assert_eq!(fields("()"), None);
    assert_eq!(fields("Paris"), None);
    assert_eq!(fields("Paris,48.85"), None);
    assert_eq!(fields("(Paris,48.85)"), None);
    assert_eq!(fields(",,"), three("", "", ""));
    assert_eq!(fields("(,,)"), three("", "", ""));
    assert_eq!(fields("a,b,"), three("a", "b", ""));
    assert_eq!(fields(",b,c"), three("", "b", "c"));
}

#[test]
fn city_reads_three_fields_and_no_more() {
    assert_eq!(fields("a,b,c,d"), three("a", "b", "c"));
    assert_eq!(fields("(a,b,c,d,e)"), three("a", "b", "c"));
    assert_eq!(fields("a,b,c,"), three("a", "b", "c"));
}

#[test]
fn city_fields_are_what_splitting_gives() {
    for s in ["(Paris,48.85,2.35)", "a,b,c,d", ",,", "((x,,y", "q,w,e)))", "(((", "a,b", "(,)", "1,2,3"] {
        let trimmed = s.trim_matches(|p| p == '(' || p == ')');
        let parts: Vec<&str> = trimmed.split(',').collect();
        let expected = if parts.len() >= 3 { three(parts[0], parts[1], parts[2]) } else { None };
        assert_eq!(fields(s), expected);
    }
}
