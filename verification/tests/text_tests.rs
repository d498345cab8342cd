use larkin_mcp::text::{capitalize, contains_sub, join_lines, split_lines, str_eq, str_starts_with, trim};

fn chars(s: &str) -> Vec<char> {
    s.chars().collect()
}

#[test]
fn str_eq_basic() {
    assert!(str_eq("resume", "resume"));
    assert!(!str_eq("resume", "resumes"));
    assert!(!str_eq("resume", "Resume"));
    assert!(str_eq("", ""));
}

#[test]
fn capitalize_first_letter() {
    assert_eq!(capitalize("resume"), "Resume");
    assert_eq!(capitalize("bio"), "Bio");
    assert_eq!(capitalize(""), "");
    assert_eq!(capitalize("Tennis"), "Tennis");
}

#[test]
fn trim_both_ends() {
    assert_eq!(trim("  hello  "), "hello");
    assert_eq!(trim("\t a b \n"), "a b");
    assert_eq!(trim("none"), "none");
    assert_eq!(trim("   "), "");
    assert_eq!(trim(""), "");
}

#[test]
fn contains_substring() {
    assert!(contains_sub(&chars("hello world"), &chars("lo wo")));
    assert!(contains_sub(&chars("hello"), &chars("")));
    assert!(contains_sub(&chars(""), &chars("")));
    assert!(!contains_sub(&chars("hello"), &chars("world")));
    assert!(!contains_sub(&chars("ab"), &chars("abc")));
}

#[test]
fn starts_with_prefix() {
    assert!(str_starts_with("Error: broken", "Error"));
    assert!(!str_starts_with("error: broken", "Error"));
    assert!(str_starts_with("anything", ""));
    assert!(!str_starts_with("Err", "Error"));
}

#[test]
fn split_lines_newlines() {
    let v: Vec<char> = "a\nb\nc".chars().collect();
    let lines = split_lines(&v);
    let as_strings: Vec<String> = lines.iter().map(|l| l.iter().collect()).collect();
    assert_eq!(as_strings, vec!["a".to_string(), "b".to_string(), "c".to_string()]);
}

#[test]
fn split_lines_trailing_newline_and_crlf() {
    let v: Vec<char> = "a\r\nb\n".chars().collect();
    let lines = split_lines(&v);
    let as_strings: Vec<String> = lines.iter().map(|l| l.iter().collect()).collect();
    assert_eq!(as_strings, vec!["a".to_string(), "b".to_string()]);

    let v2: Vec<char> = "".chars().collect();
    assert_eq!(split_lines(&v2).len(), 0);

    let v3: Vec<char> = "a\n\nb".chars().collect();
    let lines3 = split_lines(&v3);
    let as_strings3: Vec<String> = lines3.iter().map(|l| l.iter().collect()).collect();
    assert_eq!(as_strings3, vec!["a".to_string(), "".to_string(), "b".to_string()]);
}

#[test]
fn join_with_newlines() {
    let items = vec!["x".to_string(), "y".to_string(), "z".to_string()];
    assert_eq!(join_lines(&items), "x\ny\nz");
    let one = vec!["only".to_string()];
    assert_eq!(join_lines(&one), "only");
    let none: Vec<String> = Vec::new();
    assert_eq!(join_lines(&none), "");
}
