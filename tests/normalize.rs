use httpd2::normalize;
use httpd2::normalize::{hex_digit, sanitize_path};

#[test]
fn sanitize() {
    assert_eq!(sanitize_path(""), "./");
    assert_eq!(sanitize_path("///"), "./");
    assert_eq!(sanitize_path("."), "./:");
    assert_eq!(sanitize_path("/."), "./:");
    assert_eq!(sanitize_path(".."), "./:.");
    assert_eq!(sanitize_path("\0"), "./_");
    assert_eq!(sanitize_path("/\0"), "./_");

    assert_eq!(sanitize_path("//.././doc.pdf\0/"), "./:./:/doc.pdf_/");
}

#[test]
fn percent_decode() {
    assert_eq!(sanitize_path(""), "./");
    assert_eq!(sanitize_path("%"), "./%");
    assert_eq!(sanitize_path("%4"), "./%4");
    assert_eq!(sanitize_path("%41"), "./A");
    assert_eq!(sanitize_path("%4a"), "./J");
    assert_eq!(sanitize_path("%4A"), "./J");
    assert_eq!(sanitize_path("%4g"), "./%4g");
    assert_eq!(sanitize_path("%2525"), "./%25");
}

#[test]
fn percent_and_sanitize() {
    assert_eq!(sanitize_path("%2f"), "./");
    assert_eq!(sanitize_path("%2f%2F"), "./");
    assert_eq!(sanitize_path("%2f%2e%2e"), "./:.");
    assert_eq!(sanitize_path("%2f%2e%2e%00"), "./:._");
}

fn chars(s: &str) -> Vec<char> {
    s.chars().collect()
}

#[test]
fn single_decoding_pass() {
    assert_eq!(sanitize_path("%2525"), "./%25");
    assert_ne!(sanitize_path("%2525"), "./%");
}

#[test]
fn malformed_escape_is_not_reexamined() {
    assert_eq!(normalize::percent_decode(&chars("%%41")), chars("%%41"));
    assert_eq!(normalize::percent_decode(&chars("%4%41")), chars("%4%41"));
    assert_eq!(normalize::percent_decode(&chars("a%41b")), chars("aAb"));
    assert_eq!(normalize::percent_decode(&chars("%ff")), vec!['\u{ff}']);
}

#[test]
fn hex_digits() {
    assert_eq!(hex_digit('0'), Some(0));
    assert_eq!(hex_digit('9'), Some(9));
    assert_eq!(hex_digit('a'), Some(10));
    assert_eq!(hex_digit('F'), Some(15));
    assert_eq!(hex_digit('g'), None);
    assert_eq!(hex_digit('/'), None);
}

#[test]
fn sanitize_stage_alone() {
    assert_eq!(normalize::sanitize(&chars("")), chars("./"));
    assert_eq!(normalize::sanitize(&chars("a//.b/../c")), chars("./a/:b/:./c"));
}

#[test]
fn only_nuls_become_underscores() {
    assert_eq!(sanitize_path("\0\0\0"), "./___");
    assert_eq!(sanitize_path("%00%00"), "./__");
}

#[test]
fn output_shape_on_hostile_input() {
    let out = sanitize_path("/../..//./.hidden/%2e%2e/%00x//");
    assert!(out.starts_with("./"));
    assert!(!out.contains('\0'));
    assert!(!out.contains("//"));
    assert!(!out[1..].contains("/."));
    assert_eq!(out, "./:./:./:/:hidden/:./_x/");
}

#[test]
fn escape_equals_substitution() {
    assert_eq!(sanitize_path("a%2fb"), sanitize_path("a/b"));
    assert_eq!(sanitize_path("x%2e%2e"), sanitize_path("x.."));
    assert_eq!(sanitize_path("%2e"), "./:");
}

#[test]
fn normal_form_is_fixed() {
    for o in ["./", "./a/b.html", "./:./x_y/", "./%g1/%", "./a%4"] {
        assert_eq!(sanitize_path(&o[2..]), o);
    }
    assert_eq!(sanitize_path("../../etc/passwd"), "./:./:./etc/passwd");
}
