use exa_search::status::{append_status_line, append_status_text};

#[test]
fn status_text_with_given_phrase() {
    let mut out = "(".to_string();
    append_status_text(&mut out, 404, Some("Gone Fishing"));
    assert_eq!(out, "(404 Gone Fishing");

    let mut unknown = String::new();
    append_status_text(&mut unknown, 100, None);
    assert_eq!(unknown, "100 <unknown status code>");

    let mut top = String::new();
    append_status_text(&mut top, 999, Some(""));
    assert_eq!(top, "999 ");
}

#[test]
fn status_line_uses_canonical_phrase() {
    let mut out = String::new();
    append_status_line(&mut out, 500);
    assert_eq!(out, "500 Internal Server Error");

    let mut teapot = String::new();
    append_status_line(&mut teapot, 418);
    assert_eq!(teapot, "418 I'm a teapot");
}
