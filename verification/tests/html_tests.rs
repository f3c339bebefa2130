use room_state::html::{get_html_message, html_message, plain_body, render_html, strip_tags};

#[test]
fn renders_paragraph_with_entity() {
    let (plain, formatted) = render_html("<p>Hi &amp; bye</p>".to_string());
    assert_eq!(formatted, "<p>Hi &amp; bye</p>");
    assert_eq!(plain, "Hi & bye");
}

#[test]
fn html_message_keeps_markup() {
    let m = get_html_message("m.text".to_string(), "<b>bold</b> &lt;3".to_string());
    assert_eq!(m.message_type, "m.text");
    assert_eq!(m.body, "bold <3");
    assert_eq!(m.formatted_body, "<b>bold</b> &lt;3");
    assert_eq!(m.format, "org.matrix.custom.html");
}

#[test]
fn text_without_markup_is_unchanged() {
    let (plain, formatted) = render_html("just text".to_string());
    assert_eq!(plain, "just text");
    assert_eq!(formatted, "just text");
}

#[test]
fn empty_markup_gives_empty_bodies() {
    let (plain, formatted) = render_html(String::new());
    assert_eq!(plain, "");
    assert_eq!(formatted, "");
}

#[test]
fn only_tags_leave_nothing() {
    let (plain, _) = render_html("<br/><hr>".to_string());
    assert_eq!(plain, "");
}

#[test]
fn tag_like_spans_are_taken_out() {
    assert_eq!(render_html("a < b > c".to_string()).0, "a  c");
    assert_eq!(render_html("<<b>x".to_string()).0, "<x");
    assert_eq!(render_html("<>".to_string()).0, "<>");
    assert_eq!(render_html("open <p".to_string()).0, "open <p");
    assert_eq!(render_html("1 > 0".to_string()).0, "1 > 0");
}

#[test]
fn strip_then_decode() {
    assert_eq!(strip_tags("<i>&lt;b&gt;</i>"), Some("&lt;b&gt;".to_string()));
    assert_eq!(render_html("<i>&lt;b&gt;</i>".to_string()).0, "<b>");
    assert_eq!(plain_body(Some("&#65;&amp;&quot;".to_string())), "A&\"");
    assert_eq!(plain_body(None), "");
}

#[test]
fn message_from_parts() {
    let m = html_message("m.notice".to_string(), "plain".to_string(), "<b>plain</b>".to_string());
    assert_eq!(m.message_type, "m.notice");
    assert_eq!(m.body, "plain");
    assert_eq!(m.formatted_body, "<b>plain</b>");
    assert_eq!(m.format, "org.matrix.custom.html");
}
