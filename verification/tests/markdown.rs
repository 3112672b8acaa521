use gh_inbox::markdown::render_markdown;

/// comrak's GitHub-flavoured rendering of `input`, as the service configures
/// it for bodies without raw HTML.
fn commonmark(input: &str) -> String {
    let mut options = comrak::Options::default();
    options.extension.strikethrough = true;
    options.extension.table = true;
    options.extension.autolink = true;
    options.extension.tasklist = true;
    comrak::markdown_to_html(input, &options)
}

/// Inputs made of raw HTML come with the HTML comrak passes through for them
/// (an HTML block, or inline HTML inside a paragraph).
fn render(input: &str) -> String {
    render_markdown(input, &commonmark(input))
}

#[test]
fn empty_string_returns_empty() {
    assert_eq!(render(""), "");
}

#[test]
fn script_tag_is_stripped() {
    let input = "<script>alert(1)</script>xss";
    let output = render_markdown(input, "<script>alert(1)</script>xss\n");
    assert!(!output.contains("<script>"), "output: {output}");
    assert!(output.contains("xss"), "text content should survive: {output}");
}

#[test]
fn details_summary_pass_through() {
    let input = "<details><summary>click me</summary>hidden content</details>";
    let output = render_markdown(input, "<details><summary>click me</summary>hidden content</details>\n");
    assert!(output.contains("<details>"), "output: {output}");
    assert!(output.contains("<summary>"), "output: {output}");
    assert!(output.contains("hidden content"), "output: {output}");
}

#[test]
fn kbd_passes_through() {
    let input = "Press <kbd>Enter</kbd> to continue.";
    let output = render_markdown(input, "<p>Press <kbd>Enter</kbd> to continue.</p>\n");
    assert!(output.contains("<kbd>"), "output: {output}");
}

#[test]
fn gfm_strikethrough() {
    let output = render("~~deleted~~");
    assert!(output.contains("<del>"), "output: {output}");
}

#[test]
fn gfm_table() {
    let input = "| A | B |\n|---|---|\n| 1 | 2 |";
    let output = render(input);
    assert!(output.contains("<table>"), "output: {output}");
    assert!(output.contains("<th>"), "output: {output}");
}

#[test]
fn gfm_task_list() {
    let input = "- [x] Done\n- [ ] Todo";
    let output = render(input);
    assert!(output.contains(r#"type="checkbox""#), "output: {output}");
    assert!(output.contains("checked"), "output: {output}");
}

#[test]
fn fenced_code_block() {
    let input = "```rust\nfn main() {}\n```";
    let output = render(input);
    assert!(output.contains("<pre>"), "output: {output}");
    assert!(output.contains("<code>"), "output: {output}");
}

#[test]
fn paragraph_wraps_text() {
    let output = render("Hello world");
    assert!(output.contains("<p>"), "output: {output}");
    assert!(output.contains("Hello world"), "output: {output}");
}

#[test]
fn empty_body_renders_nothing_whatever_the_html() {
    assert_eq!(render_markdown("", "<p>ignored</p>"), "");
}

#[test]
fn sanitizer_changes_dangerous_html() {
    let html = "<p onclick=\"x()\">hi</p><img src=\"javascript:alert(1)\">";
    let output = render_markdown("hi", html);
    assert_ne!(output, html);
    assert!(!output.contains("onclick"), "output: {output}");
}
