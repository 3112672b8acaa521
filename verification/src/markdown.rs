//! Markdown rendering for pull request and comment bodies: the HTML that
//! comrak renders (GitHub-flavoured, raw HTML passed through) is sanitized
//! here with ammonia, keeping a few extra tags.
use vstd::prelude::*;

verus! {

/// The HTML that ammonia's default sanitizer keeps of `html`, with
/// `extra_tags` also allowed and `attributes` allowed on `attribute_tag`.
pub uninterp spec fn sanitized_html(
    html: Seq<char>,
    extra_tags: Seq<Seq<char>>,
    attribute_tag: Seq<char>,
    attributes: Seq<Seq<char>>,
) -> Seq<char>;

/// Tags whose whole content ammonia's default builder removes; allowing them
/// as tags, or attributes on them, makes `clean` panic.
pub open spec fn is_clean_content_tag(t: Seq<char>) -> bool {
    t == "script"@ || t == "style"@
}

/// `ammonia::Builder::new()` extended with `add_tags(extra_tags)` and
/// `add_tag_attributes(attribute_tag, attributes)`, then `clean(html)`
/// serialized to a string. The contract names the output; it states nothing
/// of what the sanitizer removes. The `requires` leaves out the arguments on
/// which `clean` asserts: a default clean-content tag (`script`, `style`)
/// allowed as a tag or given attributes, and `rel` allowed on `a`, which
/// the default `link_rel` sets.
#[verifier::external_body]
fn sanitize_html(html: &str, extra_tags: &[&str], attribute_tag: &str, attributes: &[&str]) -> (r:
    String)
    requires
        forall|i: int| 0 <= i < extra_tags@.len() ==> !is_clean_content_tag((#[trigger] extra_tags@[i])@),
        !is_clean_content_tag(attribute_tag@),
        attribute_tag@ == "a"@ ==> forall|i: int|
            0 <= i < attributes@.len() ==> (#[trigger] attributes@[i])@ != "rel"@,
    ensures
        r@ == sanitized_html(
            html@,
            extra_tags@.map_values(|t: &str| t@),
            attribute_tag@,
            attributes@.map_values(|t: &str| t@),
        ),
{
    ammonia::Builder::new().add_tags(extra_tags).add_tag_attributes(attribute_tag, attributes).clean(
        html,
    ).to_string()
}

/// Tags allowed beyond ammonia's defaults.
pub open spec fn extra_allowed_tags() -> Seq<Seq<char>> {
    seq!["details"@, "summary"@, "kbd"@, "input"@]
}

/// Attributes allowed on `input` (task-list checkboxes).
pub open spec fn input_attributes() -> Seq<Seq<char>> {
    seq!["type"@, "checked"@, "disabled"@]
}

/// What a body renders to, given the HTML that comrak rendered for it
/// (GitHub-flavoured: strikethrough, tables, autolinks, task lists, raw HTML
/// passed through): nothing for an empty body, else that HTML sanitized.
pub open spec fn rendered_markdown(input: Seq<char>, commonmark_html: Seq<char>) -> Seq<char> {
    if input.len() == 0 {
        Seq::empty()
    } else {
        sanitized_html(commonmark_html, extra_allowed_tags(), "input"@, input_attributes())
    }
}

/// Render a Markdown body to sanitized HTML. `commonmark_html` is comrak's
/// rendering of `input` with the extensions above enabled and raw HTML
/// passed through; the sanitizer then decides what of it survives.
pub fn render_markdown(input: &str, commonmark_html: &str) -> (r: String)
    ensures
        r@ == rendered_markdown(input@, commonmark_html@),
{
    if input.unicode_len() == 0 {
        return String::new();
    }
    let tags: [&str; 4] = ["details", "summary", "kbd", "input"];
    let attrs: [&str; 3] = ["type", "checked", "disabled"];
    proof {
        reveal_strlit("details");
        reveal_strlit("summary");
        reveal_strlit("kbd");
        reveal_strlit("input");
        reveal_strlit("script");
        reveal_strlit("style");
        reveal_strlit("a");
        assert("details"@[0] != "script"@[0] && "details"@[0] != "style"@[0]);
        assert(!is_clean_content_tag("details"@));
        assert("summary"@[1] != "script"@[1] && "summary"@[1] != "style"@[1]);
        assert(!is_clean_content_tag("summary"@));
        assert(!is_clean_content_tag("kbd"@));
        assert(!is_clean_content_tag("input"@));
        assert("input"@[0] != "a"@[0]);
        assert("input"@ != "a"@);
    }
    let r = sanitize_html(commonmark_html, &tags, "input", &attrs);
    assert(tags@.map_values(|t: &str| t@) =~= extra_allowed_tags());
    assert(attrs@.map_values(|t: &str| t@) =~= input_attributes());
    r
}

} // verus!
