use vstd::prelude::*;
use crate::content::{
    contains, content_document, content_path, date_line, document_of, template_field,
    title_field, Content,
};
use crate::kind::{taxonomy_of, ContentType};
use crate::timestamp::rfc3339_of;

verus! {

proof fn lemma_contains_suffix(a: Seq<char>, b: Seq<char>)
    ensures
        contains(a + b, b),
{
    assert((a + b).subrange(a.len() as int, (a.len() + b.len()) as int) =~= b);
}

proof fn lemma_contains_extend(a: Seq<char>, w: Seq<char>, y: Seq<char>)
    requires
        contains(a, y),
    ensures
        contains(a + w, y),
{
    let i = choose|i: int| 0 <= i && i + y.len() <= a.len() && #[trigger] a.subrange(i, i + y.len()) == y;
    assert((a + w).subrange(i, i + y.len()) =~= a.subrange(i, i + y.len()));
}

/// Every path lies in the directory of its kind: `content/notes/` for a
/// note, `content/posts/` for a post, whatever the title.
pub proof fn lemma_path_in_kind_dir(c: Content)
    ensures
        c.content_type == ContentType::Note ==> "content/notes/"@.is_prefix_of(content_path(c)),
        c.content_type == ContentType::Post ==> "content/posts/"@.is_prefix_of(content_path(c)),
{
    reveal_strlit("content/");
    reveal_strlit("notes");
    reveal_strlit("posts");
    reveal_strlit("/");
    reveal_strlit("content/notes/");
    reveal_strlit("content/posts/");
    let p = content_path(c);
    if c.content_type == ContentType::Note {
        assert(p.subrange(0, 14) =~= "content/notes/"@);
    } else {
        assert(p.subrange(0, 14) =~= "content/posts/"@);
    }
}

/// The part of the front matter that comes before the date line.
spec fn head_of(t: Seq<char>) -> Seq<char> {
    "---\n"@ + title_field(t) + "\ndescription: \"\""@
}

proof fn lemma_document_shape(k: ContentType, t: Seq<char>, d: Seq<char>)
    ensures
        document_of(k, t, d) == head_of(t) + date_line(d) + template_field(k)
            + "\ndraft: true\ntaxonomies:\n  "@ + taxonomy_of(k) + "\n---\n"@,
{
}

proof fn lemma_has_title(k: ContentType, t: Seq<char>, d: Seq<char>)
    ensures
        contains(document_of(k, t, d), title_field(t)),
{
    let s0 = "---\n"@ + title_field(t);
    lemma_contains_suffix("---\n"@, title_field(t));
    lemma_contains_extend(s0, "\ndescription: \"\""@, title_field(t));
    lemma_contains_extend(head_of(t), date_line(d), title_field(t));
    let s2 = head_of(t) + date_line(d);
    lemma_contains_extend(s2, template_field(k), title_field(t));
    let s3 = s2 + template_field(k);
    lemma_contains_extend(s3, "\ndraft: true\ntaxonomies:\n  "@, title_field(t));
    let s4 = s3 + "\ndraft: true\ntaxonomies:\n  "@;
    lemma_contains_extend(s4, taxonomy_of(k), title_field(t));
    let s5 = s4 + taxonomy_of(k);
    lemma_contains_extend(s5, "\n---\n"@, title_field(t));
    lemma_document_shape(k, t, d);
}

proof fn lemma_has_date(k: ContentType, t: Seq<char>, d: Seq<char>)
    ensures
        contains(document_of(k, t, d), date_line(d)),
{
    lemma_contains_suffix(head_of(t), date_line(d));
    let s2 = head_of(t) + date_line(d);
    lemma_contains_extend(s2, template_field(k), date_line(d));
    let s3 = s2 + template_field(k);
    lemma_contains_extend(s3, "\ndraft: true\ntaxonomies:\n  "@, date_line(d));
    let s4 = s3 + "\ndraft: true\ntaxonomies:\n  "@;
    lemma_contains_extend(s4, taxonomy_of(k), date_line(d));
    let s5 = s4 + taxonomy_of(k);
    lemma_contains_extend(s5, "\n---\n"@, date_line(d));
    lemma_document_shape(k, t, d);
}

proof fn lemma_has_template(k: ContentType, t: Seq<char>, d: Seq<char>)
    ensures
        contains(document_of(k, t, d), template_field(k)),
{
    let s2 = head_of(t) + date_line(d);
    lemma_contains_suffix(s2, template_field(k));
    let s3 = s2 + template_field(k);
    lemma_contains_extend(s3, "\ndraft: true\ntaxonomies:\n  "@, template_field(k));
    let s4 = s3 + "\ndraft: true\ntaxonomies:\n  "@;
    lemma_contains_extend(s4, taxonomy_of(k), template_field(k));
    let s5 = s4 + taxonomy_of(k);
    lemma_contains_extend(s5, "\n---\n"@, template_field(k));
    lemma_document_shape(k, t, d);
}

proof fn lemma_has_taxonomy(k: ContentType, t: Seq<char>, d: Seq<char>)
    ensures
        contains(document_of(k, t, d), taxonomy_of(k)),
{
    let s4 = head_of(t) + date_line(d) + template_field(k) + "\ndraft: true\ntaxonomies:\n  "@;
    lemma_contains_suffix(s4, taxonomy_of(k));
    let s5 = s4 + taxonomy_of(k);
    lemma_contains_extend(s5, "\n---\n"@, taxonomy_of(k));
    lemma_document_shape(k, t, d);
}

proof fn lemma_template_text(k: ContentType)
    ensures
        k == ContentType::Note ==> template_field(k) == "template: \"note.html\""@,
        k == ContentType::Post ==> template_field(k) == "template: \"post.html\""@,
{
    reveal_strlit("template: \"");
    reveal_strlit(".html\"");
    if k == ContentType::Note {
        reveal_strlit("note");
        reveal_strlit("template: \"note.html\"");
        assert(template_field(k) =~= "template: \"note.html\""@);
    } else {
        reveal_strlit("post");
        reveal_strlit("template: \"post.html\"");
        assert(template_field(k) =~= "template: \"post.html\""@);
    }
}

/// The front matter of every piece of content holds its title verbatim in
/// the title field, a `date: ` line with its creation time in RFC 3339
/// form, the template of its kind and the taxonomy of its kind.
pub proof fn lemma_document_fields(c: Content)
    ensures
        contains(content_document(c), title_field(c.title@)),
        contains(
            content_document(c),
            date_line(rfc3339_of(c.created_at@.0, c.created_at@.1, c.created_at@.2)),
        ),
        c.content_type == ContentType::Note ==> contains(
            content_document(c),
            "template: \"note.html\""@,
        ) && contains(content_document(c), "tags: []"@),
        c.content_type == ContentType::Post ==> contains(
            content_document(c),
            "template: \"post.html\""@,
        ) && contains(content_document(c), "categories: []"@),
{
    let k = c.content_type;
    let t = c.title@;
    let d = rfc3339_of(c.created_at@.0, c.created_at@.1, c.created_at@.2);
    lemma_has_title(k, t, d);
    lemma_has_date(k, t, d);
    lemma_has_template(k, t, d);
    lemma_has_taxonomy(k, t, d);
    lemma_template_text(k);
}

/// Rendering is idempotent: two renderings of the same record are the same
/// text, since the creation time is held by the record.
pub proof fn lemma_contents_idempotent(c: Content, first: Seq<char>, second: Seq<char>)
    requires
        first == content_document(c),
        second == content_document(c),
    ensures
        first == second,
{
}

} // verus!
