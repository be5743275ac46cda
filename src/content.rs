use vstd::prelude::*;
use vstd::string::*;
use crate::kind::{ContentType, subdir_of, taxonomy_of, template_of};
use crate::slugs::{is_slug, slug_of, slug_text};
use crate::timestamp::{Timestamp, rfc3339_of};

verus! {

/// `content/<subdir>/<slug>.md`: where a file of kind `k` with slug `slug` goes.
pub open spec fn path_of(k: ContentType, slug: Seq<char>) -> Seq<char> {
    "content/"@ + subdir_of(k) + "/"@ + slug + ".md"@
}

/// The title line of the front matter, title quoted as it stands.
pub open spec fn title_field(title: Seq<char>) -> Seq<char> {
    "title:  \""@ + title + "\""@
}

/// The line that carries the creation date, with the line breaks around it.
pub open spec fn date_line(date: Seq<char>) -> Seq<char> {
    "\ndate: "@ + date + "\n"@
}

/// The line that names the template of kind `k`.
pub open spec fn template_field(k: ContentType) -> Seq<char> {
    "template: \""@ + template_of(k) + ".html\""@
}

/// The whole front matter of a file of kind `k`, title `title`, created at
/// the instant written `date`.
pub open spec fn document_of(k: ContentType, title: Seq<char>, date: Seq<char>) -> Seq<char> {
    "---\n"@ + title_field(title) + "\ndescription: \"\""@ + date_line(date) + template_field(k)
        + "\ndraft: true\ntaxonomies:\n  "@ + taxonomy_of(k) + "\n---\n"@
}

/// `sub` occurs in `s` as a contiguous run.
pub open spec fn contains(s: Seq<char>, sub: Seq<char>) -> bool {
    exists|i: int| 0 <= i && i + sub.len() <= s.len() && #[trigger] s.subrange(i, i + sub.len()) == sub
}

/// The path of a file of kind `kind` whose slug is `slug`.
pub fn path_for(kind: ContentType, slug: &str) -> (r: String)
    ensures
        r@ == path_of(kind, slug@),
{
    let mut s = String::from_str("content/");
    s.append(kind.subdir());
    s.append("/");
    s.append(slug);
    s.append(".md");
    s
}

/// The front matter of a file of kind `kind` titled `title`, created at the
/// instant written `date`.
pub fn render(kind: ContentType, title: &str, date: &str) -> (r: String)
    ensures
        r@ == document_of(kind, title@, date@),
{
    let mut s = String::from_str("---\n");
    s.append("title:  \"");
    s.append(title);
    s.append("\"");
    s.append("\ndescription: \"\"");
    s.append("\ndate: ");
    s.append(date);
    s.append("\n");
    s.append("template: \"");
    s.append(kind.template());
    s.append(".html\"");
    s.append("\ndraft: true\ntaxonomies:\n  ");
    s.append(kind.taxonomy());
    s.append("\n---\n");
    assert(s@ =~= document_of(kind, title@, date@));
    s
}

/// A piece of content about to be written: its kind, its title and the
/// moment it was created.
#[derive(Debug)]
pub struct Content {
    pub content_type: ContentType,
    pub title: String,
    pub created_at: Timestamp,
}

/// The path at which `c` is stored.
pub open spec fn content_path(c: Content) -> Seq<char> {
    path_of(c.content_type, slug_of(c.title@))
}

/// The front matter that `c` is stored with.
pub open spec fn content_document(c: Content) -> Seq<char> {
    document_of(
        c.content_type,
        c.title@,
        rfc3339_of(c.created_at@.0, c.created_at@.1, c.created_at@.2),
    )
}

impl Content {
    /// Content of the given kind and title, created now.
    pub fn new(content_type: ContentType, title: String) -> (r: Content)
        ensures
            r.content_type == content_type,
            r.title@ == title@,
    {
        Content { content_type, title, created_at: Timestamp::now() }
    }

    /// The slug of the title.
    pub fn slugify(&self) -> (r: String)
        ensures
            r@ == slug_of(self.title@),
            is_slug(r@),
            self.title@.len() == 0 ==> r@.len() == 0,
    {
        slug_text(self.title.as_str())
    }

    /// The path, relative to the site's root, at which the content is stored.
    pub fn filename(&self) -> (r: String)
        ensures
            r@ == content_path(*self),
    {
        let slug = self.slugify();
        path_for(self.content_type, slug.as_str())
    }

    /// The front matter of the content, dated with its creation time.
    pub fn contents(&self) -> (r: String)
        ensures
            r@ == content_document(*self),
    {
        let date = self.created_at.to_rfc3339();
        render(self.content_type, self.title.as_str(), date.as_str())
    }
}

} // verus!
