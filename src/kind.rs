use vstd::prelude::*;

verus! {

/// The two kinds of content a site holds. Each kind decides, in one place,
/// the directory it is stored in, the template that renders it and the
/// taxonomy its front matter carries.
#[derive(Clone, Copy, Debug, PartialEq, Eq, Structural)]
pub enum ContentType {
    Note,
    Post,
}

/// Directory under `content/` that holds files of kind `k`.
pub open spec fn subdir_of(k: ContentType) -> Seq<char> {
    match k {
        ContentType::Note => "notes"@,
        ContentType::Post => "posts"@,
    }
}

/// Template name (without `.html`) that renders files of kind `k`.
pub open spec fn template_of(k: ContentType) -> Seq<char> {
    match k {
        ContentType::Note => "note"@,
        ContentType::Post => "post"@,
    }
}

/// The taxonomy entry written in the front matter of kind `k`.
pub open spec fn taxonomy_of(k: ContentType) -> Seq<char> {
    match k {
        ContentType::Note => "tags: []"@,
        ContentType::Post => "categories: []"@,
    }
}

impl ContentType {
    /// The kind chosen at position `i` of the list `["Note", "Post"]`.
    pub fn from_index(i: usize) -> (r: Option<ContentType>)
        ensures
            i == 0 ==> r == Some(ContentType::Note),
            i == 1 ==> r == Some(ContentType::Post),
            i > 1 ==> r is None,
    {
        if i == 0 {
            Some(ContentType::Note)
        } else if i == 1 {
            Some(ContentType::Post)
        } else {
            None
        }
    }

    pub fn subdir(&self) -> (r: &'static str)
        ensures
            r@ == subdir_of(*self),
    {
        match self {
            ContentType::Note => "notes",
            ContentType::Post => "posts",
        }
    }

    pub fn template(&self) -> (r: &'static str)
        ensures
            r@ == template_of(*self),
    {
        match self {
            ContentType::Note => "note",
            ContentType::Post => "post",
        }
    }

    pub fn taxonomy(&self) -> (r: &'static str)
        ensures
            r@ == taxonomy_of(*self),
    {
        match self {
            ContentType::Note => "tags: []",
            ContentType::Post => "categories: []",
        }
    }
}

} // verus!
