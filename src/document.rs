use vstd::prelude::*;

verus! {

/// The abstract value of a snapshot: its characters and its language tag.
pub struct DocumentModel {
    pub text: Seq<char>,
    pub language: Option<Seq<char>>,
}

/// Represents a document persisted in database storage.
#[derive(Debug)]
pub struct PersistedDocument {
    /// Text content of the document.
    pub text: String,
    /// Language of the document for editor syntax highlighting.
    pub language: Option<String>,
}

pub open spec fn language_view(language: Option<String>) -> Option<Seq<char>> {
    match language {
        Some(l) => Some(l@),
        None => None,
    }
}

impl View for PersistedDocument {
    type V = DocumentModel;

    open spec fn view(&self) -> DocumentModel {
        DocumentModel { text: self.text@, language: language_view(self.language) }
    }
}

fn copy_language(language: &Option<String>) -> (r: Option<String>)
    ensures
        language_view(r) == language_view(*language),
{
    match language {
        Some(l) => Some(l.clone()),
        None => None,
    }
}

impl PersistedDocument {
    /// A snapshot with the given text and language tag.
    pub fn new(text: String, language: Option<String>) -> (r: PersistedDocument)
        ensures
            r@.text == text@,
            r@.language == language_view(language),
    {
        PersistedDocument { text, language }
    }

    /// A copy with the same text and language tag.
    pub fn duplicate(&self) -> (r: PersistedDocument)
        ensures
            r@ == self@,
    {
        PersistedDocument { text: self.text.clone(), language: copy_language(&self.language) }
    }
}

impl Clone for PersistedDocument {
    fn clone(&self) -> (r: PersistedDocument)
        ensures
            r@ == self@,
    {
        self.duplicate()
    }
}

impl PartialEq for PersistedDocument {
    fn eq(&self, other: &PersistedDocument) -> (r: bool) {
        let same_language = match (&self.language, &other.language) {
            (Some(a), Some(b)) => a.eq(b),
            (None, None) => true,
            _ => false,
        };
        let same_text = self.text.eq(&other.text);
        same_language && same_text
    }
}

impl vstd::std_specs::cmp::PartialEqSpecImpl for PersistedDocument {
    open spec fn obeys_eq_spec() -> bool {
        true
    }

    open spec fn eq_spec(&self, other: &PersistedDocument) -> bool {
        self@ == other@
    }
}

impl Eq for PersistedDocument {
}

} // verus!
