use vstd::prelude::*;
use crate::error::ErrorKind;

verus! {

/// The closed set of supported languages.
#[derive(Clone, Copy, Debug, PartialEq, Eq, Structural)]
pub enum Language {
    Python,
    JavaScript,
    Java,
    Cpp,
}

/// What `str::to_lowercase` returns for a string.
pub uninterp spec fn lower_of(s: Seq<char>) -> Seq<char>;

/// The code of the lowercase form of an ASCII character of code `c`.
pub open spec fn ascii_lower_code(c: u32) -> u32 {
    if 65 <= c <= 90 { (c + 32) as u32 } else { c }
}

/// Every character of `s` is ASCII.
pub open spec fn all_ascii(s: Seq<char>) -> bool {
    forall|i: int| 0 <= i < s.len() ==> (#[trigger] s[i] as u32) < 128
}

/// Relies on `str::to_lowercase`: the lowercase mapping of every character,
/// which depends on the characters alone; on ASCII text it maps `A`..`Z` to
/// `a`..`z` one for one and keeps every other character.
#[verifier::external_body]
fn lowercase(s: &str) -> (r: String)
    ensures
        r@ == lower_of(s@),
        all_ascii(s@) ==> r@.len() == s@.len() && forall|i: int| 0 <= i < s@.len() ==> (#[trigger] r@[i] as u32)
            == ascii_lower_code(s@[i] as u32),
{
    s.to_lowercase()
}

/// The language whose canonical (lowercase) identifier is `id`, if any.
pub open spec fn language_of(id: Seq<char>) -> Option<Language> {
    if id == "python"@ {
        Some(Language::Python)
    } else if id == "javascript"@ {
        Some(Language::JavaScript)
    } else if id == "java"@ {
        Some(Language::Java)
    } else if id == "cpp"@ {
        Some(Language::Cpp)
    } else {
        None
    }
}

/// Outcome of resolving an identifier that was already case-folded.
pub open spec fn resolve_spec(folded: Seq<char>) -> Result<Language, ErrorKind> {
    match language_of(folded) {
        Some(l) => Ok(l),
        None => Err(ErrorKind::UnsupportedLanguage),
    }
}

impl Language {
    pub open spec fn id_spec(self) -> Seq<char> {
        match self {
            Language::Python => "python"@,
            Language::JavaScript => "javascript"@,
            Language::Java => "java"@,
            Language::Cpp => "cpp"@,
        }
    }

    pub open spec fn extension_spec(self) -> Seq<char> {
        match self {
            Language::Python => "py"@,
            Language::JavaScript => "js"@,
            Language::Java => "java"@,
            Language::Cpp => "cpp"@,
        }
    }

    pub open spec fn display_name_spec(self) -> Seq<char> {
        match self {
            Language::Python => "Python"@,
            Language::JavaScript => "JavaScript"@,
            Language::Java => "Java"@,
            Language::Cpp => "C++"@,
        }
    }

    pub open spec fn index_spec(self) -> nat {
        match self {
            Language::Python => 0,
            Language::JavaScript => 1,
            Language::Java => 2,
            Language::Cpp => 3,
        }
    }

    /// Canonical identifier, as accepted by the registry.
    pub fn id(&self) -> (r: String)
        ensures
            r@ == self.id_spec(),
    {
        match self {
            Language::Python => "python".to_string(),
            Language::JavaScript => "javascript".to_string(),
            Language::Java => "java".to_string(),
            Language::Cpp => "cpp".to_string(),
        }
    }

    /// File extension of a source file in this language.
    pub fn extension(&self) -> (r: String)
        ensures
            r@ == self.extension_spec(),
    {
        match self {
            Language::Python => "py".to_string(),
            Language::JavaScript => "js".to_string(),
            Language::Java => "java".to_string(),
            Language::Cpp => "cpp".to_string(),
        }
    }

    /// Human-readable name.
    pub fn display_name(&self) -> (r: String)
        ensures
            r@ == self.display_name_spec(),
    {
        match self {
            Language::Python => "Python".to_string(),
            Language::JavaScript => "JavaScript".to_string(),
            Language::Java => "Java".to_string(),
            Language::Cpp => "C++".to_string(),
        }
    }

    /// Position of the language in `all_languages`.
    pub fn index(&self) -> (r: usize)
        ensures
            r as nat == self.index_spec(),
            r < 4,
    {
        match self {
            Language::Python => 0,
            Language::JavaScript => 1,
            Language::Java => 2,
            Language::Cpp => 3,
        }
    }
}

pub open spec fn all_languages_spec() -> Seq<Language> {
    seq![Language::Python, Language::JavaScript, Language::Java, Language::Cpp]
}

/// Every supported language, in registry order.
pub fn all_languages() -> (r: Vec<Language>)
    ensures
        r@ == all_languages_spec(),
{
    let r = vec![Language::Python, Language::JavaScript, Language::Java, Language::Cpp];
    assert(r@ =~= all_languages_spec());
    r
}

/// Looks up an identifier that is already in lowercase.
pub fn resolve_folded(folded: &str) -> (r: Result<Language, ErrorKind>)
    ensures
        r == resolve_spec(folded@),
{
    let s = folded.to_string();
    if s == "python".to_string() {
        Ok(Language::Python)
    } else if s == "javascript".to_string() {
        Ok(Language::JavaScript)
    } else if s == "java".to_string() {
        Ok(Language::Java)
    } else if s == "cpp".to_string() {
        Ok(Language::Cpp)
    } else {
        Err(ErrorKind::UnsupportedLanguage)
    }
}

/// Case-insensitive registry lookup: the identifier is folded to lowercase
/// and matched against the canonical identifiers.
pub fn resolve(id: &str) -> (r: Result<Language, ErrorKind>)
    ensures
        r == resolve_spec(lower_of(id@)),
{
    let folded = lowercase(id);
    resolve_folded(folded.as_str())
}

} // verus!
