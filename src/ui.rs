use vstd::prelude::*;
use crate::error::ErrorKind;
use crate::language::{all_languages, all_languages_spec, Language};
use crate::outcome::{combine_output, combined_spec, ExecutionOutcome};

verus! {

/// What the playground page shows: the submitted language and code, the
/// output text and status of the last run, and the choices it offers.
pub struct UiTemplate {
    pub language: String,
    pub code: String,
    pub output: String,
    pub status: Option<i32>,
    /// Pairs of language identifier and display name.
    pub languages: Vec<(String, String)>,
    /// Pairs of language identifier and starter program.
    pub examples: Vec<(String, String)>,
}

pub open spec fn example_spec(l: Language) -> Seq<char> {
    match l {
        Language::Python => "print('Hello, World!')"@,
        Language::JavaScript => "console.log('Hello, World!');"@,
        Language::Java => "public class Main {\n  public static void main(String[] args) {\n    System.out.println(\"Hello, World!\");\n  }\n}"@,
        Language::Cpp => "#include <iostream>\nint main() {\n  std::cout << \"Hello, World!\" << std::endl;\n  return 0;\n}"@,
    }
}

/// A program that prints `Hello, World!` in `l`.
pub fn example_source(l: Language) -> (r: String)
    ensures
        r@ == example_spec(l),
{
    match l {
        Language::Python => "print('Hello, World!')".to_string(),
        Language::JavaScript => "console.log('Hello, World!');".to_string(),
        Language::Java => "public class Main {\n  public static void main(String[] args) {\n    System.out.println(\"Hello, World!\");\n  }\n}".to_string(),
        Language::Cpp => "#include <iostream>\nint main() {\n  std::cout << \"Hello, World!\" << std::endl;\n  return 0;\n}".to_string(),
    }
}

/// For each supported language, its identifier paired with its display name.
pub fn language_choices() -> (r: Vec<(String, String)>)
    ensures
        r@.len() == 4,
        forall|i: int| 0 <= i < 4 ==> {
            let l = #[trigger] all_languages_spec()[i];
            r@[i].0@ == l.id_spec() && r@[i].1@ == l.display_name_spec()
        },
{
    let langs = all_languages();
    let mut r: Vec<(String, String)> = Vec::new();
    let mut i: usize = 0;
    while i < 4
        invariant
            i <= 4,
            langs@ == all_languages_spec(),
            r@.len() == i,
            forall|k: int| 0 <= k < i ==> {
                let l = #[trigger] all_languages_spec()[k];
                r@[k].0@ == l.id_spec() && r@[k].1@ == l.display_name_spec()
            },
        decreases 4 - i,
    {
        let l = langs[i];
        r.push((l.id(), l.display_name()));
        i = i + 1;
    }
    r
}

/// For each supported language, its identifier paired with its starter program.
pub fn examples() -> (r: Vec<(String, String)>)
    ensures
        r@.len() == 4,
        forall|i: int| 0 <= i < 4 ==> {
            let l = #[trigger] all_languages_spec()[i];
            r@[i].0@ == l.id_spec() && r@[i].1@ == example_spec(l)
        },
{
    let langs = all_languages();
    let mut r: Vec<(String, String)> = Vec::new();
    let mut i: usize = 0;
    while i < 4
        invariant
            i <= 4,
            langs@ == all_languages_spec(),
            r@.len() == i,
            forall|k: int| 0 <= k < i ==> {
                let l = #[trigger] all_languages_spec()[k];
                r@[k].0@ == l.id_spec() && r@[k].1@ == example_spec(l)
            },
        decreases 4 - i,
    {
        let l = langs[i];
        r.push((l.id(), example_source(l)));
        i = i + 1;
    }
    r
}

pub open spec fn page_output_spec(o: ExecutionOutcome) -> Seq<char> {
    match o.error_kind {
        Some(ErrorKind::UnsupportedLanguage) => "Unsupported language"@,
        Some(ErrorKind::WorkspaceIo) => o.stderr@,
        Some(ErrorKind::Infrastructure) => "Execution failed: "@ + o.stderr@,
        Some(ErrorKind::TimedOut) => "Execution timed out"@,
        _ => combined_spec(o.stdout@, o.stderr@),
    }
}

pub open spec fn page_status_spec(o: ExecutionOutcome) -> Option<i32> {
    match o.error_kind {
        Some(ErrorKind::UnsupportedLanguage) => Some(400i32),
        Some(ErrorKind::WorkspaceIo) => Some(500i32),
        Some(ErrorKind::Infrastructure) => Some(500i32),
        Some(ErrorKind::TimedOut) => Some(408i32),
        _ => o.exit_status,
    }
}

impl UiTemplate {
    /// The page as first shown: Python selected, with its starter program.
    pub fn initial() -> (r: UiTemplate)
        ensures
            r.language@ == "python"@,
            r.code@ == example_spec(Language::Python),
            r.output@.len() == 0,
            r.status is None,
            r.languages@.len() == 4,
            r.examples@.len() == 4,
            forall|i: int| 0 <= i < 4 ==> {
                let l = #[trigger] all_languages_spec()[i];
                &&& r.languages@[i].0@ == l.id_spec()
                &&& r.languages@[i].1@ == l.display_name_spec()
                &&& r.examples@[i].0@ == l.id_spec()
                &&& r.examples@[i].1@ == example_spec(l)
            },
    {
        UiTemplate {
            language: "python".to_string(),
            code: example_source(Language::Python),
            output: String::new(),
            status: None,
            languages: language_choices(),
            examples: examples(),
        }
    }

    /// The page after a run: the submission as it was typed, and the outcome
    /// as text with its status. An error is shown by its message with the
    /// HTTP status of its kind; a finished run (or a compile error) by its
    /// labelled output streams and exit status.
    pub fn after_run(language: &str, code: &str, o: &ExecutionOutcome) -> (r: UiTemplate)
        ensures
            r.language@ == language@,
            r.code@ == code@,
            r.output@ == page_output_spec(*o),
            r.status == page_status_spec(*o),
            r.languages@.len() == 4,
            r.examples@.len() == 4,
            forall|i: int| 0 <= i < 4 ==> {
                let l = #[trigger] all_languages_spec()[i];
                &&& r.languages@[i].0@ == l.id_spec()
                &&& r.languages@[i].1@ == l.display_name_spec()
                &&& r.examples@[i].0@ == l.id_spec()
                &&& r.examples@[i].1@ == example_spec(l)
            },
    {
        let (output, status) = match o.error_kind {
            Some(ErrorKind::UnsupportedLanguage) => ("Unsupported language".to_string(), Some(400i32)),
            Some(ErrorKind::WorkspaceIo) => (o.stderr.clone(), Some(500i32)),
            Some(ErrorKind::Infrastructure) => {
                let mut t = "Execution failed: ".to_string();
                t.append(o.stderr.as_str());
                (t, Some(500i32))
            },
            Some(ErrorKind::TimedOut) => ("Execution timed out".to_string(), Some(408i32)),
            _ => (combine_output(o.stdout.as_str(), o.stderr.as_str()), o.exit_status),
        };
        UiTemplate {
            language: language.to_string(),
            code: code.to_string(),
            output,
            status,
            languages: language_choices(),
            examples: examples(),
        }
    }
}

} // verus!
