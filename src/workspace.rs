use vstd::prelude::*;
use crate::language::Language;

verus! {

/// Number of characters in the hyphenated text form of a UUID.
pub const ID_LEN: usize = 36;

/// A character of a UUID in lowercase hyphenated form.
pub open spec fn is_id_char(c: char) -> bool {
    ('0' <= c && c <= '9') || ('a' <= c && c <= 'f') || c == '-'
}

/// Relies on `uuid::Uuid::new_v4` and the `Display` impl of `Uuid`: a fresh
/// random identifier in lowercase hyphenated form, always 36 characters, each
/// a hex digit `0`..`9`, `a`..`f` or a `-`.
#[verifier::external_body]
fn random_id() -> (r: String)
    ensures
        r@.len() == ID_LEN,
        forall|i: int| 0 <= i < r@.len() ==> is_id_char(#[trigger] r@[i]),
{
    uuid::Uuid::new_v4().to_string()
}

/// The staging area of one execution: a directory of its own named after a
/// unique identifier, the source file inside it and the path a build step may
/// write its artifact to.
pub struct Workspace {
    pub id: String,
    pub extension: String,
    pub dir: String,
    pub source_path: String,
    pub artifact_path: String,
}

pub open spec fn dir_spec(root: Seq<char>, id: Seq<char>) -> Seq<char> {
    root + "/run_"@ + id
}

pub open spec fn source_spec(root: Seq<char>, id: Seq<char>, ext: Seq<char>) -> Seq<char> {
    dir_spec(root, id) + "/code_"@ + id + "."@ + ext
}

pub open spec fn artifact_spec(root: Seq<char>, id: Seq<char>) -> Seq<char> {
    dir_spec(root, id) + "/code_"@ + id + ".bin"@
}

impl Workspace {
    /// The paths of this workspace are those derived from `root`, its id and
    /// its extension.
    pub open spec fn laid_out(&self, root: Seq<char>) -> bool {
        &&& self.dir@ == dir_spec(root, self.id@)
        &&& self.source_path@ == source_spec(root, self.id@, self.extension@)
        &&& self.artifact_path@ == artifact_spec(root, self.id@)
    }

    /// Lays out the workspace of identifier `id` for a source in `language`
    /// under the staging root `root`. Nothing is touched on disk.
    pub fn new(root: &str, id: &str, language: Language) -> (r: Workspace)
        ensures
            r.id@ == id@,
            r.extension@ == language.extension_spec(),
            r.laid_out(root@),
    {
        let ext = language.extension();
        let mut dir = root.to_string();
        dir.append("/run_");
        dir.append(id);
        let mut source_path = dir.clone();
        source_path.append("/code_");
        source_path.append(id);
        source_path.append(".");
        source_path.append(ext.as_str());
        let mut artifact_path = dir.clone();
        artifact_path.append("/code_");
        artifact_path.append(id);
        artifact_path.append(".bin");
        proof {
            assert(dir@ == dir_spec(root@, id@));
            assert(source_path@ =~= source_spec(root@, id@, ext@));
            assert(artifact_path@ =~= artifact_spec(root@, id@));
        }
        Workspace { id: id.to_string(), extension: ext, dir, source_path, artifact_path }
    }

    /// Lays out a workspace under a freshly drawn random identifier.
    pub fn fresh(root: &str, language: Language) -> (r: Workspace)
        ensures
            r.id@.len() == ID_LEN,
            is_id(r.id@),
            r.extension@ == language.extension_spec(),
            r.laid_out(root@),
    {
        let id = random_id();
        Workspace::new(root, id.as_str(), language)
    }
}

proof fn lemma_differ_after_prefix(p: Seq<char>, a: Seq<char>, b: Seq<char>, s: Seq<char>, t: Seq<char>)
    requires
        a.len() == b.len(),
        a != b,
    ensures
        p + a + s != p + b + t,
{
    assert(exists|i: int| 0 <= i < a.len() && a[i] != b[i]) by {
        if forall|i: int| 0 <= i < a.len() ==> a[i] == b[i] {
            assert(a =~= b);
        }
    }
    let i = choose|i: int| 0 <= i < a.len() && a[i] != b[i];
    assert((p + a + s)[p.len() + i] == a[i]);
    assert((p + b + t)[p.len() + i] == b[i]);
}

/// Two executions whose identifiers differ (identifiers of one fixed length,
/// as drawn by `Workspace::fresh`) never share a staging directory, a source
/// path or an artifact path, whatever their languages.
pub proof fn lemma_distinct_ids_distinct_paths(
    root: Seq<char>,
    id1: Seq<char>,
    id2: Seq<char>,
    ext1: Seq<char>,
    ext2: Seq<char>,
)
    requires
        id1.len() == id2.len(),
        id1 != id2,
    ensures
        dir_spec(root, id1) != dir_spec(root, id2),
        source_spec(root, id1, ext1) != source_spec(root, id2, ext2),
        artifact_spec(root, id1) != artifact_spec(root, id2),
{
    let p = root + "/run_"@;
    lemma_differ_after_prefix(p, id1, id2, Seq::empty(), Seq::empty());
    assert(dir_spec(root, id1) == p + id1 + Seq::<char>::empty());
    assert(dir_spec(root, id2) == p + id2 + Seq::<char>::empty());
    let s1 = "/code_"@ + id1 + "."@ + ext1;
    let s2 = "/code_"@ + id2 + "."@ + ext2;
    lemma_differ_after_prefix(p, id1, id2, s1, s2);
    assert(source_spec(root, id1, ext1) =~= p + id1 + s1);
    assert(source_spec(root, id2, ext2) =~= p + id2 + s2);
    let b1 = "/code_"@ + id1 + ".bin"@;
    let b2 = "/code_"@ + id2 + ".bin"@;
    lemma_differ_after_prefix(p, id1, id2, b1, b2);
    assert(artifact_spec(root, id1) =~= p + id1 + b1);
    assert(artifact_spec(root, id2) =~= p + id2 + b2);
}

/// The name of the source file of workspace `id`.
pub open spec fn file_name_spec(id: Seq<char>, ext: Seq<char>) -> Seq<char> {
    "code_"@ + id + "."@ + ext
}

/// The name of the artifact file of workspace `id`.
pub open spec fn artifact_name_spec(id: Seq<char>) -> Seq<char> {
    "code_"@ + id + ".bin"@
}

/// Every character of `id` is one of a UUID's.
pub open spec fn is_id(id: Seq<char>) -> bool {
    forall|i: int| 0 <= i < id.len() ==> is_id_char(#[trigger] id[i])
}

/// `s` holds no path separator.
pub open spec fn no_separator(s: Seq<char>) -> bool {
    forall|i: int| 0 <= i < s.len() ==> #[trigger] s[i] != '/'
}

proof fn lemma_concat_no_separator(a: Seq<char>, b: Seq<char>)
    requires
        no_separator(a),
        no_separator(b),
    ensures
        no_separator(a + b),
{
    assert forall|i: int| 0 <= i < (a + b).len() implies #[trigger] (a + b)[i] != '/' by {
        if i < a.len() {
            assert((a + b)[i] == a[i]);
        } else {
            assert((a + b)[i] == b[i - a.len()]);
        }
    }
}

proof fn lemma_literal_no_separator(s: &str)
    requires
        s@ == "code_"@ || s@ == "."@ || s@ == ".bin"@ || s@ == "py"@ || s@ == "js"@ || s@ == "java"@ || s@
            == "cpp"@,
    ensures
        no_separator(s@),
{
    reveal_strlit("code_");
    reveal_strlit(".");
    reveal_strlit(".bin");
    reveal_strlit("py");
    reveal_strlit("js");
    reveal_strlit("java");
    reveal_strlit("cpp");
}

/// The source file and the artifact of a workspace whose id is a UUID's text
/// sit directly in the workspace's own directory: each path is that directory,
/// a `/`, and a file name without any further separator.
pub proof fn lemma_files_directly_in_dir(root: Seq<char>, id: Seq<char>, l: Language)
    requires
        is_id(id),
    ensures
        source_spec(root, id, l.extension_spec()) == dir_spec(root, id) + "/"@ + file_name_spec(
            id,
            l.extension_spec(),
        ),
        artifact_spec(root, id) == dir_spec(root, id) + "/"@ + artifact_name_spec(id),
        no_separator(file_name_spec(id, l.extension_spec())),
        no_separator(artifact_name_spec(id)),
{
    reveal_strlit("/code_");
    reveal_strlit("/");
    reveal_strlit("code_");
    assert("/code_"@ =~= "/"@ + "code_"@);
    let d = dir_spec(root, id);
    let ext = l.extension_spec();
    assert(source_spec(root, id, ext) =~= d + "/"@ + file_name_spec(id, ext));
    assert(artifact_spec(root, id) =~= d + "/"@ + artifact_name_spec(id));
    assert(no_separator(id)) by {
        assert forall|i: int| 0 <= i < id.len() implies #[trigger] id[i] != '/' by {
            assert(is_id_char(id[i]));
        }
    }
    lemma_literal_no_separator("code_");
    lemma_literal_no_separator(".");
    lemma_literal_no_separator(".bin");
    match l {
        Language::Python => lemma_literal_no_separator("py"),
        Language::JavaScript => lemma_literal_no_separator("js"),
        Language::Java => lemma_literal_no_separator("java"),
        Language::Cpp => lemma_literal_no_separator("cpp"),
    }
    lemma_concat_no_separator("code_"@, id);
    lemma_concat_no_separator("code_"@ + id, "."@);
    lemma_concat_no_separator("code_"@ + id + "."@, ext);
    lemma_concat_no_separator("code_"@ + id, ".bin"@);
}

} // verus!
