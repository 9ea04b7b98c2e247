use vstd::prelude::*;
use vstd::string::StringExecFns;

verus! {

/// Every workspace directory name starts with this text.
pub open spec fn workspace_prefix() -> Seq<char> {
    "rust-exec-"@
}

/// The workspace directory name for the identifier `id`.
pub open spec fn workspace_name_of(id: Seq<char>) -> Seq<char> {
    workspace_prefix() + id
}

/// A lowercase hexadecimal digit.
pub open spec fn is_lower_hex(c: char) -> bool {
    ('0' <= c && c <= '9') || ('a' <= c && c <= 'f')
}

/// The hyphenated lowercase form of a UUID: 36 characters, hyphens at
/// positions 8, 13, 18 and 23, lowercase hex digits elsewhere.
pub open spec fn hyphenated_uuid(s: Seq<char>) -> bool {
    &&& s.len() == 36
    &&& forall|i: int|
        0 <= i < 36 ==> if i == 8 || i == 13 || i == 18 || i == 23 {
            #[trigger] s[i] == '-'
        } else {
            is_lower_hex(s[i])
        }
}

/// A hyphenated UUID of version 4 and the RFC 4122 variant: the version digit
/// (position 14) is `4`, the variant digit (position 19) one of `8 9 a b`.
pub open spec fn hyphenated_v4_uuid(s: Seq<char>) -> bool {
    &&& hyphenated_uuid(s)
    &&& s[14] == '4'
    &&& (s[19] == '8' || s[19] == '9' || s[19] == 'a' || s[19] == 'b')
}

/// Relies on `uuid::Uuid::new_v4` for a fresh random identifier, with the
/// version and variant bits set, and on its `Display` impl, which writes the
/// hyphenated lowercase form.
#[verifier::external_body]
fn fresh_id() -> (r: String)
    ensures
        hyphenated_v4_uuid(r@),
{
    uuid::Uuid::new_v4().to_string()
}

/// The workspace directory name for the identifier `id`.
pub fn workspace_dir_name(id: &str) -> (r: String)
    ensures
        r@ == workspace_name_of(id@),
{
    let mut name = String::from_str("rust-exec-");
    name.append(id);
    name
}

/// A workspace directory name built on a fresh random identifier.
pub fn new_workspace_name() -> (r: String)
    ensures
        exists|id: Seq<char>| hyphenated_v4_uuid(id) && r@ == workspace_name_of(id),
{
    let id = fresh_id();
    let r = workspace_dir_name(id.as_str());
    assert(hyphenated_v4_uuid(id@) && r@ == workspace_name_of(id@));
    r
}

/// Two workspaces built on distinct identifiers have distinct names, so
/// requests that drew distinct identifiers never share a directory.
pub proof fn lemma_workspace_names_distinct(a: Seq<char>, b: Seq<char>)
    requires
        a != b,
    ensures
        workspace_name_of(a) != workspace_name_of(b),
{
    let p = workspace_prefix();
    if workspace_name_of(a) == workspace_name_of(b) {
        assert((p + a).subrange(p.len() as int, (p + a).len() as int) =~= a);
        assert((p + b).subrange(p.len() as int, (p + b).len() as int) =~= b);
    }
}

/// The name of the source file inside a workspace.
pub const SOURCE_FILE_NAME: &'static str = "main.rs";

/// The name of the compiled program inside a workspace.
pub const ARTIFACT_FILE_NAME: &'static str = "program";

/// The compiler's arguments: the source path, then the output flag and the
/// artifact path.
pub fn compiler_args(source_path: &str, artifact_path: &str) -> (r: Vec<String>)
    ensures
        r@.len() == 3,
        r@[0]@ == source_path@,
        r@[1]@ == "-o"@,
        r@[2]@ == artifact_path@,
{
    let mut args: Vec<String> = Vec::new();
    args.push(String::from_str(source_path));
    args.push(String::from_str("-o"));
    args.push(String::from_str(artifact_path));
    args
}

} // verus!
