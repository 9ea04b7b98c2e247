use vstd::prelude::*;
use vstd::string::StringExecFns;

use crate::text::{contains_text, occurs_at, occurs_in};

verus! {

/// The text whose presence marks a submission as a complete program.
pub open spec fn entry_marker() -> Seq<char> {
    "fn main"@
}

/// The generated entry point opens with this text ...
pub open spec fn wrapper_head() -> Seq<char> {
    "fn main() {\n"@
}

/// ... and closes with this one.
pub open spec fn wrapper_tail() -> Seq<char> {
    "\n}"@
}

/// The source that is compiled for the submission `code`: the submission
/// itself when it mentions the entry marker anywhere (a plain substring test,
/// so a marker inside a comment or a string counts too), otherwise the
/// submission placed verbatim inside a generated entry point.
pub open spec fn normalized(code: Seq<char>) -> Seq<char> {
    if occurs_in(code, entry_marker()) {
        code
    } else {
        wrapper_head() + code + wrapper_tail()
    }
}

/// Whether the submission already holds the entry marker.
pub fn has_entry_point(code: &str) -> (r: bool)
    ensures
        r == occurs_in(code@, entry_marker()),
{
    contains_text(code, "fn main")
}

/// The source to compile for `code`.
pub fn normalize_source(code: &str) -> (r: String)
    ensures
        r@ == normalized(code@),
{
    if has_entry_point(code) {
        String::from_str(code)
    } else {
        let mut src = String::from_str("fn main() {\n");
        src.append(code);
        src.append("\n}");
        src
    }
}

/// Normalisation leaves a submission that holds the entry marker unchanged,
/// and otherwise keeps the submission verbatim as one contiguous run inside
/// the generated wrapper, right after its opening text.
pub proof fn lemma_normalization_keeps_code(code: Seq<char>)
    ensures
        occurs_in(code, entry_marker()) ==> normalized(code) == code,
        !occurs_in(code, entry_marker()) ==> {
            &&& normalized(code).subrange(0, wrapper_head().len() as int) == wrapper_head()
            &&& occurs_at(normalized(code), code, wrapper_head().len() as int)
            &&& normalized(code).subrange(
                (wrapper_head().len() + code.len()) as int,
                normalized(code).len() as int,
            ) == wrapper_tail()
        },
        occurs_in(normalized(code), code),
{
    let h = wrapper_head();
    let t = wrapper_tail();
    if occurs_in(code, entry_marker()) {
        assert(code.subrange(0, code.len() as int) =~= code);
        assert(occurs_at(code, code, 0));
    } else {
        let n = h + code + t;
        assert(n.subrange(0, h.len() as int) =~= h);
        assert(n.subrange(h.len() as int, (h.len() + code.len()) as int) =~= code);
        assert(n.subrange((h.len() + code.len()) as int, n.len() as int) =~= t);
        assert(occurs_at(n, code, h.len() as int));
    }
}

} // verus!
