//! The template installer's verified core: construction of the two paths it
//! touches — the starter file inside the template store, and its destination
//! inside the freshly scaffolded project — and the byte-exact transfer of the
//! starter file's contents.

use vstd::prelude::*;
use vstd::string::StringExecFns;
use crate::language::LanguageSpec;

verus! {

/// The path of the starter file for `name`/`ext` inside the template store,
/// relative to the store's root: `templates/<name>/template.<ext>`.
pub open spec fn spec_source_path(name: Seq<char>, ext: Seq<char>) -> Seq<char> {
    "templates/"@ + name + "/template."@ + ext
}

/// The path the starter file is copied to, relative to the working
/// directory: `<project>/<project>/template.<ext>`.
pub open spec fn spec_dest_path(project: Seq<char>, ext: Seq<char>) -> Seq<char> {
    project + "/"@ + project + "/template."@ + ext
}

/// Builds the template-store path of the starter file for `spec`'s
/// language.
pub fn template_source_path(spec: &LanguageSpec) -> (r: String)
    ensures
        r@ == spec_source_path(spec.language.spec_name(), spec.extension@),
{
    let mut out = "templates/".to_owned();
    out.append(spec.language.name());
    out.append("/template.");
    out.append(spec.extension.as_str());
    proof {
        assert(out@ =~= spec_source_path(spec.language.spec_name(), spec.extension@));
    }
    out
}

/// Builds the destination path of the starter file inside the scaffolded
/// project named `project`.
pub fn template_dest_path(project: &str, spec: &LanguageSpec) -> (r: String)
    ensures
        r@ == spec_dest_path(project@, spec.extension@),
{
    let mut out = project.to_owned();
    out.append("/");
    out.append(project);
    out.append("/template.");
    out.append(spec.extension.as_str());
    proof {
        assert(out@ =~= spec_dest_path(project@, spec.extension@));
    }
    out
}

/// Produces the bytes to write at the destination: exactly the bytes read
/// from the starter file, so that the installed template is byte-identical
/// to its source.
pub fn copy_template_bytes(src: &Vec<u8>) -> (r: Vec<u8>)
    ensures
        r@ == src@,
{
    let mut out: Vec<u8> = Vec::new();
    let n = src.len();
    let mut i: usize = 0;
    while i < n
        invariant
            n == src@.len(),
            i <= n,
            out@ == src@.subrange(0, i as int),
        decreases n - i,
    {
        out.push(src[i]);
        proof {
            assert(out@ =~= src@.subrange(0, i as int + 1));
        }
        i += 1;
    }
    proof {
        assert(src@.subrange(0, n as int) =~= src@);
    }
    out
}

} // verus!
