//! Target names and destination paths.
//!
//! A variant's image is the target `<variant>.img.lz4`. Before the name is
//! used it must pass two tests: it may not lead out of the output directory,
//! and the repository's own naming rules, those of `tough::TargetName`, must
//! accept it. The destination is the output directory joined with the name.

use crate::error::{FetchError, FetchErrorView};
use vstd::prelude::*;
use vstd::string::*;

verus! {

/// The target that holds the image of `variant`.
pub open spec fn image_target(variant: Seq<char>) -> Seq<char> {
    variant + ".img.lz4"@
}

/// Whether a component `..` of `name` begins at `i`.
pub open spec fn parent_component_at(name: Seq<char>, i: int) -> bool {
    &&& 0 <= i
    &&& i + 2 <= name.len()
    &&& name[i] == '.'
    &&& name[i + 1] == '.'
    &&& (i == 0 || name[i - 1] == '/')
    &&& (i + 2 == name.len() || name[i + 2] == '/')
}

/// Whether `name`, read as a path, can lead out of the directory it is joined
/// to: it is absolute, or one of its components is `..`.
pub open spec fn escapes_directory(name: Seq<char>) -> bool {
    ||| name.len() > 0 && name[0] == '/'
    ||| exists|i: int| parent_component_at(name, i)
}

/// The text with which `tough::TargetName::new` refuses `raw`, or `None`
/// where it accepts the name.
pub uninterp spec fn tough_refusal(raw: Seq<char>) -> Option<Seq<char>>;

/// Why `raw` may not be used as a target name, or `None` where it may.
pub open spec fn target_refusal(raw: Seq<char>) -> Option<Seq<char>> {
    if escapes_directory(raw) {
        Some("the name leads out of the output directory"@)
    } else {
        tough_refusal(raw)
    }
}

/// The path of `name` inside `outdir`.
pub open spec fn joined(outdir: Seq<char>, name: Seq<char>) -> Seq<char> {
    if outdir.len() == 0 || outdir.last() == '/' {
        outdir + name
    } else {
        outdir + seq!['/'] + name
    }
}

/// `tough::TargetName::new`, of which only the verdict is kept.
///
/// Claimed: the call is a function of the name alone. It succeeds where
/// `tough_refusal` is `None`, and fails with the text that `tough_refusal`
/// gives.
#[verifier::external_body]
fn refusal_by_tough(raw: &str) -> (refusal: Option<String>)
    ensures
        refusal matches Some(text) ==> tough_refusal(raw@) == Some(text@),
        refusal is None ==> tough_refusal(raw@) is None,
{
    match tough::TargetName::new(raw) {
        Ok(_) => None,
        Err(refused) => Some(refused.to_string()),
    }
}

/// The characters of `text`, one by one.
fn chars_of(text: &str) -> (chars: Vec<char>)
    ensures
        chars@ == text@,
{
    let mut chars: Vec<char> = Vec::new();
    for c in it: text.chars()
        invariant
            it.seq() == text@,
            chars@ == it.seq().take(it.index() as int),
    {
        chars.push(c);
    }
    chars
}

/// The name of the target that holds the image of `variant`.
pub fn image_target_name(variant: &str) -> (target: String)
    ensures
        target@ == image_target(variant@),
{
    String::from_str(variant).concat(".img.lz4")
}

/// Whether `name` can lead out of the directory it is joined to.
pub fn leaves_directory(name: &str) -> (escapes: bool)
    ensures
        escapes == escapes_directory(name@),
{
    let chars = chars_of(name);
    let n: usize = chars.len();
    if n > 0 && chars[0] == '/' {
        return true;
    }
    let mut i: usize = 0;
    while i < n && n - i >= 2
        invariant
            chars@ == name@,
            n == chars@.len(),
            i <= n,
            forall|j: int| 0 <= j < i ==> !parent_component_at(chars@, j),
        decreases n - i,
    {
        if chars[i] == '.' && chars[i + 1] == '.' && (i == 0 || chars[i - 1] == '/') && (n - i == 2
            || chars[i + 2] == '/') {
            assert(parent_component_at(chars@, i as int));
            return true;
        }
        i = i + 1;
    }
    false
}

/// The verdict on a name, given the two tests' results: whether the name
/// leads out of the directory, and the text with which the repository's
/// rules refuse it.
pub fn name_verdict(raw: &str, escapes: bool, refusal: Option<String>) -> (verdict: Result<
    (),
    FetchError,
>)
    ensures
        match verdict {
            Ok(()) => !escapes && refusal is None,
            Err(error) => error@ == (FetchErrorView::TargetName {
                target: raw@,
                cause: if escapes {
                    "the name leads out of the output directory"@
                } else {
                    refusal->0@
                },
            }) && (escapes || refusal is Some),
        },
{
    if escapes {
        Err(
            FetchError::TargetName {
                target: String::from_str(raw),
                cause: String::from_str("the name leads out of the output directory"),
            },
        )
    } else {
        match refusal {
            Some(cause) => Err(FetchError::TargetName { target: String::from_str(raw), cause }),
            None => Ok(()),
        }
    }
}

/// Tests a target name before it is used.
///
/// The name passes exactly when it does not lead out of the output directory
/// and `tough` accepts it; otherwise the failure is `TargetName`, with the
/// name and the reason.
pub fn validate_target(raw: &str) -> (verdict: Result<(), FetchError>)
    ensures
        match verdict {
            Ok(()) => target_refusal(raw@) is None,
            Err(error) => target_refusal(raw@) matches Some(cause) && error@ == (
            FetchErrorView::TargetName { target: raw@, cause }),
        },
{
    if leaves_directory(raw) {
        name_verdict(raw, true, None)
    } else {
        name_verdict(raw, false, refusal_by_tough(raw))
    }
}

/// The path of the file to which the target `name` is written: `name` inside `outdir`.
pub fn destination_path(outdir: &str, name: &str) -> (path: String)
    ensures
        path@ == joined(outdir@, name@),
{
    let chars = chars_of(outdir);
    let n: usize = chars.len();
    if n == 0 || chars[n - 1] == '/' {
        String::from_str(outdir).concat(name)
    } else {
        proof {
            reveal_strlit("/");
            assert("/"@ =~= seq!['/']);
        }
        String::from_str(outdir).concat("/").concat(name)
    }
}

/// A name that does not lead out of its directory is written inside the
/// output directory: the destination begins with the directory, and no
/// component `..` begins behind it.
pub proof fn lemma_destination_inside(outdir: Seq<char>, name: Seq<char>)
    requires
        !escapes_directory(name),
    ensures
        outdir.is_prefix_of(joined(outdir, name)),
        forall|i: int| outdir.len() <= i ==> !parent_component_at(joined(outdir, name), i),
{
    let path = joined(outdir, name);
    let start = path.len() - name.len();
    assert(outdir =~= path.subrange(0, outdir.len() as int));
    assert forall|i: int| outdir.len() <= i implies !parent_component_at(path, i) by {
        if parent_component_at(path, i) {
            if i < start {
                assert(path[i] == '/');
            } else {
                let k = i - start;
                assert(path[i] == name[k]);
                assert(path[i + 1] == name[k + 1]);
                if k > 0 {
                    assert(path[i - 1] == name[k - 1]);
                }
                if k + 2 < name.len() {
                    assert(path[i + 2] == name[k + 2]);
                }
                assert(parent_component_at(name, k));
            }
        }
    }
}

} // verus!
