//! The workspace of one build attempt: its random tag, the name of its
//! directory, and the choice of the source directory that the archive unpacked to.

use vstd::prelude::*;
use vstd::string::*;
use rand::Rng;
use crate::error::BuildFailure;
use crate::text::push_char;

verus! {

/// The number of characters of a build tag.
pub const TAG_LENGTH: usize = 5;

/// The directory, below the top directory, that holds the source archives.
pub const ARCHIVE_DIR: &'static str = "archive";

/// The name under which an archive is copied into a workspace.
pub const ARCHIVE_COPY: &'static str = "archive.file";

/// Whether `c` is an ASCII letter or digit.
pub open spec fn is_tag_char(c: char) -> bool {
    ('A' <= c && c <= 'Z') || ('a' <= c && c <= 'z') || ('0' <= c && c <= '9')
}

/// Whether `s` has the shape of a build tag: five ASCII letters or digits.
pub open spec fn is_build_tag(s: Seq<char>) -> bool {
    s.len() == TAG_LENGTH && forall|i: int| 0 <= i < s.len() ==> is_tag_char(#[trigger] s[i])
}

/// The name of the workspace directory of the attempt tagged `tag`.
pub open spec fn build_dir_of(tag: Seq<char>) -> Seq<char> {
    "_"@ + tag
}

/// Draws one character from the thread's random generator: `Rng::sample` of
/// `rand` on `thread_rng()`, with the `Alphanumeric` distribution. That
/// distribution picks from the upper-case letters, the lower-case letters and
/// the digits of ASCII, and the contract claims no more: which character comes
/// is left open. Not covered: `thread_rng` panics on its first use in a thread
/// if the operating system cannot seed it.
#[verifier::external_body]
fn random_alphanumeric() -> (c: char)
    ensures
        is_tag_char(c),
{
    rand::thread_rng().sample(rand::distributions::Alphanumeric)
}

/// Draws a fresh build tag.
pub fn generate_build_tag() -> (r: String)
    ensures
        is_build_tag(r@),
{
    let mut tag = String::new();
    let mut i: usize = 0;
    while i < TAG_LENGTH
        invariant
            i <= TAG_LENGTH,
            tag@.len() == i,
            forall|j: int| 0 <= j < tag@.len() ==> is_tag_char(#[trigger] tag@[j]),
        decreases TAG_LENGTH - i,
    {
        let c = random_alphanumeric();
        push_char(&mut tag, c);
        i = i + 1;
    }
    tag
}

/// The name of the workspace directory of the attempt tagged `tag`.
pub fn build_dir_name(tag: &str) -> (r: String)
    ensures
        r@ == build_dir_of(tag@),
{
    let mut name = String::from_str("_");
    name.append(tag);
    name
}

/// One entry found in the workspace after the archive was unpacked.
pub struct SourceEntry {
    pub path: String,
    pub is_dir: bool,
}

/// What a [`SourceEntry`] holds.
pub struct EntryModel {
    pub path: Seq<char>,
    pub is_dir: bool,
}

impl View for SourceEntry {
    type V = EntryModel;

    open spec fn view(&self) -> EntryModel {
        EntryModel { path: self.path@, is_dir: self.is_dir }
    }
}

/// The models of a list of entries, in order.
pub open spec fn entry_models(v: Seq<SourceEntry>) -> Seq<EntryModel> {
    Seq::new(v.len(), |i: int| v[i]@)
}

/// Whether entry `i` is a directory and no other entry is one.
pub open spec fn is_only_dir(entries: Seq<EntryModel>, i: int) -> bool {
    &&& 0 <= i < entries.len()
    &&& entries[i].is_dir
    &&& forall|j: int| 0 <= j < entries.len() && j != i ==> !(#[trigger] entries[j]).is_dir
}

/// Whether exactly one entry is a directory.
pub open spec fn has_only_dir(entries: Seq<EntryModel>) -> bool {
    exists|i: int| is_only_dir(entries, i)
}

/// The position of the one directory among the entries.
pub open spec fn only_dir(entries: Seq<EntryModel>) -> int {
    choose|i: int| is_only_dir(entries, i)
}

/// At most one position is that of the only directory.
pub proof fn lemma_only_dir_unique(entries: Seq<EntryModel>, i: int, j: int)
    requires
        is_only_dir(entries, i),
        is_only_dir(entries, j),
    ensures
        i == j,
{
    if i != j {
        assert(!entries[j].is_dir);
    }
}

/// Finds the one directory among the entries of a workspace. The layout is
/// ambiguous when there is none or more than one.
pub fn only_dir_index(entries: &Vec<SourceEntry>) -> (r: Result<usize, BuildFailure>)
    ensures
        match r {
            Ok(i) => is_only_dir(entry_models(entries@), i as int) && i as int == only_dir(entry_models(entries@)),
            Err(e) => e == BuildFailure::AmbiguousSourceLayout && !has_only_dir(entry_models(entries@)),
        },
{
    let ghost es = entry_models(entries@);
    let mut found: Option<usize> = None;
    let mut i: usize = 0;
    while i < entries.len()
        invariant
            es == entry_models(entries@),
            i <= entries@.len(),
            match found {
                Some(k) => k < i && es[k as int].is_dir && forall|j: int|
                    0 <= j < i && j != k ==> !(#[trigger] es[j]).is_dir,
                None => forall|j: int| 0 <= j < i ==> !(#[trigger] es[j]).is_dir,
            },
        decreases entries@.len() - i,
    {
        if entries[i].is_dir {
            match found {
                Some(k) => {
                    assert forall|c: int| !is_only_dir(es, c) by {
                        if is_only_dir(es, c) {
                            if c == k as int {
                                assert(es[i as int].is_dir);
                            } else {
                                assert(es[k as int].is_dir);
                            }
                        }
                    }
                    return Err(BuildFailure::AmbiguousSourceLayout);
                },
                None => {
                    found = Some(i);
                },
            }
        }
        i = i + 1;
    }
    match found {
        Some(k) => {
            assert(is_only_dir(es, k as int));
            proof {
                lemma_only_dir_unique(es, k as int, only_dir(es));
            }
            Ok(k)
        },
        None => {
            assert forall|c: int| !is_only_dir(es, c) by {
                if is_only_dir(es, c) {
                    assert(es[c].is_dir);
                }
            }
            Err(BuildFailure::AmbiguousSourceLayout)
        },
    }
}

/// The path of the one directory among the entries of a workspace.
pub fn get_only_dir_path(entries: &Vec<SourceEntry>) -> (r: Result<String, BuildFailure>)
    ensures
        match r {
            Ok(p) => has_only_dir(entry_models(entries@)) && p@ == entry_models(entries@)[only_dir(
                entry_models(entries@),
            )].path,
            Err(e) => e == BuildFailure::AmbiguousSourceLayout && !has_only_dir(entry_models(entries@)),
        },
{
    match only_dir_index(entries) {
        Ok(i) => Ok(entries[i].path.clone()),
        Err(e) => Err(e),
    }
}

/// Two attempts with different tags work in different directories.
pub proof fn lemma_build_dir_injective(a: Seq<char>, b: Seq<char>)
    requires
        a != b,
    ensures
        build_dir_of(a) != build_dir_of(b),
{
    let p = "_"@;
    if build_dir_of(a) == build_dir_of(b) {
        assert((p + a).subrange(p.len() as int, (p + a).len() as int) =~= a);
        assert((p + b).subrange(p.len() as int, (p + b).len() as int) =~= b);
    }
}

} // verus!
