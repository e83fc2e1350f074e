//! What the lock surface shows behind its controls.
//!
//! The background is a picture or a video, named by a path.  Where the path
//! names a directory, one of the files in it that can be shown is picked at
//! random, or the first of them where the system has no randomness to offer.
//! Reading the directory and loading the file stay with the caller.

use rand::SeedableRng;
use vstd::prelude::*;
use crate::text::str_eq;

verus! {

/// The kinds of file that can be shown.
#[derive(Clone, Copy, Debug, PartialEq, Eq, Structural)]
pub enum MediaKind {
    /// A still picture.
    Image,
    /// A video, played in a loop.
    Video,
}

/// What the configured path is on disk.
#[derive(Debug, PartialEq, Eq)]
pub enum Listing {
    /// Not a directory.
    NotADirectory,
    /// A directory with these entries, each by its path.
    Entries(Vec<String>),
    /// A directory that could not be read.
    Unreadable,
}

/// A file to show, and how.
#[derive(Debug, PartialEq, Eq)]
pub struct Paintable {
    pub path: String,
    pub kind: MediaKind,
}

/// The extension of the last component of `path`, as
/// `std::path::Path::extension` gives it.
pub uninterp spec fn path_extension(path: Seq<char>) -> Option<Seq<char>>;

/// The kind of file that an extension stands for.
pub open spec fn kind_of(extension: Option<Seq<char>>) -> Option<MediaKind> {
    match extension {
        Some(extension) => if extension == "jpg"@ || extension == "jpeg"@ {
            Some(MediaKind::Image)
        } else if extension == "mp4"@ {
            Some(MediaKind::Video)
        } else {
            None
        },
        None => None,
    }
}

/// Whether the file at `path` can be shown.
pub open spec fn is_supported(path: String) -> bool {
    kind_of(path_extension(path@)) is Some
}

/// The view of an extension where there is one.
pub open spec fn extension_view(extension: Option<String>) -> Option<Seq<char>> {
    match extension {
        Some(extension) => Some(extension@),
        None => None,
    }
}

/// The file to show for `path` with its extension, if it can be shown.
pub open spec fn paintable(path: String, extension: Option<Seq<char>>) -> Option<Paintable> {
    match kind_of(extension) {
        Some(kind) => Some(Paintable { path, kind }),
        None => None,
    }
}

/// The extension of `path`.
///
/// Calls `std::path::Path::extension` on the path and hands the result on as
/// a string.  The contract gives that result a name and claims nothing else
/// of it.
#[verifier::external_body]
fn extension(path: &str) -> (extension: Option<String>)
    ensures
        extension_view(extension) == path_extension(path@),
{
    std::path::Path::new(path).extension().map(|extension| extension.to_string_lossy().into_owned())
}

/// One of `candidates`, picked at random.
///
/// Seeds a generator of its own with `rand::SeedableRng::try_from_rng` from
/// `rand::rngs::SysRng` and calls `rand::seq::IndexedRandom::choose` with
/// it.  It gives nothing for an empty list, and nothing where the system has
/// no randomness to seed the generator with; else it gives one of the
/// list's items, and which one is open.
#[verifier::external_body]
fn pick(candidates: &Vec<String>) -> (picked: Option<String>)
    ensures
        candidates@.len() == 0 ==> picked is None,
        picked matches Some(path) ==> exists|i: int|
            0 <= i < candidates@.len() && #[trigger] candidates@[i]@ == path@,
{
    let mut generator = rand::rngs::StdRng::try_from_rng(&mut rand::rngs::SysRng).ok()?;
    rand::seq::IndexedRandom::choose(candidates.as_slice(), &mut generator).cloned()
}

/// Tells which kind of file an extension stands for.
pub fn media_kind(extension: &Option<String>) -> (kind: Option<MediaKind>)
    ensures
        kind == kind_of(extension_view(*extension)),
{
    match extension {
        Some(extension) => {
            let extension = extension.as_str();
            if str_eq(extension, "jpg") || str_eq(extension, "jpeg") {
                Some(MediaKind::Image)
            } else if str_eq(extension, "mp4") {
                Some(MediaKind::Video)
            } else {
                None
            }
        },
        None => None,
    }
}

/// Says how to show the file at `path`, given the path's extension.
pub fn paintable_of(path: String, extension: &Option<String>) -> (shown: Option<Paintable>)
    ensures
        shown == paintable(path, extension_view(*extension)),
{
    match media_kind(extension) {
        Some(kind) => Some(Paintable { path, kind }),
        None => None,
    }
}

/// Says how to show the file at `path`, if it can be shown.
pub fn paintable_for(path: String) -> (shown: Option<Paintable>)
    ensures
        shown == paintable(path, path_extension(path@)),
{
    let found = extension(path.as_str());
    paintable_of(path, &found)
}

/// The entries that can be shown, in the order in which they were listed.
pub fn supported_children(children: &Vec<String>) -> (kept: Vec<String>)
    ensures
        kept@ == children@.filter(|path: String| is_supported(path)),
{
    let ghost pred = |path: String| is_supported(path);
    let mut kept: Vec<String> = Vec::new();
    let mut i: usize = 0;
    proof {
        reveal(Seq::filter);
        assert(children@.take(0).filter(pred) =~= Seq::<String>::empty());
    }
    while i < children.len()
        invariant
            i <= children.len(),
            pred == |path: String| is_supported(path),
            kept@ == children@.take(i as int).filter(pred),
        decreases children.len() - i,
    {
        let found = extension(children[i].as_str());
        let kind = media_kind(&found);
        proof {
            reveal(Seq::filter);
            let longer = children@.take(i + 1);
            assert(longer.drop_last() =~= children@.take(i as int));
            assert(longer.last() == children@[i as int]);
            assert(pred(children@[i as int]) == (kind is Some));
        }
        if kind.is_some() {
            kept.push(children[i].clone());
        }
        i += 1;
    }
    assert(children@.take(i as int) =~= children@);
    kept
}

/// What is shown for a pick from `kept`, the entries that can be shown:
/// the entry picked, or the first entry where none was picked.
pub open spec fn shown_for_pick(kept: Seq<String>, picked: Option<String>) -> Option<Paintable> {
    match picked {
        Some(path) => paintable(path, path_extension(path@)),
        None => if kept.len() > 0 {
            paintable(kept[0], path_extension(kept[0]@))
        } else {
            None
        },
    }
}

/// Says how to show the entry that was picked from `kept`, the entries
/// that can be shown; where none was picked, the first of them is shown.
pub fn paintable_of_pick(kept: &Vec<String>, picked: Option<String>) -> (shown: Option<Paintable>)
    ensures
        shown == shown_for_pick(kept@, picked),
{
    match picked {
        Some(path) => paintable_for(path),
        None => if kept.len() > 0 {
            paintable_for(kept[0].clone())
        } else {
            None
        },
    }
}

/// Chooses the background for the configured path `src`: the file itself,
/// or one of the directory's entries that can be shown, picked at random
/// (the first of them where the pick gives nothing).  There is none where
/// the file cannot be shown, and where the directory cannot be read or holds
/// nothing that can be shown.
pub fn load_background_paintable(src: String, listing: Listing) -> (shown: Option<Paintable>)
    ensures
        listing is NotADirectory ==> shown == paintable(src, path_extension(src@)),
        listing is Unreadable ==> shown is None,
        listing matches Listing::Entries(children) ==> ({
            let kept = children@.filter(|path: String| is_supported(path));
            &&& kept.len() == 0 <==> shown is None
            &&& shown matches Some(chosen) ==> exists|i: int|
                0 <= i < kept.len() && #[trigger] kept[i]@ == chosen.path@ && Some(chosen.kind)
                    == kind_of(path_extension(kept[i]@))
        }),
{
    match listing {
        Listing::NotADirectory => paintable_for(src),
        Listing::Unreadable => None,
        Listing::Entries(children) => {
            let kept = supported_children(&children);
            let picked = pick(&kept);
            proof {
                let pred = |path: String| is_supported(path);
                let at: int = if picked is Some {
                    choose|i: int|
                        0 <= i < kept@.len() && #[trigger] kept@[i]@ == picked->0@
                } else {
                    0
                };
                if kept@.len() > 0 {
                    children@.lemma_filter_pred(pred, at);
                    assert(is_supported(kept@[at]));
                }
            }
            paintable_of_pick(&kept, picked)
        },
    }
}

} // verus!
