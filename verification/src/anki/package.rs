//! Packages: the decks and the media files that go into one archive.

use crate::anki::db_entries::clone_texts;
use crate::anki::deck::{Deck, DeckView};
use crate::anki::error::Error;
use crate::text::{decimal, format_u64};
use vstd::prelude::*;
use vstd::string::StringExecFns;

verus! {

/// Decks and the paths of the media files that their notes refer to.
#[derive(Debug)]
pub struct Package {
    decks: Vec<Deck>,
    media_files: Vec<String>,
}

/// The mathematical value of a [`Package`].
pub struct PackageView {
    pub decks: Seq<DeckView>,
    pub media_files: Seq<Seq<char>>,
}

impl View for Package {
    type V = PackageView;

    closed spec fn view(&self) -> PackageView {
        PackageView { decks: self.decks.deep_view(), media_files: self.media_files.deep_view() }
    }
}

/// The name under which the archive holds the media file at place `index`.
pub open spec fn media_key(index: nat) -> Seq<char> {
    decimal(index)
}

fn clone_decks(decks: &Vec<Deck>) -> (r: Vec<Deck>)
    ensures
        r.deep_view() == decks.deep_view(),
{
    let mut out: Vec<Deck> = Vec::new();
    let mut i: usize = 0;
    while i < decks.len()
        invariant
            i <= decks.len(),
            out.deep_view() == decks.deep_view().take(i as int),
        decreases decks.len() - i,
    {
        let ghost before = out.deep_view();
        out.push(decks[i].clone());
        proof {
            assert(out.deep_view() == before.push(decks[i as int]@));
            assert(decks.deep_view().take(i + 1) == before.push(decks[i as int]@));
        }
        i = i + 1;
    }
    proof {
        assert(decks.deep_view().take(decks.len() as int) == decks.deep_view());
    }
    out
}

impl Package {
    /// A package of these decks and media files. Every list of paths is
    /// accepted.
    pub fn new(decks: Vec<Deck>, media_files: Vec<&str>) -> (r: Result<Package, Error>)
        ensures
            r matches Ok(package) && package@ == (PackageView {
                decks: decks.deep_view(),
                media_files: media_files.deep_view(),
            }),
    {
        let mut paths: Vec<String> = Vec::new();
        let mut i: usize = 0;
        while i < media_files.len()
            invariant
                i <= media_files.len(),
                paths.deep_view() == media_files.deep_view().take(i as int),
            decreases media_files.len() - i,
        {
            let ghost before = paths.deep_view();
            paths.push(String::from_str(media_files[i]));
            proof {
                assert(paths.deep_view() == before.push(media_files[i as int]@));
                assert(media_files.deep_view().take(i + 1) == before.push(media_files[i as int]@));
            }
            i = i + 1;
        }
        proof {
            assert(media_files.deep_view().take(media_files.len() as int)
                == media_files.deep_view());
        }
        Ok(Package { decks, media_files: paths })
    }

    /// The decks of the package.
    pub fn decks(&self) -> (r: Vec<Deck>)
        ensures
            r.deep_view() == self@.decks,
    {
        clone_decks(&self.decks)
    }

    /// The paths of the media files of the package.
    pub fn media_files(&self) -> (r: Vec<String>)
        ensures
            r.deep_view() == self@.media_files,
    {
        clone_texts(&self.media_files)
    }

    /// The names under which the archive holds the media files, in the order
    /// of the files: their places, written in decimal.
    pub fn media_keys(&self) -> (r: Vec<String>)
        ensures
            r.len() == self@.media_files.len(),
            forall|i: int| 0 <= i < r.len() ==> (#[trigger] r[i])@ == media_key(i as nat),
    {
        let mut keys: Vec<String> = Vec::new();
        let mut i: usize = 0;
        while i < self.media_files.len()
            invariant
                i <= self.media_files.len(),
                keys.len() == i,
                forall|k: int| 0 <= k < i ==> (#[trigger] keys[k])@ == media_key(k as nat),
            decreases self.media_files.len() - i,
        {
            keys.push(format_u64(i as u64));
            i = i + 1;
        }
        keys
    }
}

} // verus!
