//! The records of a listing of posts, and the errors of the downloader.

use vstd::prelude::*;

verus! {

/// A post: the address of its picture and its title.
#[derive(Debug)]
pub struct Wallpaper {
    pub url: String,
    pub title: String,
}

/// An entry of the listing.
#[derive(Debug)]
pub struct TopDataItem {
    pub data: Wallpaper,
}

/// The entries of the listing.
#[derive(Debug)]
pub struct TopData {
    pub children: Vec<TopDataItem>,
}

/// The listing as the site sends it.
#[derive(Debug)]
pub struct RedditData {
    pub data: TopData,
}

/// Why no file name could be made for a post.
#[derive(Debug)]
pub struct GetFileNameError {
    pub message: String,
}

/// Why a picture could not be kept.
#[derive(Debug)]
pub struct DownloadImageError {
    pub message: String,
}

impl GetFileNameError {
    /// The error as it is shown: its message.
    pub fn to_text(&self) -> (r: String)
        ensures
            r@ == self.message@,
    {
        self.message.clone()
    }
}

impl DownloadImageError {
    /// The error as it is shown: its message.
    pub fn to_text(&self) -> (r: String)
        ensures
            r@ == self.message@,
    {
        self.message.clone()
    }
}

impl RedditData {
    /// The posts of the listing, in its order.
    pub fn into_wallpapers(self) -> (r: Vec<Wallpaper>)
        ensures
            r.len() == self.data.children.len(),
            forall|i: int|
                0 <= i < r.len() ==> (#[trigger] r[i]).url@ == self.data.children[i].data.url@
                    && r[i].title@ == self.data.children[i].data.title@,
    {
        let mut children = self.data.children;
        let ghost all = children@;
        let mut posts: Vec<Wallpaper> = Vec::new();
        while children.len() > 0
            invariant
                posts.len() + children.len() == all.len(),
                forall|i: int| 0 <= i < posts.len() ==> (#[trigger] posts[i]) == all[i].data,
                forall|i: int|
                    0 <= i < children.len() ==> (#[trigger] children[i]) == all[posts.len() + i],
            decreases children.len(),
        {
            let item = children.remove(0);
            posts.push(item.data);
        }
        posts
    }
}

} // verus!
