//! Wallpapers from a listing of posts: the records of the listing and the
//! file name under which a picture is kept.

pub mod data;
pub mod file_name;

pub use data::{
    DownloadImageError, GetFileNameError, RedditData, TopData, TopDataItem, Wallpaper,
};
pub use file_name::get_file_name;
