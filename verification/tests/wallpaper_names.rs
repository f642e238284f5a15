use personal_utils::subscriptions::{FormData, Info};
use personal_utils::wallpaper::file_name::{file_name_from, ImageKind};
use personal_utils::wallpaper::{
    get_file_name, DownloadImageError, GetFileNameError, RedditData, TopData, TopDataItem,
    Wallpaper,
};

#[test]
fn png_and_jpeg_keep_their_extension() {
    assert_eq!(
        get_file_name("https://i.example.org/a/b.png", "Blue lake").unwrap(),
        "Blue_lake.png"
    );
    assert_eq!(
        get_file_name("https://i.example.org/a/b.JPEG", "x").unwrap(),
        "x.jpg"
    );
    assert_eq!(
        get_file_name("https://i.example.org/a/b.jpg", "x").unwrap(),
        "x.jpg"
    );
}

#[test]
fn title_is_cleaned_for_the_file_system() {
    assert_eq!(
        get_file_name("a.png", "Sunset [4K] – 3840x2160, v1.0_b-c/d").unwrap(),
        "Sunset__4K____3840x2160__v1.0_b-c_d.png"
    );
    assert_eq!(get_file_name("a.png", "").unwrap(), ".png");
}

#[test]
fn other_formats_are_refused() {
    let e = get_file_name("https://i.example.org/a.gif", "x").unwrap_err();
    assert_eq!(e.message, "Not supported file extension: Gif");
    let e = get_file_name("https://i.example.org/a.webp", "x").unwrap_err();
    assert_eq!(e.message, "Not supported file extension: WebP");
}

#[test]
fn unknown_extension_is_refused() {
    let e = get_file_name("https://example.org/gallery", "x").unwrap_err();
    assert_eq!(
        e.message,
        "File extension not determined for url: \"https://example.org/gallery\""
    );
    assert_eq!(e.to_text(), e.message);
}

#[test]
fn file_name_follows_the_kind() {
    let title = Some("t".to_string());
    assert_eq!(file_name_from(&ImageKind::Png, "q", &title).unwrap(), "t.png");
    assert_eq!(file_name_from(&ImageKind::Jpeg, "q", &title).unwrap(), "t.jpg");
    assert_eq!(
        file_name_from(&ImageKind::Other { name: "Bmp".to_string() }, "q", &title)
            .unwrap_err()
            .message,
        "Not supported file extension: Bmp"
    );
    assert_eq!(
        file_name_from(&ImageKind::Unknown, "q", &title).unwrap_err().message,
        "File extension not determined for url: q"
    );
    assert_eq!(
        file_name_from(&ImageKind::Png, "q", &None).unwrap_err().message,
        "Regex has invalid pattern"
    );
}

#[test]
fn listing_gives_its_posts_in_order() {
    let listing = RedditData {
        data: TopData {
            children: vec![
                TopDataItem {
                    data: Wallpaper {
                        url: "u1".to_string(),
                        title: "t1".to_string(),
                    },
                },
                TopDataItem {
                    data: Wallpaper {
                        url: "u2".to_string(),
                        title: "t2".to_string(),
                    },
                },
            ],
        },
    };
    let posts = listing.into_wallpapers();
    assert_eq!(posts.len(), 2);
    assert_eq!(posts[0].url, "u1");
    assert_eq!(posts[0].title, "t1");
    assert_eq!(posts[1].url, "u2");
    assert_eq!(posts[1].title, "t2");
}

#[test]
fn errors_show_their_message() {
    let e = GetFileNameError {
        message: "a".to_string(),
    };
    assert_eq!(e.to_text(), "a");
    let e = DownloadImageError {
        message: "b".to_string(),
    };
    assert_eq!(e.to_text(), "b");
}

#[test]
fn forms_keep_what_they_are_given() {
    let form = FormData::new("a@example.org", "Ann");
    assert_eq!(form.email(), "a@example.org");
    assert_eq!(form.user_name(), "Ann");
    assert_eq!(Info::new("b@example.org").email(), "b@example.org");
}
