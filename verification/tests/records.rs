use lostpaw::records::{PetAttribute, PetPhoto};
use std::path::PathBuf;

fn photo(url: &str, path: Option<&str>, pet: Option<i32>) -> PetPhoto {
    PetPhoto {
        display_photo_url: url.to_string(),
        saved_path: path.map(PathBuf::from),
        pet_id: pet,
    }
}

#[test]
fn photos_are_ordered_by_url_then_path_then_pet() {
    let mut photos = vec![
        photo("https://pics.example/b.jpg", None, None),
        photo("https://pics.example/a.jpg", Some("pictures/a.jpg"), Some(2)),
        photo("https://pics.example/a.jpg", Some("pictures/a.jpg"), Some(1)),
        photo("https://pics.example/a.jpg", None, Some(9)),
        photo("https://pics.example/a.jpg", Some("pictures/a.jpg"), Some(1)),
    ];
    photos.sort();
    photos.dedup();
    assert_eq!(
        photos,
        vec![
            photo("https://pics.example/a.jpg", None, Some(9)),
            photo("https://pics.example/a.jpg", Some("pictures/a.jpg"), Some(1)),
            photo("https://pics.example/a.jpg", Some("pictures/a.jpg"), Some(2)),
            photo("https://pics.example/b.jpg", None, None),
        ]
    );
}

#[test]
fn photos_compare_saved_paths_by_their_components() {
    let plain = photo("https://pics.example/a.jpg", Some("pictures/a.jpg"), Some(1));
    let doubled = photo("https://pics.example/a.jpg", Some("pictures//a.jpg"), Some(1));
    let dotted = photo("https://pics.example/a.jpg", Some("pictures/./a.jpg"), Some(1));
    let other = photo("https://pics.example/a.jpg", Some("pictures/b.jpg"), Some(1));
    assert_eq!(plain, doubled);
    assert_eq!(plain, dotted);
    assert_ne!(plain, other);
    assert!(plain < other);
    assert!(photo("https://pics.example/a.jpg", Some("pictures/a-b.jpg"), None)
        > photo("https://pics.example/a.jpg", Some("pictures/a/b.jpg"), None));
}

#[test]
fn attributes_keep_label_and_content() {
    let attribute = PetAttribute { label: "Color".to_string(), content: Some("Brindle".to_string()) };
    let copy = attribute.clone();
    assert_eq!(copy.label, "Color");
    assert_eq!(copy.content.as_deref(), Some("Brindle"));
    let bare = PetAttribute { label: "Size".to_string(), content: None };
    assert_eq!(bare.clone().content, None);
}
