use todo_api::attachment::{
    conclude_storage, file_extension, fresh_id, place_attachment, validate_attachment, StoredFile,
    DEFAULT_EXTENSION, IMAGE_CATEGORY, UPLOADS_DIR, UPLOADS_URL,
};
use todo_api::error::{BadRequest, IngestError};

fn stored(name: &str) -> StoredFile {
    StoredFile {
        name: name.to_string(),
        disk_path: format!("uploads/{}", name),
        url_path: format!("/uploads/{}", name),
    }
}

fn is_uuid_text(text: &str) -> bool {
    text.len() == 36
        && text.char_indices().all(|(i, c)| match i {
            8 | 13 | 18 | 23 => c == '-',
            _ => c.is_ascii_digit() || ('a'..='f').contains(&c),
        })
}

#[test]
fn constants_of_the_store() {
    assert_eq!(IMAGE_CATEGORY, "image");
    assert_eq!(DEFAULT_EXTENSION, "jpg");
    assert_eq!(UPLOADS_DIR, "uploads/");
    assert_eq!(UPLOADS_URL, "/uploads/");
}

#[test]
fn extension_is_what_follows_the_last_dot() {
    assert_eq!(file_extension("cat.jpg"), "jpg");
    assert_eq!(file_extension("archive.tar.gz"), "gz");
    assert_eq!(file_extension("CAT.PNG"), "PNG");
    assert_eq!(file_extension("photo."), "");
    assert_eq!(file_extension(".hidden"), "hidden");
    assert_eq!(file_extension("dir.d/cat.png"), "png");
}

#[test]
fn extension_falls_back_to_jpg() {
    assert_eq!(file_extension("photo"), "jpg");
    assert_eq!(file_extension(""), "jpg");
}

#[test]
fn image_names_get_a_place_under_the_identifier() {
    assert_eq!(validate_attachment("cat.jpg", "todo_abc"), Ok(stored("todo_abc.jpg")));
    assert_eq!(validate_attachment("Holiday Photo.PNG", "id"), Ok(stored("id.PNG")));
    assert_eq!(validate_attachment("a.b.gif", "id"), Ok(stored("id.gif")));
    assert_eq!(validate_attachment("x.webp", "image_1"), Ok(stored("image_1.webp")));
}

#[test]
fn non_image_extension_is_rejected_whatever_the_bytes() {
    assert_eq!(validate_attachment("photo.txt", "id"), Err(BadRequest::NotAnImage));
    for name in ["photo.pdf", "photo", "", "photo.", ".png", "photo.unknownext", "png", "a.png.exe"]
    {
        assert_eq!(validate_attachment(name, "id"), Err(BadRequest::NotAnImage), "{:?}", name);
    }
}

#[test]
fn the_client_name_never_becomes_the_path() {
    let file = validate_attachment("../../etc/passwd.png", "todo_abc").unwrap();
    assert_eq!(file, stored("todo_abc.png"));
    let file = validate_attachment("/absolute/cat.jpeg", "todo_abc").unwrap();
    assert_eq!(file.disk_path, "uploads/todo_abc.jpeg");
}

#[test]
fn placement_by_category() {
    assert_eq!(place_attachment("image", "id", "cat.jpg"), Ok(stored("id.jpg")));
    assert_eq!(place_attachment("image", "id", "notes.txt"), Ok(stored("id.txt")));
    assert_eq!(place_attachment("image", "id", "noextension"), Ok(stored("id.jpg")));
    assert_eq!(place_attachment("image", "", ""), Ok(stored(".jpg")));
    assert_eq!(place_attachment("application", "id", "cat.jpg"), Err(BadRequest::NotAnImage));
    assert_eq!(place_attachment("text", "id", "cat.jpg"), Err(BadRequest::NotAnImage));
    assert_eq!(place_attachment("Image", "id", "cat.jpg"), Err(BadRequest::NotAnImage));
    assert_eq!(place_attachment("", "id", "cat.jpg"), Err(BadRequest::NotAnImage));
}

#[test]
fn fresh_ids_are_a_prefix_and_a_uuid() {
    let id = fresh_id("todo_");
    assert!(id.starts_with("todo_"));
    assert!(is_uuid_text(&id["todo_".len()..]), "{:?}", id);
    let bare = fresh_id("");
    assert!(is_uuid_text(&bare), "{:?}", bare);
    assert!(uuid::Uuid::parse_str(&bare).is_ok());
}

#[test]
fn same_name_uploads_get_distinct_paths() {
    let first = validate_attachment("cat.jpg", &fresh_id("todo_")).unwrap();
    let second = validate_attachment("cat.jpg", &fresh_id("todo_")).unwrap();
    assert_ne!(first.name, second.name);
    assert_ne!(first.disk_path, second.disk_path);
    assert_ne!(first.url_path, second.url_path);
    assert!(first.name.ends_with(".jpg") && second.name.ends_with(".jpg"));
}

#[test]
fn storage_concludes_with_the_url_or_an_internal_error() {
    assert_eq!(
        conclude_storage(stored("todo_abc.jpg"), Ok(())),
        Ok("/uploads/todo_abc.jpg".to_string())
    );
    assert_eq!(
        conclude_storage(stored("todo_abc.jpg"), Err("No space left on device".to_string())),
        Err(IngestError::InternalError("No space left on device".to_string()))
    );
}
