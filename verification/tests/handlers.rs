use todo_api::date::CalendarDate;
use todo_api::error::AppError;
use todo_api::handlers::{complete_login, create_todo, login, upload_image};
use todo_api::ingest::{Assembled, MultipartField, ParsedSubmission};
use todo_api::middleware::RequestContext;
use todo_api::models::{Claims, LoginRequest};
use todo_api::token::validate;

const USER_ID: &str = "550e8400-e29b-41d4-a716-446655440000";
const USER_NUMBER: u128 = 0x550e8400_e29b_41d4_a716_446655440000;

fn established() -> RequestContext {
    RequestContext::with_claims(Claims { sub: USER_ID.to_string(), exp: 1 })
}

fn part(name: &str, filename: Option<&str>, data: &[u8]) -> MultipartField {
    MultipartField {
        name: Some(name.to_string()),
        filename: filename.map(str::to_string),
        data: data.to_vec(),
    }
}

fn bad_request(message: &str) -> AppError {
    AppError::BadRequest(message.to_string())
}

#[test]
fn creating_an_entry_needs_an_established_user() {
    let fields = vec![part("text", None, b"Buy milk"), part("date", None, b"2024-05-01")];
    assert_eq!(
        create_todo(&RequestContext::new(), &fields),
        Err(AppError::Unauthorized("Missing authentication".to_string()))
    );
    let stranger = RequestContext::with_claims(Claims { sub: "nobody".to_string(), exp: 1 });
    match create_todo(&stranger, &fields) {
        Err(AppError::BadRequest(message)) => assert!(message.starts_with("Invalid UUID: ")),
        other => panic!("{:?}", other),
    }
}

#[test]
fn the_user_is_established_before_the_body_is_read() {
    let broken = vec![part("text", None, &[0xff])];
    assert_eq!(
        create_todo(&RequestContext::new(), &broken),
        Err(AppError::Unauthorized("Missing authentication".to_string()))
    );
    assert_eq!(create_todo(&established(), &broken), Err(bad_request("Invalid UTF-8 data")));
}

#[test]
fn creating_an_entry_yields_user_and_submission() {
    let fields = vec![part("text", None, b"Buy milk"), part("date", None, b"2024-05-01")];
    assert_eq!(
        create_todo(&established(), &fields),
        Ok((
            USER_NUMBER,
            Assembled::Complete(ParsedSubmission {
                text: "Buy milk".to_string(),
                date: CalendarDate { year: 2024, month: 5, day: 1 },
                attachment: None,
            })
        ))
    );
}

#[test]
fn creating_an_entry_answers_each_defect_with_its_message() {
    let context = established();
    assert_eq!(
        create_todo(&context, &vec![part("date", None, b"2024-05-01")]),
        Err(bad_request("Missing text field"))
    );
    assert_eq!(
        create_todo(&context, &vec![part("text", None, b"Buy milk")]),
        Err(bad_request("Missing date field"))
    );
    assert_eq!(
        create_todo(
            &context,
            &vec![part("text", None, b"Buy milk"), part("date", None, b"2024-13-40")]
        ),
        Err(bad_request("Invalid date format, use YYYY-MM-DD"))
    );
    assert_eq!(
        create_todo(
            &context,
            &vec![
                part("text", None, b"Buy milk"),
                part("date", None, b"2024-05-01"),
                part("image", Some("photo.txt"), b"bytes"),
            ]
        ),
        Err(bad_request("File must be an image"))
    );
    assert_eq!(
        create_todo(
            &context,
            &vec![MultipartField { name: None, filename: None, data: Vec::new() }]
        ),
        Err(bad_request("Field name not found"))
    );
}

#[test]
fn creating_an_entry_with_an_image_asks_for_storage() {
    let fields = vec![
        part("text", None, b"Buy milk"),
        part("image", Some("cat.png"), b"png"),
        part("date", None, b"2024-05-01"),
    ];
    match create_todo(&established(), &fields) {
        Ok((user, Assembled::NeedsStorage(pending))) => {
            assert_eq!(user, USER_NUMBER);
            assert!(pending.disk_path.starts_with("uploads/todo_"));
            assert!(pending.disk_path.ends_with(".png"));
            assert_eq!(pending.bytes, b"png".to_vec());
        }
        other => panic!("{:?}", other),
    }
}

#[test]
fn uploading_needs_an_established_user_and_an_image() {
    let fields = vec![part("image", Some("cat.png"), b"png")];
    assert_eq!(
        upload_image(&RequestContext::new(), &fields),
        Err(AppError::Unauthorized("Missing authentication".to_string()))
    );
    assert_eq!(
        upload_image(&established(), &Vec::new()),
        Err(bad_request("No image found in request"))
    );
    assert_eq!(
        upload_image(&established(), &vec![part("image", Some("notes.txt"), b"text")]),
        Err(bad_request("File must be an image"))
    );
    let pending = upload_image(&established(), &fields).unwrap();
    assert!(pending.response.image_url.starts_with("/uploads/image_"));
    assert!(pending.response.image_url.ends_with(".png"));
    assert_eq!(pending.bytes, b"png".to_vec());
}

#[test]
fn login_checks_the_credentials_then_signs() {
    let request = LoginRequest {
        email: "test@example.com".to_string(),
        password: "securepassword".to_string(),
    };
    let response = login(&request, USER_ID, 1_700_000_000, "secret").unwrap();
    assert_eq!(
        validate(Some(&format!("Bearer {}", response.token)), "secret"),
        Ok(Claims { sub: USER_ID.to_string(), exp: 1_700_086_400 })
    );
    assert_eq!(complete_login(USER_ID, 1_700_000_000, "secret"), Ok(response));

    let wrong = LoginRequest {
        email: "test@example.com".to_string(),
        password: "guess".to_string(),
    };
    assert_eq!(
        login(&wrong, USER_ID, 1_700_000_000, "secret"),
        Err(AppError::Unauthorized("Invalid credentials".to_string()))
    );
}
