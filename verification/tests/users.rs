use actix_crud::attributes::{AttributeHelper, AttributeMapHelper, AttributeValue, AttributesMap};
use actix_crud::context::BackendContext;
use actix_crud::user::{BaseModel, UserCreateModel, UserModel, UserPagingResult, UserUpdateModel};
use actix_crud::user_api::{ApiResult, CreateUserFlow, UpdateUserFlow, UserAction, UserApi, UserEvent};
use actix_crud::runtime::Timestamp;
use actix_crud::user_repo::{UserParam, UserProvider};
use actix_crud::user_table::{users_table, SELECT_COUNT_USERS, SELECT_USERS, SELECT_USERS_PAGING};
use std::sync::Arc;

fn sample_user() -> UserModel {
    let mut u = UserModel::default();
    u.username = "mgeorge".to_owned();
    u.first_name = "Michel".to_owned();
    u.last_name = "George".to_owned();
    u.function = "dev".to_owned();
    u.email = "m@example.org".to_owned();
    u
}

fn at(secs: i64, nanos: u32) -> Timestamp {
    Timestamp { secs, nanos }
}

fn is_hyphenated_uuid(s: &str) -> bool {
    s.len() == 36
        && s.as_bytes()[14] == b'4'
        && matches!(s.as_bytes()[19], b'8' | b'9' | b'a' | b'b')
        && s.chars().enumerate().all(|(i, c)| {
            if i == 8 || i == 13 || i == 18 || i == 23 {
                c == '-'
            } else {
                c.is_ascii_digit() || ('a'..='f').contains(&c)
            }
        })
}

#[test]
fn attribute_helpers() {
    assert_eq!(AttributeHelper::string_value(&AttributeValue::Str("x".to_owned())), Ok("x".to_owned()));
    assert_eq!(AttributeHelper::string_value(&AttributeValue::Int(1)), Err("invalid string".to_owned()));
    assert_eq!(AttributeHelper::int_value(&AttributeValue::Int(929)), Ok(929));
    assert_eq!(AttributeHelper::int_value(&AttributeValue::Bool(true)), Err("invalid integer".to_owned()));
    assert_eq!(AttributeHelper::bool_value(&AttributeValue::Bool(false)), Ok(false));
    assert_eq!(
        AttributeHelper::bool_value(&AttributeValue::ListStr(vec![])),
        Err("invalid boolean".to_owned())
    );
    assert!(AttributeHelper::is_valid_attribute(&AttributeValue::ListStr(vec!["I'm Michel".to_owned()])));
    assert!(AttributeHelper::is_valid_attribute(&AttributeValue::Int(-1)));
}

#[test]
fn attributes_map_reads_back_writes() {
    let mut m = AttributesMap::new();
    assert!(m.is_empty());
    assert_eq!(AttributeMapHelper::bool_value(&m, "admin"), None);
    assert_eq!(m.insert("admin".to_owned(), AttributeValue::Bool(true)), None);
    assert_eq!(m.insert("age".to_owned(), AttributeValue::Int(40)), None);
    assert_eq!(m.len(), 2);
    assert_eq!(AttributeMapHelper::bool_value(&m, "admin"), Some(true));
    assert_eq!(AttributeMapHelper::bool_value(&m, "age"), None);
    assert_eq!(AttributeMapHelper::bool_value(&m, "missing"), None);
    assert_eq!(
        m.insert("admin".to_owned(), AttributeValue::Bool(false)),
        Some(AttributeValue::Bool(true))
    );
    assert_eq!(m.len(), 2);
    assert_eq!(AttributeMapHelper::bool_value(&m, "admin"), Some(false));
    assert_eq!(m.get("age"), Some(&AttributeValue::Int(40)));
    assert_eq!(m.entries().len(), 2);
}

#[test]
fn metadata_stamps() {
    let c = BaseModel::created("ann".to_owned(), at(42, 17));
    assert_eq!(c.created_by, Some("ann".to_owned()));
    assert_eq!(c.created_at, Some(at(42, 17)));
    assert_eq!(c.updated_by, None);
    assert_eq!(c.version, 1);
    let u = BaseModel::updated("bob".to_owned(), at(7, 999_999_999));
    assert_eq!(u.updated_by, Some("bob".to_owned()));
    assert_eq!(u.updated_at, Some(at(7, 999_999_999)));
    assert_eq!(u.created_at, None);
    let now = BaseModel::from_creator("ann".to_owned());
    assert!(now.created_at.unwrap().secs > 1_600_000_000);
    let later = BaseModel::from_updater("bob".to_owned());
    let (a, b) = (later.updated_at.unwrap(), now.created_at.unwrap());
    assert!((a.secs, a.nanos) >= (b.secs, b.nanos));
    let copy = c.clone();
    assert_eq!(copy.created_by, c.created_by);
    assert_eq!(copy.created_at, c.created_at);
    let d = BaseModel::default();
    assert_eq!(d.version, 0);
    assert_eq!(d.created_by, None);
}

#[test]
fn request_models_become_users() {
    let create = UserCreateModel {
        username: "u".to_owned(),
        first_name: "f".to_owned(),
        last_name: "l".to_owned(),
        function: "fn".to_owned(),
        email: "e".to_owned(),
        attributes: None,
    };
    let u = create.into();
    assert_eq!(u.user_id, "");
    assert_eq!(u.username, "u");
    assert_eq!(u.email, "e");
    assert_eq!(u.metadata.version, 0);
    let update = UserUpdateModel {
        user_id: "id-1".to_owned(),
        username: "ignored".to_owned(),
        first_name: "f2".to_owned(),
        last_name: "l2".to_owned(),
        function: "fn2".to_owned(),
        email: "e2".to_owned(),
        attributes: Some(AttributesMap::new()),
    };
    let u = update.into();
    assert_eq!(u.user_id, "");
    assert_eq!(u.username, "");
    assert_eq!(u.first_name, "f2");
    assert!(u.attributes.is_some());
}

#[test]
fn users_table_columns() {
    let t = users_table();
    assert_eq!(t.table_name, "USERS");
    assert_eq!(t.insert_columns.len(), 10);
    assert_eq!(t.update_columns.len(), 8);
    assert_eq!(SELECT_COUNT_USERS, "SELECT COUNT(*) FROM USERS");
    assert_eq!(SELECT_USERS, "SELECT u.* FROM USERS u");
    assert_eq!(SELECT_USERS_PAGING, "SELECT u.* FROM USERS u OFFSET $1 LIMIT $2");
}

#[test]
fn user_store_statements() {
    assert_eq!(
        UserProvider::create_user_sql(),
        "INSERT INTO USERS (user_id,username,first_name,last_name,function,email,attributes,created_by,created_at,version) VALUES($1,$2,$3,$4,$5,$6,$7,$8,$9,$10)"
    );
    assert_eq!(
        UserProvider::update_user_sql(),
        "UPDATE USERS SET username=$1,first_name=$2,last_name=$3,function=$4,email=$5,attributes=$6,updated_by=$7,updated_at=$8, version = version + 1 WHERE user_id = $9"
    );
    assert_eq!(UserProvider::delete_user_sql(), "DELETE FROM USERS WHERE user_id = $1");
    assert_eq!(UserProvider::load_user_by_id_sql(), "SELECT * FROM USERS WHERE user_id = $1 ");
    assert_eq!(
        UserProvider::load_user_by_ids_sql(3),
        "SELECT * FROM USERS WHERE user_id IN ($1,$2,$3) "
    );
    assert_eq!(UserProvider::load_user_by_username_sql(), "SELECT * FROM USERS WHERE email = $1 ");
    assert_eq!(UserProvider::load_user_by_email_sql(), "SELECT * FROM USERS WHERE email = $1 ");
    assert_eq!(
        UserProvider::user_exists_by_username_sql(),
        "SELECT COUNT(*) FROM USERS WHERE username = $1"
    );
    assert_eq!(
        UserProvider::user_exists_by_email_sql(),
        "SELECT COUNT(*) FROM USERS WHERE email = $1"
    );
    assert_eq!(UserProvider::count_users_sql(), "SELECT COUNT(*) FROM USERS");
}

#[test]
fn user_store_pages_and_outcomes() {
    assert_eq!(
        UserProvider::users_page_query(Some(3), Some(20)),
        ("SELECT u.* FROM USERS u OFFSET $1 LIMIT $2".to_owned(), Some((60, 20)))
    );
    assert_eq!(
        UserProvider::users_page_query(Some(3), None),
        ("SELECT u.* FROM USERS u".to_owned(), None)
    );
    assert_eq!(
        UserProvider::users_page_query(None, Some(5)),
        ("SELECT u.* FROM USERS u".to_owned(), None)
    );
    assert_eq!(UserProvider::update_outcome(1), Ok(()));
    assert_eq!(UserProvider::update_outcome(0), Err("Failed to update user".to_owned()));
    assert_eq!(UserProvider::update_outcome(2), Err("Failed to update user".to_owned()));
    assert!(UserProvider::exists_from_count(1));
    assert!(!UserProvider::exists_from_count(0));
}

fn error_of<T>(r: &ApiResult<T>) -> Option<(u16, String, String)> {
    match r {
        ApiResult::Error { status, code, message } => Some((*status, code.clone(), message.clone())),
        _ => None,
    }
}

#[test]
fn create_flow_refuses_taken_username() {
    let (flow, action) = CreateUserFlow::start(sample_user());
    assert!(matches!(&action, UserAction::CheckUsername(n) if n == "mgeorge"));
    let (flow, action) = flow.step(UserEvent::Exists(Ok(true)));
    assert!(matches!(flow, CreateUserFlow::Finished));
    match action {
        UserAction::Reply(r) => assert_eq!(
            error_of(&r),
            Some((409, "409".to_owned(), "username already exists".to_owned()))
        ),
        _ => panic!("expected a reply"),
    }
}

#[test]
fn create_flow_refuses_taken_email() {
    let (flow, _) = CreateUserFlow::start(sample_user());
    // a failed check does not stop the creation
    let (flow, action) = flow.step(UserEvent::Exists(Err("db down".to_owned())));
    assert!(matches!(&action, UserAction::CheckEmail(e) if e == "m@example.org"));
    let (flow, action) = flow.step(UserEvent::Exists(Ok(true)));
    assert!(matches!(flow, CreateUserFlow::Finished));
    match action {
        UserAction::Reply(r) => assert_eq!(
            error_of(&r),
            Some((409, "409".to_owned(), "email already exists".to_owned()))
        ),
        _ => panic!("expected a reply"),
    }
}

#[test]
fn create_flow_stores_and_replies_with_the_user() {
    let (flow, _) = CreateUserFlow::start(sample_user());
    let (flow, _) = flow.step(UserEvent::Exists(Ok(false)));
    let (flow, action) = flow.step(UserEvent::Exists(Ok(false)));
    assert!(matches!(action, UserAction::StoreNewUser));
    let pending = flow.pending_user().unwrap();
    assert!(is_hyphenated_uuid(&pending.user_id));
    assert_eq!(pending.username, "mgeorge");
    assert_eq!(pending.metadata.created_by, Some("michel".to_owned()));
    assert_eq!(pending.metadata.version, 1);
    assert!(pending.metadata.created_at.is_some());
    let id = pending.user_id.clone();
    // an event of another kind is ignored
    let (flow, action) = flow.step(UserEvent::Exists(Ok(true)));
    assert!(matches!(action, UserAction::Ignore));
    // whatever the store answers, the prepared user is sent back
    let (flow, action) = flow.step(UserEvent::Saved(Err("duplicate".to_owned())));
    assert!(matches!(flow, CreateUserFlow::Finished));
    match action {
        UserAction::Reply(ApiResult::Data(u)) => {
            assert_eq!(u.user_id, id);
            assert_eq!(u.email, "m@example.org");
        }
        _ => panic!("expected the created user"),
    }
}

#[test]
fn prepare_and_merge_are_exact() {
    let n = UserApi::prepare_new_user(sample_user(), "id-9".to_owned(), at(99, 1));
    assert_eq!(n.user_id, "id-9");
    assert_eq!(n.metadata.created_at, Some(at(99, 1)));
    assert_eq!(n.metadata.created_by, Some("michel".to_owned()));
    let mut existing = sample_user();
    existing.user_id = "id-1".to_owned();
    let mut changes = UserModel::default();
    changes.username = "new".to_owned();
    changes.email = "new@example.org".to_owned();
    let m = UserApi::merge_update(existing, changes, at(5, 5));
    assert_eq!(m.user_id, "id-1");
    assert_eq!(m.username, "new");
    assert_eq!(m.first_name, "");
    assert_eq!(m.metadata.updated_by, Some("michel".to_owned()));
    assert_eq!(m.metadata.updated_at, Some(at(5, 5)));
    assert_eq!(m.metadata.created_at, None);
}

#[test]
fn update_flow_paths() {
    let mut req = UserModel::default();
    req.user_id = "id-1".to_owned();
    req.username = "renamed".to_owned();

    let (flow, action) = UpdateUserFlow::start(req);
    assert!(matches!(&action, UserAction::LoadUser(id) if id == "id-1"));
    let (flow2, action2) = flow.step(UserEvent::Loaded(Ok(None)));
    assert!(matches!(flow2, UpdateUserFlow::Finished));
    match action2 {
        UserAction::Reply(r) => {
            assert_eq!(error_of(&r), Some((404, "404".to_owned(), "user not found".to_owned())))
        }
        _ => panic!("expected a reply"),
    }

    let mut req = UserModel::default();
    req.user_id = "id-1".to_owned();
    let (flow, _) = UpdateUserFlow::start(req);
    let (_, action) = flow.step(UserEvent::Loaded(Err("boom".to_owned())));
    match action {
        UserAction::Reply(r) => assert_eq!(error_of(&r), Some((500, "500".to_owned(), "boom".to_owned()))),
        _ => panic!("expected a reply"),
    }

    let mut req = UserModel::default();
    req.user_id = "id-1".to_owned();
    req.username = "renamed".to_owned();
    let (flow, _) = UpdateUserFlow::start(req);
    let mut stored = sample_user();
    stored.user_id = "id-1".to_owned();
    let (flow, action) = flow.step(UserEvent::Loaded(Ok(Some(stored))));
    assert!(matches!(action, UserAction::StoreUpdatedUser));
    let pending = flow.pending_user().unwrap();
    assert_eq!(pending.user_id, "id-1");
    assert_eq!(pending.username, "renamed");
    assert_eq!(pending.metadata.updated_by, Some("michel".to_owned()));
    let (done, action) = flow.step(UserEvent::Saved(Ok(())));
    assert!(matches!(done, UpdateUserFlow::Finished));
    assert!(matches!(action, UserAction::Reply(ApiResult::NoContent)));
}

#[test]
fn update_flow_store_failure() {
    let mut req = UserModel::default();
    req.user_id = "id-1".to_owned();
    let (flow, _) = UpdateUserFlow::start(req);
    let (flow, _) = flow.step(UserEvent::Loaded(Ok(Some(sample_user()))));
    let (flow, action) = flow.step(UserEvent::Loaded(Ok(None)));
    assert!(matches!(action, UserAction::Ignore));
    let (_, action) = flow.step(UserEvent::Saved(Err("Failed to update user".to_owned())));
    match action {
        UserAction::Reply(r) => assert_eq!(
            error_of(&r),
            Some((500, "500".to_owned(), "Failed to update user".to_owned()))
        ),
        _ => panic!("expected a reply"),
    }
}

#[test]
fn single_answer_replies() {
    assert!(matches!(UserApi::delete_user_reply(Ok(())), ApiResult::NoContent));
    assert_eq!(
        error_of(&UserApi::delete_user_reply(Err("x".to_owned()))),
        Some((500, "500".to_owned(), "x".to_owned()))
    );
    assert!(matches!(UserApi::load_user_by_id_reply(Ok(None)), ApiResult::NotFound));
    match UserApi::load_user_by_id_reply(Ok(Some(sample_user()))) {
        ApiResult::Data(u) => assert_eq!(u.username, "mgeorge"),
        _ => panic!("expected data"),
    }
    let empty = UserPagingResult { page_size: Some(10), page_index: Some(0), total_count: Some(0), users: vec![] };
    assert!(matches!(UserApi::load_users_reply(Ok(empty)), ApiResult::NoContent));
    let one = UserPagingResult { page_size: None, page_index: None, total_count: Some(1), users: vec![sample_user()] };
    match UserApi::load_users_reply(Ok(one)) {
        ApiResult::Data(p) => assert_eq!(p.users.len(), 1),
        _ => panic!("expected data"),
    }
    match UserApi::count_users_reply(Ok(12)) {
        ApiResult::Data(c) => assert_eq!(c, 12),
        _ => panic!("expected data"),
    }
    assert_eq!(
        error_of(&UserApi::count_users_reply(Err("e".to_owned()))),
        Some((500, "500".to_owned(), "e".to_owned()))
    );
    assert!(matches!(ApiResult::<u8>::from_option(None), ApiResult::NotFound));
    assert!(matches!(ApiResult::from_data(3u8), ApiResult::Data(3)));
}

#[test]
fn context_holds_user_and_time() {
    let mut ctx = BackendContext::from_user(sample_user());
    assert_eq!(ctx.uri(), "/");
    assert!(ctx.response_cookies().is_empty());
    assert_eq!(ctx.authenticated_user().username, "mgeorge");
    let live = ctx.current_time();
    assert!(live.secs > 1_600_000_000);
    ctx.set_current_time(at(123, 456));
    assert_eq!(ctx.current_time(), at(123, 456));
    ctx.set_uri("/api/v1".to_owned());
    assert_eq!(ctx.uri(), "/api/v1");
    ctx.set_response_cookies(vec!["a=b".to_owned()]);
    assert_eq!(ctx.response_cookies().len(), 1);
    let mut other = sample_user();
    other.username = "other".to_owned();
    ctx.set_authenticated_user(&Arc::new(other));
    assert_eq!(ctx.authenticated_user().username, "other");
}

fn describe(p: &UserParam) -> String {
    match p {
        UserParam::Text(s) => format!("text:{}", s),
        UserParam::OptionalText(o) => format!("opt:{:?}", o),
        UserParam::Attributes(a) => format!("attrs:{}", a.as_ref().map(|m| m.len()).unwrap_or(0)),
        UserParam::Instant(t) => format!("at:{:?}", t.map(|t| (t.secs, t.nanos))),
        UserParam::Version(v) => format!("version:{}", v),
    }
}

#[test]
fn statement_parameters_follow_the_placeholders() {
    let mut u = sample_user();
    u.user_id = "id-3".to_owned();
    u.metadata = BaseModel::created("ann".to_owned(), at(10, 20));
    let create: Vec<String> = UserProvider::create_user_params(&u).iter().map(describe).collect();
    assert_eq!(
        create,
        vec![
            "text:id-3", "text:mgeorge", "text:Michel", "text:George", "text:dev",
            "text:m@example.org", "attrs:0", "opt:Some(\"ann\")", "at:Some((10, 20))", "version:1",
        ]
    );
    u.metadata = BaseModel::updated("bob".to_owned(), at(11, 0));
    let update: Vec<String> = UserProvider::update_user_params(&u).iter().map(describe).collect();
    assert_eq!(
        update,
        vec![
            "text:mgeorge", "text:Michel", "text:George", "text:dev", "text:m@example.org",
            "attrs:0", "opt:Some(\"bob\")", "at:Some((11, 0))", "text:id-3",
        ]
    );
}

#[test]
fn page_result_keeps_what_was_asked() {
    let page = UserProvider::page_result(Some(2), Some(10), 31, vec![sample_user()]);
    assert_eq!(page.page_index, Some(2));
    assert_eq!(page.page_size, Some(10));
    assert_eq!(page.total_count, Some(31));
    assert_eq!(page.users.len(), 1);
    let all = UserProvider::page_result(None, None, 0, vec![]);
    assert_eq!(all.total_count, Some(0));
    assert!(all.users.is_empty());
}
