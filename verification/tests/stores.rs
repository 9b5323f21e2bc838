use auth_core::clock::Timestamp;
use auth_core::entity::{
    NewEmailVerificationToken, NewPasswordResetToken, NewUser, NewUserSession, User,
};
use auth_core::errors::AppError;
use auth_core::ids::Uuid;
use auth_core::memory::{MemoryPosts, MemorySessions, MemoryTokens, MemoryUsers};
use auth_core::posts::{NewPost, PostRepository, PostService};
use auth_core::repository::{SessionRepository, UserRepository, VerificationTokenRepository};
use auth_core::users::UserService;

fn at(micros: i64) -> Timestamp {
    Timestamp::from_micros(micros)
}

fn new_user(email: &str) -> NewUser {
    NewUser { email: email.to_string(), password_hash: "digest".to_string() }
}

fn new_session(user: u128, expires: i64) -> NewUserSession {
    NewUserSession {
        user_id: Uuid::from_u128(user),
        refresh_token_hash: "digest".to_string(),
        user_agent: Some("ua".to_string()),
        ip_address: Some("10.0.0.1".to_string()),
        device_name: Some("device".to_string()),
        expires_at: at(expires),
    }
}

#[test]
fn users_are_numbered_and_found() {
    let mut users = MemoryUsers::new(vec!["admin".to_string()]);
    let a = users.create(new_user("a@x.com"), at(5)).unwrap();
    let b = users.create(new_user("b@x.com"), at(6)).unwrap();
    assert_eq!(
        a,
        User {
            id: Uuid::from_u128(1),
            email: "a@x.com".to_string(),
            password_hash: "digest".to_string(),
            is_active: true,
            is_verified: false,
            created_at: at(5),
            updated_at: at(5),
            last_login_at: None,
        }
    );
    assert_eq!(b.id, Uuid::from_u128(2));
    assert_eq!(users.find_by_email("b@x.com"), Ok(Some(b.clone())));
    assert_eq!(users.find_by_email("c@x.com"), Ok(None));
    assert_eq!(users.find_by_id(Uuid::from_u128(1)), Ok(Some(a)));
    assert_eq!(users.find_by_id(Uuid::from_u128(0)), Ok(None));
    assert_eq!(users.find_by_id(Uuid::from_u128(3)), Ok(None));
    assert!(matches!(users.create(new_user("a@x.com"), at(7)), Err(AppError::DatabaseError(_))));
    assert_eq!(users.find_by_id(Uuid::from_u128(3)), Ok(None));
}

#[test]
fn user_updates_touch_one_field_of_one_row() {
    let mut users = MemoryUsers::new(Vec::new());
    let a = users.create(new_user("a@x.com"), at(5)).unwrap();
    let b = users.create(new_user("b@x.com"), at(6)).unwrap();
    users.verify_user(a.id).unwrap();
    users.update_password(a.id, "other").unwrap();
    users.update_last_login(a.id, at(9)).unwrap();
    users.set_active(a.id, false);
    users.verify_user(Uuid::from_u128(77)).unwrap();
    users.update_password(Uuid::from_u128(77), "x").unwrap();
    users.update_last_login(Uuid::from_u128(77), at(1)).unwrap();
    let stored = users.find_by_id(a.id).unwrap().unwrap();
    assert_eq!(
        stored,
        User {
            is_verified: true,
            password_hash: "other".to_string(),
            last_login_at: Some(at(9)),
            is_active: false,
            ..a
        }
    );
    assert_eq!(users.find_by_id(b.id), Ok(Some(b)));
}

#[test]
fn roles_are_assigned_in_order_and_removed() {
    let mut users = MemoryUsers::new(vec!["admin".to_string(), "editor".to_string()]);
    let a = users.create(new_user("a@x.com"), at(5)).unwrap();
    assert_eq!(users.get_roles(a.id), Ok(Vec::new()));
    assert_eq!(users.get_roles(Uuid::from_u128(9)), Ok(Vec::new()));
    users.add_role(a.id, "editor").unwrap();
    users.add_role(a.id, "admin").unwrap();
    assert_eq!(users.get_roles(a.id), Ok(vec!["editor".to_string(), "admin".to_string()]));
    assert_eq!(
        users.add_role(a.id, "owner"),
        Err(AppError::NotFound("Role owner not found".to_string()))
    );
    assert!(matches!(users.add_role(a.id, "admin"), Err(AppError::DatabaseError(_))));
    assert!(matches!(users.add_role(Uuid::from_u128(9), "admin"), Err(AppError::DatabaseError(_))));
    users.remove_role(a.id, "editor").unwrap();
    assert_eq!(users.get_roles(a.id), Ok(vec!["admin".to_string()]));
    users.remove_role(a.id, "editor").unwrap();
    assert_eq!(users.get_roles(a.id), Ok(vec!["admin".to_string()]));
    assert_eq!(
        users.remove_role(a.id, "owner"),
        Err(AppError::NotFound("Role owner not found".to_string()))
    );
}

#[test]
fn user_service_reports_what_is_missing() {
    let mut users = MemoryUsers::new(vec!["admin".to_string()]);
    let a = users.create(new_user("a@x.com"), at(5)).unwrap();
    let mut service = UserService::new(users);
    assert_eq!(service.find_user_by_id(a.id), Ok(a.clone()));
    assert_eq!(service.find_user_by_email("a@x.com"), Ok(a.clone()));
    assert_eq!(
        service.find_user_by_id(Uuid::from_u128(2)),
        Err(AppError::NotFound(
            "User with id 00000000-0000-0000-0000-000000000002 not found".to_string()
        ))
    );
    assert_eq!(
        service.find_user_by_email("b@x.com"),
        Err(AppError::NotFound("User with email b@x.com not found".to_string()))
    );
    assert_eq!(
        service.remove_role(a.id, "admin"),
        Err(AppError::Conflict("User does not have role 'admin'".to_string()))
    );
    assert_eq!(service.assign_role(a.id, "admin"), Ok(()));
    assert_eq!(
        service.assign_role(a.id, "admin"),
        Err(AppError::Conflict("User already has role 'admin'".to_string()))
    );
    assert_eq!(
        service.assign_role(a.id, "owner"),
        Err(AppError::NotFound("Role owner not found".to_string()))
    );
    assert_eq!(
        service.assign_role(Uuid::from_u128(2), "admin"),
        Err(AppError::NotFound(
            "User with id 00000000-0000-0000-0000-000000000002 not found".to_string()
        ))
    );
    assert_eq!(service.user_repo.get_roles(a.id), Ok(vec!["admin".to_string()]));
    assert_eq!(service.remove_role(a.id, "admin"), Ok(()));
    assert_eq!(service.user_repo.get_roles(a.id), Ok(Vec::new()));
}

#[test]
fn sessions_are_created_and_changed_row_by_row() {
    let mut sessions = MemorySessions::new();
    assert_eq!(sessions.len(), 0);
    let a = sessions.create(new_session(1, 100), at(10)).unwrap();
    let b = sessions.create(new_session(1, 200), at(20)).unwrap();
    assert_eq!(sessions.len(), 2);
    assert_eq!(a.id, Uuid::from_u128(1));
    assert_eq!(b.id, Uuid::from_u128(2));
    assert_eq!((a.created_at, a.last_used_at, a.is_revoked), (at(10), at(10), false));
    assert_eq!(a.device_name, Some("device".to_string()));
    sessions.update_last_used(a.id, at(30)).unwrap();
    sessions.update_refresh_token(b.id, "next".to_string(), at(900), at(40)).unwrap();
    sessions.update_last_used(Uuid::from_u128(5), at(30)).unwrap();
    sessions.update_refresh_token(Uuid::from_u128(5), "x".to_string(), at(1), at(1)).unwrap();
    sessions.revoke(Uuid::from_u128(5)).unwrap();
    let stored_a = sessions.find_by_id(a.id).unwrap().unwrap();
    let stored_b = sessions.find_by_id(b.id).unwrap().unwrap();
    assert_eq!(stored_a.last_used_at, at(30));
    assert_eq!(stored_a.refresh_token_hash, "digest");
    assert_eq!(stored_a.expires_at, at(100));
    assert_eq!(stored_b.refresh_token_hash, "next");
    assert_eq!(stored_b.expires_at, at(900));
    assert_eq!(stored_b.last_used_at, at(40));
    assert_eq!(stored_b.created_at, at(20));
    assert_eq!(sessions.find_by_id(Uuid::from_u128(3)), Ok(None));
    assert_eq!(sessions.find_by_id(Uuid::from_u128(0)), Ok(None));
}

#[test]
fn active_sessions_are_listed_newest_first() {
    let mut sessions = MemorySessions::new();
    let user = Uuid::from_u128(1);
    let old = sessions.create(new_session(1, 1_000), at(10)).unwrap();
    let newest = sessions.create(new_session(1, 1_000), at(30)).unwrap();
    let other = sessions.create(new_session(2, 1_000), at(25)).unwrap();
    let middle = sessions.create(new_session(1, 1_000), at(20)).unwrap();
    let expired = sessions.create(new_session(1, 50), at(40)).unwrap();
    let revoked = sessions.create(new_session(1, 1_000), at(50)).unwrap();
    sessions.revoke(revoked.id).unwrap();
    let ids = |rows: Vec<auth_core::entity::UserSession>| -> Vec<Uuid> {
        rows.iter().map(|s| s.id).collect()
    };
    assert_eq!(
        ids(sessions.find_active_by_user(user, at(100)).unwrap()),
        vec![newest.id, middle.id, old.id]
    );
    assert_eq!(
        ids(sessions.find_active_by_user(user, at(49)).unwrap()),
        vec![expired.id, newest.id, middle.id, old.id]
    );
    assert_eq!(ids(sessions.find_active_by_user(user, at(50)).unwrap()).len(), 3);
    assert_eq!(ids(sessions.find_active_by_user(Uuid::from_u128(2), at(0)).unwrap()), vec![other.id]);
    assert_eq!(sessions.find_active_by_user(user, at(1_000)), Ok(Vec::new()));
    assert_eq!(sessions.find_active_by_user(Uuid::from_u128(3), at(0)), Ok(Vec::new()));
    sessions.revoke_all_for_user(user).unwrap();
    assert_eq!(sessions.find_active_by_user(user, at(0)), Ok(Vec::new()));
    assert_eq!(sessions.find_active_by_user(Uuid::from_u128(2), at(0)).unwrap().len(), 1);
}

#[test]
fn latest_unused_token_is_found_per_kind() {
    let mut tokens = MemoryTokens::new();
    let user = Uuid::from_u128(1);
    let email = |hash: &str| NewEmailVerificationToken {
        user_id: user,
        token_hash: hash.to_string(),
        expires_at: at(1_000),
    };
    assert_eq!(tokens.find_email_verification_by_user(user), Ok(None));
    let first = tokens.create_email_verification(email("h1"), at(10)).unwrap();
    let second = tokens.create_email_verification(email("h2"), at(30)).unwrap();
    let third = tokens.create_email_verification(email("h3"), at(20)).unwrap();
    assert_eq!((first.id, first.used, first.created_at), (Uuid::from_u128(1), false, at(10)));
    assert_eq!(tokens.find_email_verification_by_user(user), Ok(Some(second.clone())));
    tokens.mark_email_verification_as_used(second.id).unwrap();
    assert_eq!(tokens.find_email_verification_by_user(user), Ok(Some(third.clone())));
    tokens.mark_email_verification_as_used(third.id).unwrap();
    tokens.mark_email_verification_as_used(Uuid::from_u128(9)).unwrap();
    assert_eq!(tokens.find_email_verification_by_user(user), Ok(Some(first.clone())));
    tokens.mark_password_reset_as_used(first.id).unwrap();
    assert_eq!(tokens.find_email_verification_by_user(user), Ok(Some(first)));
    assert_eq!(tokens.find_email_verification_by_user(Uuid::from_u128(2)), Ok(None));
    assert_eq!(tokens.find_password_reset_by_user(user), Ok(None));
    let reset = tokens
        .create_password_reset(
            NewPasswordResetToken { user_id: user, token_hash: "r".to_string(), expires_at: at(5) },
            at(1),
        )
        .unwrap();
    assert_eq!(reset.id, Uuid::from_u128(1));
    assert_eq!(tokens.find_password_reset_by_user(user), Ok(Some(reset.clone())));
    tokens.mark_password_reset_as_used(reset.id).unwrap();
    assert_eq!(tokens.find_password_reset_by_user(user), Ok(None));
}

#[test]
fn posts_are_paged_newest_first() {
    let mut posts = MemoryPosts::new();
    let author = Uuid::from_u128(1);
    let mut ids = Vec::new();
    for (i, created) in [10, 50, 30, 40, 20].iter().enumerate() {
        let post = posts
            .create(
                NewPost { title: format!("t{}", i), content: "c".to_string(), author_id: author },
                at(*created),
            )
            .unwrap();
        assert!(!post.is_published);
        ids.push(post.id);
    }
    let page = |posts: &MemoryPosts, limit: i64, offset: i64| -> Vec<Uuid> {
        posts.find_all(limit, offset).unwrap().iter().map(|p| p.id).collect()
    };
    assert_eq!(page(&posts, 10, 0), vec![ids[1], ids[3], ids[2], ids[4], ids[0]]);
    assert_eq!(page(&posts, 2, 0), vec![ids[1], ids[3]]);
    assert_eq!(page(&posts, 2, 2), vec![ids[2], ids[4]]);
    assert_eq!(page(&posts, 2, 4), vec![ids[0]]);
    assert_eq!(page(&posts, 2, 5), Vec::new());
    assert_eq!(page(&posts, 0, 0), Vec::new());
    assert_eq!(page(&posts, i64::MAX, i64::MAX), Vec::new());
    assert!(matches!(posts.find_all(-1, 0), Err(AppError::DatabaseError(_))));
    assert!(matches!(posts.find_all(1, -1), Err(AppError::DatabaseError(_))));
    posts.delete(ids[3]).unwrap();
    posts.delete(Uuid::from_u128(99)).unwrap();
    assert_eq!(page(&posts, 10, 0), vec![ids[1], ids[2], ids[4], ids[0]]);
    assert_eq!(posts.find_by_id(ids[3]), Ok(None));
    let next = posts
        .create(NewPost { title: "n".to_string(), content: "c".to_string(), author_id: author }, at(5))
        .unwrap();
    assert_eq!(next.id, Uuid::from_u128(6));
}

#[test]
fn post_service_lets_the_author_and_admins_change_a_post() {
    let mut service = PostService::new(MemoryPosts::new());
    let author = Uuid::from_u128(1);
    let stranger = Uuid::from_u128(2);
    let post = service.create_post("title".to_string(), "content".to_string(), author).unwrap();
    assert_eq!(post.author_id, author);
    assert_eq!(post.created_at, post.updated_at);
    assert_eq!(service.get_post(post.id), Ok(post.clone()));
    assert_eq!(
        service.get_post(Uuid::from_u128(7)),
        Err(AppError::NotFound(
            "Post with id 00000000-0000-0000-0000-000000000007 not found".to_string()
        ))
    );
    assert_eq!(
        service.update_post(post.id, "x".to_string(), "y".to_string(), true, stranger, false),
        Err(AppError::Forbidden("You do not have permission to update this post".to_string()))
    );
    assert_eq!(service.get_post(post.id), Ok(post.clone()));
    let updated =
        service.update_post(post.id, "x".to_string(), "y".to_string(), true, author, false).unwrap();
    assert_eq!((updated.title.as_str(), updated.content.as_str()), ("x", "y"));
    assert!(updated.is_published);
    assert_eq!(updated.created_at, post.created_at);
    assert_eq!(updated.author_id, author);
    let by_admin =
        service.update_post(post.id, "z".to_string(), "y".to_string(), false, stranger, true).unwrap();
    assert_eq!(by_admin.title, "z");
    assert_eq!(service.get_post(post.id), Ok(by_admin));
    assert!(matches!(
        service.update_post(Uuid::from_u128(7), "x".to_string(), "y".to_string(), true, author, true),
        Err(AppError::NotFound(_))
    ));
    assert_eq!(
        service.delete_post(post.id, stranger, false),
        Err(AppError::Forbidden("You do not have permission to delete this post".to_string()))
    );
    assert!(matches!(service.delete_post(Uuid::from_u128(7), author, true), Err(AppError::NotFound(_))));
    assert_eq!(service.delete_post(post.id, stranger, true), Ok(()));
    assert!(matches!(service.get_post(post.id), Err(AppError::NotFound(_))));
    let second = service.create_post("a".to_string(), "b".to_string(), author).unwrap();
    assert_eq!(service.delete_post(second.id, author, false), Ok(()));
}

#[test]
fn post_list_pages_from_one_and_defaults_to_ten() {
    let mut service = PostService::new(MemoryPosts::new());
    let author = Uuid::from_u128(1);
    for i in 0..25 {
        service
            .repo
            .create(
                NewPost { title: format!("t{}", i), content: "c".to_string(), author_id: author },
                at(i),
            )
            .unwrap();
    }
    let titles = |rows: Vec<auth_core::posts::Post>| -> Vec<String> {
        rows.into_iter().map(|p| p.title).collect()
    };
    assert_eq!(titles(service.list_posts(1, 3).unwrap()), vec!["t24", "t23", "t22"]);
    assert_eq!(titles(service.list_posts(2, 3).unwrap()), vec!["t21", "t20", "t19"]);
    assert_eq!(titles(service.list_posts(9, 3).unwrap()), vec!["t0"]);
    assert_eq!(service.list_posts(10, 3).unwrap().len(), 0);
    assert_eq!(service.list_posts(1, 0).unwrap().len(), 10);
    assert_eq!(service.list_posts(3, -4).unwrap().len(), 5);
    assert_eq!(titles(service.list_posts(0, 2).unwrap()), vec!["t24", "t23"]);
    assert_eq!(titles(service.list_posts(-7, 2).unwrap()), vec!["t24", "t23"]);
    assert_eq!(service.list_posts(i64::MAX, i64::MAX).unwrap().len(), 0);
    assert_eq!(service.list_posts(1, i64::MAX).unwrap().len(), 25);
}
