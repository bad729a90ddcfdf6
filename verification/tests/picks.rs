use justpic::api::UploadRequest;
use justpic::cache::pick_cache_key;
use justpic::picks::{DbPick, PickWithUser, Status};
use justpic::responses::{
    card_responses, pick_responses, session_responses, CardResponse, PickResponse, UserResponse,
    UserSelfResponse,
};
use justpic::roles::Role;
use justpic::server_error::Error;
use justpic::sessions::DbSession;
use justpic::upload::{
    check_card_owner, check_pick_visibility, new_upload_pick, parse_resource_id, pick_needs_viewer,
};
use justpic::users::DbUser;

#[test]
fn status_and_role_text_round_trip() {
    for s in [Status::Pending, Status::Processing, Status::Ready, Status::Failed] {
        assert_eq!(Status::from(s.as_str().to_string()), s);
    }
    assert_eq!(Status::Ready.as_str(), "ready");
    assert_eq!(Status::from("READY".to_string()), Status::Pending);
    for r in [Role::Regular, Role::Moderator, Role::Admin] {
        assert_eq!(Role::from(r.as_str().to_string()), r);
    }
    assert_eq!(Role::Moderator.as_str(), "moderator");
    assert_eq!(Role::from("root".to_string()), Role::Regular);
    assert!(Role::Admin.is_admin() && Role::Admin.is_moder());
    assert!(!Role::Moderator.is_admin() && Role::Moderator.is_moder());
    assert!(!Role::Regular.is_moder());
}

fn sample_pick(owner: u128, private: bool) -> PickWithUser {
    PickWithUser {
        id: 7,
        title: Some("Cute cat!".to_string()),
        description: None,
        source_url: Some("pinterest.com".to_string()),
        created: 1,
        owner_id: owner,
        mimetype: "image/png".to_string(),
        status: Status::Ready,
        file_url: Some("abc.png".to_string()),
        private,
        ai_generated: false,
        nsfw: false,
        deleted: false,
        user_id: owner,
        user_display_name: "John Doe".to_string(),
        user_username: "johndoe".to_string(),
        user_avatar: None,
    }
}

#[test]
fn responses_carry_the_fields() {
    let p = sample_pick(5, false);
    let r = PickResponse::from(p.clone());
    assert_eq!(r.id, 7);
    assert_eq!(r.title.as_deref(), Some("Cute cat!"));
    assert_eq!(r.mimetype, "image/png");
    let owner = r.owner.unwrap();
    assert_eq!(owner.id, 5);
    assert_eq!(owner.display_name, "John Doe");
    assert_eq!(owner.username, "johndoe");
    let c = CardResponse::from(p.clone());
    assert_eq!(c.owner.unwrap().username, "johndoe");
    let db = DbPick::new(9, None, None, None, 3, "image/gif".to_string(), true, false, true);
    let r2 = PickResponse::from(db.clone());
    assert!(r2.owner.is_none());
    assert_eq!(r2.status, Status::Pending);
    assert!(r2.private && r2.nsfw && !r2.deleted && r2.file_url.is_none());
    assert!(CardResponse::from(db).owner.is_none());
    let list = pick_responses(vec![sample_pick(1, false), sample_pick(2, true)]);
    assert_eq!(list.len(), 2);
    assert_eq!(list[1].owner.as_ref().unwrap().id, 2);
    assert_eq!(card_responses(vec![sample_pick(4, false)])[0].owner.as_ref().unwrap().id, 4);

    let user = DbUser::new("me@x.io", "h", "Me");
    let u = UserResponse::from(user.clone());
    assert_eq!(u.username, "me");
    let me = UserSelfResponse::from(user.clone());
    assert_eq!(me.email, "me@x.io");
    assert_eq!(me.user.id, user.id);
    let s = DbSession::new(&user, Some("curl"));
    let sr = session_responses(vec![s.clone()]);
    assert_eq!(sr[0].id(), s.id);
    assert_eq!(sr[0].created(), s.created);
    assert_eq!(sr[0].user_agent().as_deref(), Some("curl"));
}

#[test]
fn pick_visibility() {
    let public = PickResponse::from(sample_pick(5, false));
    let private = PickResponse::from(sample_pick(5, true));
    assert!(!pick_needs_viewer(&public));
    assert!(pick_needs_viewer(&private));
    assert!(check_pick_visibility(&public, None).is_ok());
    assert!(check_pick_visibility(&private, Some(5)).is_ok());
    assert!(matches!(check_pick_visibility(&private, Some(6)), Err(Error::Forbidden)));
    assert!(matches!(check_pick_visibility(&private, None), Err(Error::Forbidden)));
    let ownerless = PickResponse::from(DbPick::new(1, None, None, None, 2, "a/b".into(), true, false, false));
    assert!(check_pick_visibility(&ownerless, None).is_ok());
}

#[test]
fn card_ownership() {
    assert!(check_card_owner(Some(3), 3).is_ok());
    assert!(matches!(check_card_owner(Some(3), 4), Err(Error::Forbidden)));
    assert!(matches!(check_card_owner(None, 4), Err(Error::Forbidden)));
}

#[test]
fn resource_ids() {
    let text = "67e55044-10b1-426f-9247-bb680e5fe0c8".to_string();
    assert_eq!(pick_cache_key(0x67e55044_10b1_426f_9247_bb680e5fe0c8), format!("pick:{text}"));
    assert_eq!(parse_resource_id(&text).unwrap(), 0x67e55044_10b1_426f_9247_bb680e5fe0c8);
    assert_eq!(parse_resource_id("67e5504410b1426f9247bb680e5fe0c8").unwrap(), 0x67e55044_10b1_426f_9247_bb680e5fe0c8);
    assert!(matches!(parse_resource_id("not-an-id"), Err(Error::BadRequest)));
    assert_eq!(pick_cache_key(0), "pick:00000000-0000-0000-0000-000000000000");
    assert_eq!(pick_cache_key(u128::MAX), "pick:ffffffff-ffff-ffff-ffff-ffffffffffff");
}

#[test]
fn upload_pick_needs_a_content_type() {
    let meta = UploadRequest {
        title: Some("t".into()),
        description: Some("d".into()),
        source: None,
        private: true,
        ai_generated: true,
        nsfw: false,
    };
    let p = new_upload_pick(meta.clone(), 11, Some("image/png".into())).unwrap();
    assert_eq!(p.owner_id, 11);
    assert_eq!(p.mimetype, "image/png");
    assert_eq!(p.title.as_deref(), Some("t"));
    assert_eq!(p.status, Status::Pending);
    assert!(p.private && p.ai_generated && !p.nsfw && !p.deleted);
    assert!(matches!(new_upload_pick(meta, 11, None), Err(Error::BadRequest)));
}
