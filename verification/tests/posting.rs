use review_pipeline::facebook::{
    build_fb_feed_form, build_fb_message, feed_post_outcome, get_fb_credentials,
    photo_post_outcome, post_link_to_page, post_photo_to_page, PhotoPlan, PostError,
};
use review_pipeline::ifttt::{trigger_new_post, webhook_accepted};
use review_pipeline::json::JsonValue;
use review_pipeline::medium::{editor_ready, js_escape_for_template_literal, login_blocked, title_script, Typing};
use review_pipeline::pinterest::{
    board_name, board_pick_js, fill_text_fields, is_login_interstitial, make_title_js,
    maybe_post_pin_to_board, next_stage, pause_after, pin_ui_ready, pin_ui_retry, publish_retry,
    truncate_description, upload_selectors, Field, FieldFill, PinError, PinPlan, PinStage,
    SkipReason, SET_VALUE_FN_JS, TITLE_BODY_JS,
};

fn obj(members: Vec<(&str, JsonValue)>) -> JsonValue {
    JsonValue::Object(members.into_iter().map(|(k, v)| (k.to_string(), v)).collect())
}

#[test]
fn facebook_credentials_need_both_settings() {
    assert_eq!(get_fb_credentials(Some("1"), Some("t")), Some(("1".to_string(), "t".to_string())));
    assert_eq!(get_fb_credentials(Some(" 1 "), Some("t")), Some((" 1 ".to_string(), "t".to_string())));
    assert_eq!(get_fb_credentials(Some("  "), Some("t")), None);
    assert_eq!(get_fb_credentials(Some("1"), None), None);
}

#[test]
fn facebook_messages() {
    assert_eq!(build_fb_message("Kettle", Some("https://x"), None), "Kettle\nhttps://x");
    assert_eq!(build_fb_message("Kettle", None, None), "Kettle");
    assert_eq!(build_fb_message("Kettle", Some(""), Some("   ")), "Kettle");
    assert_eq!(
        build_fb_message("Kettle", Some("https://x"), Some("New: {title} -> {url} ({title})")),
        "New: Kettle -> https://x (Kettle)"
    );
    assert_eq!(build_fb_message("K", None, Some("{title} {url}")), "K ");
}

#[test]
fn facebook_feed_form() {
    let form = build_fb_feed_form("m".to_string(), "tok", Some("https://x"));
    assert_eq!(
        form,
        vec![
            ("message".to_string(), "m".to_string()),
            ("access_token".to_string(), "tok".to_string()),
            ("link".to_string(), "https://x".to_string())
        ]
    );
    assert_eq!(build_fb_feed_form("m".to_string(), "tok", Some("  ")).len(), 2);
    assert_eq!(build_fb_feed_form("m".to_string(), "tok", None).len(), 2);
}

#[test]
fn facebook_link_post() {
    let req = post_link_to_page("Kettle", Some("http://x"), Some("55"), Some("tok"), None).expect("configured");
    assert_eq!(req.endpoint, "https://graph.facebook.com/v20.0/55/feed");
    assert_eq!(req.body, "message=Kettle%0Ahttp%3A%2F%2Fx&access_token=tok&link=http%3A%2F%2Fx");
    assert!(post_link_to_page("Kettle", None, None, Some("tok"), None).is_none());
}

#[test]
fn facebook_photo_post() {
    match post_photo_to_page("K", Some("u"), true, Some("5"), Some("t"), None) {
        PhotoPlan::Photo(q) => {
            assert_eq!(q.endpoint, "https://graph.facebook.com/v20.0/5/photos");
            assert_eq!(q.caption, "K\nu");
            assert_eq!(q.access_token, "t");
        },
        _ => panic!("expected a photo post"),
    }
    assert!(matches!(post_photo_to_page("K", Some("u"), false, Some("5"), Some("t"), None), PhotoPlan::Link(_)));
    assert!(matches!(post_photo_to_page("K", Some("u"), true, None, Some("t"), None), PhotoPlan::Skip));
}

#[test]
fn facebook_replies() {
    let reply = obj(vec![("id", JsonValue::Str("1_2".to_string()))]);
    assert_eq!(feed_post_outcome(200, Some(&reply)), Ok(Some("1_2".to_string())));
    assert_eq!(feed_post_outcome(200, None), Ok(None));
    assert_eq!(feed_post_outcome(400, Some(&reply)), Err(PostError::Rejected(400)));
    let photo = obj(vec![("id", JsonValue::Str("9".to_string())), ("post_id", JsonValue::Str("1_9".to_string()))]);
    assert_eq!(photo_post_outcome(200, &photo), Ok(Some("1_9".to_string())));
    assert_eq!(photo_post_outcome(201, &reply), Ok(Some("1_2".to_string())));
    assert_eq!(photo_post_outcome(200, &obj(vec![("post_id", JsonValue::Null), ("id", JsonValue::Str("9".to_string()))])), Ok(None));
    assert_eq!(photo_post_outcome(503, &reply), Err(PostError::Rejected(503)));
}

#[test]
fn ifttt_webhook() {
    let req = trigger_new_post("Kettle", Some("https://x"), Some("KEY"), None).expect("key set");
    assert_eq!(req.endpoint, "https://maker.ifttt.com/trigger/new_post/json/with/key/KEY");
    assert_eq!(req.body.get("value1").and_then(|v| v.as_str()), Some("Kettle"));
    assert_eq!(req.body.get("value2").and_then(|v| v.as_str()), Some("https://x"));
    let other = trigger_new_post("K", None, Some("KEY"), Some("ev")).expect("key set");
    assert_eq!(other.endpoint, "https://maker.ifttt.com/trigger/ev/json/with/key/KEY");
    assert_eq!(other.body.get("value2").and_then(|v| v.as_str()), Some(""));
    assert!(trigger_new_post("K", None, Some(" "), None).is_none());
    assert!(trigger_new_post("K", None, None, None).is_none());
    assert!(webhook_accepted(200));
    assert!(webhook_accepted(302));
    assert!(!webhook_accepted(404));
    assert!(!webhook_accepted(500));
    assert!(webhook_accepted(600));
}

#[test]
fn medium_scripts_and_checks() {
    assert_eq!(js_escape_for_template_literal("a`b${c}\\d"), "a\\`b\\${c}\\\\d");
    assert_eq!(js_escape_for_template_literal("$plain"), "$plain");
    let js = title_script("My `Title`");
    assert!(js.starts_with("(() => {\n  const title = `My \\`Title\\``;\n\n  const editables"));
    assert!(js.ends_with("readyForTyping: true };\n})()"));
    let blocked = obj(vec![("hasSignIn", JsonValue::Bool(true)), ("hasEditor", JsonValue::Bool(false))]);
    assert!(login_blocked(&blocked));
    let fine = obj(vec![("hasSignIn", JsonValue::Bool(true)), ("hasEditor", JsonValue::Bool(true))]);
    assert!(!login_blocked(&fine));
    assert!(!login_blocked(&obj(vec![])));
    assert!(editor_ready(&obj(vec![("ok", JsonValue::Bool(true))])));
    assert!(!editor_ready(&obj(vec![("ok", JsonValue::Bool(false))])));
    assert!(!editor_ready(&JsonValue::Null));
}

#[test]
fn typing_covers_the_text_in_chunks() {
    let text = "The quick brown fox jumps over the lazy dog. ".repeat(5);
    let mut typing = Typing::new(text.len());
    let mut typed = String::new();
    let mut chunks = 0;
    while !typing.done() {
        let before = typing.pos;
        typed.push_str(&typing.next_chunk(&text));
        let size = typing.pos - before;
        assert!(size <= 55);
        assert!(size >= 10 || typing.pos == text.len());
        chunks += 1;
        let pause = typing.pause_ms();
        assert!((35..=160).contains(&pause) || (400..=1200).contains(&pause));
    }
    assert_eq!(typed, text);
    assert_eq!(typing.burst, chunks);
}

#[test]
fn pin_descriptions() {
    assert_eq!(truncate_description(None), None);
    assert_eq!(truncate_description(Some("   ")), None);
    assert_eq!(truncate_description(Some("  short one \n")).as_deref(), Some("short one"));
    let exact = "x".repeat(450);
    assert_eq!(truncate_description(Some(&exact)), Some(exact.clone()));
    let long = "\u{e9}".repeat(451);
    let cut = truncate_description(Some(&long)).expect("text");
    assert_eq!(cut.chars().count(), 450);
    assert_eq!(cut, format!("{}...", "\u{e9}".repeat(447)));
}

#[test]
fn pin_scripts() {
    let js = make_title_js("My \"Pin\"");
    assert_eq!(js, format!("(() => {{\n  const value = \"My \\\"Pin\\\"\";\n  {}\n{}\n}})()", SET_VALUE_FN_JS, TITLE_BODY_JS));
    let pick = board_pick_js("random thoughts");
    assert!(pick.starts_with("(() => {\n  const needle = \"random thoughts\";\n  const norm"));
    let scripts = fill_text_fields("T", Some("   "), "https://x");
    assert!(scripts.description_js.is_none());
    assert!(scripts.link_js.contains("const value = \"https://x\";"));
    let with_desc = fill_text_fields("T", Some(" d "), "l");
    assert!(with_desc.description_js.expect("description").contains("const value = \"d\";"));
}

#[test]
fn pin_board_names() {
    assert_eq!(board_name("https://uk.pinterest.com/forster2474/random-thoughts/"), "random thoughts");
    assert_eq!(board_name("https://uk.pinterest.com/me/my-big-board///"), "my big board");
    assert_eq!(board_name("board-only"), "board only");
    assert_eq!(board_name(""), "");
}

#[test]
fn pin_page_checks() {
    assert!(is_login_interstitial("https://www.pinterest.com/login/?next=x", ""));
    assert!(is_login_interstitial("https://www.pinterest.com/pin-builder/", "Welcome! LOG IN with your Password"));
    assert!(!is_login_interstitial("https://www.pinterest.com/pin-builder/", "Log in"));
    assert!(pin_ui_ready(0, 0, 1, 0, 0));
    assert!(pin_ui_ready(0, 0, 0, 6, 0));
    assert!(pin_ui_ready(2, 1, 0, 4, 0));
    assert!(!pin_ui_ready(2, 0, 0, 4, 9));
    assert!(!pin_ui_ready(u64::MAX, u64::MAX, 0, 3, 0));
    assert!(pin_ui_ready(u64::MAX, u64::MAX, 0, 4, 0));
}

#[test]
fn pin_retries() {
    let mut r = pin_ui_retry();
    assert_eq!((r.limit, r.delay_ms), (360, 500));
    let mut tries = 0;
    while r.can_try() {
        assert_eq!(r.failed(), 500);
        tries += 1;
    }
    assert_eq!(tries, 360);
    let p = publish_retry();
    assert_eq!((p.limit, p.delay_ms), (14, 600));
    assert_eq!(upload_selectors(), vec!["input[type='file']", "input[type=\"file\"]"]);
}

#[test]
fn pin_fields_progress() {
    let mut f = FieldFill::new(true);
    assert!(f.pending(Field::Title) && f.pending(Field::Description) && f.pending(Field::Link));
    f.record(Field::Title, true);
    f.record(Field::Link, false);
    assert!(!f.pending(Field::Title));
    assert!(!f.all_set());
    let r = f.report();
    assert!(!r.missing_title && r.missing_description && r.missing_link && r.dump_fields);
    f.record(Field::Description, true);
    f.record(Field::Link, true);
    assert!(f.all_set());
    assert!(!f.report().dump_fields);
    let no_desc = FieldFill::new(false);
    assert!(!no_desc.pending(Field::Description));
    assert!(!no_desc.report().missing_description);
}

#[test]
fn pin_plans() {
    let post = maybe_post_pin_to_board(None, Some("https://a"), true, Some("1"));
    match post {
        PinPlan::Post { board_url, link } => {
            assert_eq!(board_url, "https://uk.pinterest.com/forster2474/random-thoughts/");
            assert_eq!(link, "https://a");
        },
        _ => panic!("expected a post"),
    }
    match maybe_post_pin_to_board(Some("https://b/"), Some("https://a"), true, Some("1")) {
        PinPlan::Post { board_url, .. } => assert_eq!(board_url, "https://b/"),
        _ => panic!("expected a post"),
    }
    assert!(matches!(maybe_post_pin_to_board(None, Some(" "), true, Some("1")), PinPlan::Skip(SkipReason::NoArticleUrl)));
    assert!(matches!(maybe_post_pin_to_board(None, Some("u"), false, Some("1")), PinPlan::Skip(SkipReason::NoImage)));
    assert!(matches!(maybe_post_pin_to_board(None, Some("u"), true, Some("true")), PinPlan::Skip(SkipReason::Disabled)));
    assert!(matches!(maybe_post_pin_to_board(None, Some("u"), true, None), PinPlan::Skip(SkipReason::Disabled)));
}

#[test]
fn pin_steps() {
    let mut stage = PinStage::OpenBoard;
    let mut order = vec![stage];
    while stage != PinStage::Done {
        stage = next_stage(stage, true).expect("step");
        order.push(stage);
    }
    assert_eq!(order.len(), 9);
    assert_eq!(next_stage(PinStage::OpenBoard, false), Err(PinError::BoardNotOpened));
    assert_eq!(next_stage(PinStage::OpenBuilder, false), Err(PinError::BuilderNotOpened));
    assert_eq!(next_stage(PinStage::UploadImage, false), Err(PinError::NoUploadInput));
    assert_eq!(next_stage(PinStage::CheckLogin, false), Err(PinError::LoginRequired));
    assert_eq!(next_stage(PinStage::WaitForUi, false), Err(PinError::UiNotRendered));
    assert_eq!(next_stage(PinStage::FillFields, false), Ok(PinStage::ChooseBoard));
    assert_eq!(next_stage(PinStage::ChooseBoard, false), Ok(PinStage::Publish));
    assert_eq!(next_stage(PinStage::Publish, false), Err(PinError::NoPublishButton));
    assert_eq!(pause_after(PinStage::OpenBoard), 1200);
    assert_eq!(pause_after(PinStage::OpenBuilder), 3000);
    assert_eq!(pause_after(PinStage::FillFields), 0);
}
