use memosy_bot::extract::Entity;
use memosy_bot::extract::EntityKind;
use memosy_bot::extract::MessageModel;
use memosy_bot::session::Action;
use memosy_bot::session::Phase;
use memosy_bot::session::Session;

fn url_entity(text: &str) -> Entity {
    Entity { kind: EntityKind::Url, text: String::from(text) }
}

fn message(private: bool, text: &str, urls: &[&str]) -> MessageModel {
    MessageModel {
        chat_is_private: private,
        sender_name: String::from("Ana"),
        sender_url: Some(String::from("tg://user?id=7")),
        text: Some(String::from(text)),
        entities: urls.iter().map(|u| url_entity(u)).collect(),
    }
}

fn deletions(actions: &[Action]) -> usize {
    actions.iter().filter(|a| matches!(a, Action::DeleteOriginal)).count()
}

fn removals(actions: &[Action]) -> Vec<String> {
    actions
        .iter()
        .filter_map(|a| match a {
            Action::RemoveFile { path } => Some(path.clone()),
            _ => None,
        })
        .collect()
}

#[test]
fn opted_out_message_does_nothing() {
    let m = message(false, "check this out bot-ignore https://site/x", &["https://site/x"]);
    let (s, actions) = Session::start(&m);
    assert_eq!(s.phase, Phase::Finished);
    assert!(actions.is_empty());
}

#[test]
fn message_without_urls_does_nothing() {
    let m = message(false, "just chatting", &[]);
    let (s, actions) = Session::start(&m);
    assert_eq!(s.phase, Phase::Finished);
    assert!(actions.is_empty());
}

#[test]
fn private_chat_delivery_is_bare_and_deletes_nothing() {
    let m = message(true, "https://site/x", &["https://site/x"]);
    let (mut s, actions) = Session::start(&m);
    assert_eq!(actions.len(), 1);
    match &actions[0] {
        Action::RunDownloader { args } => {
            assert_eq!(args[args.len() - 1], "https://site/x");
        },
        other => panic!("expected a downloader run, got {:?}", other),
    }

    let actions = s.on_download_result(true);
    assert_eq!(actions.len(), 1);
    match &actions[0] {
        Action::SendVideo { plan } => {
            assert_eq!(plan.path, "x.mp4");
            assert!(plan.caption.is_none());
            assert!(plan.link.is_none());
            assert!(!plan.delete_original);
        },
        other => panic!("expected an upload, got {:?}", other),
    }

    let actions = s.on_delivery_result(true);
    assert_eq!(deletions(&actions), 0);
    assert_eq!(removals(&actions), vec![String::from("x.mp4")]);
    assert_eq!(s.phase, Phase::Finished);
}

#[test]
fn group_chat_delivery_attributes_and_deletes_once() {
    let m = message(false, "look https://site/x", &["https://site/x"]);
    let (mut s, actions) = Session::start(&m);
    assert_eq!(actions.len(), 1);

    let actions = s.on_download_result(true);
    match &actions[0] {
        Action::SendVideo { plan } => {
            assert_eq!(plan.caption.as_deref(), Some("Ana\nlook https://site/x"));
            let link = plan.link.as_ref().expect("profile link known");
            assert_eq!(link.offset, 0);
            assert_eq!(link.length, 3);
            assert!(plan.delete_original);
        },
        other => panic!("expected an upload, got {:?}", other),
    }

    let actions = s.on_delivery_result(true);
    assert_eq!(deletions(&actions), 1);
    assert!(matches!(actions[0], Action::DeleteOriginal));
    assert_eq!(removals(&actions), vec![String::from("x.mp4")]);
    assert_eq!(s.phase, Phase::Finished);
}

#[test]
fn failed_download_skips_to_next_url() {
    let m = message(false, "https://a/one https://a/two", &["https://a/one", "https://a/two"]);
    let (mut s, _) = Session::start(&m);

    let actions = s.on_download_result(false);
    assert_eq!(actions.len(), 1);
    match &actions[0] {
        Action::RunDownloader { args } => {
            assert_eq!(args[args.len() - 1], "https://a/two");
        },
        other => panic!("expected the next downloader run, got {:?}", other),
    }
    assert_eq!(s.phase, Phase::Fetching);
}

#[test]
fn failed_download_of_last_url_finishes() {
    let m = message(false, "https://site/x", &["https://site/x"]);
    let (mut s, _) = Session::start(&m);
    let actions = s.on_download_result(false);
    assert!(actions.is_empty());
    assert_eq!(s.phase, Phase::Finished);
}

#[test]
fn failed_upload_still_removes_file_and_aborts() {
    let m = message(false, "https://a/one https://a/two", &["https://a/one", "https://a/two"]);
    let (mut s, _) = Session::start(&m);
    let _ = s.on_download_result(true);
    let actions = s.on_delivery_result(false);
    assert_eq!(deletions(&actions), 0);
    assert_eq!(removals(&actions), vec![String::from("one.mp4")]);
    assert_eq!(s.phase, Phase::Finished);
}

#[test]
fn successful_delivery_moves_to_next_url() {
    let m = message(true, "https://a/one https://a/two", &["https://a/one", "https://a/two"]);
    let (mut s, _) = Session::start(&m);
    let _ = s.on_download_result(true);
    let actions = s.on_delivery_result(true);
    assert_eq!(removals(&actions), vec![String::from("one.mp4")]);
    match actions.last().expect("a next downloader run") {
        Action::RunDownloader { args } => {
            assert_eq!(args[args.len() - 1], "https://a/two");
        },
        other => panic!("expected the next downloader run, got {:?}", other),
    }
    assert_eq!(s.phase, Phase::Fetching);
}
