use promptline::permissions::{
    reply_for_word, PermissionLevel, PermissionManager, PermissionReply,
};

#[test]
fn fallback_follows_approval_setting() {
    assert_eq!(PermissionManager::new(true).check_permission("shell"), PermissionLevel::Ask);
    assert_eq!(PermissionManager::new(false).check_permission("shell"), PermissionLevel::Always);
}

#[test]
fn set_replaces_in_place() {
    let mut pm = PermissionManager::new(true);
    pm.set_permission("a", PermissionLevel::Never);
    pm.set_permission("b", PermissionLevel::Always);
    pm.set_permission("a", PermissionLevel::Once);
    assert_eq!(pm.check_permission("a"), PermissionLevel::Once);
    assert_eq!(pm.check_permission("b"), PermissionLevel::Always);
    assert_eq!(pm.check_permission("c"), PermissionLevel::Ask);
    let all = pm.get_all_permissions();
    assert_eq!(all.len(), 2);
    assert_eq!(all[0].tool, "a");
    assert_eq!(all[0].level, PermissionLevel::Once);
    assert_eq!(all[1].tool, "b");
    assert_eq!(all[1].level, PermissionLevel::Always);
}

#[test]
fn replies_move_the_state() {
    let mut pm = PermissionManager::new(true);
    assert!(pm.record_reply("t", PermissionReply::Once));
    assert_eq!(pm.check_permission("t"), PermissionLevel::Ask);
    assert!(pm.get_all_permissions().is_empty());
    assert!(!pm.record_reply("t", PermissionReply::Decline));
    assert_eq!(pm.check_permission("t"), PermissionLevel::Ask);
    assert!(pm.record_reply("t", PermissionReply::Always));
    assert_eq!(pm.check_permission("t"), PermissionLevel::Always);
    assert!(!pm.record_reply("t", PermissionReply::Never));
    assert_eq!(pm.check_permission("t"), PermissionLevel::Never);
}

#[test]
fn once_falls_back_to_ask_after_use() {
    let mut pm = PermissionManager::new(false);
    pm.set_permission("t", PermissionLevel::Once);
    pm.consume_once("t");
    assert_eq!(pm.check_permission("t"), PermissionLevel::Ask);
    pm.consume_once("t");
    assert_eq!(pm.check_permission("t"), PermissionLevel::Ask);
    pm.set_permission("u", PermissionLevel::Always);
    pm.consume_once("u");
    assert_eq!(pm.check_permission("u"), PermissionLevel::Always);
    pm.consume_once("v");
    assert_eq!(pm.check_permission("v"), PermissionLevel::Always);
    assert_eq!(pm.get_all_permissions().len(), 2);
}

#[test]
fn labels() {
    assert_eq!(PermissionLevel::Never.label(), "Never");
    assert_eq!(PermissionLevel::Always.label(), "Always");
    assert_eq!(PermissionLevel::Once.label(), "Once");
    assert_eq!(PermissionLevel::Ask.label(), "Ask");
}

#[test]
fn answers_are_read_without_regard_to_case() {
    assert_eq!(PermissionReply::from_answer("a\n"), PermissionReply::Always);
    assert_eq!(PermissionReply::from_answer(" Always "), PermissionReply::Always);
    assert_eq!(PermissionReply::from_answer("y"), PermissionReply::Once);
    assert_eq!(PermissionReply::from_answer("YES"), PermissionReply::Once);
    assert_eq!(PermissionReply::from_answer("once"), PermissionReply::Once);
    assert_eq!(PermissionReply::from_answer("v"), PermissionReply::Never);
    assert_eq!(PermissionReply::from_answer("Never"), PermissionReply::Never);
    assert_eq!(PermissionReply::from_answer("n"), PermissionReply::Decline);
    assert_eq!(PermissionReply::from_answer(""), PermissionReply::Decline);
    assert_eq!(PermissionReply::from_answer("maybe"), PermissionReply::Decline);
    assert_eq!(reply_for_word("ALWAYS"), PermissionReply::Decline);
}
