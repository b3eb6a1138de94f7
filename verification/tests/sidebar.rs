use gtk_qq::contacts::{Friend, FriendsGroupRow, FriendsTables, Group};
use gtk_qq::sidebar::{
    refresh_notice, refresh_reply, select_group_row, ChatsMsg, ContactList, MainWindowMsg,
    RefreshReply, SidebarCommand, SidebarModel, SidebarMsg,
};

fn tables() -> FriendsTables {
    FriendsTables {
        friends: vec![
            Friend { id: 1, name: "a".to_string(), remark: "A".to_string(), group_id: 7 },
            Friend { id: 2, name: "b".to_string(), remark: "B".to_string(), group_id: 8 },
            Friend { id: 3, name: "c".to_string(), remark: "C".to_string(), group_id: 7 },
        ],
        friends_groups: vec![
            FriendsGroupRow { id: 7, name: "Seven".to_string(), online_friends: 2 },
            FriendsGroupRow { id: 8, name: "Eight".to_string(), online_friends: 0 },
        ],
    }
}

fn groups() -> Vec<Group> {
    vec![
        Group { id: 100, name: "Alpha".to_string(), owner_id: 1 },
        Group { id: 200, name: "Beta".to_string(), owner_id: 2 },
    ]
}

fn toast_text(m: &MainWindowMsg) -> String {
    match m {
        MainWindowMsg::PushToast(t) => t.clone(),
        other => panic!("not a notice: {:?}", other),
    }
}

#[test]
fn init_renders_both_lists_with_buttons_enabled() {
    let model = SidebarModel::init(tables(), groups());
    assert!(model.is_refresh_friends_button_enabled());
    assert!(model.is_refresh_groups_button_enabled());
    let friends = model.friends_list();
    assert_eq!(friends.len(), 2);
    assert_eq!(friends[0].name, "Seven");
    assert_eq!(friends[0].friends.iter().map(|f| f.id).collect::<Vec<_>>(), vec![1, 3]);
    assert_eq!(friends[1].friends.iter().map(|f| f.id).collect::<Vec<_>>(), vec![2]);
    let groups = model.groups_list();
    assert_eq!(groups.iter().map(|g| g.id).collect::<Vec<_>>(), vec![100, 200]);
}

#[test]
fn select_chatroom_goes_to_the_main_window() {
    let mut model = SidebarModel::init(tables(), groups());
    let c = model.update(SidebarMsg::SelectChatroom(12345, true));
    assert!(matches!(c, SidebarCommand::Output(MainWindowMsg::SelectChatroom(12345, true))));
    assert!(model.is_refresh_friends_button_enabled());
    assert!(model.is_refresh_groups_button_enabled());
    assert_eq!(model.friends_list().len(), 2);
}

#[test]
fn chat_item_messages_go_to_the_chats() {
    let mut model = SidebarModel::init(tables(), groups());
    match model.update(SidebarMsg::UpdateChatItem(5, false, "hi".to_string())) {
        SidebarCommand::ForwardToChats(ChatsMsg::UpdateChatItem(5, false, t)) => assert_eq!(t, "hi"),
        other => panic!("unexpected {:?}", other),
    }
    match model.update(SidebarMsg::InsertChatItem(6, true, "yo".to_string())) {
        SidebarCommand::ForwardToChats(ChatsMsg::InsertChatItem(6, true, t)) => assert_eq!(t, "yo"),
        other => panic!("unexpected {:?}", other),
    }
}

#[test]
fn refresh_disables_only_its_own_button() {
    let mut model = SidebarModel::init(tables(), groups());
    let c = model.update(SidebarMsg::RefreshFriends);
    assert!(matches!(c, SidebarCommand::StartRefresh(ContactList::Friends)));
    assert!(!model.is_refresh_friends_button_enabled());
    assert!(model.is_refresh_groups_button_enabled());
    let c = model.update(SidebarMsg::RefreshGroups);
    assert!(matches!(c, SidebarCommand::StartRefresh(ContactList::Groups)));
    assert!(!model.is_refresh_groups_button_enabled());
    assert_eq!(model.friends_list().len(), 2);
    assert_eq!(model.groups_list().len(), 2);
}

#[test]
fn render_messages_ask_for_a_render() {
    let mut model = SidebarModel::init(tables(), groups());
    assert!(matches!(model.update(SidebarMsg::RenderFriends), SidebarCommand::Render(ContactList::Friends)));
    assert!(matches!(model.update(SidebarMsg::RenderGroups), SidebarCommand::Render(ContactList::Groups)));
}

#[test]
fn refresh_cycle_of_friends() {
    let mut model = SidebarModel::init(tables(), groups());
    let _ = model.update(SidebarMsg::RefreshFriends);
    assert_eq!(toast_text(&refresh_notice(ContactList::Friends)), "Start refreshing the friends list...");
    let msg = match refresh_reply(ContactList::Friends, Ok(())) {
        RefreshReply::Input(msg) => msg,
        other => panic!("unexpected {:?}", other),
    };
    assert!(matches!(msg, SidebarMsg::RenderFriends));
    let c = model.update(msg);
    assert!(matches!(c, SidebarCommand::Render(ContactList::Friends)));
    assert!(!model.is_refresh_friends_button_enabled());
    let mut t = tables();
    t.friends.push(Friend { id: 4, name: "d".to_string(), remark: String::new(), group_id: 8 });
    let toast = model.finish_friends_render(Ok(t));
    assert_eq!(toast_text(&toast), "Refreshed the friends list.");
    assert!(model.is_refresh_friends_button_enabled());
    assert_eq!(model.friends_list()[1].friends.iter().map(|f| f.id).collect::<Vec<_>>(), vec![2, 4]);
}

#[test]
fn refresh_cycle_of_groups() {
    let mut model = SidebarModel::init(tables(), groups());
    let _ = model.update(SidebarMsg::RefreshGroups);
    assert_eq!(toast_text(&refresh_notice(ContactList::Groups)), "Start refreshing the groups list...");
    let msg = match refresh_reply(ContactList::Groups, Ok(())) {
        RefreshReply::Input(msg) => msg,
        other => panic!("unexpected {:?}", other),
    };
    assert!(matches!(model.update(msg), SidebarCommand::Render(ContactList::Groups)));
    let toast = model.finish_groups_render(Ok(vec![Group { id: 300, name: "Gamma".to_string(), owner_id: 3 }]));
    assert_eq!(toast_text(&toast), "Refreshed the groups list.");
    assert!(model.is_refresh_groups_button_enabled());
    assert_eq!(model.groups_list().len(), 1);
    assert_eq!(model.groups_list()[0].name, "Gamma");
}

#[test]
fn failed_download_shows_the_error() {
    match refresh_reply(ContactList::Friends, Err("network is down".to_string())) {
        RefreshReply::Output(m) => assert_eq!(toast_text(&m), "network is down"),
        other => panic!("unexpected {:?}", other),
    }
    match refresh_reply(ContactList::Groups, Err("timeout".to_string())) {
        RefreshReply::Output(m) => assert_eq!(toast_text(&m), "timeout"),
        other => panic!("unexpected {:?}", other),
    }
}

#[test]
fn failed_render_empties_the_list_and_enables_the_button() {
    let mut model = SidebarModel::init(tables(), groups());
    let _ = model.update(SidebarMsg::RefreshFriends);
    let toast = model.finish_friends_render(Err("no such table: friends".to_string()));
    assert_eq!(toast_text(&toast), "no such table: friends");
    assert!(model.friends_list().is_empty());
    assert!(model.is_refresh_friends_button_enabled());
    assert_eq!(model.groups_list().len(), 2);

    let _ = model.update(SidebarMsg::RefreshGroups);
    let toast = model.finish_groups_render(Err("disk I/O error".to_string()));
    assert_eq!(toast_text(&toast), "disk I/O error");
    assert!(model.groups_list().is_empty());
    assert!(model.is_refresh_groups_button_enabled());
}

#[test]
fn render_reports_the_read_error() {
    let mut model = SidebarModel::init(tables(), groups());
    assert_eq!(model.render_friends(Err("bad".to_string())), Err("bad".to_string()));
    assert!(model.friends_list().is_empty());
    assert_eq!(model.render_friends(Ok(tables())), Ok(()));
    assert_eq!(model.friends_list().len(), 2);
    assert_eq!(model.render_groups(Err("worse".to_string())), Err("worse".to_string()));
    assert!(model.groups_list().is_empty());
    assert_eq!(model.render_groups(Ok(groups())), Ok(()));
    assert_eq!(model.groups_list().len(), 2);
}

#[test]
fn activated_group_row_opens_its_chatroom() {
    let ids = vec![300, 100, 200];
    assert!(matches!(select_group_row(&ids, 0), MainWindowMsg::SelectChatroom(300, true)));
    assert!(matches!(select_group_row(&ids, 2), MainWindowMsg::SelectChatroom(200, true)));
}

#[test]
fn failed_download_leaves_the_button_disabled() {
    let mut model = SidebarModel::init(tables(), groups());
    let _ = model.update(SidebarMsg::RefreshGroups);
    match refresh_reply(ContactList::Groups, Err("offline".to_string())) {
        RefreshReply::Output(m) => assert_eq!(toast_text(&m), "offline"),
        other => panic!("unexpected {:?}", other),
    }
    assert!(!model.is_refresh_groups_button_enabled());
    assert!(model.is_refresh_friends_button_enabled());
    assert_eq!(model.groups_list().len(), 2);
}

fn handle(model: &mut SidebarModel, msg: SidebarMsg) {
    match model.update(msg) {
        SidebarCommand::Render(ContactList::Friends) => {
            let _ = model.finish_friends_render(Ok(tables()));
        }
        SidebarCommand::Render(ContactList::Groups) => {
            let _ = model.finish_groups_render(Ok(groups()));
        }
        _ => {}
    }
}

#[test]
fn refresh_buttons_follow_pending_refreshes() {
    let mut model = SidebarModel::init(tables(), groups());
    handle(&mut model, SidebarMsg::RefreshFriends);
    handle(&mut model, SidebarMsg::SelectChatroom(1, false));
    handle(&mut model, SidebarMsg::RefreshGroups);
    assert!(!model.is_refresh_friends_button_enabled());
    assert!(!model.is_refresh_groups_button_enabled());
    handle(&mut model, SidebarMsg::RenderGroups);
    assert!(!model.is_refresh_friends_button_enabled());
    assert!(model.is_refresh_groups_button_enabled());
    handle(&mut model, SidebarMsg::RefreshFriends);
    handle(&mut model, SidebarMsg::RenderFriends);
    assert!(model.is_refresh_friends_button_enabled());
    handle(&mut model, SidebarMsg::RenderFriends);
    assert!(model.is_refresh_friends_button_enabled());
    handle(&mut model, SidebarMsg::InsertChatItem(2, true, "x".to_string()));
    assert!(model.is_refresh_friends_button_enabled());
    assert!(model.is_refresh_groups_button_enabled());
}
