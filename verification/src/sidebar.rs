//! The sidebar: the chats, the friends list and the groups list, with a
//! refresh button above each contact list.
//!
//! The sidebar is a state machine. [`SidebarModel::update`] takes a message
//! and says what is to be done ([`SidebarCommand`]); the code around it does
//! that work (sends a message, downloads a list, reads the database) and
//! hands the outcome back through [`SidebarModel::finish_friends_render`],
//! [`SidebarModel::finish_groups_render`] and [`refresh_reply`].
use vstd::prelude::*;

use crate::contacts::{group_friends, is_grouping, FriendsGroup, FriendsTables, Group};

verus! {

/// A message of the sidebar to the main window.
#[derive(Debug)]
pub enum MainWindowMsg {
    /// Show a short notice.
    PushToast(String),
    /// Open the chatroom of an account; `true` for a group.
    SelectChatroom(i64, bool),
}

/// A message of the sidebar to its list of chats.
#[derive(Debug)]
pub enum ChatsMsg {
    UpdateChatItem(i64, bool, String),
    InsertChatItem(i64, bool, String),
}

/// A message to the sidebar.
#[derive(Debug)]
pub enum SidebarMsg {
    SelectChatroom(i64, bool),
    UpdateChatItem(i64, bool, String),
    InsertChatItem(i64, bool, String),
    RefreshFriends,
    RefreshGroups,
    RenderFriends,
    RenderGroups,
}

/// One of the two contact lists of the sidebar.
#[derive(Debug, Clone, Copy, PartialEq, Eq, Structural)]
pub enum ContactList {
    Friends,
    Groups,
}

/// What the sidebar asks to be done after a message.
#[derive(Debug)]
pub enum SidebarCommand {
    /// Send this message to the main window.
    Output(MainWindowMsg),
    /// Hand this message on to the list of chats.
    ForwardToChats(ChatsMsg),
    /// Start downloading this list anew, in the background; announce it with
    /// [`refresh_notice`] and end with [`refresh_reply`].
    StartRefresh(ContactList),
    /// Read this list from the database and render it with
    /// [`SidebarModel::finish_friends_render`] or
    /// [`SidebarModel::finish_groups_render`].
    Render(ContactList),
}

/// What a background refresh does once the download has ended.
#[derive(Debug)]
pub enum RefreshReply {
    /// Send this message to the sidebar.
    Input(SidebarMsg),
    /// Send this message to the main window.
    Output(MainWindowMsg),
}

/// The state of the sidebar: what its two contact lists show and whether
/// their refresh buttons can be pressed.
pub struct SidebarModel {
    friends_list: Vec<FriendsGroup>,
    groups_list: Vec<Group>,
    is_refresh_friends_button_enabled: bool,
    is_refresh_groups_button_enabled: bool,
}

/// The sidebar's state as a mathematical value.
pub struct SidebarView {
    pub friends_list: Seq<FriendsGroup>,
    pub groups_list: Seq<Group>,
    pub friends_refresh_enabled: bool,
    pub groups_refresh_enabled: bool,
}

impl View for SidebarModel {
    type V = SidebarView;

    closed spec fn view(&self) -> SidebarView {
        SidebarView {
            friends_list: self.friends_list@,
            groups_list: self.groups_list@,
            friends_refresh_enabled: self.is_refresh_friends_button_enabled,
            groups_refresh_enabled: self.is_refresh_groups_button_enabled,
        }
    }
}

/// The other contact list.
pub open spec fn other_list(list: ContactList) -> ContactList {
    match list {
        ContactList::Friends => ContactList::Groups,
        ContactList::Groups => ContactList::Friends,
    }
}

/// Whether the refresh button of `list` can be pressed.
pub open spec fn refresh_enabled(s: SidebarView, list: ContactList) -> bool {
    match list {
        ContactList::Friends => s.friends_refresh_enabled,
        ContactList::Groups => s.groups_refresh_enabled,
    }
}

/// `s` with the refresh button of `list` enabled or not.
pub open spec fn set_refresh_enabled(s: SidebarView, list: ContactList, enabled: bool) -> SidebarView {
    match list {
        ContactList::Friends => SidebarView { friends_refresh_enabled: enabled, ..s },
        ContactList::Groups => SidebarView { groups_refresh_enabled: enabled, ..s },
    }
}

/// `s` with its friends list replaced by `list`.
pub open spec fn with_friends_list(s: SidebarView, list: Seq<FriendsGroup>) -> SidebarView {
    SidebarView { friends_list: list, ..s }
}

/// `s` with its groups list replaced by `list`.
pub open spec fn with_groups_list(s: SidebarView, list: Seq<Group>) -> SidebarView {
    SidebarView { groups_list: list, ..s }
}

/// The message that asks the sidebar to refresh `list`.
pub open spec fn refresh_msg(list: ContactList) -> SidebarMsg {
    match list {
        ContactList::Friends => SidebarMsg::RefreshFriends,
        ContactList::Groups => SidebarMsg::RefreshGroups,
    }
}

/// The message that asks the sidebar to render `list`.
pub open spec fn render_msg(list: ContactList) -> SidebarMsg {
    match list {
        ContactList::Friends => SidebarMsg::RenderFriends,
        ContactList::Groups => SidebarMsg::RenderGroups,
    }
}

/// What the sidebar asks to be done after `msg`.
pub open spec fn command_for(msg: SidebarMsg) -> SidebarCommand {
    match msg {
        SidebarMsg::SelectChatroom(account, is_group) => SidebarCommand::Output(
            MainWindowMsg::SelectChatroom(account, is_group),
        ),
        SidebarMsg::UpdateChatItem(account, is_group, last_message) => SidebarCommand::ForwardToChats(
            ChatsMsg::UpdateChatItem(account, is_group, last_message),
        ),
        SidebarMsg::InsertChatItem(account, is_group, last_message) => SidebarCommand::ForwardToChats(
            ChatsMsg::InsertChatItem(account, is_group, last_message),
        ),
        SidebarMsg::RefreshFriends => SidebarCommand::StartRefresh(ContactList::Friends),
        SidebarMsg::RefreshGroups => SidebarCommand::StartRefresh(ContactList::Groups),
        SidebarMsg::RenderFriends => SidebarCommand::Render(ContactList::Friends),
        SidebarMsg::RenderGroups => SidebarCommand::Render(ContactList::Groups),
    }
}

/// The sidebar's state after `msg`: a refresh request disables the
/// refresh button of its list; no other message changes the state.
pub open spec fn after_message(s: SidebarView, msg: SidebarMsg) -> SidebarView {
    match msg {
        SidebarMsg::RefreshFriends => set_refresh_enabled(s, ContactList::Friends, false),
        SidebarMsg::RefreshGroups => set_refresh_enabled(s, ContactList::Groups, false),
        _ => s,
    }
}

/// The sidebar's state after a render of `list` has finished, the list's
/// new contents left aside: its refresh button is enabled again.
pub open spec fn after_render(s: SidebarView, list: ContactList) -> SidebarView {
    set_refresh_enabled(s, list, true)
}

/// The refresh buttons after `msg` has been handled to its end: for a
/// render message, the handling ends with the finished render; the
/// contents of the lists are left aside.
pub open spec fn buttons_after(s: SidebarView, msg: SidebarMsg) -> SidebarView {
    match msg {
        SidebarMsg::RenderFriends => after_render(after_message(s, msg), ContactList::Friends),
        SidebarMsg::RenderGroups => after_render(after_message(s, msg), ContactList::Groups),
        _ => after_message(s, msg),
    }
}

/// The refresh buttons after each of `msgs` has been handled, in order.
pub open spec fn buttons_after_all(s: SidebarView, msgs: Seq<SidebarMsg>) -> SidebarView
    decreases msgs.len(),
{
    if msgs.len() == 0 {
        s
    } else {
        buttons_after(buttons_after_all(s, msgs.drop_last()), msgs.last())
    }
}

/// Some request to refresh `list` in `msgs` has no render of `list` after
/// it.
pub open spec fn refresh_pending(msgs: Seq<SidebarMsg>, list: ContactList) -> bool {
    exists|j: int|
        0 <= j < msgs.len() && #[trigger] msgs[j] == refresh_msg(list) && forall|k: int|
            j < k < msgs.len() ==> #[trigger] msgs[k] != render_msg(list)
}

/// `m` is a notice with the text `text`.
pub open spec fn is_toast(m: MainWindowMsg, text: Seq<char>) -> bool {
    m matches MainWindowMsg::PushToast(t) && t@ == text
}

/// The notice that a refresh of `list` has begun.
pub open spec fn refresh_notice_text(list: ContactList) -> Seq<char> {
    match list {
        ContactList::Friends => "Start refreshing the friends list..."@,
        ContactList::Groups => "Start refreshing the groups list..."@,
    }
}

/// The notice that `list` has been rendered anew.
pub open spec fn refreshed_text(list: ContactList) -> Seq<char> {
    match list {
        ContactList::Friends => "Refreshed the friends list."@,
        ContactList::Groups => "Refreshed the groups list."@,
    }
}

/// `r` is what a background refresh of `list` does after its download
/// ended with `outcome`: on success, ask the sidebar to render the list; on
/// failure, show the error.
pub open spec fn is_refresh_reply(list: ContactList, outcome: Result<(), String>, r: RefreshReply) -> bool {
    match outcome {
        Ok(_) => r == RefreshReply::Input(render_msg(list)),
        Err(e) => r matches RefreshReply::Output(m) && is_toast(m, e@),
    }
}

/// A notice with the given text.
fn toast(text: &str) -> (m: MainWindowMsg)
    ensures
        is_toast(m, text@),
{
    MainWindowMsg::PushToast(String::from_str(text))
}

impl SidebarModel {
    /// The sidebar as it first shows: both refresh buttons enabled, the
    /// friends list built from `friends` and the groups list showing
    /// `groups`.
    pub fn init(friends: FriendsTables, groups: Vec<Group>) -> (r: SidebarModel)
        ensures
            is_grouping(friends.friends@, friends.friends_groups@, r@.friends_list),
            r@.groups_list == groups@,
            r@.friends_refresh_enabled,
            r@.groups_refresh_enabled,
    {
        let mut model = SidebarModel {
            friends_list: Vec::new(),
            groups_list: Vec::new(),
            is_refresh_friends_button_enabled: true,
            is_refresh_groups_button_enabled: true,
        };
        let _ = model.render_friends(Ok(friends));
        let _ = model.render_groups(Ok(groups));
        model
    }

    /// The friend groups the friends list shows.
    pub fn friends_list(&self) -> (r: &Vec<FriendsGroup>)
        ensures
            r@ == self@.friends_list,
    {
        &self.friends_list
    }

    /// The chat groups the groups list shows.
    pub fn groups_list(&self) -> (r: &Vec<Group>)
        ensures
            r@ == self@.groups_list,
    {
        &self.groups_list
    }

    /// Whether the refresh button of the friends list can be pressed.
    pub fn is_refresh_friends_button_enabled(&self) -> (r: bool)
        ensures
            r == self@.friends_refresh_enabled,
    {
        self.is_refresh_friends_button_enabled
    }

    /// Whether the refresh button of the groups list can be pressed.
    pub fn is_refresh_groups_button_enabled(&self) -> (r: bool)
        ensures
            r == self@.groups_refresh_enabled,
    {
        self.is_refresh_groups_button_enabled
    }

    /// Renders the friends list anew from what the database gave: the list
    /// is emptied first, then, when both tables could be read, filled with
    /// one entry per friend group holding its friends. A read error comes
    /// back unchanged and leaves the list empty.
    pub fn render_friends(&mut self, loaded: Result<FriendsTables, String>) -> (r: Result<(), String>)
        ensures
            match loaded {
                Ok(tables) => r is Ok && is_grouping(
                    tables.friends@,
                    tables.friends_groups@,
                    final(self)@.friends_list,
                ),
                Err(e) => r == Err::<(), String>(e) && final(self)@.friends_list.len() == 0,
            },
            final(self)@.groups_list == old(self)@.groups_list,
            final(self)@.friends_refresh_enabled == old(self)@.friends_refresh_enabled,
            final(self)@.groups_refresh_enabled == old(self)@.groups_refresh_enabled,
    {
        self.friends_list.clear();
        match loaded {
            Ok(tables) => {
                self.friends_list = group_friends(&tables.friends, &tables.friends_groups);
                Ok(())
            },
            Err(e) => Err(e),
        }
    }

    /// Renders the groups list anew from what the database gave: the list
    /// is emptied first, then, when the table could be read, filled with the
    /// groups in the order given. A read error comes back unchanged and
    /// leaves the list empty.
    pub fn render_groups(&mut self, loaded: Result<Vec<Group>, String>) -> (r: Result<(), String>)
        ensures
            match loaded {
                Ok(groups) => r is Ok && final(self)@.groups_list == groups@,
                Err(e) => r == Err::<(), String>(e) && final(self)@.groups_list.len() == 0,
            },
            final(self)@.friends_list == old(self)@.friends_list,
            final(self)@.friends_refresh_enabled == old(self)@.friends_refresh_enabled,
            final(self)@.groups_refresh_enabled == old(self)@.groups_refresh_enabled,
    {
        self.groups_list.clear();
        match loaded {
            Ok(groups) => {
                self.groups_list = groups;
                Ok(())
            },
            Err(e) => Err(e),
        }
    }

    /// Handles a message to the sidebar and says what is to be done.
    pub fn update(&mut self, msg: SidebarMsg) -> (c: SidebarCommand)
        ensures
            c == command_for(msg),
            final(self)@ == after_message(old(self)@, msg),
    {
        match msg {
            SidebarMsg::SelectChatroom(account, is_group) => SidebarCommand::Output(
                MainWindowMsg::SelectChatroom(account, is_group),
            ),
            SidebarMsg::UpdateChatItem(account, is_group, last_message) => SidebarCommand::ForwardToChats(
                ChatsMsg::UpdateChatItem(account, is_group, last_message),
            ),
            SidebarMsg::InsertChatItem(account, is_group, last_message) => SidebarCommand::ForwardToChats(
                ChatsMsg::InsertChatItem(account, is_group, last_message),
            ),
            SidebarMsg::RefreshFriends => {
                self.is_refresh_friends_button_enabled = false;
                SidebarCommand::StartRefresh(ContactList::Friends)
            },
            SidebarMsg::RefreshGroups => {
                self.is_refresh_groups_button_enabled = false;
                SidebarCommand::StartRefresh(ContactList::Groups)
            },
            SidebarMsg::RenderFriends => SidebarCommand::Render(ContactList::Friends),
            SidebarMsg::RenderGroups => SidebarCommand::Render(ContactList::Groups),
        }
    }

    /// Ends the handling of [`SidebarMsg::RenderFriends`]: renders the
    /// friends list from what the database gave, enables its refresh button
    /// again, and returns the notice to show: that the list was refreshed,
    /// or the read error.
    pub fn finish_friends_render(&mut self, loaded: Result<FriendsTables, String>) -> (m: MainWindowMsg)
        ensures
            match loaded {
                Ok(tables) => is_toast(m, refreshed_text(ContactList::Friends)) && is_grouping(
                    tables.friends@,
                    tables.friends_groups@,
                    final(self)@.friends_list,
                ),
                Err(e) => is_toast(m, e@) && final(self)@.friends_list.len() == 0,
            },
            final(self)@ == with_friends_list(
                after_render(old(self)@, ContactList::Friends),
                final(self)@.friends_list,
            ),
    {
        let m = match self.render_friends(loaded) {
            Ok(_) => toast("Refreshed the friends list."),
            Err(err) => MainWindowMsg::PushToast(err),
        };
        self.is_refresh_friends_button_enabled = true;
        m
    }

    /// Ends the handling of [`SidebarMsg::RenderGroups`]: renders the
    /// groups list from what the database gave, enables its refresh button
    /// again, and returns the notice to show: that the list was refreshed,
    /// or the read error.
    pub fn finish_groups_render(&mut self, loaded: Result<Vec<Group>, String>) -> (m: MainWindowMsg)
        ensures
            match loaded {
                Ok(groups) => is_toast(m, refreshed_text(ContactList::Groups))
                    && final(self)@.groups_list == groups@,
                Err(e) => is_toast(m, e@) && final(self)@.groups_list.len() == 0,
            },
            final(self)@ == with_groups_list(
                after_render(old(self)@, ContactList::Groups),
                final(self)@.groups_list,
            ),
    {
        let m = match self.render_groups(loaded) {
            Ok(_) => toast("Refreshed the groups list."),
            Err(err) => MainWindowMsg::PushToast(err),
        };
        self.is_refresh_groups_button_enabled = true;
        m
    }
}

/// The notice a background refresh of `list` shows when it begins.
pub fn refresh_notice(list: ContactList) -> (m: MainWindowMsg)
    ensures
        is_toast(m, refresh_notice_text(list)),
{
    match list {
        ContactList::Friends => toast("Start refreshing the friends list..."),
        ContactList::Groups => toast("Start refreshing the groups list..."),
    }
}

/// What a background refresh of `list` does once its download ended with
/// `outcome`: on success it asks the sidebar to render the list, on failure
/// it shows the error.
pub fn refresh_reply(list: ContactList, outcome: Result<(), String>) -> (r: RefreshReply)
    ensures
        is_refresh_reply(list, outcome, r),
{
    match outcome {
        Ok(_) => match list {
            ContactList::Friends => RefreshReply::Input(SidebarMsg::RenderFriends),
            ContactList::Groups => RefreshReply::Input(SidebarMsg::RenderGroups),
        },
        Err(err) => RefreshReply::Output(MainWindowMsg::PushToast(err)),
    }
}

/// The message sent when the row at `index` of the groups list is
/// activated: open the chatroom of the group at that place in `group_ids`,
/// the ids of the groups ordered by name.
pub fn select_group_row(group_ids: &Vec<i64>, index: i32) -> (m: MainWindowMsg)
    requires
        0 <= index < group_ids.len(),
    ensures
        m == MainWindowMsg::SelectChatroom(group_ids@[index as int], true),
{
    let i: usize = index as usize;
    MainWindowMsg::SelectChatroom(group_ids[i], true)
}

/// Law: no message changes what the contact lists show; only a render does.
pub proof fn lemma_messages_keep_lists(s: SidebarView, msg: SidebarMsg)
    ensures
        after_message(s, msg).friends_list == s.friends_list,
        after_message(s, msg).groups_list == s.groups_list,
{
}

/// Law: a refresh request for one list disables that list's refresh
/// button, starts its refresh, and leaves the other list's button as it
/// was.
pub proof fn lemma_refresh_disables_button(s: SidebarView, list: ContactList)
    ensures
        command_for(refresh_msg(list)) == SidebarCommand::StartRefresh(list),
        !refresh_enabled(after_message(s, refresh_msg(list)), list),
        refresh_enabled(after_message(s, refresh_msg(list)), other_list(list)) == refresh_enabled(s, other_list(list)),
{
}

/// Law: the refresh button of a list stays disabled from the refresh
/// request through the render request that a successful download sends,
/// and the render that follows enables it again; the other list's button
/// is left as it was throughout.
pub proof fn lemma_refresh_cycle(s: SidebarView, list: ContactList, reply: RefreshReply)
    requires
        is_refresh_reply(list, Ok(()), reply),
    ensures
        reply matches RefreshReply::Input(msg) && ({
            let s1 = after_message(s, refresh_msg(list));
            let s2 = after_message(s1, msg);
            &&& command_for(msg) == SidebarCommand::Render(list)
            &&& !refresh_enabled(s2, list)
            &&& refresh_enabled(after_render(s2, list), list)
            &&& refresh_enabled(after_render(s2, list), other_list(list)) == refresh_enabled(s, other_list(list))
        }),
{
}

/// Law: when the download of a refresh fails, the refresh sends the sidebar
/// no message; the error goes to the main window, and the list's refresh
/// button stays as the refresh request left it: disabled.
pub proof fn lemma_failed_refresh_keeps_button_disabled(
    s: SidebarView,
    list: ContactList,
    e: String,
    reply: RefreshReply,
)
    requires
        is_refresh_reply(list, Err(e), reply),
    ensures
        reply matches RefreshReply::Output(m) && is_toast(m, e@),
        !refresh_enabled(after_message(s, refresh_msg(list)), list),
{
}

/// Law: starting from a state in which the refresh button of `list` is
/// enabled (as [`SidebarModel::init`] leaves both), after any sequence of
/// messages, each handled to its end, the button is enabled exactly when no
/// request to refresh `list` is still waiting for a render of `list`.
pub proof fn lemma_refresh_button_tracks_pending(s: SidebarView, msgs: Seq<SidebarMsg>, list: ContactList)
    requires
        refresh_enabled(s, list),
    ensures
        refresh_enabled(buttons_after_all(s, msgs), list) == !refresh_pending(msgs, list),
    decreases msgs.len(),
{
    if msgs.len() > 0 {
        let init = msgs.drop_last();
        let m = msgs.last();
        let n = msgs.len() - 1;
        lemma_refresh_button_tracks_pending(s, init, list);
        if m == refresh_msg(list) {
            assert(msgs[n] == refresh_msg(list));
            assert(refresh_pending(msgs, list));
        } else if m == render_msg(list) {
            if refresh_pending(msgs, list) {
                let j = choose|j: int|
                    0 <= j < msgs.len() && #[trigger] msgs[j] == refresh_msg(list) && forall|k: int|
                        j < k < msgs.len() ==> #[trigger] msgs[k] != render_msg(list);
                assert(msgs[n] == render_msg(list));
                assert(false);
            }
        } else {
            assert(refresh_enabled(buttons_after(buttons_after_all(s, init), m), list)
                == refresh_enabled(buttons_after_all(s, init), list));
            if refresh_pending(msgs, list) {
                let j = choose|j: int|
                    0 <= j < msgs.len() && #[trigger] msgs[j] == refresh_msg(list) && forall|k: int|
                        j < k < msgs.len() ==> #[trigger] msgs[k] != render_msg(list);
                assert(j < n);
                assert(init[j] == refresh_msg(list));
                assert forall|k: int| j < k < init.len() implies #[trigger] init[k] != render_msg(list) by {
                    assert(msgs[k] != render_msg(list));
                }
                assert(refresh_pending(init, list));
            }
            if refresh_pending(init, list) {
                let j = choose|j: int|
                    0 <= j < init.len() && #[trigger] init[j] == refresh_msg(list) && forall|k: int|
                        j < k < init.len() ==> #[trigger] init[k] != render_msg(list);
                assert(msgs[j] == refresh_msg(list));
                assert forall|k: int| j < k < msgs.len() implies #[trigger] msgs[k] != render_msg(list) by {
                    if k < n {
                        assert(init[k] != render_msg(list));
                    } else {
                        assert(msgs[k] == m);
                    }
                }
                assert(refresh_pending(msgs, list));
            }
        }
    }
}

/// Law: selecting a chat opens that chat's own chatroom: the main window
/// gets the very account and the very group flag of the selection, and the
/// sidebar's state does not change.
pub proof fn lemma_selection_opens_its_chatroom(s: SidebarView, account: i64, is_group: bool)
    ensures
        command_for(SidebarMsg::SelectChatroom(account, is_group)) == SidebarCommand::Output(
            MainWindowMsg::SelectChatroom(account, is_group),
        ),
        after_message(s, SidebarMsg::SelectChatroom(account, is_group)) == s,
{
}

/// Law: a new last message of a chat goes to the list of chats as an
/// update of that chat's row, with the same account, group flag and text,
/// and a first message goes there as the insertion of a new row with the
/// same three values; neither changes the sidebar's state.
pub proof fn lemma_chat_items_reach_the_chats(s: SidebarView, account: i64, is_group: bool, text: String)
    ensures
        command_for(SidebarMsg::UpdateChatItem(account, is_group, text)) == SidebarCommand::ForwardToChats(
            ChatsMsg::UpdateChatItem(account, is_group, text),
        ),
        command_for(SidebarMsg::InsertChatItem(account, is_group, text)) == SidebarCommand::ForwardToChats(
            ChatsMsg::InsertChatItem(account, is_group, text),
        ),
        after_message(s, SidebarMsg::UpdateChatItem(account, is_group, text)) == s,
        after_message(s, SidebarMsg::InsertChatItem(account, is_group, text)) == s,
{
}

/// Law: a render request for a list asks for a render of that same list and
/// changes no state; the render itself follows with the finishing step.
pub proof fn lemma_render_request_renders_its_list(s: SidebarView, list: ContactList)
    ensures
        command_for(render_msg(list)) == SidebarCommand::Render(list),
        after_message(s, render_msg(list)) == s,
{
}

} // verus!
