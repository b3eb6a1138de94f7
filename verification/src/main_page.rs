//! The main page: the sidebar of chats beside a stack of chatrooms, and
//! which chatroom is shown.
use vstd::prelude::*;

use std::collections::VecDeque;

use crate::decimal::{i32_to_decimal, int_decimal, lemma_int_decimal_injective, nat_decimal, push_decimal};

verus! {

/// A message to the main page.
#[derive(Debug, Clone, Copy, PartialEq, Eq, Structural)]
pub enum MainMsg {
    /// The window became too narrow to show the sidebar beside a chatroom.
    WindowFolded,
    /// The chat at this row of the sidebar was chosen.
    SelectChatroom(i32),
}

/// A message of a chatroom.
#[derive(Clone, Debug)]
pub struct Message {
    pub author: String,
    pub message: String,
}

/// A chat of the sidebar: who it is with and the last thing said.
#[derive(Debug)]
pub struct UserItem {
    pub username: String,
    pub last_message: String,
}

/// What a chatroom is opened with: who it is with and its messages.
#[derive(Debug)]
pub struct ChatroomInitParams {
    pub username: String,
    pub messages: VecDeque<Message>,
}

/// What the main page is to change in what it shows.
#[derive(Debug)]
pub enum PageChange {
    /// Show the chatroom side of the folded window.
    ShowChatroom,
    /// Show the chatroom page of this name.
    ShowChatroomPage(String),
}

/// The state of the main page: the last message it got, its chats and its
/// chatrooms.
pub struct MainPageModel {
    message: Option<MainMsg>,
    chats_list: Vec<UserItem>,
    chatrooms: Vec<ChatroomInitParams>,
}

/// The main page's state as a mathematical value.
pub struct MainPageView {
    pub message: Option<MainMsg>,
    pub chats_list: Seq<UserItem>,
    pub chatrooms: Seq<ChatroomInitParams>,
}

impl View for MainPageModel {
    type V = MainPageView;

    closed spec fn view(&self) -> MainPageView {
        MainPageView { message: self.message, chats_list: self.chats_list@, chatrooms: self.chatrooms@ }
    }
}

/// How many chats the page starts with.
pub const MOCK_CHATS_LEN: usize = 13;

/// How many messages each chatroom starts with.
pub const MOCK_MESSAGES_LEN: u64 = 18;

/// The chats the page starts with: the user name and the last message of
/// chat `k`.
pub open spec fn mock_chat(k: int) -> (Seq<char>, Seq<char>) {
    if k == 0 {
        ("飞翔的企鹅"@, "Hello"@)
    } else if k == 1 {
        ("奔跑的野猪"@, "World"@)
    } else if k == 2 {
        ("摆烂的修勾"@, "喵喵"@)
    } else if k == 3 {
        ("躺平的猫咪"@, "汪汪"@)
    } else if k == 4 {
        ("想润的鼠鼠"@, "鼠鼠我啊"@)
    } else if k == 5 {
        ("咆哮的先辈"@, "哼哼"@)
    } else if k == 6 {
        ("叛逆的鲁路"@, "2333"@)
    } else if k == 7 {
        ("死神的笔记"@, "2333"@)
    } else if k == 8 {
        ("进击的巨人"@, "2333"@)
    } else if k == 9 {
        ("炼金的术士"@, "2333"@)
    } else if k == 10 {
        ("忧郁的凉宫"@, "2333"@)
    } else if k == 11 {
        ("灼眼的夏娜"@, "2333"@)
    } else {
        ("科学的磁炮"@, "2333"@)
    }
}

/// The author of message `i` of the chatroom with `username`: every fourth
/// message, from the first on, is the user's own.
pub open spec fn mock_author(username: Seq<char>, i: int) -> Seq<char> {
    if i % 4 == 0 {
        "You"@
    } else {
        username
    }
}

/// The text of message `i` of a chatroom whose last message is
/// `last_message`: that message, then a line that numbers the message from
/// one.
pub open spec fn mock_text(last_message: Seq<char>, i: int) -> Seq<char> {
    last_message + "\nThis is the No."@ + nat_decimal((i + 1) as nat) + " message in this page."@
}

/// `room` is the chatroom the page starts with for the chat with
/// `username` whose last message is `last_message`.
pub open spec fn is_mock_chatroom(username: Seq<char>, last_message: Seq<char>, room: ChatroomInitParams) -> bool {
    &&& room.username@ == username
    &&& room.messages@.len() == MOCK_MESSAGES_LEN
    &&& forall|i: int|
        #![trigger room.messages@[i]]
        0 <= i < MOCK_MESSAGES_LEN ==> room.messages@[i].author@ == mock_author(username, i)
            && room.messages@[i].message@ == mock_text(last_message, i)
}

/// The page's state after the message `msg`.
pub open spec fn after_update(s: MainPageView, msg: MainMsg) -> MainPageView {
    MainPageView { message: Some(msg), ..s }
}

/// What the page is to change for the last message it got.
pub open spec fn page_change_for(message: Option<MainMsg>, r: Option<PageChange>) -> bool {
    match message {
        None => r is None,
        Some(MainMsg::WindowFolded) => r == Some(PageChange::ShowChatroom),
        Some(MainMsg::SelectChatroom(id)) => r matches Some(PageChange::ShowChatroomPage(name))
            && name@ == int_decimal(id as int),
    }
}

/// The user name and last message of chat `k` the page starts with.
fn mock_chat_entry(k: usize) -> (r: (&'static str, &'static str))
    requires
        k < MOCK_CHATS_LEN,
    ensures
        (r.0@, r.1@) == mock_chat(k as int),
{
    if k == 0 {
        ("飞翔的企鹅", "Hello")
    } else if k == 1 {
        ("奔跑的野猪", "World")
    } else if k == 2 {
        ("摆烂的修勾", "喵喵")
    } else if k == 3 {
        ("躺平的猫咪", "汪汪")
    } else if k == 4 {
        ("想润的鼠鼠", "鼠鼠我啊")
    } else if k == 5 {
        ("咆哮的先辈", "哼哼")
    } else if k == 6 {
        ("叛逆的鲁路", "2333")
    } else if k == 7 {
        ("死神的笔记", "2333")
    } else if k == 8 {
        ("进击的巨人", "2333")
    } else if k == 9 {
        ("炼金的术士", "2333")
    } else if k == 10 {
        ("忧郁的凉宫", "2333")
    } else if k == 11 {
        ("灼眼的夏娜", "2333")
    } else {
        ("科学的磁炮", "2333")
    }
}

/// Message `i` of the chatroom a page starts with for the chat with
/// `username` whose last message is `last_message`.
pub fn mock_message(username: &str, last_message: &str, i: u64) -> (m: Message)
    requires
        i < u64::MAX,
    ensures
        m.author@ == mock_author(username@, i as int),
        m.message@ == mock_text(last_message@, i as int),
{
    let author = if i % 4 == 0 {
        String::from_str("You")
    } else {
        String::from_str(username)
    };
    let mut text = String::from_str(last_message);
    text.append("\nThis is the No.");
    push_decimal(&mut text, i + 1);
    text.append(" message in this page.");
    Message { author, message: text }
}

/// The chatroom a page starts with for the chat with `username` whose last
/// message is `last_message`.
pub fn mock_chatroom(username: &str, last_message: &str) -> (room: ChatroomInitParams)
    ensures
        is_mock_chatroom(username@, last_message@, room),
{
    let mut messages: VecDeque<Message> = VecDeque::new();
    let mut i: u64 = 0;
    while i < MOCK_MESSAGES_LEN
        invariant
            i <= MOCK_MESSAGES_LEN,
            messages@.len() == i,
            forall|j: int|
                #![trigger messages@[j]]
                0 <= j < i ==> messages@[j].author@ == mock_author(username@, j)
                    && messages@[j].message@ == mock_text(last_message@, j),
        decreases MOCK_MESSAGES_LEN - i,
    {
        let m = mock_message(username, last_message, i);
        messages.push_back(m);
        i += 1;
    }
    ChatroomInitParams { username: String::from_str(username), messages }
}

impl MainPageModel {
    /// The main page as it first shows: no message yet, and for each chat
    /// of [`mock_chat`] an entry in the sidebar and a chatroom, in the same
    /// order.
    pub fn init() -> (r: MainPageModel)
        ensures
            r@.message is None,
            r@.chats_list.len() == MOCK_CHATS_LEN,
            r@.chatrooms.len() == MOCK_CHATS_LEN,
            forall|k: int|
                #![trigger r@.chats_list[k]]
                0 <= k < MOCK_CHATS_LEN ==> r@.chats_list[k].username@ == mock_chat(k).0
                    && r@.chats_list[k].last_message@ == mock_chat(k).1,
            forall|k: int|
                #![trigger r@.chatrooms[k]]
                0 <= k < MOCK_CHATS_LEN ==> is_mock_chatroom(mock_chat(k).0, mock_chat(k).1, r@.chatrooms[k]),
            forall|k: int|
                #![trigger r@.chatrooms[k]]
                0 <= k < MOCK_CHATS_LEN ==> r@.chatrooms[k].username@ == r@.chats_list[k].username@,
    {
        let mut chats_list: Vec<UserItem> = Vec::new();
        let mut chatrooms: Vec<ChatroomInitParams> = Vec::new();
        let mut k: usize = 0;
        while k < MOCK_CHATS_LEN
            invariant
                k <= MOCK_CHATS_LEN,
                chats_list@.len() == k,
                chatrooms@.len() == k,
                forall|j: int|
                    #![trigger chats_list@[j]]
                    0 <= j < k ==> chats_list@[j].username@ == mock_chat(j).0
                        && chats_list@[j].last_message@ == mock_chat(j).1,
                forall|j: int|
                    #![trigger chatrooms@[j]]
                    0 <= j < k ==> is_mock_chatroom(mock_chat(j).0, mock_chat(j).1, chatrooms@[j]),
            decreases MOCK_CHATS_LEN - k,
        {
            let (username, last_message) = mock_chat_entry(k);
            chats_list.push(UserItem {
                username: String::from_str(username),
                last_message: String::from_str(last_message),
            });
            chatrooms.push(mock_chatroom(username, last_message));
            k += 1;
        }
        MainPageModel { message: None, chats_list, chatrooms }
    }

    /// The last message the page got, if any.
    pub fn message(&self) -> (r: Option<MainMsg>)
        ensures
            r == self@.message,
    {
        self.message
    }

    /// The chats of the sidebar.
    pub fn chats_list(&self) -> (r: &Vec<UserItem>)
        ensures
            r@ == self@.chats_list,
    {
        &self.chats_list
    }

    /// The chatrooms of the stack.
    pub fn chatrooms(&self) -> (r: &Vec<ChatroomInitParams>)
        ensures
            r@ == self@.chatrooms,
    {
        &self.chatrooms
    }

    /// Takes a message: it becomes the last message; the chats and the
    /// chatrooms stay as they are.
    pub fn update(&mut self, msg: MainMsg)
        ensures
            final(self)@ == after_update(old(self)@, msg),
    {
        match msg {
            MainMsg::WindowFolded => self.message = Some(MainMsg::WindowFolded),
            MainMsg::SelectChatroom(id) => self.message = Some(MainMsg::SelectChatroom(id)),
        }
    }

    /// What the page is to change before it is drawn, for the last message
    /// it got: nothing before the first message; for a folded window, show
    /// the chatroom side; for a chosen chat, show the chatroom page named
    /// by the chat's row.
    pub fn pre_view(&self) -> (r: Option<PageChange>)
        ensures
            page_change_for(self@.message, r),
    {
        match self.message {
            None => None,
            Some(MainMsg::WindowFolded) => Some(PageChange::ShowChatroom),
            Some(MainMsg::SelectChatroom(id)) => Some(PageChange::ShowChatroomPage(i32_to_decimal(id))),
        }
    }
}

/// Law: after a message, what the page changes before it is drawn is what
/// that message asks, whatever state the page was in before it.
pub proof fn lemma_last_message_decides(s: MainPageView, t: MainPageView, msg: MainMsg, r: Option<PageChange>)
    ensures
        page_change_for(after_update(s, msg).message, r) == page_change_for(after_update(t, msg).message, r),
        page_change_for(after_update(s, msg).message, r) == page_change_for(Some(msg), r),
{
}

/// Law: once a chat has been chosen, the page always shows a chatroom page,
/// and the page shown is the one named by the chosen row in decimal, for
/// every row, the first one included; a folded window always shows the
/// chatroom side; before any message nothing changes.
pub proof fn lemma_chosen_chat_shows_its_page(message: Option<MainMsg>, r: Option<PageChange>)
    requires
        page_change_for(message, r),
    ensures
        message is None <==> r is None,
        message == Some(MainMsg::WindowFolded) ==> r == Some(PageChange::ShowChatroom),
        forall|id: i32|
            message == Some(MainMsg::SelectChatroom(id)) ==> (r matches Some(PageChange::ShowChatroomPage(name))
                && name@ == int_decimal(id as int)),
{
}

/// Law: distinct rows name distinct chatroom pages, and a row that is not
/// negative is named by its digits alone.
pub proof fn lemma_row_names_are_decimal(id: i32, other: i32)
    ensures
        id >= 0 ==> int_decimal(id as int) == nat_decimal(id as nat),
        id != other ==> int_decimal(id as int) != int_decimal(other as int),
{
    if id != other {
        lemma_int_decimal_injective(id as int, other as int);
    }
}

} // verus!
