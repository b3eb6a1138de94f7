# gtk_qq

The verified core of a GTK QQ client, written in Verus.

- `src/contacts.rs`: friends, friend groups and chat groups, and how the
  friends are sorted into their groups, with the laws that no friend is
  lost or counted twice.
- `src/sidebar.rs`: the sidebar as a state machine: messages in, commands
  out, and the renders and background refreshes that close each cycle.
- `src/main_page.rs`: the main page: the chats and chatrooms it starts with,
  and which page it shows after a message.
- `src/decimal.rs`: decimal text of integers.
- `app/`: the GTK window, the SQLite reads and the background tasks, which
  do the work the library's commands ask for.
