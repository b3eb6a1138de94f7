//! The verified core of a GTK QQ client: the decisions of its sidebar and
//! main page, kept apart from the widgets, the database and the network.
pub mod contacts;
pub mod decimal;
pub mod main_page;
pub mod sidebar;
