//! Logic of the directory page that lists principals (accounts, groups and
//! mailing lists): how the page reads its route and query, what it asks the
//! server for, how it gathers and deletes principals, and the text of each row.

pub mod text;
pub mod principal;
pub mod route;
pub mod listing;
pub mod fetch;
pub mod row;
pub mod selection;
