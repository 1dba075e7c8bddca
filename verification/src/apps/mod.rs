pub mod text;
pub mod chrome;
pub mod discord;
pub mod explorer;
pub mod obsid;
pub mod tg;
pub mod vscode;
pub mod wt;
