//! A typed router for a small, fixed set of URL paths.

pub mod decimal;
pub mod order;
pub mod root;
pub mod settings;
pub mod text;
pub mod user;

pub use order::OrderRouter;
pub use root::RootRouter;
pub use settings::SettingsPage;
pub use user::UserRoute;
