pub mod launch;
pub mod line;
pub mod pump;
pub mod url;
