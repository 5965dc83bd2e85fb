pub mod commands;
pub mod perms;
pub mod playlists;
