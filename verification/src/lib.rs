//! Access permissions and resource records of a traffic management system.

pub mod card;
pub mod controller;
pub mod database;
pub mod device;
pub mod directory;
pub mod error;
pub mod geoloc;
pub mod gps;
pub mod hashtag;
pub mod html;
pub mod item;
pub mod json;
pub mod laws;
pub mod lcsarray;
pub mod lookup;
pub mod naming;
pub mod order;
pub mod patch;
pub mod permission;
pub mod resolver;
pub mod text;
pub mod transaction;
pub mod weather;
