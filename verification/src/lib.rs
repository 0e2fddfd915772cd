//! Verified core of a mod manager for Grand Theft Auto V: the rules that
//! decide what goes into `dlclist.xml`, which extracted files describe a mod,
//! how an archive is installed, and which installed mods are active.

pub mod text;
pub mod xml;
pub mod dlclist;
pub mod digest;
pub mod install;
pub mod pattern;
pub mod metadata;
pub mod valid_mods;
pub mod gta_path;
pub mod patch_flow;
