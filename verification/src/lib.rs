use vstd::prelude::*;

pub mod areas;
pub mod assets;
pub mod autotune;
pub mod bytes;
pub mod checkpoint;
pub mod combat;
pub mod commands;
pub mod controls;
pub mod effects;
pub mod fx;
pub mod fxplan;
pub mod game;
pub mod geom;
pub mod identity;
pub mod kinds;
pub mod labels;
pub mod link;
pub mod lobby;
pub mod maps;
pub mod menus;
pub mod mobility;
pub mod net_msg;
pub mod netaddr;
pub mod pointer;
pub mod preview;
pub mod replay;
pub mod rules;
pub mod save;
pub mod sim;
pub mod stun;
pub mod stun_basic;
pub mod stun_env;
pub mod text;
pub mod view;

verus! {
} // verus!
