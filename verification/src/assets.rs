//! The sprites of towers, enemies and impacts, drawn in Unicode cells, one
//! set per zoom level: 2 by 2 cells at zoom 0, then 4 by 4 cells per zoom
//! step. A space is transparent.
use vstd::prelude::*;

use crate::kinds::{EnemyKind, TowerKind};

verus! {

/// A picture of `w` by `h` cells, row by row; a space is transparent.
#[derive(Clone, Copy)]
pub struct Sprite {
    pub w: u16,
    pub h: u16,
    pub rows: &'static [&'static str],
}

impl Sprite {
    /// Row `y` of the picture, or an empty row below it.
    pub fn row(&self, y: usize) -> (r: &'static str)
        ensures
            r == if y < self.rows@.len() {
                self.rows@[y as int]
            } else {
                ""
            },
    {
        if y < self.rows.len() {
            self.rows[y]
        } else {
            ""
        }
    }
}

/// The side of a sprite, in cells, at a zoom level (0 to 4).
pub open spec fn sprite_side(z: int) -> int {
    if z == 0 {
        2
    } else {
        4 * z
    }
}

/// The zoom level kept within 0..=4.
pub open spec fn zoom_level(zoom: u16) -> int {
    if zoom > 4 {
        4
    } else {
        zoom as int
    }
}

/// The sprite has the side of zoom level `z` and one row per line.
pub open spec fn sprite_shaped(s: Sprite, z: int) -> bool {
    s.w == sprite_side(z) && s.h == sprite_side(z) && s.rows@.len() == s.h
}


/// The rows of tower_basic_z0.
pub open spec fn tower_basic_z0_rows() -> Seq<&'static str> {
    seq!["▣▣", "▄▄"]
}

fn tower_basic_z0() -> (s: Sprite)
    ensures
        s.w == 2 && s.h == 2 && s.rows@ == tower_basic_z0_rows(),
{
    let s = Sprite { w: 2, h: 2, rows: &["▣▣", "▄▄"] };
    assert(s.rows@ =~= tower_basic_z0_rows());
    s
}


/// The rows of tower_basic_z1.
pub open spec fn tower_basic_z1_rows() -> Seq<&'static str> {
    seq![" ▄▄ ", "▐██▌", "▐▄▄▌", " ▀▀ "]
}

fn tower_basic_z1() -> (s: Sprite)
    ensures
        s.w == 4 && s.h == 4 && s.rows@ == tower_basic_z1_rows(),
{
    let s = Sprite { w: 4, h: 4, rows: &[" ▄▄ ", "▐██▌", "▐▄▄▌", " ▀▀ "] };
    assert(s.rows@ =~= tower_basic_z1_rows());
    s
}


/// The rows of tower_basic_z2.
pub open spec fn tower_basic_z2_rows() -> Seq<&'static str> {
    seq!["  ▄▄▄▄  ", " ██████▌", "▐██████▌", "▐██▄▄██▌", "▐██████▌", " ▀▀▀▀▀▀ ", "  ▄▐▌▄  ", "  ▀▀▀▀  "]
}

fn tower_basic_z2() -> (s: Sprite)
    ensures
        s.w == 8 && s.h == 8 && s.rows@ == tower_basic_z2_rows(),
{
    let s = Sprite { w: 8, h: 8, rows: &["  ▄▄▄▄  ", " ██████▌", "▐██████▌", "▐██▄▄██▌", "▐██████▌", " ▀▀▀▀▀▀ ", "  ▄▐▌▄  ", "  ▀▀▀▀  "] };
    assert(s.rows@ =~= tower_basic_z2_rows());
    s
}


/// The rows of tower_basic_z3.
pub open spec fn tower_basic_z3_rows() -> Seq<&'static str> {
    seq!["    ▄▄▄▄    ", "   ▄████▄   ", "  ▄██▀▀██▄  ", " ▄██▌  ▐██▄ ", " ██▌ ▄▄ ▐██ ", " ██  ███  ██", " ██  ███  ██", " ██▌ ▀▀ ▐██ ", " ▀██▄  ▄██▀ ", "  ▀██████▀  ", "   ▀████▀   ", "    ▀▀▀▀    "]
}

fn tower_basic_z3() -> (s: Sprite)
    ensures
        s.w == 12 && s.h == 12 && s.rows@ == tower_basic_z3_rows(),
{
    let s = Sprite { w: 12, h: 12, rows: &["    ▄▄▄▄    ", "   ▄████▄   ", "  ▄██▀▀██▄  ", " ▄██▌  ▐██▄ ", " ██▌ ▄▄ ▐██ ", " ██  ███  ██", " ██  ███  ██", " ██▌ ▀▀ ▐██ ", " ▀██▄  ▄██▀ ", "  ▀██████▀  ", "   ▀████▀   ", "    ▀▀▀▀    "] };
    assert(s.rows@ =~= tower_basic_z3_rows());
    s
}


/// The rows of tower_basic_z4.
pub open spec fn tower_basic_z4_rows() -> Seq<&'static str> {
    seq!["      ▄▄▄▄      ", "     ▄████▄     ", "    ▄██▀▀██▄    ", "   ▄██▌  ▐██▄   ", "  ▄██▌ ▄▄ ▐██▄  ", "  ██  ████  ██  ", "  ██  ████  ██  ", "  ██  ████  ██  ", "  ██  ████  ██  ", "  ▀█▄ ▀▀▀▀ ▄█▀  ", "   ▀██▄  ▄██▀   ", "    ▀██████▀    ", "     ▀████▀     ", "      ▀██▀      ", "       ▀▀       ", "                "]
}

fn tower_basic_z4() -> (s: Sprite)
    ensures
        s.w == 16 && s.h == 16 && s.rows@ == tower_basic_z4_rows(),
{
    let s = Sprite { w: 16, h: 16, rows: &["      ▄▄▄▄      ", "     ▄████▄     ", "    ▄██▀▀██▄    ", "   ▄██▌  ▐██▄   ", "  ▄██▌ ▄▄ ▐██▄  ", "  ██  ████  ██  ", "  ██  ████  ██  ", "  ██  ████  ██  ", "  ██  ████  ██  ", "  ▀█▄ ▀▀▀▀ ▄█▀  ", "   ▀██▄  ▄██▀   ", "    ▀██████▀    ", "     ▀████▀     ", "      ▀██▀      ", "       ▀▀       ", "                "] };
    assert(s.rows@ =~= tower_basic_z4_rows());
    s
}


/// The rows of tower_sniper_z0.
pub open spec fn tower_sniper_z0_rows() -> Seq<&'static str> {
    seq!["══", "▐▌"]
}

fn tower_sniper_z0() -> (s: Sprite)
    ensures
        s.w == 2 && s.h == 2 && s.rows@ == tower_sniper_z0_rows(),
{
    let s = Sprite { w: 2, h: 2, rows: &["══", "▐▌"] };
    assert(s.rows@ =~= tower_sniper_z0_rows());
    s
}


/// The rows of tower_sniper_z1.
pub open spec fn tower_sniper_z1_rows() -> Seq<&'static str> {
    seq!["══╗ ", "──╢ ", " ▐▌ ", " ▀▀ "]
}

fn tower_sniper_z1() -> (s: Sprite)
    ensures
        s.w == 4 && s.h == 4 && s.rows@ == tower_sniper_z1_rows(),
{
    let s = Sprite { w: 4, h: 4, rows: &["══╗ ", "──╢ ", " ▐▌ ", " ▀▀ "] };
    assert(s.rows@ =~= tower_sniper_z1_rows());
    s
}


/// The rows of tower_sniper_z2.
pub open spec fn tower_sniper_z2_rows() -> Seq<&'static str> {
    seq!["╞══════╗", "└┬─────╝", " │ ▄▄   ", " │███▄  ", " │▀▀▀█  ", " │  ▐▌  ", " ▀▄▄██▄ ", "   ▀▀▀  "]
}

fn tower_sniper_z2() -> (s: Sprite)
    ensures
        s.w == 8 && s.h == 8 && s.rows@ == tower_sniper_z2_rows(),
{
    let s = Sprite { w: 8, h: 8, rows: &["╞══════╗", "└┬─────╝", " │ ▄▄   ", " │███▄  ", " │▀▀▀█  ", " │  ▐▌  ", " ▀▄▄██▄ ", "   ▀▀▀  "] };
    assert(s.rows@ =~= tower_sniper_z2_rows());
    s
}


/// The rows of tower_sniper_z3.
pub open spec fn tower_sniper_z3_rows() -> Seq<&'static str> {
    seq!["╞══════════╗", "└┬─────────╝", " │  ▄▄▄▄     ", " │ ▄████▄    ", " │▄██▀▀██▄   ", " │██▌  ▐██   ", " │██▌  ▐██   ", " │▀██▄▄██▀   ", " │  ▀██▀     ", " │   ▐▌      ", " ▀▄▄▄██▄▄▄   ", "     ▀▀▀     "]
}

fn tower_sniper_z3() -> (s: Sprite)
    ensures
        s.w == 12 && s.h == 12 && s.rows@ == tower_sniper_z3_rows(),
{
    let s = Sprite { w: 12, h: 12, rows: &["╞══════════╗", "└┬─────────╝", " │  ▄▄▄▄     ", " │ ▄████▄    ", " │▄██▀▀██▄   ", " │██▌  ▐██   ", " │██▌  ▐██   ", " │▀██▄▄██▀   ", " │  ▀██▀     ", " │   ▐▌      ", " ▀▄▄▄██▄▄▄   ", "     ▀▀▀     "] };
    assert(s.rows@ =~= tower_sniper_z3_rows());
    s
}


/// The rows of tower_sniper_z4.
pub open spec fn tower_sniper_z4_rows() -> Seq<&'static str> {
    seq!["╞══════════════╗", "└┬─────────────╝", " │    ▄▄▄▄       ", " │   ▄████▄      ", " │  ▄██▀▀██▄     ", " │ ▄██▌  ▐██▄    ", " │ ██▌ ▄▄ ▐██    ", " │ ██  ███  ██   ", " │ ██  ███  ██   ", " │ ▀██▄  ▄██▀    ", " │  ▀██████▀     ", " │    ▀██▀       ", " │     ▐▌        ", " ▀▄▄▄▄██▄▄▄▄     ", "      ▀▀▀        ", "                 "]
}

fn tower_sniper_z4() -> (s: Sprite)
    ensures
        s.w == 16 && s.h == 16 && s.rows@ == tower_sniper_z4_rows(),
{
    let s = Sprite { w: 16, h: 16, rows: &["╞══════════════╗", "└┬─────────────╝", " │    ▄▄▄▄       ", " │   ▄████▄      ", " │  ▄██▀▀██▄     ", " │ ▄██▌  ▐██▄    ", " │ ██▌ ▄▄ ▐██    ", " │ ██  ███  ██   ", " │ ██  ███  ██   ", " │ ▀██▄  ▄██▀    ", " │  ▀██████▀     ", " │    ▀██▀       ", " │     ▐▌        ", " ▀▄▄▄▄██▄▄▄▄     ", "      ▀▀▀        ", "                 "] };
    assert(s.rows@ =~= tower_sniper_z4_rows());
    s
}


/// The rows of tower_rapid_z0.
pub open spec fn tower_rapid_z0_rows() -> Seq<&'static str> {
    seq!["╦╦", "▀▀"]
}

fn tower_rapid_z0() -> (s: Sprite)
    ensures
        s.w == 2 && s.h == 2 && s.rows@ == tower_rapid_z0_rows(),
{
    let s = Sprite { w: 2, h: 2, rows: &["╦╦", "▀▀"] };
    assert(s.rows@ =~= tower_rapid_z0_rows());
    s
}


/// The rows of tower_rapid_z1.
pub open spec fn tower_rapid_z1_rows() -> Seq<&'static str> {
    seq!["╔╦╦╗", "╚╩╩╝", " ▐▌ ", " ▀▀ "]
}

fn tower_rapid_z1() -> (s: Sprite)
    ensures
        s.w == 4 && s.h == 4 && s.rows@ == tower_rapid_z1_rows(),
{
    let s = Sprite { w: 4, h: 4, rows: &["╔╦╦╗", "╚╩╩╝", " ▐▌ ", " ▀▀ "] };
    assert(s.rows@ =~= tower_rapid_z1_rows());
    s
}


/// The rows of tower_rapid_z2.
pub open spec fn tower_rapid_z2_rows() -> Seq<&'static str> {
    seq!["╔══════╗", "╠╦╦╦╦╦╣", "╠╩╩╩╩╩╣", "╚══════╝", "  ▄▄▄▄  ", " ▄████▄ ", " ▀████▀ ", "  ▀▀▀▀  "]
}

fn tower_rapid_z2() -> (s: Sprite)
    ensures
        s.w == 8 && s.h == 8 && s.rows@ == tower_rapid_z2_rows(),
{
    let s = Sprite { w: 8, h: 8, rows: &["╔══════╗", "╠╦╦╦╦╦╣", "╠╩╩╩╩╩╣", "╚══════╝", "  ▄▄▄▄  ", " ▄████▄ ", " ▀████▀ ", "  ▀▀▀▀  "] };
    assert(s.rows@ =~= tower_rapid_z2_rows());
    s
}


/// The rows of tower_rapid_z3.
pub open spec fn tower_rapid_z3_rows() -> Seq<&'static str> {
    seq!["╔══════════╗", "║╦╦╦╦╦╦╦╦ ║", "║╩╩╩╩╩╩╩╩ ║", "╚══════════╝", "    ▄▄▄▄    ", "   ▄████▄   ", "  ▄██▀▀██▄  ", "  ██▌▐██▌██ ", "  ▀██▄▄██▀  ", "    ▀██▀    ", "     ▐▌     ", "    ▀▀▀▀    "]
}

fn tower_rapid_z3() -> (s: Sprite)
    ensures
        s.w == 12 && s.h == 12 && s.rows@ == tower_rapid_z3_rows(),
{
    let s = Sprite { w: 12, h: 12, rows: &["╔══════════╗", "║╦╦╦╦╦╦╦╦ ║", "║╩╩╩╩╩╩╩╩ ║", "╚══════════╝", "    ▄▄▄▄    ", "   ▄████▄   ", "  ▄██▀▀██▄  ", "  ██▌▐██▌██ ", "  ▀██▄▄██▀  ", "    ▀██▀    ", "     ▐▌     ", "    ▀▀▀▀    "] };
    assert(s.rows@ =~= tower_rapid_z3_rows());
    s
}


/// The rows of tower_rapid_z4.
pub open spec fn tower_rapid_z4_rows() -> Seq<&'static str> {
    seq!["╔══════════════╗", "║╦╦╦╦╦╦╦╦╦╦╦╦╦ ║", "║╩╩╩╩╩╩╩╩╩╩╩╩╩ ║", "╚══════════════╝", "      ▄▄▄▄      ", "     ▄████▄     ", "    ▄██▀▀██▄    ", "   ▄██▌▐██▌██▄   ", "   ██▌▐██▌▐███   ", "   ▀██▄▄██▄▄██▀  ", "     ▀██████▀    ", "       ▀██▀      ", "        ▐▌       ", "      ▀▀▀▀▀▀     ", "                 ", "                 "]
}

fn tower_rapid_z4() -> (s: Sprite)
    ensures
        s.w == 16 && s.h == 16 && s.rows@ == tower_rapid_z4_rows(),
{
    let s = Sprite { w: 16, h: 16, rows: &["╔══════════════╗", "║╦╦╦╦╦╦╦╦╦╦╦╦╦ ║", "║╩╩╩╩╩╩╩╩╩╩╩╩╩ ║", "╚══════════════╝", "      ▄▄▄▄      ", "     ▄████▄     ", "    ▄██▀▀██▄    ", "   ▄██▌▐██▌██▄   ", "   ██▌▐██▌▐███   ", "   ▀██▄▄██▄▄██▀  ", "     ▀██████▀    ", "       ▀██▀      ", "        ▐▌       ", "      ▀▀▀▀▀▀     ", "                 ", "                 "] };
    assert(s.rows@ =~= tower_rapid_z4_rows());
    s
}


/// The rows of tower_cannon_z0.
pub open spec fn tower_cannon_z0_rows() -> Seq<&'static str> {
    seq!["◉◉", "██"]
}

fn tower_cannon_z0() -> (s: Sprite)
    ensures
        s.w == 2 && s.h == 2 && s.rows@ == tower_cannon_z0_rows(),
{
    let s = Sprite { w: 2, h: 2, rows: &["◉◉", "██"] };
    assert(s.rows@ =~= tower_cannon_z0_rows());
    s
}


/// The rows of tower_cannon_z1.
pub open spec fn tower_cannon_z1_rows() -> Seq<&'static str> {
    seq!["◉  ◉", "▐██▌", "▐██▌", " ▀▀ "]
}

fn tower_cannon_z1() -> (s: Sprite)
    ensures
        s.w == 4 && s.h == 4 && s.rows@ == tower_cannon_z1_rows(),
{
    let s = Sprite { w: 4, h: 4, rows: &["◉  ◉", "▐██▌", "▐██▌", " ▀▀ "] };
    assert(s.rows@ =~= tower_cannon_z1_rows());
    s
}


/// The rows of tower_cannon_z2.
pub open spec fn tower_cannon_z2_rows() -> Seq<&'static str> {
    seq!["◉══════◉", "  ▄▄▄▄  ", " ▄████▄ ", "▐██▌▐██▌", " ▀██▄▄▀ ", "  ▄██▄  ", " ◉▐██▌◉ ", "  ▀▀▀▀  "]
}

fn tower_cannon_z2() -> (s: Sprite)
    ensures
        s.w == 8 && s.h == 8 && s.rows@ == tower_cannon_z2_rows(),
{
    let s = Sprite { w: 8, h: 8, rows: &["◉══════◉", "  ▄▄▄▄  ", " ▄████▄ ", "▐██▌▐██▌", " ▀██▄▄▀ ", "  ▄██▄  ", " ◉▐██▌◉ ", "  ▀▀▀▀  "] };
    assert(s.rows@ =~= tower_cannon_z2_rows());
    s
}


/// The rows of tower_cannon_z3.
pub open spec fn tower_cannon_z3_rows() -> Seq<&'static str> {
    seq!["◉══════════◉", "   ▄▄▄▄▄    ", "  ▄██████▄  ", " ▄██▀▀▀██▄  ", "▐██▌   ▐██▌ ", "▐██▌   ▐██▌ ", " ▀██▄▄▄██▀  ", "   ▄████▄   ", "  ◉▐████▌◉  ", "    ▀██▀    ", "     ▐▌     ", "    ▀▀▀▀    "]
}

fn tower_cannon_z3() -> (s: Sprite)
    ensures
        s.w == 12 && s.h == 12 && s.rows@ == tower_cannon_z3_rows(),
{
    let s = Sprite { w: 12, h: 12, rows: &["◉══════════◉", "   ▄▄▄▄▄    ", "  ▄██████▄  ", " ▄██▀▀▀██▄  ", "▐██▌   ▐██▌ ", "▐██▌   ▐██▌ ", " ▀██▄▄▄██▀  ", "   ▄████▄   ", "  ◉▐████▌◉  ", "    ▀██▀    ", "     ▐▌     ", "    ▀▀▀▀    "] };
    assert(s.rows@ =~= tower_cannon_z3_rows());
    s
}


/// The rows of tower_cannon_z4.
pub open spec fn tower_cannon_z4_rows() -> Seq<&'static str> {
    seq!["◉══════════════◉", "     ▄▄▄▄▄      ", "    ▄██████▄    ", "   ▄██▀▀▀██▄    ", "  ▄██▌   ▐██▄   ", "  ██▌     ▐██   ", "  ██▌     ▐██   ", "  ▀██▄   ▄██▀   ", "   ▀██████▀     ", "     ▄████▄     ", "    ◉▐████▌◉    ", "      ▀██▀      ", "       ▐▌       ", "     ▀▀▀▀▀▀     ", "                ", "                "]
}

fn tower_cannon_z4() -> (s: Sprite)
    ensures
        s.w == 16 && s.h == 16 && s.rows@ == tower_cannon_z4_rows(),
{
    let s = Sprite { w: 16, h: 16, rows: &["◉══════════════◉", "     ▄▄▄▄▄      ", "    ▄██████▄    ", "   ▄██▀▀▀██▄    ", "  ▄██▌   ▐██▄   ", "  ██▌     ▐██   ", "  ██▌     ▐██   ", "  ▀██▄   ▄██▀   ", "   ▀██████▀     ", "     ▄████▄     ", "    ◉▐████▌◉    ", "      ▀██▀      ", "       ▐▌       ", "     ▀▀▀▀▀▀     ", "                ", "                "] };
    assert(s.rows@ =~= tower_cannon_z4_rows());
    s
}


/// The rows of tower_tesla_z0.
pub open spec fn tower_tesla_z0_rows() -> Seq<&'static str> {
    seq!["╫╫", "▄▄"]
}

fn tower_tesla_z0() -> (s: Sprite)
    ensures
        s.w == 2 && s.h == 2 && s.rows@ == tower_tesla_z0_rows(),
{
    let s = Sprite { w: 2, h: 2, rows: &["╫╫", "▄▄"] };
    assert(s.rows@ =~= tower_tesla_z0_rows());
    s
}


/// The rows of tower_tesla_z1.
pub open spec fn tower_tesla_z1_rows() -> Seq<&'static str> {
    seq![" ▲▲ ", "╫╬╫ ", " ║║ ", " ▀▀ "]
}

fn tower_tesla_z1() -> (s: Sprite)
    ensures
        s.w == 4 && s.h == 4 && s.rows@ == tower_tesla_z1_rows(),
{
    let s = Sprite { w: 4, h: 4, rows: &[" ▲▲ ", "╫╬╫ ", " ║║ ", " ▀▀ "] };
    assert(s.rows@ =~= tower_tesla_z1_rows());
    s
}


/// The rows of tower_tesla_z2.
pub open spec fn tower_tesla_z2_rows() -> Seq<&'static str> {
    seq!["  ▲▲▲   ", "  ╔╬╗   ", " ═╬╬╬═  ", "  ╚╬╝   ", "  ╫╬╫   ", " ▄████▄ ", " ██████ ", "  ▀▀▀▀  "]
}

fn tower_tesla_z2() -> (s: Sprite)
    ensures
        s.w == 8 && s.h == 8 && s.rows@ == tower_tesla_z2_rows(),
{
    let s = Sprite { w: 8, h: 8, rows: &["  ▲▲▲   ", "  ╔╬╗   ", " ═╬╬╬═  ", "  ╚╬╝   ", "  ╫╬╫   ", " ▄████▄ ", " ██████ ", "  ▀▀▀▀  "] };
    assert(s.rows@ =~= tower_tesla_z2_rows());
    s
}


/// The rows of tower_tesla_z3.
pub open spec fn tower_tesla_z3_rows() -> Seq<&'static str> {
    seq!["   ║║║║║║   ", "   ║╬╬╬╬║   ", "  x╬╬╬╬x  ", "   ║╬╬╬╬║   ", "   ║╬╬╬╬║   ", "   ║║║║║║   ", "   ▄████▄   ", "  ▄██████▄  ", "  ████████  ", "  ▀██████▀  ", "    ▀██▀    ", "     ▀▀     "]
}

fn tower_tesla_z3() -> (s: Sprite)
    ensures
        s.w == 12 && s.h == 12 && s.rows@ == tower_tesla_z3_rows(),
{
    let s = Sprite { w: 12, h: 12, rows: &["   ║║║║║║   ", "   ║╬╬╬╬║   ", "  x╬╬╬╬x  ", "   ║╬╬╬╬║   ", "   ║╬╬╬╬║   ", "   ║║║║║║   ", "   ▄████▄   ", "  ▄██████▄  ", "  ████████  ", "  ▀██████▀  ", "    ▀██▀    ", "     ▀▀     "] };
    assert(s.rows@ =~= tower_tesla_z3_rows());
    s
}


/// The rows of tower_tesla_z4.
pub open spec fn tower_tesla_z4_rows() -> Seq<&'static str> {
    seq!["    ║║║║║║║║    ", "    ║╬╬╬╬╬╬║    ", "   x╬╬╬╬╬╬x   ", "    ║╬╬╬╬╬╬║    ", "    ║╬╬╬╬╬╬║    ", "    ║╬╬╬╬╬╬║    ", "    ║║║║║║║║    ", "     ▄████▄     ", "    ▄██████▄    ", "   ▄████████▄   ", "   ██████████   ", "   ▀████████▀   ", "     ▀████▀     ", "      ▀██▀      ", "       ▀▀       ", "                "]
}

fn tower_tesla_z4() -> (s: Sprite)
    ensures
        s.w == 16 && s.h == 16 && s.rows@ == tower_tesla_z4_rows(),
{
    let s = Sprite { w: 16, h: 16, rows: &["    ║║║║║║║║    ", "    ║╬╬╬╬╬╬║    ", "   x╬╬╬╬╬╬x   ", "    ║╬╬╬╬╬╬║    ", "    ║╬╬╬╬╬╬║    ", "    ║╬╬╬╬╬╬║    ", "    ║║║║║║║║    ", "     ▄████▄     ", "    ▄██████▄    ", "   ▄████████▄   ", "   ██████████   ", "   ▀████████▀   ", "     ▀████▀     ", "      ▀██▀      ", "       ▀▀       ", "                "] };
    assert(s.rows@ =~= tower_tesla_z4_rows());
    s
}


/// The rows of tower_frost_z0.
pub open spec fn tower_frost_z0_rows() -> Seq<&'static str> {
    seq!["◆◆", "◆◆"]
}

fn tower_frost_z0() -> (s: Sprite)
    ensures
        s.w == 2 && s.h == 2 && s.rows@ == tower_frost_z0_rows(),
{
    let s = Sprite { w: 2, h: 2, rows: &["◆◆", "◆◆"] };
    assert(s.rows@ =~= tower_frost_z0_rows());
    s
}


/// The rows of tower_frost_z1.
pub open spec fn tower_frost_z1_rows() -> Seq<&'static str> {
    seq![" ▲▲ ", "◆  ◆", " ▼▼ ", "    "]
}

fn tower_frost_z1() -> (s: Sprite)
    ensures
        s.w == 4 && s.h == 4 && s.rows@ == tower_frost_z1_rows(),
{
    let s = Sprite { w: 4, h: 4, rows: &[" ▲▲ ", "◆  ◆", " ▼▼ ", "    "] };
    assert(s.rows@ =~= tower_frost_z1_rows());
    s
}


/// The rows of tower_frost_z2.
pub open spec fn tower_frost_z2_rows() -> Seq<&'static str> {
    seq!["    ▲▲   ", "  ╱   ╲  ", " ╱ ◆◆ ╲ ", "╱  ◆◆  ╲", "╲  ◆◆  ╱", " ╲ ◆◆ ╱ ", "  ╲  ╱  ", "   ▼▼   "]
}

fn tower_frost_z2() -> (s: Sprite)
    ensures
        s.w == 8 && s.h == 8 && s.rows@ == tower_frost_z2_rows(),
{
    let s = Sprite { w: 8, h: 8, rows: &["    ▲▲   ", "  ╱   ╲  ", " ╱ ◆◆ ╲ ", "╱  ◆◆  ╲", "╲  ◆◆  ╱", " ╲ ◆◆ ╱ ", "  ╲  ╱  ", "   ▼▼   "] };
    assert(s.rows@ =~= tower_frost_z2_rows());
    s
}


/// The rows of tower_frost_z3.
pub open spec fn tower_frost_z3_rows() -> Seq<&'static str> {
    seq!["     *      ", "    ╱╳╲     ", "   ╱╳╳╲    ", "  ╱╳╳╳╲   ", " ╱╳╳╳╳╲  ", "╱╳╳╳*╳╳╲ ", "╲╳╳╳╳╳╳╱ ", " ╲╳╳╳╳╱  ", "  ╲╳╳╱   ", "   ╲╳╱    ", "    *     ", "           "]
}

fn tower_frost_z3() -> (s: Sprite)
    ensures
        s.w == 12 && s.h == 12 && s.rows@ == tower_frost_z3_rows(),
{
    let s = Sprite { w: 12, h: 12, rows: &["     *      ", "    ╱╳╲     ", "   ╱╳╳╲    ", "  ╱╳╳╳╲   ", " ╱╳╳╳╳╲  ", "╱╳╳╳*╳╳╲ ", "╲╳╳╳╳╳╳╱ ", " ╲╳╳╳╳╱  ", "  ╲╳╳╱   ", "   ╲╳╱    ", "    *     ", "           "] };
    assert(s.rows@ =~= tower_frost_z3_rows());
    s
}


/// The rows of tower_frost_z4.
pub open spec fn tower_frost_z4_rows() -> Seq<&'static str> {
    seq!["       *        ", "      ╱╳╲       ", "     ╱╳╳╲      ", "    ╱╳╳╳╲     ", "   ╱╳╳╳╳╲    ", "  ╱╳╳╳╳╳╲   ", " ╱╳╳╳*╳╳╳╲  ", "╱╳╳╳╳╳╳╳╳╳╲ ", "╲╳╳╳╳╳╳╳╳╳╱ ", " ╲╳╳╳╳╳╳╳╱  ", "  ╲╳╳╳╳╳╱   ", "   ╲╳╳╳╱    ", "    ╲╳╳╱     ", "     ╲╳╱      ", "      *       ", "               "]
}

fn tower_frost_z4() -> (s: Sprite)
    ensures
        s.w == 16 && s.h == 16 && s.rows@ == tower_frost_z4_rows(),
{
    let s = Sprite { w: 16, h: 16, rows: &["       *        ", "      ╱╳╲       ", "     ╱╳╳╲      ", "    ╱╳╳╳╲     ", "   ╱╳╳╳╳╲    ", "  ╱╳╳╳╳╳╲   ", " ╱╳╳╳*╳╳╳╲  ", "╱╳╳╳╳╳╳╳╳╳╲ ", "╲╳╳╳╳╳╳╳╳╳╱ ", " ╲╳╳╳╳╳╳╳╱  ", "  ╲╳╳╳╳╳╱   ", "   ╲╳╳╳╱    ", "    ╲╳╳╱     ", "     ╲╳╱      ", "      *       ", "               "] };
    assert(s.rows@ =~= tower_frost_z4_rows());
    s
}


/// The rows of enemy_z0.
pub open spec fn enemy_z0_rows() -> Seq<&'static str> {
    seq!["○○", "▄▄"]
}

fn enemy_z0() -> (s: Sprite)
    ensures
        s.w == 2 && s.h == 2 && s.rows@ == enemy_z0_rows(),
{
    let s = Sprite { w: 2, h: 2, rows: &["○○", "▄▄"] };
    assert(s.rows@ =~= enemy_z0_rows());
    s
}


/// The rows of enemy_runner_z1.
pub open spec fn enemy_runner_z1_rows() -> Seq<&'static str> {
    seq![" ►► ", "─██─", " ░░ ", " ▄▄ "]
}

fn enemy_runner_z1() -> (s: Sprite)
    ensures
        s.w == 4 && s.h == 4 && s.rows@ == enemy_runner_z1_rows(),
{
    let s = Sprite { w: 4, h: 4, rows: &[" ►► ", "─██─", " ░░ ", " ▄▄ "] };
    assert(s.rows@ =~= enemy_runner_z1_rows());
    s
}


/// The rows of enemy_tank_z1.
pub open spec fn enemy_tank_z1_rows() -> Seq<&'static str> {
    seq!["████", "█▣ █", "████", " ▀▀ "]
}

fn enemy_tank_z1() -> (s: Sprite)
    ensures
        s.w == 4 && s.h == 4 && s.rows@ == enemy_tank_z1_rows(),
{
    let s = Sprite { w: 4, h: 4, rows: &["████", "█▣ █", "████", " ▀▀ "] };
    assert(s.rows@ =~= enemy_tank_z1_rows());
    s
}


/// The rows of enemy_swarm_z1.
pub open spec fn enemy_swarm_z1_rows() -> Seq<&'static str> {
    seq!["· · ", " ·· ", "· · ", "    "]
}

fn enemy_swarm_z1() -> (s: Sprite)
    ensures
        s.w == 4 && s.h == 4 && s.rows@ == enemy_swarm_z1_rows(),
{
    let s = Sprite { w: 4, h: 4, rows: &["· · ", " ·· ", "· · ", "    "] };
    assert(s.rows@ =~= enemy_swarm_z1_rows());
    s
}


/// The rows of enemy_healer_z1.
pub open spec fn enemy_healer_z1_rows() -> Seq<&'static str> {
    seq![" ▄▄ ", "█✚█", " ██ ", " ▀▀ "]
}

fn enemy_healer_z1() -> (s: Sprite)
    ensures
        s.w == 4 && s.h == 4 && s.rows@ == enemy_healer_z1_rows(),
{
    let s = Sprite { w: 4, h: 4, rows: &[" ▄▄ ", "█✚█", " ██ ", " ▀▀ "] };
    assert(s.rows@ =~= enemy_healer_z1_rows());
    s
}


/// The rows of enemy_shielded_z1.
pub open spec fn enemy_shielded_z1_rows() -> Seq<&'static str> {
    seq!["▐██▌", "█▣ █", "▐██▌", " ▀▀ "]
}

fn enemy_shielded_z1() -> (s: Sprite)
    ensures
        s.w == 4 && s.h == 4 && s.rows@ == enemy_shielded_z1_rows(),
{
    let s = Sprite { w: 4, h: 4, rows: &["▐██▌", "█▣ █", "▐██▌", " ▀▀ "] };
    assert(s.rows@ =~= enemy_shielded_z1_rows());
    s
}


/// The rows of enemy_sneak_z1.
pub open spec fn enemy_sneak_z1_rows() -> Seq<&'static str> {
    seq![" ◆◆ ", "◆░░◆", " ◆◆ ", "    "]
}

fn enemy_sneak_z1() -> (s: Sprite)
    ensures
        s.w == 4 && s.h == 4 && s.rows@ == enemy_sneak_z1_rows(),
{
    let s = Sprite { w: 4, h: 4, rows: &[" ◆◆ ", "◆░░◆", " ◆◆ ", "    "] };
    assert(s.rows@ =~= enemy_sneak_z1_rows());
    s
}


/// The rows of enemy_runner_z2.
pub open spec fn enemy_runner_z2_rows() -> Seq<&'static str> {
    seq!["   ►►   ", "  ─██─  ", " ──██── ", "████████", " ──██── ", "  ─██─  ", "   ░░   ", "   ▄▄   "]
}

fn enemy_runner_z2() -> (s: Sprite)
    ensures
        s.w == 8 && s.h == 8 && s.rows@ == enemy_runner_z2_rows(),
{
    let s = Sprite { w: 8, h: 8, rows: &["   ►►   ", "  ─██─  ", " ──██── ", "████████", " ──██── ", "  ─██─  ", "   ░░   ", "   ▄▄   "] };
    assert(s.rows@ =~= enemy_runner_z2_rows());
    s
}


/// The rows of enemy_tank_z2.
pub open spec fn enemy_tank_z2_rows() -> Seq<&'static str> {
    seq!["████████", "█▄▄▄▄▄▄█", "█▌    ▐█", "█▌ ▣▣ ▐█", "█▌    ▐█", "█▄▄▄▄▄▄█", "████████", " ▀▀▀▀▀▀ "]
}

fn enemy_tank_z2() -> (s: Sprite)
    ensures
        s.w == 8 && s.h == 8 && s.rows@ == enemy_tank_z2_rows(),
{
    let s = Sprite { w: 8, h: 8, rows: &["████████", "█▄▄▄▄▄▄█", "█▌    ▐█", "█▌ ▣▣ ▐█", "█▌    ▐█", "█▄▄▄▄▄▄█", "████████", " ▀▀▀▀▀▀ "] };
    assert(s.rows@ =~= enemy_tank_z2_rows());
    s
}


/// The rows of enemy_swarm_z2.
pub open spec fn enemy_swarm_z2_rows() -> Seq<&'static str> {
    seq!["· · · · ", " · · ·  ", "· ·   · ", " ·  · · ", "  · · · ", " · ·  · ", "· · · · ", "        "]
}

fn enemy_swarm_z2() -> (s: Sprite)
    ensures
        s.w == 8 && s.h == 8 && s.rows@ == enemy_swarm_z2_rows(),
{
    let s = Sprite { w: 8, h: 8, rows: &["· · · · ", " · · ·  ", "· ·   · ", " ·  · · ", "  · · · ", " · ·  · ", "· · · · ", "        "] };
    assert(s.rows@ =~= enemy_swarm_z2_rows());
    s
}


/// The rows of enemy_shielded_z2.
pub open spec fn enemy_shielded_z2_rows() -> Seq<&'static str> {
    seq!["  ▄▄▄▄  ", "▐▐████▌▌", "▐▐██▣█▌▌", "▐▐████▌▌", "▐▐████▌▌", "▐▐████▌▌", " ▀████▀ ", "  ▀▀▀▀  "]
}

fn enemy_shielded_z2() -> (s: Sprite)
    ensures
        s.w == 8 && s.h == 8 && s.rows@ == enemy_shielded_z2_rows(),
{
    let s = Sprite { w: 8, h: 8, rows: &["  ▄▄▄▄  ", "▐▐████▌▌", "▐▐██▣█▌▌", "▐▐████▌▌", "▐▐████▌▌", "▐▐████▌▌", " ▀████▀ ", "  ▀▀▀▀  "] };
    assert(s.rows@ =~= enemy_shielded_z2_rows());
    s
}


/// The rows of enemy_healer_z2.
pub open spec fn enemy_healer_z2_rows() -> Seq<&'static str> {
    seq!["  ▄▄▄▄  ", " ▄████▄ ", "▐█✚██✚█▌", "████████", "████████", "▀██████▀", " ▀████▀ ", "  ▀▀▀▀  "]
}

fn enemy_healer_z2() -> (s: Sprite)
    ensures
        s.w == 8 && s.h == 8 && s.rows@ == enemy_healer_z2_rows(),
{
    let s = Sprite { w: 8, h: 8, rows: &["  ▄▄▄▄  ", " ▄████▄ ", "▐█✚██✚█▌", "████████", "████████", "▀██████▀", " ▀████▀ ", "  ▀▀▀▀  "] };
    assert(s.rows@ =~= enemy_healer_z2_rows());
    s
}


/// The rows of enemy_sneak_z2.
pub open spec fn enemy_sneak_z2_rows() -> Seq<&'static str> {
    seq!["   ◆◆   ", "  ◆░░◆  ", " ◆░░░░◆ ", "◆░░░░░░◆", "◆░░░░░░◆", " ◆░░░░◆ ", "  ◆░░◆  ", "   ◆◆   "]
}

fn enemy_sneak_z2() -> (s: Sprite)
    ensures
        s.w == 8 && s.h == 8 && s.rows@ == enemy_sneak_z2_rows(),
{
    let s = Sprite { w: 8, h: 8, rows: &["   ◆◆   ", "  ◆░░◆  ", " ◆░░░░◆ ", "◆░░░░░░◆", "◆░░░░░░◆", " ◆░░░░◆ ", "  ◆░░◆  ", "   ◆◆   "] };
    assert(s.rows@ =~= enemy_sneak_z2_rows());
    s
}


/// The rows of enemy_runner_z3.
pub open spec fn enemy_runner_z3_rows() -> Seq<&'static str> {
    seq!["    ►►      ", "   ─██─     ", "  ──██──    ", " ───██───   ", "████████████", " ───██───   ", "  ──██──    ", "   ─██─     ", "    ░░      ", "    ▄▄      ", "            ", "            "]
}

fn enemy_runner_z3() -> (s: Sprite)
    ensures
        s.w == 12 && s.h == 12 && s.rows@ == enemy_runner_z3_rows(),
{
    let s = Sprite { w: 12, h: 12, rows: &["    ►►      ", "   ─██─     ", "  ──██──    ", " ───██───   ", "████████████", " ───██───   ", "  ──██──    ", "   ─██─     ", "    ░░      ", "    ▄▄      ", "            ", "            "] };
    assert(s.rows@ =~= enemy_runner_z3_rows());
    s
}


/// The rows of enemy_tank_z3.
pub open spec fn enemy_tank_z3_rows() -> Seq<&'static str> {
    seq!["████████████", "█▄▄▄▄▄▄▄▄▄▄█", "█▌        ▐█", "█▌  ▣▣▣▣  ▐█", "█▌        ▐█", "█▌  ████  ▐█", "█▌  ████  ▐█", "█▌        ▐█", "█▄▄▄▄▄▄▄▄▄▄█", "████████████", "  ▀▀▀▀▀▀▀▀  ", "            "]
}

fn enemy_tank_z3() -> (s: Sprite)
    ensures
        s.w == 12 && s.h == 12 && s.rows@ == enemy_tank_z3_rows(),
{
    let s = Sprite { w: 12, h: 12, rows: &["████████████", "█▄▄▄▄▄▄▄▄▄▄█", "█▌        ▐█", "█▌  ▣▣▣▣  ▐█", "█▌        ▐█", "█▌  ████  ▐█", "█▌  ████  ▐█", "█▌        ▐█", "█▄▄▄▄▄▄▄▄▄▄█", "████████████", "  ▀▀▀▀▀▀▀▀  ", "            "] };
    assert(s.rows@ =~= enemy_tank_z3_rows());
    s
}


/// The rows of enemy_swarm_z3.
pub open spec fn enemy_swarm_z3_rows() -> Seq<&'static str> {
    seq!["· · · · · · ", " · · · · ·  ", "· · ·   · · ", " ·   · · ·  ", "· · · · ·   ", "  · · · · · ", " · ·   · ·  ", "· · · · · · ", " · · · · ·  ", "· ·   · · · ", " · · · · ·  ", "            "]
}

fn enemy_swarm_z3() -> (s: Sprite)
    ensures
        s.w == 12 && s.h == 12 && s.rows@ == enemy_swarm_z3_rows(),
{
    let s = Sprite { w: 12, h: 12, rows: &["· · · · · · ", " · · · · ·  ", "· · ·   · · ", " ·   · · ·  ", "· · · · ·   ", "  · · · · · ", " · ·   · ·  ", "· · · · · · ", " · · · · ·  ", "· ·   · · · ", " · · · · ·  ", "            "] };
    assert(s.rows@ =~= enemy_swarm_z3_rows());
    s
}


/// The rows of enemy_shielded_z3.
pub open spec fn enemy_shielded_z3_rows() -> Seq<&'static str> {
    seq!["    ▄▄▄▄    ", "  ▐▐████▌▌  ", " ▐▐██████▌▌ ", "▐▐████▣███▌▌", "▐▐█████████▌", "▐▐█████████▌", "▐▐█████████▌", " ▐▐███████▌▌", "  ▐▐█████▌▌ ", "   ▀██████▀ ", "    ▀████▀  ", "     ▀▀▀▀   "]
}

fn enemy_shielded_z3() -> (s: Sprite)
    ensures
        s.w == 12 && s.h == 12 && s.rows@ == enemy_shielded_z3_rows(),
{
    let s = Sprite { w: 12, h: 12, rows: &["    ▄▄▄▄    ", "  ▐▐████▌▌  ", " ▐▐██████▌▌ ", "▐▐████▣███▌▌", "▐▐█████████▌", "▐▐█████████▌", "▐▐█████████▌", " ▐▐███████▌▌", "  ▐▐█████▌▌ ", "   ▀██████▀ ", "    ▀████▀  ", "     ▀▀▀▀   "] };
    assert(s.rows@ =~= enemy_shielded_z3_rows());
    s
}


/// The rows of enemy_healer_z3.
pub open spec fn enemy_healer_z3_rows() -> Seq<&'static str> {
    seq!["    ▄▄▄▄    ", "   ▄████▄   ", "  ▄██████▄  ", " ▐█✚████✚█▌ ", "▐███████████", "████████████", "████████████", " ▀█████████▀", "  ▀████████▀", "   ▀██████▀ ", "    ▀████▀  ", "     ▀▀▀▀   "]
}

fn enemy_healer_z3() -> (s: Sprite)
    ensures
        s.w == 12 && s.h == 12 && s.rows@ == enemy_healer_z3_rows(),
{
    let s = Sprite { w: 12, h: 12, rows: &["    ▄▄▄▄    ", "   ▄████▄   ", "  ▄██████▄  ", " ▐█✚████✚█▌ ", "▐███████████", "████████████", "████████████", " ▀█████████▀", "  ▀████████▀", "   ▀██████▀ ", "    ▀████▀  ", "     ▀▀▀▀   "] };
    assert(s.rows@ =~= enemy_healer_z3_rows());
    s
}


/// The rows of enemy_sneak_z3.
pub open spec fn enemy_sneak_z3_rows() -> Seq<&'static str> {
    seq!["     ◆◆     ", "    ◆░░◆    ", "   ◆░░░░◆   ", "  ◆░░░░░░◆  ", " ◆░░░░░░░░◆ ", "◆░░░░░░░░░░◆", "◆░░░░░░░░░░◆", " ◆░░░░░░░░◆ ", "  ◆░░░░░░◆  ", "   ◆░░░░◆   ", "    ◆░░◆    ", "     ◆◆     "]
}

fn enemy_sneak_z3() -> (s: Sprite)
    ensures
        s.w == 12 && s.h == 12 && s.rows@ == enemy_sneak_z3_rows(),
{
    let s = Sprite { w: 12, h: 12, rows: &["     ◆◆     ", "    ◆░░◆    ", "   ◆░░░░◆   ", "  ◆░░░░░░◆  ", " ◆░░░░░░░░◆ ", "◆░░░░░░░░░░◆", "◆░░░░░░░░░░◆", " ◆░░░░░░░░◆ ", "  ◆░░░░░░◆  ", "   ◆░░░░◆   ", "    ◆░░◆    ", "     ◆◆     "] };
    assert(s.rows@ =~= enemy_sneak_z3_rows());
    s
}


/// The rows of enemy_runner_z4.
pub open spec fn enemy_runner_z4_rows() -> Seq<&'static str> {
    seq!["      ►►        ", "     ─██─       ", "    ──██──      ", "   ───██───     ", "  ────██────    ", "████████████████", "  ────██────    ", "   ───██───     ", "    ──██──      ", "     ─██─       ", "      ░░        ", "      ▄▄        ", "                ", "                ", "                ", "                "]
}

fn enemy_runner_z4() -> (s: Sprite)
    ensures
        s.w == 16 && s.h == 16 && s.rows@ == enemy_runner_z4_rows(),
{
    let s = Sprite { w: 16, h: 16, rows: &["      ►►        ", "     ─██─       ", "    ──██──      ", "   ───██───     ", "  ────██────    ", "████████████████", "  ────██────    ", "   ───██───     ", "    ──██──      ", "     ─██─       ", "      ░░        ", "      ▄▄        ", "                ", "                ", "                ", "                "] };
    assert(s.rows@ =~= enemy_runner_z4_rows());
    s
}


/// The rows of enemy_tank_z4.
pub open spec fn enemy_tank_z4_rows() -> Seq<&'static str> {
    seq!["████████████████", "█▄▄▄▄▄▄▄▄▄▄▄▄▄▄█", "█▌            ▐█", "█▌  ▣▣▣▣▣▣▣▣  ▐█", "█▌            ▐█", "█▌  ██████████▌▐█", "█▌  ██████████▌▐█", "█▌  ██████████▌▐█", "█▌  ██████████▌▐█", "█▌            ▐█", "█▄▄▄▄▄▄▄▄▄▄▄▄▄▄█", "████████████████", "   ▀▀▀▀▀▀▀▀▀▀   ", "                ", "                ", "                "]
}

fn enemy_tank_z4() -> (s: Sprite)
    ensures
        s.w == 16 && s.h == 16 && s.rows@ == enemy_tank_z4_rows(),
{
    let s = Sprite { w: 16, h: 16, rows: &["████████████████", "█▄▄▄▄▄▄▄▄▄▄▄▄▄▄█", "█▌            ▐█", "█▌  ▣▣▣▣▣▣▣▣  ▐█", "█▌            ▐█", "█▌  ██████████▌▐█", "█▌  ██████████▌▐█", "█▌  ██████████▌▐█", "█▌  ██████████▌▐█", "█▌            ▐█", "█▄▄▄▄▄▄▄▄▄▄▄▄▄▄█", "████████████████", "   ▀▀▀▀▀▀▀▀▀▀   ", "                ", "                ", "                "] };
    assert(s.rows@ =~= enemy_tank_z4_rows());
    s
}


/// The rows of enemy_swarm_z4.
pub open spec fn enemy_swarm_z4_rows() -> Seq<&'static str> {
    seq!["· · · · · · · · ", " · · · · · · ·  ", "· · ·   · · · · ", " ·   · · · · ·  ", "· · · · ·   · · ", "  · · · · · ·   ", " · · ·   · · ·  ", "· · · · · · · · ", " · · · · · · ·  ", "· ·   · · · · · ", " · · · ·   · ·  ", "· · · · · · · · ", " · ·   · · · ·  ", "· · · · · · · · ", " · · · · · · ·  ", "                "]
}

fn enemy_swarm_z4() -> (s: Sprite)
    ensures
        s.w == 16 && s.h == 16 && s.rows@ == enemy_swarm_z4_rows(),
{
    let s = Sprite { w: 16, h: 16, rows: &["· · · · · · · · ", " · · · · · · ·  ", "· · ·   · · · · ", " ·   · · · · ·  ", "· · · · ·   · · ", "  · · · · · ·   ", " · · ·   · · ·  ", "· · · · · · · · ", " · · · · · · ·  ", "· ·   · · · · · ", " · · · ·   · ·  ", "· · · · · · · · ", " · ·   · · · ·  ", "· · · · · · · · ", " · · · · · · ·  ", "                "] };
    assert(s.rows@ =~= enemy_swarm_z4_rows());
    s
}


/// The rows of enemy_shielded_z4.
pub open spec fn enemy_shielded_z4_rows() -> Seq<&'static str> {
    seq!["      ▄▄▄▄      ", "    ▐▐████▌▌    ", "   ▐▐██████▌▌   ", "  ▐▐████████▌▌  ", " ▐▐██████▣███▌▌ ", "▐▐████████████▌▌", "▐▐████████████▌▌", "▐▐████████████▌▌", "▐▐████████████▌▌", "▐▐████████████▌▌", " ▐▐██████████▌▌ ", "  ▐▐████████▌▌  ", "   ▀▀████████▀  ", "    ▀▀██████▀   ", "      ▀████▀    ", "       ▀▀▀▀     "]
}

fn enemy_shielded_z4() -> (s: Sprite)
    ensures
        s.w == 16 && s.h == 16 && s.rows@ == enemy_shielded_z4_rows(),
{
    let s = Sprite { w: 16, h: 16, rows: &["      ▄▄▄▄      ", "    ▐▐████▌▌    ", "   ▐▐██████▌▌   ", "  ▐▐████████▌▌  ", " ▐▐██████▣███▌▌ ", "▐▐████████████▌▌", "▐▐████████████▌▌", "▐▐████████████▌▌", "▐▐████████████▌▌", "▐▐████████████▌▌", " ▐▐██████████▌▌ ", "  ▐▐████████▌▌  ", "   ▀▀████████▀  ", "    ▀▀██████▀   ", "      ▀████▀    ", "       ▀▀▀▀     "] };
    assert(s.rows@ =~= enemy_shielded_z4_rows());
    s
}


/// The rows of enemy_healer_z4.
pub open spec fn enemy_healer_z4_rows() -> Seq<&'static str> {
    seq!["      ▄▄▄▄      ", "     ▄████▄     ", "    ▄██████▄    ", "   ▄████████▄   ", "  ▐█✚██████✚█▌  ", " ▐█████████████▌", "████████████████", "████████████████", "████████████████", " ▀█████████████▀", "  ▀███████████▀ ", "   ▀█████████▀  ", "    ▀███████▀   ", "     ▀█████▀    ", "      ▀▀▀▀▀     ", "                "]
}

fn enemy_healer_z4() -> (s: Sprite)
    ensures
        s.w == 16 && s.h == 16 && s.rows@ == enemy_healer_z4_rows(),
{
    let s = Sprite { w: 16, h: 16, rows: &["      ▄▄▄▄      ", "     ▄████▄     ", "    ▄██████▄    ", "   ▄████████▄   ", "  ▐█✚██████✚█▌  ", " ▐█████████████▌", "████████████████", "████████████████", "████████████████", " ▀█████████████▀", "  ▀███████████▀ ", "   ▀█████████▀  ", "    ▀███████▀   ", "     ▀█████▀    ", "      ▀▀▀▀▀     ", "                "] };
    assert(s.rows@ =~= enemy_healer_z4_rows());
    s
}


/// The rows of enemy_sneak_z4.
pub open spec fn enemy_sneak_z4_rows() -> Seq<&'static str> {
    seq!["       ◆◆       ", "      ◆░░◆      ", "     ◆░░░░◆     ", "    ◆░░░░░░◆    ", "   ◆░░░░░░░░◆   ", "  ◆░░░░░░░░░░◆  ", " ◆░░░░░░░░░░░░◆ ", "◆░░░░░░░░░░░░░░◆", "◆░░░░░░░░░░░░░░◆", " ◆░░░░░░░░░░░░◆ ", "  ◆░░░░░░░░░░◆  ", "   ◆░░░░░░░░◆   ", "    ◆░░░░░░◆    ", "     ◆░░░░◆     ", "      ◆░░◆      ", "       ◆◆       "]
}

fn enemy_sneak_z4() -> (s: Sprite)
    ensures
        s.w == 16 && s.h == 16 && s.rows@ == enemy_sneak_z4_rows(),
{
    let s = Sprite { w: 16, h: 16, rows: &["       ◆◆       ", "      ◆░░◆      ", "     ◆░░░░◆     ", "    ◆░░░░░░◆    ", "   ◆░░░░░░░░◆   ", "  ◆░░░░░░░░░░◆  ", " ◆░░░░░░░░░░░░◆ ", "◆░░░░░░░░░░░░░░◆", "◆░░░░░░░░░░░░░░◆", " ◆░░░░░░░░░░░░◆ ", "  ◆░░░░░░░░░░◆  ", "   ◆░░░░░░░░◆   ", "    ◆░░░░░░◆    ", "     ◆░░░░◆     ", "      ◆░░◆      ", "       ◆◆       "] };
    assert(s.rows@ =~= enemy_sneak_z4_rows());
    s
}


/// The rows of impact_z0.
pub open spec fn impact_z0_rows() -> Seq<&'static str> {
    seq!["++", "++"]
}

fn impact_z0() -> (s: Sprite)
    ensures
        s.w == 2 && s.h == 2 && s.rows@ == impact_z0_rows(),
{
    let s = Sprite { w: 2, h: 2, rows: &["++", "++"] };
    assert(s.rows@ =~= impact_z0_rows());
    s
}


/// The rows of impact_z1.
pub open spec fn impact_z1_rows() -> Seq<&'static str> {
    seq![" ✦  ", "✦✹✦ ", " ✦  ", "    "]
}

fn impact_z1() -> (s: Sprite)
    ensures
        s.w == 4 && s.h == 4 && s.rows@ == impact_z1_rows(),
{
    let s = Sprite { w: 4, h: 4, rows: &[" ✦  ", "✦✹✦ ", " ✦  ", "    "] };
    assert(s.rows@ =~= impact_z1_rows());
    s
}


/// The rows of impact_z2.
pub open spec fn impact_z2_rows() -> Seq<&'static str> {
    seq!["   ✦    ", " ✦✹✦✹✦ ", "  ✹✦✹  ", " ✦✹✦✹✦ ", "   ✦    ", "        ", "        ", "        "]
}

fn impact_z2() -> (s: Sprite)
    ensures
        s.w == 8 && s.h == 8 && s.rows@ == impact_z2_rows(),
{
    let s = Sprite { w: 8, h: 8, rows: &["   ✦    ", " ✦✹✦✹✦ ", "  ✹✦✹  ", " ✦✹✦✹✦ ", "   ✦    ", "        ", "        ", "        "] };
    assert(s.rows@ =~= impact_z2_rows());
    s
}


/// The rows of impact_z3.
pub open spec fn impact_z3_rows() -> Seq<&'static str> {
    seq!["     ✦      ", "   ✦✹✦✹✦   ", "  ✹✦✹✦✹✦  ", " ✦✹✦✹✦✹✦ ", "  ✹✦✹✦✹✦  ", "   ✦✹✦✹✦   ", "     ✦      ", "            ", "            ", "            ", "            ", "            "]
}

fn impact_z3() -> (s: Sprite)
    ensures
        s.w == 12 && s.h == 12 && s.rows@ == impact_z3_rows(),
{
    let s = Sprite { w: 12, h: 12, rows: &["     ✦      ", "   ✦✹✦✹✦   ", "  ✹✦✹✦✹✦  ", " ✦✹✦✹✦✹✦ ", "  ✹✦✹✦✹✦  ", "   ✦✹✦✹✦   ", "     ✦      ", "            ", "            ", "            ", "            ", "            "] };
    assert(s.rows@ =~= impact_z3_rows());
    s
}


/// The rows of impact_z4.
pub open spec fn impact_z4_rows() -> Seq<&'static str> {
    seq!["       ✦        ", "     ✦✹✦✹✦     ", "    ✹✦✹✦✹✦    ", "   ✦✹✦✹✦✹✦   ", "  ✹✦✹✦✹✦✹✦  ", "   ✦✹✦✹✦✹✦   ", "    ✹✦✹✦✹✦    ", "     ✦✹✦✹✦     ", "       ✦        ", "                ", "                ", "                ", "                ", "                ", "                ", "                "]
}

fn impact_z4() -> (s: Sprite)
    ensures
        s.w == 16 && s.h == 16 && s.rows@ == impact_z4_rows(),
{
    let s = Sprite { w: 16, h: 16, rows: &["       ✦        ", "     ✦✹✦✹✦     ", "    ✹✦✹✦✹✦    ", "   ✦✹✦✹✦✹✦   ", "  ✹✦✹✦✹✦✹✦  ", "   ✦✹✦✹✦✹✦   ", "    ✹✦✹✦✹✦    ", "     ✦✹✦✹✦     ", "       ✦        ", "                ", "                ", "                ", "                ", "                ", "                ", "                "] };
    assert(s.rows@ =~= impact_z4_rows());
    s
}


/// The rows of a tower's sprite at zoom level `z` (0 to 4).
pub open spec fn tower_rows(kind: TowerKind, z: int) -> Seq<&'static str> {
    match kind {
        TowerKind::Basic => if z == 0 {
            tower_basic_z0_rows()
        } else if z == 1 {
            tower_basic_z1_rows()
        } else if z == 2 {
            tower_basic_z2_rows()
        } else if z == 3 {
            tower_basic_z3_rows()
        } else {
            tower_basic_z4_rows()
        },
        TowerKind::Sniper => if z == 0 {
            tower_sniper_z0_rows()
        } else if z == 1 {
            tower_sniper_z1_rows()
        } else if z == 2 {
            tower_sniper_z2_rows()
        } else if z == 3 {
            tower_sniper_z3_rows()
        } else {
            tower_sniper_z4_rows()
        },
        TowerKind::Rapid => if z == 0 {
            tower_rapid_z0_rows()
        } else if z == 1 {
            tower_rapid_z1_rows()
        } else if z == 2 {
            tower_rapid_z2_rows()
        } else if z == 3 {
            tower_rapid_z3_rows()
        } else {
            tower_rapid_z4_rows()
        },
        TowerKind::Cannon => if z == 0 {
            tower_cannon_z0_rows()
        } else if z == 1 {
            tower_cannon_z1_rows()
        } else if z == 2 {
            tower_cannon_z2_rows()
        } else if z == 3 {
            tower_cannon_z3_rows()
        } else {
            tower_cannon_z4_rows()
        },
        TowerKind::Tesla => if z == 0 {
            tower_tesla_z0_rows()
        } else if z == 1 {
            tower_tesla_z1_rows()
        } else if z == 2 {
            tower_tesla_z2_rows()
        } else if z == 3 {
            tower_tesla_z3_rows()
        } else {
            tower_tesla_z4_rows()
        },
        TowerKind::Frost => if z == 0 {
            tower_frost_z0_rows()
        } else if z == 1 {
            tower_frost_z1_rows()
        } else if z == 2 {
            tower_frost_z2_rows()
        } else if z == 3 {
            tower_frost_z3_rows()
        } else {
            tower_frost_z4_rows()
        },
    }
}

/// A tower's sprite at a zoom (above 4 counts as 4).
pub fn tower_sprite(kind: TowerKind, zoom: u16) -> (s: Sprite)
    ensures
        sprite_shaped(s, zoom_level(zoom)),
        s.rows@ == tower_rows(kind, zoom_level(zoom)),
{
    let z: u16 = if zoom > 4 {
        4
    } else {
        zoom
    };
    match kind {
        TowerKind::Basic => if z == 0 {
            tower_basic_z0()
        } else if z == 1 {
            tower_basic_z1()
        } else if z == 2 {
            tower_basic_z2()
        } else if z == 3 {
            tower_basic_z3()
        } else {
            tower_basic_z4()
        },
        TowerKind::Sniper => if z == 0 {
            tower_sniper_z0()
        } else if z == 1 {
            tower_sniper_z1()
        } else if z == 2 {
            tower_sniper_z2()
        } else if z == 3 {
            tower_sniper_z3()
        } else {
            tower_sniper_z4()
        },
        TowerKind::Rapid => if z == 0 {
            tower_rapid_z0()
        } else if z == 1 {
            tower_rapid_z1()
        } else if z == 2 {
            tower_rapid_z2()
        } else if z == 3 {
            tower_rapid_z3()
        } else {
            tower_rapid_z4()
        },
        TowerKind::Cannon => if z == 0 {
            tower_cannon_z0()
        } else if z == 1 {
            tower_cannon_z1()
        } else if z == 2 {
            tower_cannon_z2()
        } else if z == 3 {
            tower_cannon_z3()
        } else {
            tower_cannon_z4()
        },
        TowerKind::Tesla => if z == 0 {
            tower_tesla_z0()
        } else if z == 1 {
            tower_tesla_z1()
        } else if z == 2 {
            tower_tesla_z2()
        } else if z == 3 {
            tower_tesla_z3()
        } else {
            tower_tesla_z4()
        },
        TowerKind::Frost => if z == 0 {
            tower_frost_z0()
        } else if z == 1 {
            tower_frost_z1()
        } else if z == 2 {
            tower_frost_z2()
        } else if z == 3 {
            tower_frost_z3()
        } else {
            tower_frost_z4()
        },
    }
}


/// The rows of an enemy's sprite at zoom level `z` (0 to 4); all kinds
/// share one sprite at zoom 0.
pub open spec fn enemy_rows(kind: EnemyKind, z: int) -> Seq<&'static str> {
    if z == 0 {
        enemy_z0_rows()
    } else {
        match kind {
            EnemyKind::Runner => if z == 1 {
                enemy_runner_z1_rows()
            } else if z == 2 {
                enemy_runner_z2_rows()
            } else if z == 3 {
                enemy_runner_z3_rows()
            } else {
                enemy_runner_z4_rows()
            },
            EnemyKind::Tank => if z == 1 {
                enemy_tank_z1_rows()
            } else if z == 2 {
                enemy_tank_z2_rows()
            } else if z == 3 {
                enemy_tank_z3_rows()
            } else {
                enemy_tank_z4_rows()
            },
            EnemyKind::Swarm => if z == 1 {
                enemy_swarm_z1_rows()
            } else if z == 2 {
                enemy_swarm_z2_rows()
            } else if z == 3 {
                enemy_swarm_z3_rows()
            } else {
                enemy_swarm_z4_rows()
            },
            EnemyKind::Healer => if z == 1 {
                enemy_healer_z1_rows()
            } else if z == 2 {
                enemy_healer_z2_rows()
            } else if z == 3 {
                enemy_healer_z3_rows()
            } else {
                enemy_healer_z4_rows()
            },
            EnemyKind::Shielded => if z == 1 {
                enemy_shielded_z1_rows()
            } else if z == 2 {
                enemy_shielded_z2_rows()
            } else if z == 3 {
                enemy_shielded_z3_rows()
            } else {
                enemy_shielded_z4_rows()
            },
            EnemyKind::Sneak => if z == 1 {
                enemy_sneak_z1_rows()
            } else if z == 2 {
                enemy_sneak_z2_rows()
            } else if z == 3 {
                enemy_sneak_z3_rows()
            } else {
                enemy_sneak_z4_rows()
            },
        }
    }
}

/// An enemy's sprite at a zoom (above 4 counts as 4).
pub fn enemy_sprite(kind: EnemyKind, zoom: u16) -> (s: Sprite)
    ensures
        sprite_shaped(s, zoom_level(zoom)),
        s.rows@ == enemy_rows(kind, zoom_level(zoom)),
{
    let z: u16 = if zoom > 4 {
        4
    } else {
        zoom
    };
    if z == 0 {
        return enemy_z0();
    }
    match kind {
        EnemyKind::Runner => if z == 1 {
            enemy_runner_z1()
        } else if z == 2 {
            enemy_runner_z2()
        } else if z == 3 {
            enemy_runner_z3()
        } else {
            enemy_runner_z4()
        },
        EnemyKind::Tank => if z == 1 {
            enemy_tank_z1()
        } else if z == 2 {
            enemy_tank_z2()
        } else if z == 3 {
            enemy_tank_z3()
        } else {
            enemy_tank_z4()
        },
        EnemyKind::Swarm => if z == 1 {
            enemy_swarm_z1()
        } else if z == 2 {
            enemy_swarm_z2()
        } else if z == 3 {
            enemy_swarm_z3()
        } else {
            enemy_swarm_z4()
        },
        EnemyKind::Healer => if z == 1 {
            enemy_healer_z1()
        } else if z == 2 {
            enemy_healer_z2()
        } else if z == 3 {
            enemy_healer_z3()
        } else {
            enemy_healer_z4()
        },
        EnemyKind::Shielded => if z == 1 {
            enemy_shielded_z1()
        } else if z == 2 {
            enemy_shielded_z2()
        } else if z == 3 {
            enemy_shielded_z3()
        } else {
            enemy_shielded_z4()
        },
        EnemyKind::Sneak => if z == 1 {
            enemy_sneak_z1()
        } else if z == 2 {
            enemy_sneak_z2()
        } else if z == 3 {
            enemy_sneak_z3()
        } else {
            enemy_sneak_z4()
        },
    }
}

/// The rows of the impact sprite at zoom level `z` (0 to 4).
pub open spec fn impact_rows(z: int) -> Seq<&'static str> {
    if z == 0 {
        impact_z0_rows()
    } else if z == 1 {
        impact_z1_rows()
    } else if z == 2 {
        impact_z2_rows()
    } else if z == 3 {
        impact_z3_rows()
    } else {
        impact_z4_rows()
    }
}

/// The impact sprite at a zoom (above 4 counts as 4).
pub fn impact_sprite(zoom: u16) -> (s: Sprite)
    ensures
        sprite_shaped(s, zoom_level(zoom)),
        s.rows@ == impact_rows(zoom_level(zoom)),
{
    let z: u16 = if zoom > 4 {
        4
    } else {
        zoom
    };
    if z == 0 {
        impact_z0()
    } else if z == 1 {
        impact_z1()
    } else if z == 2 {
        impact_z2()
    } else if z == 3 {
        impact_z3()
    } else {
        impact_z4()
    }
}

} // verus!
