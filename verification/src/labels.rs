//! The texts that describe a tower's special effect in the inspector.
use vstd::prelude::*;

use crate::kinds::TowerKind;
use crate::rules::{
    cannon_splash_params, frost_burst_params, frost_slow, spec_cannon_splash_params,
    spec_frost_burst_params, spec_frost_slow, spec_tesla_chain_params, tesla_chain_params,
};
use crate::save::{decimal, push_decimal, push_str};

verus! {

/// `Chain {percent}% r{radius} x{targets}` for a tesla tower at `level`.
pub open spec fn tesla_label(level: u8) -> Seq<char> {
    let (radius, targets, percent) = spec_tesla_chain_params(level);
    "Chain "@ + decimal(percent as nat) + "% r"@ + decimal(radius as nat) + " x"@ + decimal(
        targets as nat,
    )
}

/// `Splash {percent}% r{radius}` for a cannon at `level`.
pub open spec fn cannon_label(level: u8) -> Seq<char> {
    let (radius, percent) = spec_cannon_splash_params(level);
    "Splash "@ + decimal(percent as nat) + "% r"@ + decimal(radius as nat)
}

/// `Slow {percent}%/{ticks}t + Chill {burst percent}% r{burst radius}` for a
/// frost tower at `level`.
pub open spec fn frost_label(level: u8) -> Seq<char> {
    let (percent, ticks) = spec_frost_slow(level);
    let (burst_radius, burst_slow, _t) = spec_frost_burst_params(level);
    "Slow "@ + decimal(percent as nat) + "%/"@ + decimal(ticks as nat) + "t + Chill "@ + decimal(
        burst_slow as nat,
    ) + "% r"@ + decimal(burst_radius as nat)
}

/// The effect text of a tower kind at `level`, for the kinds that have
/// one.
pub open spec fn effect_label(kind: TowerKind, level: u8) -> Option<Seq<char>> {
    match kind {
        TowerKind::Tesla => Some(tesla_label(level)),
        TowerKind::Cannon => Some(cannon_label(level)),
        TowerKind::Frost => Some(frost_label(level)),
        _ => None,
    }
}

fn label_of(kind: TowerKind, level: u8) -> (s: String)
    requires
        level <= 55,
        effect_label(kind, level) is Some,
    ensures
        s@ == effect_label(kind, level)->0,
{
    let mut s = String::new();
    match kind {
        TowerKind::Tesla => {
            let (radius, targets, percent) = tesla_chain_params(level);
            push_str(&mut s, "Chain ");
            push_decimal(&mut s, percent as u128);
            push_str(&mut s, "% r");
            push_decimal(&mut s, radius as u128);
            push_str(&mut s, " x");
            push_decimal(&mut s, targets as u128);
        },
        TowerKind::Cannon => {
            let (radius, percent) = cannon_splash_params(level);
            push_str(&mut s, "Splash ");
            push_decimal(&mut s, percent as u128);
            push_str(&mut s, "% r");
            push_decimal(&mut s, radius as u128);
        },
        _ => {
            let (percent, ticks) = frost_slow(level);
            let (burst_radius, burst_slow, _t) = frost_burst_params(level);
            push_str(&mut s, "Slow ");
            push_decimal(&mut s, percent as u128);
            push_str(&mut s, "%/");
            push_decimal(&mut s, ticks as u128);
            push_str(&mut s, "t + Chill ");
            push_decimal(&mut s, burst_slow as u128);
            push_str(&mut s, "% r");
            push_decimal(&mut s, burst_radius as u128);
        },
    }
    s
}

/// The inspector's effect texts for a tower of `kind` at `level`: none
/// for kinds without a special effect; else the effect now and, while
/// the upgrade is hovered below the top level (9), the effect after it.
pub fn effect_labels(kind: TowerKind, level: u8, upgrade_hover: bool) -> (r: Option<(String, Option<String>)>)
    requires
        level <= 55,
    ensures
        match effect_label(kind, level) {
            None => r is None,
            Some(now) => r matches Some((a, b)) && a@ == now && if upgrade_hover && level < 9 {
                b matches Some(n) && n@ == effect_label(kind, (level + 1) as u8)->0
            } else {
                b is None
            },
        },
{
    match kind {
        TowerKind::Tesla | TowerKind::Cannon | TowerKind::Frost => {
            let now = label_of(kind, level);
            let next = if upgrade_hover && level < 9 {
                Some(label_of(kind, level + 1))
            } else {
                None
            };
            Some((now, next))
        },
        _ => None,
    }
}

} // verus!
