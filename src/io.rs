//! The style that a writer starts from.
use vstd::prelude::*;

use crate::ansi::{Ansi, AnsiModel};

verus! {

/// The style a writer starts from: `empty` where styles are to be shown,
/// `no_ansi` where they are not. Forcing styles on wins over banning them,
/// and banning wins over the writer's own preference (a terminal or not).
pub fn preferred_ansi(is_forced: bool, is_banned: bool, is_preferred: bool) -> (r: Ansi)
    ensures
        r@ == if is_forced || (!is_banned && is_preferred) {
            AnsiModel::empty()
        } else {
            AnsiModel::no_ansi()
        },
{
    let is_enabled = if is_forced {
        true
    } else if is_banned {
        false
    } else {
        is_preferred
    };
    if is_enabled {
        Ansi::empty()
    } else {
        Ansi::no_ansi()
    }
}

} // verus!
