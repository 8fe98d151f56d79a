//! What the rank card shows: the avatar used, the level reached, the rank
//! and the XP within the level.

use vstd::prelude::*;
use crate::levelling::{is_level_of, level_for_xp, level_xp, number_to_string, shown_number, xp_for_level, xp_in_range};
use crate::text::{decimal_text, push_i64, push_str};

verus! {

/// Rust's `a % b` for `b > 0`: the remainder takes the sign of `a`.
pub open spec fn rust_rem(a: int, b: int) -> int {
    if a >= 0 { a % b } else { -((-a) % b) }
}

/// The default avatar of a user without one: `(id >> 22) % 6`, the shift
/// rounding down and the remainder taking the sign of what it divides.
pub open spec fn default_avatar(id: int) -> int {
    rust_rem(id / 4194304, 6)
}

/// The default avatar index of a user; see `default_avatar`.
pub fn default_avatar_index(id: i64) -> (r: i64)
    ensures
        r == default_avatar(id as int),
{
    let q: i64 = if id >= 0 { id / 4194304 } else { -((-(id + 1)) / 4194304) - 1 };
    proof {
        if id < 0 {
            let n = -(id + 1);
            assert(n >= 0);
            assert(q == -(n / 4194304) - 1);
            assert(id / 4194304 == -(n / 4194304) - 1) by (nonlinear_arith)
                requires
                    n == -(id + 1),
                    n >= 0,
            ;
        }
    }
    if q >= 0 { q % 6 } else { -((-q) % 6) }
}

/// What a rank card shows.
#[derive(Debug)]
pub struct RankCard {
    /// The avatar's hash, or the default avatar's index.
    pub avatar_hash: String,
    pub avatar_url: String,
    pub file_name: String,
    pub level_text: String,
    pub rank_text: String,
    pub xp_text: String,
    /// The XP earned within the level, and the XP the level spans: the
    /// progress bar is filled in their proportion.
    pub progress: (i64, i64),
}

/// The avatar part of the card: the hash used, the URL it is fetched
/// from and the file the card is saved to.
pub open spec fn avatar_parts(id: int, hash: Seq<char>) -> (Seq<char>, Seq<char>) {
    ("https://cdn.discordapp.com/avatars/"@ + decimal_text(id) + "/"@ + hash + ".png?size=1024"@,
        decimal_text(id) + "_"@ + hash + ".png"@)
}

/// Whether `c` is the card of user `id` (avatar hash `avatar`, if any)
/// with `xp` XP and rank `rank`.
pub open spec fn shows_card(c: RankCard, id: int, avatar: Option<Seq<char>>, xp: int, rank: int) -> bool {
    let hash = match avatar { Some(h) => h, None => decimal_text(default_avatar(id)) };
    &&& c.avatar_hash@ == hash
    &&& c.avatar_url@ == avatar_parts(id, hash).0
    &&& c.file_name@ == avatar_parts(id, hash).1
    &&& exists|l: int| is_level_of(xp, l) && c.level_text@ == "Level: "@ + decimal_text(l)
        && c.xp_text@ == "XP: "@ + shown_number(xp - level_xp(l)) + "/"@ + shown_number(level_xp(l + 1) - level_xp(l))
        && c.progress.0 == xp - level_xp(l) && c.progress.1 == level_xp(l + 1) - level_xp(l)
    &&& c.rank_text@ == "Rank: "@ + shown_number(rank)
}

/// The rank card of user `id`; see `shows_card`.
pub fn rank_card(id: i64, avatar: Option<String>, xp: i64, rank: i64) -> (r: RankCard)
    requires
        xp_in_range(xp as int),
    ensures
        shows_card(r, id as int, match avatar { Some(h) => Some(h@), None => None }, xp as int, rank as int),
{
    let hash = match avatar {
        Some(h) => h,
        None => crate::text::i64_to_string(default_avatar_index(id)),
    };
    let mut url = String::new();
    push_str(&mut url, "https://cdn.discordapp.com/avatars/");
    push_i64(&mut url, id);
    push_str(&mut url, "/");
    push_str(&mut url, hash.as_str());
    push_str(&mut url, ".png?size=1024");
    let mut file = String::new();
    push_i64(&mut file, id);
    push_str(&mut file, "_");
    push_str(&mut file, hash.as_str());
    push_str(&mut file, ".png");
    let level = level_for_xp(xp);
    assert(-1 <= level <= 40_000_000);
    proof {
        crate::levelling::lemma_reached_levels_in_range(level as int);
        crate::levelling::lemma_reached_levels_in_range(level + 1);
    }
    let current = xp_for_level(level);
    let after = xp_for_level(level + 1);
    assert(after - current == 100 * level + 75) by (nonlinear_arith)
        requires
            current == 50 * (level * level) + 25 * level,
            after == 50 * ((level + 1) * (level + 1)) + 25 * (level + 1),
    ;
    assert(0 <= current <= 80_001_000_000_000_000) by (nonlinear_arith)
        requires
            current == 50 * (level * level) + 25 * level,
            -1 <= level <= 40_000_000,
    ;
    let next = after - current;
    let into = xp - current;
    let mut level_text = String::new();
    push_str(&mut level_text, "Level: ");
    push_i64(&mut level_text, level);
    let mut rank_text = String::new();
    push_str(&mut rank_text, "Rank: ");
    let rs = number_to_string(rank);
    push_str(&mut rank_text, rs.as_str());
    let mut xp_text = String::new();
    push_str(&mut xp_text, "XP: ");
    let a = number_to_string(into);
    push_str(&mut xp_text, a.as_str());
    push_str(&mut xp_text, "/");
    let b = number_to_string(next);
    push_str(&mut xp_text, b.as_str());
    let card = RankCard {
        avatar_hash: hash,
        avatar_url: url,
        file_name: file,
        level_text,
        rank_text,
        xp_text,
        progress: (into, next),
    };
    assert(card.avatar_url@ =~= avatar_parts(id as int, card.avatar_hash@).0);
    assert(card.file_name@ =~= avatar_parts(id as int, card.avatar_hash@).1);
    assert(card.level_text@ =~= "Level: "@ + decimal_text(level as int));
    assert(card.rank_text@ =~= "Rank: "@ + shown_number(rank as int));
    assert(card.xp_text@ =~= "XP: "@ + shown_number(xp - level_xp(level as int)) + "/"@
        + shown_number(level_xp(level + 1) - level_xp(level as int)));
    card
}

} // verus!
