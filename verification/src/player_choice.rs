//! Player choices: choices, their responses and the rewards of a response,
//! built from the rows of the player choice tables, with the checks and the
//! load report of the world server's loader.
use std::collections::HashMap;
use vstd::prelude::*;
use vstd::std_specs::iter::IteratorSpec;

use crate::predicates::{holds, is_predicate, lemma_predicate_answer};

verus! {

broadcast use {
    vstd::std_specs::hash::group_hash_axioms,
    vstd::string::group_string_axioms,
};

/// Whether `c` is white space in the sense of Unicode's White_Space property,
/// the characters that `char::is_whitespace` accepts.
pub open spec fn is_space(c: char) -> bool {
    ||| c == '\t'
    ||| c == '\n'
    ||| c == '\u{0B}'
    ||| c == '\u{0C}'
    ||| c == '\r'
    ||| c == ' '
    ||| c == '\u{85}'
    ||| c == '\u{A0}'
    ||| c == '\u{1680}'
    ||| ('\u{2000}' <= c && c <= '\u{200A}')
    ||| c == '\u{2028}'
    ||| c == '\u{2029}'
    ||| c == '\u{202F}'
    ||| c == '\u{205F}'
    ||| c == '\u{3000}'
}

fn char_is_space(c: char) -> (b: bool)
    ensures
        b == is_space(c),
{
    c == '\t' || c == '\n' || c == '\u{0B}' || c == '\u{0C}' || c == '\r' || c == ' ' || c
        == '\u{85}' || c == '\u{A0}' || c == '\u{1680}' || (c >= '\u{2000}' && c <= '\u{200A}')
        || c == '\u{2028}' || c == '\u{2029}' || c == '\u{202F}' || c == '\u{205F}' || c
        == '\u{3000}'
}

/// Reading `s` from the left: the words completed so far and the word still
/// being read (empty after white space).
pub open spec fn scan_words(s: Seq<char>) -> (Seq<Seq<char>>, Seq<char>)
    decreases s.len(),
{
    if s.len() == 0 {
        (Seq::empty(), Seq::empty())
    } else {
        let (done, cur) = scan_words(s.drop_last());
        let c = s.last();
        if is_space(c) {
            if cur.len() > 0 {
                (done.push(cur), Seq::empty())
            } else {
                (done, Seq::empty())
            }
        } else {
            (done, cur.push(c))
        }
    }
}

/// The maximal runs of non-white-space characters of `s`, in order.
pub open spec fn words(s: Seq<char>) -> Seq<Seq<char>> {
    let (done, cur) = scan_words(s);
    if cur.len() > 0 {
        done.push(cur)
    } else {
        done
    }
}

pub open spec fn is_digit(c: char) -> bool {
    '0' <= c && c <= '9'
}

/// The value of a string of decimal digits.
pub open spec fn decimal_value(d: Seq<char>) -> int
    decreases d.len(),
{
    if d.len() == 0 {
        0
    } else {
        decimal_value(d.drop_last()) * 10 + (d.last() as int - '0' as int)
    }
}

/// The digits of a word: the word without a leading sign.
pub open spec fn unsigned_part(w: Seq<char>) -> Seq<char> {
    if w.len() > 0 && (w[0] == '-' || w[0] == '+') {
        w.drop_first()
    } else {
        w
    }
}

/// The word read as a decimal `i32` the way `str::parse::<i32>` reads it: an
/// optional `+` or `-`, then one or more ASCII digits, and a value that fits.
pub open spec fn parse_i32_word(w: Seq<char>) -> Option<i32> {
    let d = unsigned_part(w);
    let v = if w.len() > 0 && w[0] == '-' {
        -decimal_value(d)
    } else {
        decimal_value(d)
    };
    if d.len() > 0 && (forall|i: int| 0 <= i < d.len() ==> is_digit(d[i])) && i32::MIN <= v
        <= i32::MAX {
        Some(v as i32)
    } else {
        None
    }
}

/// The bonus list ids written in `s`: its words that read as `i32`, in
/// order; other words are ignored.
pub open spec fn bonus_list_ids(s: Seq<char>) -> Seq<i32> {
    words(s).filter_map(|w: Seq<char>| parse_i32_word(w))
}

/// A longer string of digits is worth at least as much as its prefixes.
proof fn lemma_decimal_value_grows(d: Seq<char>, k: int)
    requires
        0 <= k <= d.len(),
        forall|i: int| 0 <= i < d.len() ==> is_digit(d[i]),
    ensures
        decimal_value(d.take(k)) <= decimal_value(d),
        0 <= decimal_value(d.take(k)),
    decreases d.len(),
{
    if k < d.len() {
        assert(d.drop_last().take(k) =~= d.take(k));
        lemma_decimal_value_grows(d.drop_last(), k);
    } else {
        assert(d.take(k) =~= d);
        if d.len() > 0 {
            assert(d.drop_last().take(d.len() - 1) =~= d.drop_last());
            lemma_decimal_value_grows(d.drop_last(), d.len() - 1);
        }
    }
}

/// Reads a word as a decimal `i32`.
fn parse_word(w: &Vec<char>) -> (r: Option<i32>)
    ensures
        r == parse_i32_word(w@),
{
    let n = w.len();
    if n == 0 {
        return None;
    }
    let neg = w[0] == '-';
    let start: usize = if w[0] == '-' || w[0] == '+' {
        1
    } else {
        0
    };
    let ghost d = unsigned_part(w@);
    proof {
        assert(d =~= w@.subrange(start as int, n as int));
    }
    if start == n {
        return None;
    }
    let mut v: i64 = 0;
    let mut i: usize = start;
    while i < n
        invariant
            start <= i <= n,
            n == w@.len(),
            n > 0,
            neg == (w@[0] == '-'),
            d == unsigned_part(w@),
            d == w@.subrange(start as int, n as int),
            forall|k: int| 0 <= k < i - start ==> is_digit(d[k]),
            v == decimal_value(d.take(i - start)),
            0 <= v <= 2147483648,
        decreases n - i,
    {
        let c = w[i];
        if !(c >= '0' && c <= '9') {
            proof {
                assert(!is_digit(d[i - start]));
                assert(!(forall|k: int| 0 <= k < d.len() ==> is_digit(d[k])));
            }
            return None;
        }
        let digit = (c as u32 - '0' as u32) as i64;
        proof {
            assert(d.take(i - start + 1).drop_last() =~= d.take(i - start));
            assert(d.take(i - start + 1).last() == c);
        }
        v = v * 10 + digit;
        if v > 2147483648 {
            proof {
                if forall|k: int| 0 <= k < d.len() ==> is_digit(d[k]) {
                    lemma_decimal_value_grows(d, i - start + 1);
                    assert(decimal_value(d) > 2147483648);
                }
            }
            return None;
        }
        i = i + 1;
    }
    proof {
        assert(d.take(n - start) =~= d);
    }
    if neg {
        Some((0 - v) as i32)
    } else if v > 2147483647 {
        None
    } else {
        Some(v as i32)
    }
}

/// Parses the space-separated bonus list ids of a reward item row, skipping
/// words that are not `i32` numbers.
fn parse_bonus_list_ids_like_cpp(raw: &String) -> (r: Vec<i32>)
    ensures
        r@ == bonus_list_ids(raw@),
{
    let s = raw.as_str();
    let ghost all = s@;
    let mut out: Vec<i32> = Vec::new();
    let mut cur: Vec<char> = Vec::new();
    for c in it: s.chars()
        invariant
            it.seq() == all,
            cur@ == scan_words(all.take(it.index() as int)).1,
            out@ == scan_words(all.take(it.index() as int)).0.filter_map(
                |w: Seq<char>| parse_i32_word(w),
            ),
    {
        let ghost i = it.index() as int;
        proof {
            assert(all.take(i + 1).drop_last() =~= all.take(i));
        }
        if char_is_space(c) {
            if cur.len() > 0 {
                let ghost done = scan_words(all.take(i)).0;
                let parsed = parse_word(&cur);
                match parsed {
                    Some(v) => {
                        out.push(v);
                    },
                    None => {},
                }
                proof {
                    assert(done.push(cur@).drop_last() =~= done);
                }
                cur = Vec::new();
            }
        } else {
            cur.push(c);
        }
    }
    proof {
        assert(all.take(all.len() as int) =~= all);
    }
    if cur.len() > 0 {
        let ghost done = scan_words(all).0;
        let parsed = parse_word(&cur);
        match parsed {
            Some(v) => {
                out.push(v);
            },
            None => {},
        }
        proof {
            assert(done.push(cur@).drop_last() =~= done);
        }
    }
    out
}

#[derive(Debug, Clone, PartialEq, Eq)]
pub struct PlayerChoiceResponseLikeCpp {
    pub response_id: i32,
    pub response_identifier: u16,
    pub choice_art_file_id: i32,
    pub flags: i32,
    pub widget_set_id: u32,
    pub ui_texture_atlas_element_id: u32,
    pub sound_kit_id: u32,
    pub group_id: u8,
    pub ui_texture_kit_id: i32,
    pub answer: String,
    pub header: String,
    pub sub_header: String,
    pub button_tooltip: String,
    pub description: String,
    pub confirmation: String,
    pub reward_quest_id: Option<u32>,
    pub reward: Option<PlayerChoiceResponseRewardLikeCpp>,
}

#[derive(Debug, Clone, PartialEq, Eq)]
pub struct PlayerChoiceResponseRewardLikeCpp {
    pub title_id: i32,
    pub package_id: i32,
    pub skill_line_id: i32,
    pub skill_point_count: u32,
    pub arena_point_count: u32,
    pub honor_point_count: u32,
    pub money: u64,
    pub xp: u32,
    pub items: Vec<PlayerChoiceResponseRewardItemLikeCpp>,
    pub currency: Vec<PlayerChoiceResponseRewardEntryLikeCpp>,
    pub faction: Vec<PlayerChoiceResponseRewardEntryLikeCpp>,
    pub item_choices: Vec<PlayerChoiceResponseRewardItemLikeCpp>,
}

#[derive(Debug, Clone, PartialEq, Eq)]
pub struct PlayerChoiceResponseRewardItemLikeCpp {
    pub id: u32,
    pub bonus_list_ids: Vec<i32>,
    pub quantity: i32,
}

#[derive(Debug, Clone, Copy, PartialEq, Eq)]
pub struct PlayerChoiceResponseRewardEntryLikeCpp {
    pub id: u32,
    pub quantity: i32,
}

#[derive(Debug, Clone, PartialEq, Eq)]
pub struct PlayerChoiceLikeCpp {
    pub choice_id: i32,
    pub ui_texture_kit_id: i32,
    pub sound_kit_id: u32,
    pub close_sound_kit_id: u32,
    pub duration: i64,
    pub question: String,
    pub pending_choice_text: String,
    pub responses: Vec<PlayerChoiceResponseLikeCpp>,
    pub hide_warboard_header: bool,
    pub keep_open_after_choice: bool,
}

#[derive(Debug, Clone, PartialEq, Eq)]
pub struct PlayerChoiceRowLikeCpp {
    pub choice_id: i32,
    pub ui_texture_kit_id: i32,
    pub sound_kit_id: u32,
    pub close_sound_kit_id: u32,
    pub duration: i64,
    pub question: String,
    pub pending_choice_text: String,
    pub hide_warboard_header: u8,
    pub keep_open_after_choice: u8,
}

#[derive(Debug, Clone, PartialEq, Eq)]
pub struct PlayerChoiceResponseRowLikeCpp {
    pub choice_id: i32,
    pub response_id: i32,
    pub response_identifier: u16,
    pub choice_art_file_id: i32,
    pub flags: i32,
    pub widget_set_id: u32,
    pub ui_texture_atlas_element_id: u32,
    pub sound_kit_id: u32,
    pub group_id: u8,
    pub ui_texture_kit_id: i32,
    pub answer: String,
    pub header: String,
    pub sub_header: String,
    pub button_tooltip: String,
    pub description: String,
    pub confirmation: String,
    pub reward_quest_id: Option<u32>,
}

#[derive(Debug, Clone, PartialEq, Eq)]
pub struct PlayerChoiceResponseRewardRowLikeCpp {
    pub choice_id: i32,
    pub response_id: i32,
    pub title_id: i32,
    pub package_id: i32,
    pub skill_line_id: i32,
    pub skill_point_count: u32,
    pub arena_point_count: u32,
    pub honor_point_count: u32,
    pub money: u64,
    pub xp: u32,
}

#[derive(Debug, Clone, PartialEq, Eq)]
pub struct PlayerChoiceResponseRewardItemRowLikeCpp {
    pub choice_id: i32,
    pub response_id: i32,
    pub item_id: u32,
    pub bonus_list_ids_raw: String,
    pub quantity: i32,
}

#[derive(Debug, Clone, PartialEq, Eq)]
pub struct PlayerChoiceResponseRewardCurrencyRowLikeCpp {
    pub choice_id: i32,
    pub response_id: i32,
    pub currency_id: u32,
    pub quantity: i32,
}

#[derive(Debug, Clone, PartialEq, Eq)]
pub struct PlayerChoiceResponseRewardFactionRowLikeCpp {
    pub choice_id: i32,
    pub response_id: i32,
    pub faction_id: u32,
    pub quantity: i32,
}

#[derive(Debug, Default, Clone, PartialEq, Eq)]
pub struct PlayerChoiceLoadReportLikeCpp {
    pub choice_rows_seen: usize,
    pub response_rows_seen: usize,
    pub reward_rows_seen: usize,
    pub reward_item_rows_seen: usize,
    pub reward_currency_rows_seen: usize,
    pub reward_faction_rows_seen: usize,
    pub reward_item_choice_rows_seen: usize,
    /// Responses attached to an existing choice.
    pub loaded_responses: usize,
    /// Rewards attached to an existing response.
    pub loaded_rewards: usize,
    /// Reward items attached to an existing reward.
    pub loaded_reward_items: usize,
    /// Reward currencies attached to an existing reward.
    pub loaded_reward_currencies: usize,
    /// Reward factions attached to an existing reward.
    pub loaded_reward_factions: usize,
    /// Reward item choices attached to an existing reward.
    pub loaded_reward_item_choices: usize,
    pub skipped_responses_missing_choice: Vec<(i32, i32)>,
    pub skipped_rewards_missing_choice: Vec<(i32, i32)>,
    pub skipped_rewards_missing_response: Vec<(i32, i32)>,
    pub skipped_reward_items_missing_choice: Vec<(i32, i32)>,
    pub skipped_reward_items_missing_response: Vec<(i32, i32)>,
    pub skipped_reward_items_missing_reward: Vec<(i32, i32)>,
    pub skipped_reward_items_missing_item: Vec<(i32, i32, u32)>,
    pub skipped_reward_currencies_missing_choice: Vec<(i32, i32)>,
    pub skipped_reward_currencies_missing_response: Vec<(i32, i32)>,
    pub skipped_reward_currencies_missing_reward: Vec<(i32, i32)>,
    pub skipped_reward_currencies_missing_currency: Vec<(i32, i32, u32)>,
    pub skipped_reward_factions_missing_choice: Vec<(i32, i32)>,
    pub skipped_reward_factions_missing_response: Vec<(i32, i32)>,
    pub skipped_reward_factions_missing_reward: Vec<(i32, i32)>,
    pub skipped_reward_factions_missing_faction: Vec<(i32, i32, u32)>,
    pub skipped_reward_item_choices_missing_choice: Vec<(i32, i32)>,
    pub skipped_reward_item_choices_missing_response: Vec<(i32, i32)>,
    pub skipped_reward_item_choices_missing_reward: Vec<(i32, i32)>,
    pub skipped_reward_item_choices_missing_item: Vec<(i32, i32, u32)>,
    pub invalid_reward_titles: Vec<(i32, i32, i32)>,
    pub invalid_reward_packages: Vec<(i32, i32, i32)>,
    pub invalid_reward_skill_lines: Vec<(i32, i32, i32)>,
    pub rewards_pending: bool,
    pub locales_pending: bool,
}


/// The rows of the player choice tables, as read.
pub struct PlayerChoiceRows {
    pub choices: Seq<PlayerChoiceRowLikeCpp>,
    pub responses: Seq<PlayerChoiceResponseRowLikeCpp>,
    pub rewards: Seq<PlayerChoiceResponseRewardRowLikeCpp>,
    pub items: Seq<PlayerChoiceResponseRewardItemRowLikeCpp>,
    pub currencies: Seq<PlayerChoiceResponseRewardCurrencyRowLikeCpp>,
    pub factions: Seq<PlayerChoiceResponseRewardFactionRowLikeCpp>,
    pub item_choices: Seq<PlayerChoiceResponseRewardItemRowLikeCpp>,
}

/// Which referenced records exist: titles, quest packages, skill lines,
/// items, currencies and factions, by id.
pub struct PlayerChoiceChecks {
    pub title: spec_fn(u32) -> bool,
    pub package: spec_fn(u32) -> bool,
    pub skill_line: spec_fn(u32) -> bool,
    pub item: spec_fn(u32) -> bool,
    pub currency: spec_fn(u32) -> bool,
    pub faction: spec_fn(u32) -> bool,
}

/// The checks that the six existence predicates answer.
pub open spec fn checks_of<
    T: Fn(u32) -> bool,
    P: Fn(u32) -> bool,
    S: Fn(u32) -> bool,
    I: Fn(u32) -> bool,
    C: Fn(u32) -> bool,
    F: Fn(u32) -> bool,
>(
    title_exists: T,
    quest_package_exists: P,
    skill_line_exists: S,
    item_exists: I,
    currency_exists: C,
    faction_exists: F,
) -> PlayerChoiceChecks {
    PlayerChoiceChecks {
        title: |x: u32| holds(title_exists, x),
        package: |x: u32| holds(quest_package_exists, x),
        skill_line: |x: u32| holds(skill_line_exists, x),
        item: |x: u32| holds(item_exists, x),
        currency: |x: u32| holds(currency_exists, x),
        faction: |x: u32| holds(faction_exists, x),
    }
}

/// The last choice row with the given id.
pub open spec fn last_choice_row(rows: Seq<PlayerChoiceRowLikeCpp>, choice_id: i32) -> Option<
    PlayerChoiceRowLikeCpp,
>
    decreases rows.len(),
{
    if rows.len() == 0 {
        None
    } else if rows.last().choice_id == choice_id {
        Some(rows.last())
    } else {
        last_choice_row(rows.drop_last(), choice_id)
    }
}

pub open spec fn has_choice(rows: Seq<PlayerChoiceRowLikeCpp>, choice_id: i32) -> bool {
    last_choice_row(rows, choice_id) is Some
}

/// `ch` carries the fields of its choice row.
pub open spec fn choice_from_row(ch: PlayerChoiceLikeCpp, row: PlayerChoiceRowLikeCpp) -> bool {
    &&& ch.choice_id == row.choice_id
    &&& ch.ui_texture_kit_id == row.ui_texture_kit_id
    &&& ch.sound_kit_id == row.sound_kit_id
    &&& ch.close_sound_kit_id == row.close_sound_kit_id
    &&& ch.duration == row.duration
    &&& ch.question == row.question
    &&& ch.pending_choice_text == row.pending_choice_text
    &&& ch.hide_warboard_header == (row.hide_warboard_header != 0)
    &&& ch.keep_open_after_choice == (row.keep_open_after_choice != 0)
}

/// The response rows of a choice, in table order.
pub open spec fn responses_of(rows: Seq<PlayerChoiceResponseRowLikeCpp>, choice_id: i32) -> Seq<
    PlayerChoiceResponseRowLikeCpp,
> {
    rows.filter_map(
        |r: PlayerChoiceResponseRowLikeCpp|
            if r.choice_id == choice_id {
                Some(r)
            } else {
                None
            },
    )
}

/// `resp` carries the fields of its response row.
pub open spec fn response_from_row(
    resp: PlayerChoiceResponseLikeCpp,
    row: PlayerChoiceResponseRowLikeCpp,
) -> bool {
    &&& resp.response_id == row.response_id
    &&& resp.response_identifier == row.response_identifier
    &&& resp.choice_art_file_id == row.choice_art_file_id
    &&& resp.flags == row.flags
    &&& resp.widget_set_id == row.widget_set_id
    &&& resp.ui_texture_atlas_element_id == row.ui_texture_atlas_element_id
    &&& resp.sound_kit_id == row.sound_kit_id
    &&& resp.group_id == row.group_id
    &&& resp.ui_texture_kit_id == row.ui_texture_kit_id
    &&& resp.answer == row.answer
    &&& resp.header == row.header
    &&& resp.sub_header == row.sub_header
    &&& resp.button_tooltip == row.button_tooltip
    &&& resp.description == row.description
    &&& resp.confirmation == row.confirmation
    &&& resp.reward_quest_id == row.reward_quest_id
}

/// No earlier response row has the response id of row `j`: lookups by
/// response id find row `j`.
pub open spec fn first_of_its_id(rows: Seq<PlayerChoiceResponseRowLikeCpp>, j: int) -> bool {
    forall|k: int| 0 <= k < j ==> rows[k].response_id != rows[j].response_id
}

/// Some response row has the given response id.
pub open spec fn names_response(rows: Seq<PlayerChoiceResponseRowLikeCpp>, response_id: i32) -> bool {
    exists|j: int| 0 <= j < rows.len() && #[trigger] rows[j].response_id == response_id
}

/// A row for a (choice, response) pair finds its response.
pub open spec fn response_found(t: PlayerChoiceRows, choice_id: i32, response_id: i32) -> bool {
    has_choice(t.choices, choice_id) && names_response(responses_of(t.responses, choice_id), response_id)
}

/// The last reward row of a (choice, response) pair.
pub open spec fn last_reward_row(
    rows: Seq<PlayerChoiceResponseRewardRowLikeCpp>,
    choice_id: i32,
    response_id: i32,
) -> Option<PlayerChoiceResponseRewardRowLikeCpp>
    decreases rows.len(),
{
    if rows.len() == 0 {
        None
    } else if rows.last().choice_id == choice_id && rows.last().response_id == response_id {
        Some(rows.last())
    } else {
        last_reward_row(rows.drop_last(), choice_id, response_id)
    }
}

/// The response of a (choice, response) pair has a reward.
pub open spec fn reward_found(t: PlayerChoiceRows, choice_id: i32, response_id: i32) -> bool {
    response_found(t, choice_id, response_id) && last_reward_row(t.rewards, choice_id, response_id) is Some
}

/// A reference is kept when it is zero or names an existing record.
pub open spec fn reference_kept(known: spec_fn(u32) -> bool, id: i32) -> bool {
    id == 0 || (id >= 0 && known(id as u32))
}

/// `rw` carries the fields of its reward row, with a reference that names no
/// record zeroed (and, for the skill line, its point count too).
pub open spec fn reward_from_row(
    rw: PlayerChoiceResponseRewardLikeCpp,
    row: PlayerChoiceResponseRewardRowLikeCpp,
    k: PlayerChoiceChecks,
) -> bool {
    &&& rw.title_id == (if reference_kept(k.title, row.title_id) {
        row.title_id
    } else {
        0
    })
    &&& rw.package_id == (if reference_kept(k.package, row.package_id) {
        row.package_id
    } else {
        0
    })
    &&& rw.skill_line_id == (if reference_kept(k.skill_line, row.skill_line_id) {
        row.skill_line_id
    } else {
        0
    })
    &&& rw.skill_point_count == (if reference_kept(k.skill_line, row.skill_line_id) {
        row.skill_point_count
    } else {
        0
    })
    &&& rw.arena_point_count == row.arena_point_count
    &&& rw.honor_point_count == row.honor_point_count
    &&& rw.money == row.money
    &&& rw.xp == row.xp
}

/// The item rows of a (choice, response) pair whose item exists, in order.
pub open spec fn item_rows_for(
    rows: Seq<PlayerChoiceResponseRewardItemRowLikeCpp>,
    choice_id: i32,
    response_id: i32,
    item: spec_fn(u32) -> bool,
) -> Seq<PlayerChoiceResponseRewardItemRowLikeCpp> {
    rows.filter_map(
        |r: PlayerChoiceResponseRewardItemRowLikeCpp|
            if r.choice_id == choice_id && r.response_id == response_id && item(r.item_id) {
                Some(r)
            } else {
                None
            },
    )
}

/// `items` are the reward items of `rows`, one for one: id, bonus lists
/// parsed from the row's text, quantity.
pub open spec fn items_from_rows(
    items: Seq<PlayerChoiceResponseRewardItemLikeCpp>,
    rows: Seq<PlayerChoiceResponseRewardItemRowLikeCpp>,
) -> bool {
    &&& items.len() == rows.len()
    &&& forall|i: int| #![trigger items[i]] 0 <= i < items.len() ==> {
        &&& items[i].id == rows[i].item_id
        &&& items[i].bonus_list_ids@ == bonus_list_ids(rows[i].bonus_list_ids_raw@)
        &&& items[i].quantity == rows[i].quantity
    }
}

/// The currencies given for a (choice, response) pair, in row order.
pub open spec fn currency_entries(
    rows: Seq<PlayerChoiceResponseRewardCurrencyRowLikeCpp>,
    choice_id: i32,
    response_id: i32,
    currency: spec_fn(u32) -> bool,
) -> Seq<PlayerChoiceResponseRewardEntryLikeCpp> {
    rows.filter_map(
        |r: PlayerChoiceResponseRewardCurrencyRowLikeCpp|
            if r.choice_id == choice_id && r.response_id == response_id && currency(r.currency_id) {
                Some(PlayerChoiceResponseRewardEntryLikeCpp { id: r.currency_id, quantity: r.quantity })
            } else {
                None
            },
    )
}

/// The faction reputations given for a (choice, response) pair, in row
/// order.
pub open spec fn faction_entries(
    rows: Seq<PlayerChoiceResponseRewardFactionRowLikeCpp>,
    choice_id: i32,
    response_id: i32,
    faction: spec_fn(u32) -> bool,
) -> Seq<PlayerChoiceResponseRewardEntryLikeCpp> {
    rows.filter_map(
        |r: PlayerChoiceResponseRewardFactionRowLikeCpp|
            if r.choice_id == choice_id && r.response_id == response_id && faction(r.faction_id) {
                Some(PlayerChoiceResponseRewardEntryLikeCpp { id: r.faction_id, quantity: r.quantity })
            } else {
                None
            },
    )
}

/// The reward of the response with response id `response_id` of a choice,
/// where `first` tells whether it is the first response with that id (the
/// one that rows for the pair reach).
pub open spec fn reward_built(
    reward: Option<PlayerChoiceResponseRewardLikeCpp>,
    first: bool,
    choice_id: i32,
    response_id: i32,
    t: PlayerChoiceRows,
    k: PlayerChoiceChecks,
) -> bool {
    if first && last_reward_row(t.rewards, choice_id, response_id) is Some {
        &&& reward is Some
        &&& reward_from_row(reward->0, last_reward_row(t.rewards, choice_id, response_id)->0, k)
        &&& items_from_rows(reward->0.items@, item_rows_for(t.items, choice_id, response_id, k.item))
        &&& reward->0.currency@ == currency_entries(t.currencies, choice_id, response_id, k.currency)
        &&& reward->0.faction@ == faction_entries(t.factions, choice_id, response_id, k.faction)
        &&& items_from_rows(
            reward->0.item_choices@,
            item_rows_for(t.item_choices, choice_id, response_id, k.item),
        )
    } else {
        reward is None
    }
}

/// Response `j` of a choice as loaded from the response rows `rows` of that
/// choice.
pub open spec fn response_built(
    resp: PlayerChoiceResponseLikeCpp,
    rows: Seq<PlayerChoiceResponseRowLikeCpp>,
    j: int,
    choice_id: i32,
    t: PlayerChoiceRows,
    k: PlayerChoiceChecks,
) -> bool {
    &&& response_from_row(resp, rows[j])
    &&& reward_built(resp.reward, first_of_its_id(rows, j), choice_id, rows[j].response_id, t, k)
}

/// A choice as loaded: the fields of its last row, then every response row
/// of the choice in table order, with the rewards of each.
pub open spec fn choice_built(
    ch: PlayerChoiceLikeCpp,
    choice_id: i32,
    t: PlayerChoiceRows,
    k: PlayerChoiceChecks,
) -> bool {
    &&& choice_from_row(ch, last_choice_row(t.choices, choice_id)->0)
    &&& ch.responses@.len() == responses_of(t.responses, choice_id).len()
    &&& forall|j: int| #![trigger ch.responses@[j]] 0 <= j < ch.responses@.len() ==> response_built(
        ch.responses@[j],
        responses_of(t.responses, choice_id),
        j,
        choice_id,
        t,
        k,
    )
}

/// The choices loaded from the tables: one per choice id of the choice rows.
pub open spec fn choices_built(
    chs: Map<i32, PlayerChoiceLikeCpp>,
    t: PlayerChoiceRows,
    k: PlayerChoiceChecks,
) -> bool {
    &&& forall|c: i32| #[trigger] chs.contains_key(c) <==> has_choice(t.choices, c)
    &&& forall|c: i32| #[trigger] chs.contains_key(c) ==> choice_built(chs[c], c, t, k)
}

/// The (choice, response) pairs of response rows whose choice is missing.
pub open spec fn responses_missing_choice(
    rows: Seq<PlayerChoiceResponseRowLikeCpp>,
    choices: Seq<PlayerChoiceRowLikeCpp>,
) -> Seq<(i32, i32)> {
    rows.filter_map(
        |r: PlayerChoiceResponseRowLikeCpp|
            if !has_choice(choices, r.choice_id) {
                Some((r.choice_id, r.response_id))
            } else {
                None
            },
    )
}

/// A row that names a (choice, response) pair.
pub trait ChoiceLinkedRow {
    spec fn linked_choice(&self) -> i32;

    spec fn linked_response(&self) -> i32;
}

/// A reward row that names a record (an item, a currency or a faction).
pub trait RewardPartRow: ChoiceLinkedRow {
    spec fn linked_record(&self) -> u32;
}

impl ChoiceLinkedRow for PlayerChoiceResponseRowLikeCpp {
    open spec fn linked_choice(&self) -> i32 {
        self.choice_id
    }

    open spec fn linked_response(&self) -> i32 {
        self.response_id
    }
}

impl ChoiceLinkedRow for PlayerChoiceResponseRewardRowLikeCpp {
    open spec fn linked_choice(&self) -> i32 {
        self.choice_id
    }

    open spec fn linked_response(&self) -> i32 {
        self.response_id
    }
}

impl ChoiceLinkedRow for PlayerChoiceResponseRewardItemRowLikeCpp {
    open spec fn linked_choice(&self) -> i32 {
        self.choice_id
    }

    open spec fn linked_response(&self) -> i32 {
        self.response_id
    }
}

impl RewardPartRow for PlayerChoiceResponseRewardItemRowLikeCpp {
    open spec fn linked_record(&self) -> u32 {
        self.item_id
    }
}

impl ChoiceLinkedRow for PlayerChoiceResponseRewardCurrencyRowLikeCpp {
    open spec fn linked_choice(&self) -> i32 {
        self.choice_id
    }

    open spec fn linked_response(&self) -> i32 {
        self.response_id
    }
}

impl RewardPartRow for PlayerChoiceResponseRewardCurrencyRowLikeCpp {
    open spec fn linked_record(&self) -> u32 {
        self.currency_id
    }
}

impl ChoiceLinkedRow for PlayerChoiceResponseRewardFactionRowLikeCpp {
    open spec fn linked_choice(&self) -> i32 {
        self.choice_id
    }

    open spec fn linked_response(&self) -> i32 {
        self.response_id
    }
}

impl RewardPartRow for PlayerChoiceResponseRewardFactionRowLikeCpp {
    open spec fn linked_record(&self) -> u32 {
        self.faction_id
    }
}

/// The (choice, response) pairs of the rows whose choice is missing.
pub open spec fn rows_missing_choice<R: ChoiceLinkedRow>(
    rows: Seq<R>,
    choices: Seq<PlayerChoiceRowLikeCpp>,
) -> Seq<(i32, i32)> {
    rows.filter_map(
        |r: R|
            if !has_choice(choices, r.linked_choice()) {
                Some((r.linked_choice(), r.linked_response()))
            } else {
                None
            },
    )
}

/// The (choice, response) pairs of the rows whose choice exists but has no
/// response with the response id.
pub open spec fn rows_missing_response<R: ChoiceLinkedRow>(
    rows: Seq<R>,
    choices: Seq<PlayerChoiceRowLikeCpp>,
    responses: Seq<PlayerChoiceResponseRowLikeCpp>,
) -> Seq<(i32, i32)> {
    rows.filter_map(
        |r: R|
            if has_choice(choices, r.linked_choice()) && !names_response(
                responses_of(responses, r.linked_choice()),
                r.linked_response(),
            ) {
                Some((r.linked_choice(), r.linked_response()))
            } else {
                None
            },
    )
}

/// The (choice, response) pairs of the rows whose response exists but has
/// no reward.
pub open spec fn rows_missing_reward<R: ChoiceLinkedRow>(
    rows: Seq<R>,
    choices: Seq<PlayerChoiceRowLikeCpp>,
    responses: Seq<PlayerChoiceResponseRowLikeCpp>,
    rewards: Seq<PlayerChoiceResponseRewardRowLikeCpp>,
) -> Seq<(i32, i32)> {
    rows.filter_map(
        |r: R|
            if has_choice(choices, r.linked_choice()) && names_response(
                responses_of(responses, r.linked_choice()),
                r.linked_response(),
            ) && last_reward_row(rewards, r.linked_choice(), r.linked_response()) is None {
                Some((r.linked_choice(), r.linked_response()))
            } else {
                None
            },
    )
}

/// The (choice, response, record) triples of the rows whose reward exists
/// but whose record does not.
pub open spec fn rows_missing_record<R: RewardPartRow>(
    rows: Seq<R>,
    choices: Seq<PlayerChoiceRowLikeCpp>,
    responses: Seq<PlayerChoiceResponseRowLikeCpp>,
    rewards: Seq<PlayerChoiceResponseRewardRowLikeCpp>,
    known: spec_fn(u32) -> bool,
) -> Seq<(i32, i32, u32)> {
    rows.filter_map(
        |r: R|
            if has_choice(choices, r.linked_choice()) && names_response(
                responses_of(responses, r.linked_choice()),
                r.linked_response(),
            ) && last_reward_row(rewards, r.linked_choice(), r.linked_response()) is Some
                && !known(r.linked_record()) {
                Some((r.linked_choice(), r.linked_response(), r.linked_record()))
            } else {
                None
            },
    )
}

/// Which reference of a reward row is checked.
pub enum RewardReference {
    Title,
    QuestPackage,
    SkillLine,
}

pub open spec fn reference_of(row: PlayerChoiceResponseRewardRowLikeCpp, which: RewardReference) -> i32 {
    match which {
        RewardReference::Title => row.title_id,
        RewardReference::QuestPackage => row.package_id,
        RewardReference::SkillLine => row.skill_line_id,
    }
}

/// The (choice, response, reference) triples of the loaded reward rows whose
/// reference names no record.
pub open spec fn invalid_references(
    rows: Seq<PlayerChoiceResponseRewardRowLikeCpp>,
    choices: Seq<PlayerChoiceRowLikeCpp>,
    responses: Seq<PlayerChoiceResponseRowLikeCpp>,
    known: spec_fn(u32) -> bool,
    which: RewardReference,
) -> Seq<(i32, i32, i32)> {
    rows.filter_map(
        |r: PlayerChoiceResponseRewardRowLikeCpp|
            if has_choice(choices, r.choice_id) && names_response(
                responses_of(responses, r.choice_id),
                r.response_id,
            ) && !reference_kept(known, reference_of(r, which)) {
                Some((r.choice_id, r.response_id, reference_of(r, which)))
            } else {
                None
            },
    )
}

/// The load report of the tables: rows seen, rows loaded, every skipped row
/// by the reason it was skipped, and every zeroed reward reference.
pub open spec fn report_built(
    rep: PlayerChoiceLoadReportLikeCpp,
    t: PlayerChoiceRows,
    k: PlayerChoiceChecks,
) -> bool {
    &&& rep.choice_rows_seen == t.choices.len()
    &&& rep.response_rows_seen == t.responses.len()
    &&& rep.reward_rows_seen == t.rewards.len()
    &&& rep.reward_item_rows_seen == t.items.len()
    &&& rep.reward_currency_rows_seen == t.currencies.len()
    &&& rep.reward_faction_rows_seen == t.factions.len()
    &&& rep.reward_item_choice_rows_seen == t.item_choices.len()
    &&& rep.skipped_responses_missing_choice@ == rows_missing_choice(t.responses, t.choices)
    &&& rep.loaded_responses + rep.skipped_responses_missing_choice@.len() == t.responses.len()
    &&& rep.skipped_rewards_missing_choice@ == rows_missing_choice(t.rewards, t.choices)
    &&& rep.skipped_rewards_missing_response@ == rows_missing_response(
        t.rewards,
        t.choices,
        t.responses,
    )
    &&& rep.loaded_rewards + rep.skipped_rewards_missing_choice@.len()
        + rep.skipped_rewards_missing_response@.len() == t.rewards.len()
    &&& rep.invalid_reward_titles@ == invalid_references(
        t.rewards,
        t.choices,
        t.responses,
        k.title,
        RewardReference::Title,
    )
    &&& rep.invalid_reward_packages@ == invalid_references(
        t.rewards,
        t.choices,
        t.responses,
        k.package,
        RewardReference::QuestPackage,
    )
    &&& rep.invalid_reward_skill_lines@ == invalid_references(
        t.rewards,
        t.choices,
        t.responses,
        k.skill_line,
        RewardReference::SkillLine,
    )
    &&& rep.skipped_reward_items_missing_choice@ == rows_missing_choice(t.items, t.choices)
    &&& rep.skipped_reward_items_missing_response@ == rows_missing_response(
        t.items,
        t.choices,
        t.responses,
    )
    &&& rep.skipped_reward_items_missing_reward@ == rows_missing_reward(
        t.items,
        t.choices,
        t.responses,
        t.rewards,
    )
    &&& rep.skipped_reward_items_missing_item@ == rows_missing_record(
        t.items,
        t.choices,
        t.responses,
        t.rewards,
        k.item,
    )
    &&& rep.loaded_reward_items + rep.skipped_reward_items_missing_choice@.len()
        + rep.skipped_reward_items_missing_response@.len()
        + rep.skipped_reward_items_missing_reward@.len()
        + rep.skipped_reward_items_missing_item@.len() == t.items.len()
    &&& rep.skipped_reward_currencies_missing_choice@ == rows_missing_choice(t.currencies, t.choices)
    &&& rep.skipped_reward_currencies_missing_response@ == rows_missing_response(
        t.currencies,
        t.choices,
        t.responses,
    )
    &&& rep.skipped_reward_currencies_missing_reward@ == rows_missing_reward(
        t.currencies,
        t.choices,
        t.responses,
        t.rewards,
    )
    &&& rep.skipped_reward_currencies_missing_currency@ == rows_missing_record(
        t.currencies,
        t.choices,
        t.responses,
        t.rewards,
        k.currency,
    )
    &&& rep.loaded_reward_currencies + rep.skipped_reward_currencies_missing_choice@.len()
        + rep.skipped_reward_currencies_missing_response@.len()
        + rep.skipped_reward_currencies_missing_reward@.len()
        + rep.skipped_reward_currencies_missing_currency@.len() == t.currencies.len()
    &&& rep.skipped_reward_factions_missing_choice@ == rows_missing_choice(t.factions, t.choices)
    &&& rep.skipped_reward_factions_missing_response@ == rows_missing_response(
        t.factions,
        t.choices,
        t.responses,
    )
    &&& rep.skipped_reward_factions_missing_reward@ == rows_missing_reward(
        t.factions,
        t.choices,
        t.responses,
        t.rewards,
    )
    &&& rep.skipped_reward_factions_missing_faction@ == rows_missing_record(
        t.factions,
        t.choices,
        t.responses,
        t.rewards,
        k.faction,
    )
    &&& rep.loaded_reward_factions + rep.skipped_reward_factions_missing_choice@.len()
        + rep.skipped_reward_factions_missing_response@.len()
        + rep.skipped_reward_factions_missing_reward@.len()
        + rep.skipped_reward_factions_missing_faction@.len() == t.factions.len()
    &&& rep.skipped_reward_item_choices_missing_choice@ == rows_missing_choice(
        t.item_choices,
        t.choices,
    )
    &&& rep.skipped_reward_item_choices_missing_response@ == rows_missing_response(
        t.item_choices,
        t.choices,
        t.responses,
    )
    &&& rep.skipped_reward_item_choices_missing_reward@ == rows_missing_reward(
        t.item_choices,
        t.choices,
        t.responses,
        t.rewards,
    )
    &&& rep.skipped_reward_item_choices_missing_item@ == rows_missing_record(
        t.item_choices,
        t.choices,
        t.responses,
        t.rewards,
        k.item,
    )
    &&& rep.loaded_reward_item_choices + rep.skipped_reward_item_choices_missing_choice@.len()
        + rep.skipped_reward_item_choices_missing_response@.len()
        + rep.skipped_reward_item_choices_missing_reward@.len()
        + rep.skipped_reward_item_choices_missing_item@.len() == t.item_choices.len()
    &&& !rep.rewards_pending
    &&& rep.locales_pending
}

/// The store and the report that loading the tables gives.
pub open spec fn loaded_like_cpp(
    out: PlayerChoiceLoadOutcomeLikeCpp,
    t: PlayerChoiceRows,
    k: PlayerChoiceChecks,
) -> bool {
    choices_built(out.store@, t, k) && report_built(out.report, t, k)
}

/// Response `j` is the first of `s` with the response id.
pub open spec fn first_response_with_id(s: Seq<PlayerChoiceResponseLikeCpp>, response_id: i32, j: int) -> bool {
    &&& 0 <= j < s.len()
    &&& s[j].response_id == response_id
    &&& forall|k: int| 0 <= k < j ==> s[k].response_id != response_id
}

/// Response `j` is the first of `s` with the response identifier.
pub open spec fn first_response_with_identifier(
    s: Seq<PlayerChoiceResponseLikeCpp>,
    response_identifier: u16,
    j: int,
) -> bool {
    &&& 0 <= j < s.len()
    &&& s[j].response_identifier == response_identifier
    &&& forall|k: int| 0 <= k < j ==> s[k].response_identifier != response_identifier
}

/// The position of the first response with the response id.
fn find_response(responses: &Vec<PlayerChoiceResponseLikeCpp>, response_id: i32) -> (r: Option<usize>)
    ensures
        r matches Some(j) ==> first_response_with_id(responses@, response_id, j as int),
        r is None ==> forall|k: int| 0 <= k < responses@.len() ==> responses@[k].response_id
            != response_id,
{
    let mut j: usize = 0;
    while j < responses.len()
        invariant
            j <= responses@.len(),
            forall|k: int| 0 <= k < j ==> responses@[k].response_id != response_id,
        decreases responses@.len() - j,
    {
        if responses[j].response_id == response_id {
            return Some(j);
        }
        j = j + 1;
    }
    None
}

impl PlayerChoiceLikeCpp {
    /// The first response with the response id.
    pub fn get_response_like_cpp(&self, response_id: i32) -> (r: Option<&PlayerChoiceResponseLikeCpp>)
        ensures
            r matches Some(x) ==> exists|j: int| #[trigger]
                first_response_with_id(self.responses@, response_id, j) && *x == self.responses@[j],
            r is None ==> forall|k: int| 0 <= k < self.responses@.len()
                ==> self.responses@[k].response_id != response_id,
    {
        match find_response(&self.responses, response_id) {
            Some(j) => Some(&self.responses[j]),
            None => None,
        }
    }

    /// The first response with the response identifier.
    pub fn get_response_by_identifier_like_cpp(&self, response_identifier: u16) -> (r: Option<
        &PlayerChoiceResponseLikeCpp,
    >)
        ensures
            r matches Some(x) ==> exists|j: int| #[trigger]
                first_response_with_identifier(self.responses@, response_identifier, j) && *x
                == self.responses@[j],
            r is None ==> forall|k: int| 0 <= k < self.responses@.len()
                ==> self.responses@[k].response_identifier != response_identifier,
    {
        let mut j: usize = 0;
        while j < self.responses.len()
            invariant
                j <= self.responses@.len(),
                forall|k: int| 0 <= k < j ==> self.responses@[k].response_identifier
                    != response_identifier,
            decreases self.responses@.len() - j,
        {
            if self.responses[j].response_identifier == response_identifier {
                proof {
                    assert(first_response_with_identifier(self.responses@, response_identifier, j as int));
                }
                return Some(&self.responses[j]);
            }
            j = j + 1;
        }
        None
    }
}

/// The player choices, by choice id.
#[derive(Debug, Default, Clone, PartialEq, Eq)]
pub struct PlayerChoiceStoreLikeCpp {
    choices: HashMap<i32, PlayerChoiceLikeCpp>,
}

impl View for PlayerChoiceStoreLikeCpp {
    type V = Map<i32, PlayerChoiceLikeCpp>;

    closed spec fn view(&self) -> Map<i32, PlayerChoiceLikeCpp> {
        self.choices@
    }
}

/// The store built from the tables and the report of the load.
pub struct PlayerChoiceLoadOutcomeLikeCpp {
    pub store: PlayerChoiceStoreLikeCpp,
    pub report: PlayerChoiceLoadReportLikeCpp,
}

/// No rows of any table.
pub open spec fn no_rows() -> PlayerChoiceRows {
    PlayerChoiceRows {
        choices: Seq::empty(),
        responses: Seq::empty(),
        rewards: Seq::empty(),
        items: Seq::empty(),
        currencies: Seq::empty(),
        factions: Seq::empty(),
        item_choices: Seq::empty(),
    }
}

/// A report before any row was read.
fn empty_report() -> (rep: PlayerChoiceLoadReportLikeCpp)
    ensures
        forall|k: PlayerChoiceChecks| report_built(rep, no_rows(), k),
{
    PlayerChoiceLoadReportLikeCpp {
        choice_rows_seen: 0,
        response_rows_seen: 0,
        reward_rows_seen: 0,
        reward_item_rows_seen: 0,
        reward_currency_rows_seen: 0,
        reward_faction_rows_seen: 0,
        reward_item_choice_rows_seen: 0,
        loaded_responses: 0,
        loaded_rewards: 0,
        loaded_reward_items: 0,
        loaded_reward_currencies: 0,
        loaded_reward_factions: 0,
        loaded_reward_item_choices: 0,
        skipped_responses_missing_choice: Vec::new(),
        skipped_rewards_missing_choice: Vec::new(),
        skipped_rewards_missing_response: Vec::new(),
        skipped_reward_items_missing_choice: Vec::new(),
        skipped_reward_items_missing_response: Vec::new(),
        skipped_reward_items_missing_reward: Vec::new(),
        skipped_reward_items_missing_item: Vec::new(),
        skipped_reward_currencies_missing_choice: Vec::new(),
        skipped_reward_currencies_missing_response: Vec::new(),
        skipped_reward_currencies_missing_reward: Vec::new(),
        skipped_reward_currencies_missing_currency: Vec::new(),
        skipped_reward_factions_missing_choice: Vec::new(),
        skipped_reward_factions_missing_response: Vec::new(),
        skipped_reward_factions_missing_reward: Vec::new(),
        skipped_reward_factions_missing_faction: Vec::new(),
        skipped_reward_item_choices_missing_choice: Vec::new(),
        skipped_reward_item_choices_missing_response: Vec::new(),
        skipped_reward_item_choices_missing_reward: Vec::new(),
        skipped_reward_item_choices_missing_item: Vec::new(),
        invalid_reward_titles: Vec::new(),
        invalid_reward_packages: Vec::new(),
        invalid_reward_skill_lines: Vec::new(),
        rewards_pending: false,
        locales_pending: true,
    }
}

/// Reads the choice rows: one choice per choice id, the last row winning,
/// with no responses yet.
fn load_choice_rows(
    rows: Vec<PlayerChoiceRowLikeCpp>,
    report: &mut PlayerChoiceLoadReportLikeCpp,
    Ghost(k): Ghost<PlayerChoiceChecks>,
) -> (chs: HashMap<i32, PlayerChoiceLikeCpp>)
    requires
        report_built(*old(report), no_rows(), k),
    ensures
        choices_built(chs@, PlayerChoiceRows { choices: rows@, ..no_rows() }, k),
        report_built(*final(report), PlayerChoiceRows { choices: rows@, ..no_rows() }, k),
{
    let ghost all = rows@;
    let n = rows.len();
    let mut chs: HashMap<i32, PlayerChoiceLikeCpp> = HashMap::new();
    for row in it: rows
        invariant
            all == it.seq(),
            n == all.len(),
            choices_built(chs@, PlayerChoiceRows { choices: all.take(it.index() as int), ..no_rows() }, k),
            report_built(*report, PlayerChoiceRows { choices: all.take(it.index() as int), ..no_rows() }, k),
    {
        let ghost i = it.index() as int;
        proof {
            assert(all.take(i + 1).drop_last() =~= all.take(i));
        }
        report.choice_rows_seen = report.choice_rows_seen + 1;
        let choice_id = row.choice_id;
        let ch = PlayerChoiceLikeCpp {
            choice_id: row.choice_id,
            ui_texture_kit_id: row.ui_texture_kit_id,
            sound_kit_id: row.sound_kit_id,
            close_sound_kit_id: row.close_sound_kit_id,
            duration: row.duration,
            question: row.question,
            pending_choice_text: row.pending_choice_text,
            responses: Vec::new(),
            hide_warboard_header: row.hide_warboard_header != 0,
            keep_open_after_choice: row.keep_open_after_choice != 0,
        };
        chs.insert(choice_id, ch);
    }
    proof {
        assert(all.take(all.len() as int) =~= all);
    }
    chs
}


/// The tables with the choice rows and the first response rows given.
pub open spec fn after_responses(
    choices: Seq<PlayerChoiceRowLikeCpp>,
    responses: Seq<PlayerChoiceResponseRowLikeCpp>,
) -> PlayerChoiceRows {
    PlayerChoiceRows { choices, responses, ..no_rows() }
}

/// Reads the response rows: each is appended to its choice, or skipped when
/// the choice is missing.
fn load_response_rows(
    chs: &mut HashMap<i32, PlayerChoiceLikeCpp>,
    report: &mut PlayerChoiceLoadReportLikeCpp,
    rows: Vec<PlayerChoiceResponseRowLikeCpp>,
    Ghost(choice_rows): Ghost<Seq<PlayerChoiceRowLikeCpp>>,
    Ghost(k): Ghost<PlayerChoiceChecks>,
)
    requires
        choices_built(old(chs)@, after_responses(choice_rows, Seq::empty()), k),
        report_built(*old(report), after_responses(choice_rows, Seq::empty()), k),
    ensures
        choices_built(final(chs)@, after_responses(choice_rows, rows@), k),
        report_built(*final(report), after_responses(choice_rows, rows@), k),
{
    let ghost all = rows@;
    let n = rows.len();
    proof {
        assert(all.take(0) =~= Seq::<PlayerChoiceResponseRowLikeCpp>::empty());
    }
    for row in it: rows
        invariant
            all == it.seq(),
            n == all.len(),
            choices_built(chs@, after_responses(choice_rows, all.take(it.index() as int)), k),
            report_built(*report, after_responses(choice_rows, all.take(it.index() as int)), k),
    {
        let ghost i = it.index() as int;
        let ghost t0 = after_responses(choice_rows, all.take(i));
        let ghost t1 = after_responses(choice_rows, all.take(i + 1));
        let ghost old_chs = chs@;
        proof {
            assert(all.take(i + 1).drop_last() =~= all.take(i));
            assert(all.take(i + 1).last() == row);
        }
        report.response_rows_seen = report.response_rows_seen + 1;
        let choice_id = row.choice_id;
        match chs.remove(&choice_id) {
            Some(mut ch) => {
                let resp = PlayerChoiceResponseLikeCpp {
                    response_id: row.response_id,
                    response_identifier: row.response_identifier,
                    choice_art_file_id: row.choice_art_file_id,
                    flags: row.flags,
                    widget_set_id: row.widget_set_id,
                    ui_texture_atlas_element_id: row.ui_texture_atlas_element_id,
                    sound_kit_id: row.sound_kit_id,
                    group_id: row.group_id,
                    ui_texture_kit_id: row.ui_texture_kit_id,
                    answer: row.answer,
                    header: row.header,
                    sub_header: row.sub_header,
                    button_tooltip: row.button_tooltip,
                    description: row.description,
                    confirmation: row.confirmation,
                    reward_quest_id: row.reward_quest_id,
                    reward: None,
                };
                let ghost ch0 = ch;
                ch.responses.push(resp);
                chs.insert(choice_id, ch);
                report.loaded_responses = report.loaded_responses + 1;
                proof {
                    assert(has_choice(choice_rows, choice_id));
                    assert(rows_missing_choice(t1.responses, choice_rows) =~= rows_missing_choice(
                        t0.responses,
                        choice_rows,
                    ));
                    assert(responses_of(t1.responses, choice_id) =~= responses_of(
                        t0.responses,
                        choice_id,
                    ).push(row));
                    assert(choice_built(ch, choice_id, t1, k)) by {
                        let rs1 = responses_of(t1.responses, choice_id);
                        assert forall|j: int| #![trigger ch.responses@[j]] 0 <= j
                            < ch.responses@.len() implies response_built(
                            ch.responses@[j],
                            rs1,
                            j,
                            choice_id,
                            t1,
                            k,
                        ) by {
                            if j < ch0.responses@.len() {
                                assert(ch.responses@[j] == ch0.responses@[j]);
                                assert(response_built(
                                    ch0.responses@[j],
                                    responses_of(t0.responses, choice_id),
                                    j,
                                    choice_id,
                                    t0,
                                    k,
                                ));
                            }
                        }
                    }
                    assert forall|c: i32| #[trigger] chs@.contains_key(c) implies choice_built(
                        chs@[c],
                        c,
                        t1,
                        k,
                    ) by {
                        if c != choice_id {
                            assert(responses_of(t1.responses, c) =~= responses_of(t0.responses, c));
                            assert(old_chs.contains_key(c));
                            assert(choice_built(old_chs[c], c, t0, k));
                        }
                    }
                }
            },
            None => {
                report.skipped_responses_missing_choice.push((row.choice_id, row.response_id));
                proof {
                    assert(!has_choice(choice_rows, choice_id));
                    assert(rows_missing_choice(t1.responses, choice_rows) =~= rows_missing_choice(
                        t0.responses,
                        choice_rows,
                    ).push((row.choice_id, row.response_id)));
                    assert forall|c: i32| #[trigger] chs@.contains_key(c) implies choice_built(
                        chs@[c],
                        c,
                        t1,
                        k,
                    ) by {
                        assert(responses_of(t1.responses, c) =~= responses_of(t0.responses, c));
                        assert(choice_built(old_chs[c], c, t0, k));
                    }
                }
            },
        }
    }
    proof {
        assert(all.take(all.len() as int) =~= all);
    }
}


/// The tables with the choice and response rows and the first reward rows
/// given.
pub open spec fn after_rewards(
    choices: Seq<PlayerChoiceRowLikeCpp>,
    responses: Seq<PlayerChoiceResponseRowLikeCpp>,
    rewards: Seq<PlayerChoiceResponseRewardRowLikeCpp>,
) -> PlayerChoiceRows {
    PlayerChoiceRows { choices, responses, rewards, ..no_rows() }
}

/// Whether a reward reference is kept: zero, or the id of an existing
/// record.
fn reference_exists<F: Fn(u32) -> bool>(id: i32, known: &F) -> (b: bool)
    requires
        is_predicate(*known),
    ensures
        b == reference_kept(|x: u32| holds(*known, x), id),
{
    if id == 0 {
        true
    } else if id < 0 {
        false
    } else {
        let r = known(id as u32);
        proof {
            lemma_predicate_answer(*known, id as u32, r);
        }
        r
    }
}

/// The responses of a loaded choice carry the response ids of the choice's
/// response rows.
proof fn lemma_response_ids(
    ch: PlayerChoiceLikeCpp,
    choice_id: i32,
    t: PlayerChoiceRows,
    k: PlayerChoiceChecks,
)
    requires
        choice_built(ch, choice_id, t, k),
    ensures
        forall|j: int| 0 <= j < ch.responses@.len() ==> #[trigger] ch.responses@[j].response_id
            == responses_of(t.responses, choice_id)[j].response_id,
{
    assert forall|j: int| 0 <= j < ch.responses@.len() implies #[trigger] ch.responses@[j].response_id
        == responses_of(t.responses, choice_id)[j].response_id by {
        assert(response_built(ch.responses@[j], responses_of(t.responses, choice_id), j, choice_id, t, k));
    }
}

/// Reads the reward rows: each row whose response is found gives that
/// response its reward (a later row replacing an earlier one), with
/// references to missing titles, quest packages and skill lines zeroed.
fn load_reward_rows<T: Fn(u32) -> bool, P: Fn(u32) -> bool, S: Fn(u32) -> bool>(
    chs: &mut HashMap<i32, PlayerChoiceLikeCpp>,
    report: &mut PlayerChoiceLoadReportLikeCpp,
    rows: Vec<PlayerChoiceResponseRewardRowLikeCpp>,
    title_exists: &T,
    quest_package_exists: &P,
    skill_line_exists: &S,
    Ghost(choice_rows): Ghost<Seq<PlayerChoiceRowLikeCpp>>,
    Ghost(response_rows): Ghost<Seq<PlayerChoiceResponseRowLikeCpp>>,
    Ghost(k): Ghost<PlayerChoiceChecks>,
)
    requires
        is_predicate(*title_exists),
        is_predicate(*quest_package_exists),
        is_predicate(*skill_line_exists),
        k.title == (|x: u32| holds(*title_exists, x)),
        k.package == (|x: u32| holds(*quest_package_exists, x)),
        k.skill_line == (|x: u32| holds(*skill_line_exists, x)),
        choices_built(old(chs)@, after_rewards(choice_rows, response_rows, Seq::empty()), k),
        report_built(*old(report), after_rewards(choice_rows, response_rows, Seq::empty()), k),
    ensures
        choices_built(final(chs)@, after_rewards(choice_rows, response_rows, rows@), k),
        report_built(*final(report), after_rewards(choice_rows, response_rows, rows@), k),
{
    let ghost all = rows@;
    let n = rows.len();
    proof {
        assert(all.take(0) =~= Seq::<PlayerChoiceResponseRewardRowLikeCpp>::empty());
    }
    for row in it: rows
        invariant
            all == it.seq(),
            n == all.len(),
            is_predicate(*title_exists),
            is_predicate(*quest_package_exists),
            is_predicate(*skill_line_exists),
            k.title == (|x: u32| holds(*title_exists, x)),
            k.package == (|x: u32| holds(*quest_package_exists, x)),
            k.skill_line == (|x: u32| holds(*skill_line_exists, x)),
            choices_built(chs@, after_rewards(choice_rows, response_rows, all.take(it.index() as int)), k),
            report_built(*report, after_rewards(choice_rows, response_rows, all.take(it.index() as int)), k),
    {
        let ghost i = it.index() as int;
        let ghost t0 = after_rewards(choice_rows, response_rows, all.take(i));
        let ghost t1 = after_rewards(choice_rows, response_rows, all.take(i + 1));
        let ghost old_chs = chs@;
        proof {
            assert(all.take(i + 1).drop_last() =~= all.take(i));
            assert(all.take(i + 1).last() == row);
        }
        report.reward_rows_seen = report.reward_rows_seen + 1;
        let choice_id = row.choice_id;
        let response_id = row.response_id;
        match chs.remove(&choice_id) {
            None => {
                report.skipped_rewards_missing_choice.push((choice_id, response_id));
                proof {
                    assert(!has_choice(choice_rows, choice_id));
                    assert(invalid_references(t1.rewards, choice_rows, response_rows, k.title, RewardReference::Title)
                        =~= invalid_references(t0.rewards, choice_rows, response_rows, k.title, RewardReference::Title));
                    assert(invalid_references(t1.rewards, choice_rows, response_rows, k.package, RewardReference::QuestPackage)
                        =~= invalid_references(t0.rewards, choice_rows, response_rows, k.package, RewardReference::QuestPackage));
                    assert(invalid_references(t1.rewards, choice_rows, response_rows, k.skill_line, RewardReference::SkillLine)
                        =~= invalid_references(t0.rewards, choice_rows, response_rows, k.skill_line, RewardReference::SkillLine));
                    assert(rows_missing_choice(t1.rewards, choice_rows) =~= rows_missing_choice(
                        t0.rewards,
                        choice_rows,
                    ).push((choice_id, response_id)));
                    assert(rows_missing_response(t1.rewards, choice_rows, response_rows)
                        =~= rows_missing_response(t0.rewards, choice_rows, response_rows));
                    assert forall|c: i32| #[trigger] chs@.contains_key(c) implies choice_built(
                        chs@[c],
                        c,
                        t1,
                        k,
                    ) by {
                        let ch = old_chs[c];
                        assert(choice_built(ch, c, t0, k));
                        assert forall|j: int| #![trigger ch.responses@[j]] 0 <= j
                            < ch.responses@.len() implies response_built(
                            ch.responses@[j],
                            responses_of(t1.responses, c),
                            j,
                            c,
                            t1,
                            k,
                        ) by {
                            assert(response_built(ch.responses@[j], responses_of(t0.responses, c), j, c, t0, k));
                        }
                    }
                }
            },
            Some(ch) => {
                let ghost ch0 = ch;
                proof {
                    assert(old_chs.contains_key(choice_id));
                    assert(choice_built(ch0, choice_id, t0, k));
                    lemma_response_ids(ch0, choice_id, t0, k);
                }
                let mut ch = ch;
                match find_response(&ch.responses, response_id) {
                    None => {
                        report.skipped_rewards_missing_response.push((choice_id, response_id));
                        chs.insert(choice_id, ch);
                        proof {
                            let rs = responses_of(response_rows, choice_id);
                            assert(!names_response(rs, response_id)) by {
                                assert forall|j: int| 0 <= j < rs.len() implies #[trigger] rs[j].response_id
                                    != response_id by {
                                    assert(ch0.responses@[j].response_id == rs[j].response_id);
                                }
                            }
                            assert(invalid_references(t1.rewards, choice_rows, response_rows, k.title, RewardReference::Title)
                                =~= invalid_references(t0.rewards, choice_rows, response_rows, k.title, RewardReference::Title));
                            assert(invalid_references(t1.rewards, choice_rows, response_rows, k.package, RewardReference::QuestPackage)
                                =~= invalid_references(t0.rewards, choice_rows, response_rows, k.package, RewardReference::QuestPackage));
                            assert(invalid_references(t1.rewards, choice_rows, response_rows, k.skill_line, RewardReference::SkillLine)
                                =~= invalid_references(t0.rewards, choice_rows, response_rows, k.skill_line, RewardReference::SkillLine));
                            assert(rows_missing_choice(t1.rewards, choice_rows) =~= rows_missing_choice(
                                t0.rewards,
                                choice_rows,
                            ));
                            assert(rows_missing_response(t1.rewards, choice_rows, response_rows)
                                =~= rows_missing_response(t0.rewards, choice_rows, response_rows).push(
                                (choice_id, response_id),
                            ));
                            assert forall|c: i32| #[trigger] chs@.contains_key(c) implies choice_built(
                                chs@[c],
                                c,
                                t1,
                                k,
                            ) by {
                                let chc = old_chs[c];
                                assert(choice_built(chc, c, t0, k));
                                assert forall|j: int| #![trigger chc.responses@[j]] 0 <= j
                                    < chc.responses@.len() implies response_built(
                                    chc.responses@[j],
                                    responses_of(t1.responses, c),
                                    j,
                                    c,
                                    t1,
                                    k,
                                ) by {
                                    assert(response_built(
                                        chc.responses@[j],
                                        responses_of(t0.responses, c),
                                        j,
                                        c,
                                        t0,
                                        k,
                                    ));
                                }
                            }
                        }
                    },
                    Some(j) => {
                        report.loaded_rewards = report.loaded_rewards + 1;
                        let title_ok = reference_exists(row.title_id, title_exists);
                        let package_ok = reference_exists(row.package_id, quest_package_exists);
                        let skill_ok = reference_exists(row.skill_line_id, skill_line_exists);
                        if !title_ok {
                            report.invalid_reward_titles.push((choice_id, response_id, row.title_id));
                        }
                        if !package_ok {
                            report.invalid_reward_packages.push((choice_id, response_id, row.package_id));
                        }
                        if !skill_ok {
                            report.invalid_reward_skill_lines.push(
                                (choice_id, response_id, row.skill_line_id),
                            );
                        }
                        let reward = PlayerChoiceResponseRewardLikeCpp {
                            title_id: if title_ok {
                                row.title_id
                            } else {
                                0
                            },
                            package_id: if package_ok {
                                row.package_id
                            } else {
                                0
                            },
                            skill_line_id: if skill_ok {
                                row.skill_line_id
                            } else {
                                0
                            },
                            skill_point_count: if skill_ok {
                                row.skill_point_count
                            } else {
                                0
                            },
                            arena_point_count: row.arena_point_count,
                            honor_point_count: row.honor_point_count,
                            money: row.money,
                            xp: row.xp,
                            items: Vec::new(),
                            currency: Vec::new(),
                            faction: Vec::new(),
                            item_choices: Vec::new(),
                        };
                        let mut resp = ch.responses.remove(j);
                        resp.reward = Some(reward);
                        ch.responses.insert(j, resp);
                        chs.insert(choice_id, ch);
                        proof {
                            let rs = responses_of(response_rows, choice_id);
                            assert(ch.responses@ =~= ch0.responses@.update(j as int, resp));
                            assert(rs[j as int].response_id == response_id);
                            assert(names_response(rs, response_id));
                            assert(has_choice(choice_rows, choice_id));
                            assert forall|k2: int| 0 <= k2 < j implies rs[k2].response_id
                                != rs[j as int].response_id by {
                                assert(ch0.responses@[k2].response_id == rs[k2].response_id);
                            }
                            assert(first_of_its_id(rs, j as int));
                            assert(invalid_references(t1.rewards, choice_rows, response_rows, k.title, RewardReference::Title)
                                =~= if title_ok {
                                    invalid_references(t0.rewards, choice_rows, response_rows, k.title, RewardReference::Title)
                                } else {
                                    invalid_references(t0.rewards, choice_rows, response_rows, k.title, RewardReference::Title).push(
                                        (choice_id, response_id, row.title_id),
                                    )
                                });
                            assert(invalid_references(t1.rewards, choice_rows, response_rows, k.package, RewardReference::QuestPackage)
                                =~= if package_ok {
                                    invalid_references(t0.rewards, choice_rows, response_rows, k.package, RewardReference::QuestPackage)
                                } else {
                                    invalid_references(t0.rewards, choice_rows, response_rows, k.package, RewardReference::QuestPackage).push(
                                        (choice_id, response_id, row.package_id),
                                    )
                                });
                            assert(invalid_references(t1.rewards, choice_rows, response_rows, k.skill_line, RewardReference::SkillLine)
                                =~= if skill_ok {
                                    invalid_references(t0.rewards, choice_rows, response_rows, k.skill_line, RewardReference::SkillLine)
                                } else {
                                    invalid_references(t0.rewards, choice_rows, response_rows, k.skill_line, RewardReference::SkillLine).push(
                                        (choice_id, response_id, row.skill_line_id),
                                    )
                                });
                            assert(rows_missing_choice(t1.rewards, choice_rows) =~= rows_missing_choice(
                                t0.rewards,
                                choice_rows,
                            ));
                            assert(rows_missing_response(t1.rewards, choice_rows, response_rows)
                                =~= rows_missing_response(t0.rewards, choice_rows, response_rows));
                            assert(response_built(ch.responses@[j as int], rs, j as int, choice_id, t1, k)) by {
                                assert(response_built(ch0.responses@[j as int], rs, j as int, choice_id, t0, k));
                                assert(item_rows_for(t1.items, choice_id, response_id, k.item) =~= Seq::empty());
                                assert(item_rows_for(t1.item_choices, choice_id, response_id, k.item) =~= Seq::empty());
                                assert(currency_entries(t1.currencies, choice_id, response_id, k.currency) =~= Seq::empty());
                                assert(faction_entries(t1.factions, choice_id, response_id, k.faction) =~= Seq::empty());
                            }
                            assert forall|c: i32| #[trigger] chs@.contains_key(c) implies choice_built(
                                chs@[c],
                                c,
                                t1,
                                k,
                            ) by {
                                let chc = old_chs[c];
                                assert(choice_built(chc, c, t0, k));
                                assert forall|j2: int| #![trigger chs@[c].responses@[j2]] 0 <= j2
                                    < chs@[c].responses@.len() implies response_built(
                                    chs@[c].responses@[j2],
                                    responses_of(t1.responses, c),
                                    j2,
                                    c,
                                    t1,
                                    k,
                                ) by {
                                    if c != choice_id || j2 != j {
                                        assert(chs@[c].responses@[j2] == chc.responses@[j2]);
                                        assert(response_built(
                                            chc.responses@[j2],
                                            responses_of(t0.responses, c),
                                            j2,
                                            c,
                                            t0,
                                            k,
                                        ));
                                        if c == choice_id && rs[j2].response_id == response_id {
                                            assert(j2 > j);
                                            assert(!first_of_its_id(rs, j2));
                                        }
                                    }
                                }
                            }
                        }
                    },
                }
            },
        }
    }
    proof {
        assert(all.take(all.len() as int) =~= all);
    }
}


/// Reads the reward item rows: each row whose reward is found and whose item
/// exists adds to that reward's items, in row order.
fn load_reward_item_rows<I: Fn(u32) -> bool>(
    chs: &mut HashMap<i32, PlayerChoiceLikeCpp>,
    report: &mut PlayerChoiceLoadReportLikeCpp,
    rows: Vec<PlayerChoiceResponseRewardItemRowLikeCpp>,
    known: &I,
    Ghost(t): Ghost<PlayerChoiceRows>,
    Ghost(k): Ghost<PlayerChoiceChecks>,
)
    requires
        is_predicate(*known),
        k.item == (|x: u32| holds(*known, x)),
        t.items.len() == 0,
        t.currencies.len() == 0,
        t.factions.len() == 0,
        t.item_choices.len() == 0,
        choices_built(old(chs)@, t, k),
        report_built(*old(report), t, k),
    ensures
        choices_built(final(chs)@, PlayerChoiceRows { items: rows@, ..t }, k),
        report_built(*final(report), PlayerChoiceRows { items: rows@, ..t }, k),
{
    let ghost all = rows@;
    let n = rows.len();
    proof {
        assert(all.take(0) =~= t.items);
    }
    for row in it: rows
        invariant
            all == it.seq(),
            n == all.len(),
            is_predicate(*known),
            k.item == (|x: u32| holds(*known, x)),
            t.currencies.len() == 0,
        t.factions.len() == 0,
        t.item_choices.len() == 0,
            choices_built(chs@, PlayerChoiceRows { items: all.take(it.index() as int), ..t }, k),
            report_built(*report, PlayerChoiceRows { items: all.take(it.index() as int), ..t }, k),
    {
        let ghost i = it.index() as int;
        let ghost t0 = PlayerChoiceRows { items: all.take(i), ..t };
        let ghost t1 = PlayerChoiceRows { items: all.take(i + 1), ..t };
        let ghost old_chs = chs@;
        proof {
            assert(all.take(i + 1).drop_last() =~= all.take(i));
            assert(all.take(i + 1).last() == row);
            assert(all.take(i + 1) =~= all.take(i).push(row));
        }
        report.reward_item_rows_seen = report.reward_item_rows_seen + 1;
        let choice_id = row.choice_id;
        let response_id = row.response_id;
        let record_id = row.item_id;
        match chs.remove(&choice_id) {
            None => {
                report.skipped_reward_items_missing_choice.push((choice_id, response_id));
                proof {
                    assert(!has_choice(t.choices, choice_id));
                    assert(rows_missing_choice(t1.items, t.choices) =~= rows_missing_choice(t0.items, t.choices).push((choice_id, response_id)));
                    assert(rows_missing_response(t1.items, t.choices, t.responses) =~= rows_missing_response(t0.items, t.choices, t.responses));
                    assert(rows_missing_reward(t1.items, t.choices, t.responses, t.rewards) =~= rows_missing_reward(t0.items, t.choices, t.responses, t.rewards));
                    assert(rows_missing_record(t1.items, t.choices, t.responses, t.rewards, k.item) =~= rows_missing_record(t0.items, t.choices, t.responses, t.rewards, k.item));
                    lemma_load_reward_item_rows(old_chs, t0, t1, k, row);
                }
            },
            Some(ch) => {
                let ghost ch0 = ch;
                proof {
                    assert(old_chs.contains_key(choice_id));
                    assert(choice_built(ch0, choice_id, t0, k));
                    lemma_response_ids(ch0, choice_id, t0, k);
                }
                let mut ch = ch;
                match find_response(&ch.responses, response_id) {
                    None => {
                        report.skipped_reward_items_missing_response.push((choice_id, response_id));
                        chs.insert(choice_id, ch);
                        proof {
                            let rs = responses_of(t.responses, choice_id);
                            assert(!names_response(rs, response_id)) by {
                                assert forall|j: int| 0 <= j < rs.len() implies #[trigger] rs[j].response_id
                                    != response_id by {
                                    assert(ch0.responses@[j].response_id == rs[j].response_id);
                                }
                            }
                            assert(rows_missing_choice(t1.items, t.choices) =~= rows_missing_choice(t0.items, t.choices));
                            assert(rows_missing_response(t1.items, t.choices, t.responses) =~= rows_missing_response(t0.items, t.choices, t.responses).push((choice_id, response_id)));
                            assert(rows_missing_reward(t1.items, t.choices, t.responses, t.rewards) =~= rows_missing_reward(t0.items, t.choices, t.responses, t.rewards));
                            assert(rows_missing_record(t1.items, t.choices, t.responses, t.rewards, k.item) =~= rows_missing_record(t0.items, t.choices, t.responses, t.rewards, k.item));
                            lemma_load_reward_item_rows(old_chs, t0, t1, k, row);
                        }
                    },
                    Some(j) => {
                        let ghost rs = responses_of(t.responses, choice_id);
                        proof {
                            assert forall|k2: int| 0 <= k2 < j implies rs[k2].response_id
                                != rs[j as int].response_id by {
                                assert(ch0.responses@[k2].response_id == rs[k2].response_id);
                            }
                            assert(first_of_its_id(rs, j as int));
                            assert(names_response(rs, response_id));
                            assert(response_built(ch0.responses@[j as int], rs, j as int, choice_id, t0, k));
                        }
                        let mut resp = ch.responses.remove(j);
                        let ghost resp0 = resp;
                        match resp.reward.take() {
                            None => {
                                report.skipped_reward_items_missing_reward.push((choice_id, response_id));
                                ch.responses.insert(j, resp);
                                chs.insert(choice_id, ch);
                                proof {
                                    assert(resp == resp0);
                                    assert(ch.responses@ =~= ch0.responses@);
                                    assert(last_reward_row(t.rewards, choice_id, response_id) is None);
                                    assert(rows_missing_choice(t1.items, t.choices) =~= rows_missing_choice(t0.items, t.choices));
                                    assert(rows_missing_response(t1.items, t.choices, t.responses) =~= rows_missing_response(t0.items, t.choices, t.responses));
                                    assert(rows_missing_reward(t1.items, t.choices, t.responses, t.rewards) =~= rows_missing_reward(t0.items, t.choices, t.responses, t.rewards).push((choice_id, response_id)));
                                    assert(rows_missing_record(t1.items, t.choices, t.responses, t.rewards, k.item) =~= rows_missing_record(t0.items, t.choices, t.responses, t.rewards, k.item));
                                    lemma_load_reward_item_rows(old_chs, t0, t1, k, row);
                                }
                            },
                            Some(rw) => {
                                let ghost rw0 = rw;
                                let mut rw = rw;
                                let found = known(record_id);
                                proof {
                                    lemma_predicate_answer(*known, record_id, found);
                                    assert(last_reward_row(t.rewards, choice_id, response_id) is Some);
                                }
                                if found {
                                    let part = PlayerChoiceResponseRewardItemLikeCpp {
                                        id: row.item_id,
                                        bonus_list_ids: parse_bonus_list_ids_like_cpp(&row.bonus_list_ids_raw),
                                        quantity: row.quantity,
                                    };
                                    rw.items.push(part);
                                    report.loaded_reward_items = report.loaded_reward_items + 1;
                                } else {
                                    report.skipped_reward_items_missing_item.push((choice_id, response_id, record_id));
                                }
                                resp.reward = Some(rw);
                                ch.responses.insert(j, resp);
                                chs.insert(choice_id, ch);
                                proof {
                                    assert(rows_missing_choice(t1.items, t.choices) =~= rows_missing_choice(t0.items, t.choices));
                                    assert(rows_missing_response(t1.items, t.choices, t.responses) =~= rows_missing_response(t0.items, t.choices, t.responses));
                                    assert(rows_missing_reward(t1.items, t.choices, t.responses, t.rewards) =~= rows_missing_reward(t0.items, t.choices, t.responses, t.rewards));
                                    assert(rows_missing_record(t1.items, t.choices, t.responses, t.rewards, k.item) =~= if found { rows_missing_record(t0.items, t.choices, t.responses, t.rewards, k.item) } else { rows_missing_record(t0.items, t.choices, t.responses, t.rewards, k.item).push((choice_id, response_id, record_id)) });
                                    assert(ch.responses@ =~= ch0.responses@.update(j as int, resp));
                                    assert(response_built(resp, rs, j as int, choice_id, t1, k)) by {
                                        let old_rows = item_rows_for(t0.items, choice_id, response_id, k.item);
                                        let new_rows = item_rows_for(t1.items, choice_id, response_id, k.item);
                                        assert(new_rows =~= if found { old_rows.push(row) } else { old_rows });
                                        assert(items_from_rows(rw0.items@, old_rows));
                                        lemma_load_reward_item_rows_same(t0, t1, k, choice_id, response_id, row);
                                    }
                                    assert forall|c: i32| #[trigger] chs@.contains_key(c) implies choice_built(
                                        chs@[c],
                                        c,
                                        t1,
                                        k,
                                    ) by {
                                        let chc = old_chs[c];
                                        assert(choice_built(chc, c, t0, k));
                                        assert forall|j2: int| #![trigger chs@[c].responses@[j2]] 0 <= j2
                                            < chs@[c].responses@.len() implies response_built(
                                            chs@[c].responses@[j2],
                                            responses_of(t1.responses, c),
                                            j2,
                                            c,
                                            t1,
                                            k,
                                        ) by {
                                            if c != choice_id || j2 != j {
                                                assert(chs@[c].responses@[j2] == chc.responses@[j2]);
                                                assert(response_built(
                                                    chc.responses@[j2],
                                                    responses_of(t0.responses, c),
                                                    j2,
                                                    c,
                                                    t0,
                                                    k,
                                                ));
                                                if c == choice_id && rs[j2].response_id == response_id {
                                                    assert(j2 > j);
                                                    assert(!first_of_its_id(rs, j2));
                                                }
                                                if !(c == choice_id && responses_of(t0.responses, c)[j2].response_id == response_id) {
                                                    lemma_load_reward_item_rows_other(t0, t1, k, c, responses_of(t0.responses, c)[j2].response_id, row);
                                                }
                                            }
                                        }
                                    }
                                }
                            },
                        }
                    },
                }
            },
        }
    }
    proof {
        assert(all.take(all.len() as int) =~= all);
    }
}

proof fn lemma_load_reward_item_rows_other(
    t0: PlayerChoiceRows,
    t1: PlayerChoiceRows,
    k: PlayerChoiceChecks,
    c: i32,
    rid: i32,
    row: PlayerChoiceResponseRewardItemRowLikeCpp,
)
    requires
        t1 == (PlayerChoiceRows { items: t0.items.push(row), ..t0 }),
        !(c == row.choice_id && rid == row.response_id),
    ensures
        last_reward_row(t1.rewards, c, rid) == last_reward_row(t0.rewards, c, rid),
        item_rows_for(t1.items, c, rid, k.item) == item_rows_for(t0.items, c, rid, k.item),
        item_rows_for(t1.item_choices, c, rid, k.item) == item_rows_for(t0.item_choices, c, rid, k.item),
        currency_entries(t1.currencies, c, rid, k.currency) == currency_entries(t0.currencies, c, rid, k.currency),
        faction_entries(t1.factions, c, rid, k.faction) == faction_entries(t0.factions, c, rid, k.faction),
{
    assert(t1.items.drop_last() =~= t0.items);
}

proof fn lemma_load_reward_item_rows_same(
    t0: PlayerChoiceRows,
    t1: PlayerChoiceRows,
    k: PlayerChoiceChecks,
    c: i32,
    rid: i32,
    row: PlayerChoiceResponseRewardItemRowLikeCpp,
)
    requires
        t1 == (PlayerChoiceRows { items: t0.items.push(row), ..t0 }),
    ensures
        last_reward_row(t1.rewards, c, rid) == last_reward_row(t0.rewards, c, rid),
        item_rows_for(t1.item_choices, c, rid, k.item) == item_rows_for(t0.item_choices, c, rid, k.item),
        currency_entries(t1.currencies, c, rid, k.currency) == currency_entries(t0.currencies, c, rid, k.currency),
        faction_entries(t1.factions, c, rid, k.faction) == faction_entries(t0.factions, c, rid, k.faction),
{
    assert(t1.items.drop_last() =~= t0.items);
}

/// A reward item row that reaches no reward leaves every loaded choice as it
/// was.
proof fn lemma_load_reward_item_rows(
    chs: Map<i32, PlayerChoiceLikeCpp>,
    t0: PlayerChoiceRows,
    t1: PlayerChoiceRows,
    k: PlayerChoiceChecks,
    row: PlayerChoiceResponseRewardItemRowLikeCpp,
)
    requires
        choices_built(chs, t0, k),
        t1 == (PlayerChoiceRows { items: t0.items.push(row), ..t0 }),
        !(has_choice(t0.choices, row.choice_id) && names_response(
            responses_of(t0.responses, row.choice_id),
            row.response_id,
        ) && last_reward_row(t0.rewards, row.choice_id, row.response_id) is Some),
    ensures
        choices_built(chs, t1, k),
{
    assert forall|c: i32| #[trigger] chs.contains_key(c) implies choice_built(chs[c], c, t1, k) by {
        let chc = chs[c];
        assert(choice_built(chc, c, t0, k));
        assert forall|j: int| #![trigger chc.responses@[j]] 0 <= j < chc.responses@.len() implies response_built(
            chc.responses@[j],
            responses_of(t1.responses, c),
            j,
            c,
            t1,
            k,
        ) by {
            let rs = responses_of(t0.responses, c);
            assert(response_built(chc.responses@[j], rs, j, c, t0, k));
            if c == row.choice_id && rs[j].response_id == row.response_id {
                if first_of_its_id(rs, j) && last_reward_row(t0.rewards, c, row.response_id) is Some {
                    assert(names_response(rs, row.response_id));
                }
            } else {
                lemma_load_reward_item_rows_other(t0, t1, k, c, rs[j].response_id, row);
            }
        }
    }
}



/// Reads the reward currency rows: each row whose reward is found and whose currency
/// exists adds to that reward's currencies, in row order.
fn load_reward_currency_rows<C: Fn(u32) -> bool>(
    chs: &mut HashMap<i32, PlayerChoiceLikeCpp>,
    report: &mut PlayerChoiceLoadReportLikeCpp,
    rows: Vec<PlayerChoiceResponseRewardCurrencyRowLikeCpp>,
    known: &C,
    Ghost(t): Ghost<PlayerChoiceRows>,
    Ghost(k): Ghost<PlayerChoiceChecks>,
)
    requires
        is_predicate(*known),
        k.currency == (|x: u32| holds(*known, x)),
        t.currencies.len() == 0,
        t.factions.len() == 0,
        t.item_choices.len() == 0,
        choices_built(old(chs)@, t, k),
        report_built(*old(report), t, k),
    ensures
        choices_built(final(chs)@, PlayerChoiceRows { currencies: rows@, ..t }, k),
        report_built(*final(report), PlayerChoiceRows { currencies: rows@, ..t }, k),
{
    let ghost all = rows@;
    let n = rows.len();
    proof {
        assert(all.take(0) =~= t.currencies);
    }
    for row in it: rows
        invariant
            all == it.seq(),
            n == all.len(),
            is_predicate(*known),
            k.currency == (|x: u32| holds(*known, x)),
            t.factions.len() == 0,
        t.item_choices.len() == 0,
            choices_built(chs@, PlayerChoiceRows { currencies: all.take(it.index() as int), ..t }, k),
            report_built(*report, PlayerChoiceRows { currencies: all.take(it.index() as int), ..t }, k),
    {
        let ghost i = it.index() as int;
        let ghost t0 = PlayerChoiceRows { currencies: all.take(i), ..t };
        let ghost t1 = PlayerChoiceRows { currencies: all.take(i + 1), ..t };
        let ghost old_chs = chs@;
        proof {
            assert(all.take(i + 1).drop_last() =~= all.take(i));
            assert(all.take(i + 1).last() == row);
            assert(all.take(i + 1) =~= all.take(i).push(row));
        }
        report.reward_currency_rows_seen = report.reward_currency_rows_seen + 1;
        let choice_id = row.choice_id;
        let response_id = row.response_id;
        let record_id = row.currency_id;
        match chs.remove(&choice_id) {
            None => {
                report.skipped_reward_currencies_missing_choice.push((choice_id, response_id));
                proof {
                    assert(!has_choice(t.choices, choice_id));
                    assert(rows_missing_choice(t1.currencies, t.choices) =~= rows_missing_choice(t0.currencies, t.choices).push((choice_id, response_id)));
                    assert(rows_missing_response(t1.currencies, t.choices, t.responses) =~= rows_missing_response(t0.currencies, t.choices, t.responses));
                    assert(rows_missing_reward(t1.currencies, t.choices, t.responses, t.rewards) =~= rows_missing_reward(t0.currencies, t.choices, t.responses, t.rewards));
                    assert(rows_missing_record(t1.currencies, t.choices, t.responses, t.rewards, k.currency) =~= rows_missing_record(t0.currencies, t.choices, t.responses, t.rewards, k.currency));
                    lemma_load_reward_currency_rows(old_chs, t0, t1, k, row);
                }
            },
            Some(ch) => {
                let ghost ch0 = ch;
                proof {
                    assert(old_chs.contains_key(choice_id));
                    assert(choice_built(ch0, choice_id, t0, k));
                    lemma_response_ids(ch0, choice_id, t0, k);
                }
                let mut ch = ch;
                match find_response(&ch.responses, response_id) {
                    None => {
                        report.skipped_reward_currencies_missing_response.push((choice_id, response_id));
                        chs.insert(choice_id, ch);
                        proof {
                            let rs = responses_of(t.responses, choice_id);
                            assert(!names_response(rs, response_id)) by {
                                assert forall|j: int| 0 <= j < rs.len() implies #[trigger] rs[j].response_id
                                    != response_id by {
                                    assert(ch0.responses@[j].response_id == rs[j].response_id);
                                }
                            }
                            assert(rows_missing_choice(t1.currencies, t.choices) =~= rows_missing_choice(t0.currencies, t.choices));
                            assert(rows_missing_response(t1.currencies, t.choices, t.responses) =~= rows_missing_response(t0.currencies, t.choices, t.responses).push((choice_id, response_id)));
                            assert(rows_missing_reward(t1.currencies, t.choices, t.responses, t.rewards) =~= rows_missing_reward(t0.currencies, t.choices, t.responses, t.rewards));
                            assert(rows_missing_record(t1.currencies, t.choices, t.responses, t.rewards, k.currency) =~= rows_missing_record(t0.currencies, t.choices, t.responses, t.rewards, k.currency));
                            lemma_load_reward_currency_rows(old_chs, t0, t1, k, row);
                        }
                    },
                    Some(j) => {
                        let ghost rs = responses_of(t.responses, choice_id);
                        proof {
                            assert forall|k2: int| 0 <= k2 < j implies rs[k2].response_id
                                != rs[j as int].response_id by {
                                assert(ch0.responses@[k2].response_id == rs[k2].response_id);
                            }
                            assert(first_of_its_id(rs, j as int));
                            assert(names_response(rs, response_id));
                            assert(response_built(ch0.responses@[j as int], rs, j as int, choice_id, t0, k));
                        }
                        let mut resp = ch.responses.remove(j);
                        let ghost resp0 = resp;
                        match resp.reward.take() {
                            None => {
                                report.skipped_reward_currencies_missing_reward.push((choice_id, response_id));
                                ch.responses.insert(j, resp);
                                chs.insert(choice_id, ch);
                                proof {
                                    assert(resp == resp0);
                                    assert(ch.responses@ =~= ch0.responses@);
                                    assert(last_reward_row(t.rewards, choice_id, response_id) is None);
                                    assert(rows_missing_choice(t1.currencies, t.choices) =~= rows_missing_choice(t0.currencies, t.choices));
                                    assert(rows_missing_response(t1.currencies, t.choices, t.responses) =~= rows_missing_response(t0.currencies, t.choices, t.responses));
                                    assert(rows_missing_reward(t1.currencies, t.choices, t.responses, t.rewards) =~= rows_missing_reward(t0.currencies, t.choices, t.responses, t.rewards).push((choice_id, response_id)));
                                    assert(rows_missing_record(t1.currencies, t.choices, t.responses, t.rewards, k.currency) =~= rows_missing_record(t0.currencies, t.choices, t.responses, t.rewards, k.currency));
                                    lemma_load_reward_currency_rows(old_chs, t0, t1, k, row);
                                }
                            },
                            Some(rw) => {
                                let ghost rw0 = rw;
                                let mut rw = rw;
                                let found = known(record_id);
                                proof {
                                    lemma_predicate_answer(*known, record_id, found);
                                    assert(last_reward_row(t.rewards, choice_id, response_id) is Some);
                                }
                                if found {
                                    rw.currency.push(PlayerChoiceResponseRewardEntryLikeCpp { id: row.currency_id, quantity: row.quantity });
                                    report.loaded_reward_currencies = report.loaded_reward_currencies + 1;
                                } else {
                                    report.skipped_reward_currencies_missing_currency.push((choice_id, response_id, record_id));
                                }
                                resp.reward = Some(rw);
                                ch.responses.insert(j, resp);
                                chs.insert(choice_id, ch);
                                proof {
                                    assert(rows_missing_choice(t1.currencies, t.choices) =~= rows_missing_choice(t0.currencies, t.choices));
                                    assert(rows_missing_response(t1.currencies, t.choices, t.responses) =~= rows_missing_response(t0.currencies, t.choices, t.responses));
                                    assert(rows_missing_reward(t1.currencies, t.choices, t.responses, t.rewards) =~= rows_missing_reward(t0.currencies, t.choices, t.responses, t.rewards));
                                    assert(rows_missing_record(t1.currencies, t.choices, t.responses, t.rewards, k.currency) =~= if found { rows_missing_record(t0.currencies, t.choices, t.responses, t.rewards, k.currency) } else { rows_missing_record(t0.currencies, t.choices, t.responses, t.rewards, k.currency).push((choice_id, response_id, record_id)) });
                                    assert(ch.responses@ =~= ch0.responses@.update(j as int, resp));
                                    assert(response_built(resp, rs, j as int, choice_id, t1, k)) by {
                                        assert(currency_entries(t1.currencies, choice_id, response_id, k.currency) =~= if found {
                                            currency_entries(t0.currencies, choice_id, response_id, k.currency).push(
                                                PlayerChoiceResponseRewardEntryLikeCpp { id: record_id, quantity: row.quantity },
                                            )
                                        } else {
                                            currency_entries(t0.currencies, choice_id, response_id, k.currency)
                                        });
                                        lemma_load_reward_currency_rows_same(t0, t1, k, choice_id, response_id, row);
                                    }
                                    assert forall|c: i32| #[trigger] chs@.contains_key(c) implies choice_built(
                                        chs@[c],
                                        c,
                                        t1,
                                        k,
                                    ) by {
                                        let chc = old_chs[c];
                                        assert(choice_built(chc, c, t0, k));
                                        assert forall|j2: int| #![trigger chs@[c].responses@[j2]] 0 <= j2
                                            < chs@[c].responses@.len() implies response_built(
                                            chs@[c].responses@[j2],
                                            responses_of(t1.responses, c),
                                            j2,
                                            c,
                                            t1,
                                            k,
                                        ) by {
                                            if c != choice_id || j2 != j {
                                                assert(chs@[c].responses@[j2] == chc.responses@[j2]);
                                                assert(response_built(
                                                    chc.responses@[j2],
                                                    responses_of(t0.responses, c),
                                                    j2,
                                                    c,
                                                    t0,
                                                    k,
                                                ));
                                                if c == choice_id && rs[j2].response_id == response_id {
                                                    assert(j2 > j);
                                                    assert(!first_of_its_id(rs, j2));
                                                }
                                                if !(c == choice_id && responses_of(t0.responses, c)[j2].response_id == response_id) {
                                                    lemma_load_reward_currency_rows_other(t0, t1, k, c, responses_of(t0.responses, c)[j2].response_id, row);
                                                }
                                            }
                                        }
                                    }
                                }
                            },
                        }
                    },
                }
            },
        }
    }
    proof {
        assert(all.take(all.len() as int) =~= all);
    }
}

proof fn lemma_load_reward_currency_rows_other(
    t0: PlayerChoiceRows,
    t1: PlayerChoiceRows,
    k: PlayerChoiceChecks,
    c: i32,
    rid: i32,
    row: PlayerChoiceResponseRewardCurrencyRowLikeCpp,
)
    requires
        t1 == (PlayerChoiceRows { currencies: t0.currencies.push(row), ..t0 }),
        !(c == row.choice_id && rid == row.response_id),
    ensures
        last_reward_row(t1.rewards, c, rid) == last_reward_row(t0.rewards, c, rid),
        item_rows_for(t1.items, c, rid, k.item) == item_rows_for(t0.items, c, rid, k.item),
        item_rows_for(t1.item_choices, c, rid, k.item) == item_rows_for(t0.item_choices, c, rid, k.item),
        currency_entries(t1.currencies, c, rid, k.currency) == currency_entries(t0.currencies, c, rid, k.currency),
        faction_entries(t1.factions, c, rid, k.faction) == faction_entries(t0.factions, c, rid, k.faction),
{
    assert(t1.currencies.drop_last() =~= t0.currencies);
}

proof fn lemma_load_reward_currency_rows_same(
    t0: PlayerChoiceRows,
    t1: PlayerChoiceRows,
    k: PlayerChoiceChecks,
    c: i32,
    rid: i32,
    row: PlayerChoiceResponseRewardCurrencyRowLikeCpp,
)
    requires
        t1 == (PlayerChoiceRows { currencies: t0.currencies.push(row), ..t0 }),
    ensures
        last_reward_row(t1.rewards, c, rid) == last_reward_row(t0.rewards, c, rid),
        item_rows_for(t1.items, c, rid, k.item) == item_rows_for(t0.items, c, rid, k.item),
        item_rows_for(t1.item_choices, c, rid, k.item) == item_rows_for(t0.item_choices, c, rid, k.item),
        faction_entries(t1.factions, c, rid, k.faction) == faction_entries(t0.factions, c, rid, k.faction),
{
    assert(t1.currencies.drop_last() =~= t0.currencies);
}

/// A reward currency row that reaches no reward leaves every loaded choice as it
/// was.
proof fn lemma_load_reward_currency_rows(
    chs: Map<i32, PlayerChoiceLikeCpp>,
    t0: PlayerChoiceRows,
    t1: PlayerChoiceRows,
    k: PlayerChoiceChecks,
    row: PlayerChoiceResponseRewardCurrencyRowLikeCpp,
)
    requires
        choices_built(chs, t0, k),
        t1 == (PlayerChoiceRows { currencies: t0.currencies.push(row), ..t0 }),
        !(has_choice(t0.choices, row.choice_id) && names_response(
            responses_of(t0.responses, row.choice_id),
            row.response_id,
        ) && last_reward_row(t0.rewards, row.choice_id, row.response_id) is Some),
    ensures
        choices_built(chs, t1, k),
{
    assert forall|c: i32| #[trigger] chs.contains_key(c) implies choice_built(chs[c], c, t1, k) by {
        let chc = chs[c];
        assert(choice_built(chc, c, t0, k));
        assert forall|j: int| #![trigger chc.responses@[j]] 0 <= j < chc.responses@.len() implies response_built(
            chc.responses@[j],
            responses_of(t1.responses, c),
            j,
            c,
            t1,
            k,
        ) by {
            let rs = responses_of(t0.responses, c);
            assert(response_built(chc.responses@[j], rs, j, c, t0, k));
            if c == row.choice_id && rs[j].response_id == row.response_id {
                if first_of_its_id(rs, j) && last_reward_row(t0.rewards, c, row.response_id) is Some {
                    assert(names_response(rs, row.response_id));
                }
            } else {
                lemma_load_reward_currency_rows_other(t0, t1, k, c, rs[j].response_id, row);
            }
        }
    }
}


/// Reads the reward faction rows: each row whose reward is found and whose faction
/// exists adds to that reward's faction reputations, in row order.
fn load_reward_faction_rows<F: Fn(u32) -> bool>(
    chs: &mut HashMap<i32, PlayerChoiceLikeCpp>,
    report: &mut PlayerChoiceLoadReportLikeCpp,
    rows: Vec<PlayerChoiceResponseRewardFactionRowLikeCpp>,
    known: &F,
    Ghost(t): Ghost<PlayerChoiceRows>,
    Ghost(k): Ghost<PlayerChoiceChecks>,
)
    requires
        is_predicate(*known),
        k.faction == (|x: u32| holds(*known, x)),
        t.factions.len() == 0,
        t.item_choices.len() == 0,
        choices_built(old(chs)@, t, k),
        report_built(*old(report), t, k),
    ensures
        choices_built(final(chs)@, PlayerChoiceRows { factions: rows@, ..t }, k),
        report_built(*final(report), PlayerChoiceRows { factions: rows@, ..t }, k),
{
    let ghost all = rows@;
    let n = rows.len();
    proof {
        assert(all.take(0) =~= t.factions);
    }
    for row in it: rows
        invariant
            all == it.seq(),
            n == all.len(),
            is_predicate(*known),
            k.faction == (|x: u32| holds(*known, x)),
            t.item_choices.len() == 0,
            choices_built(chs@, PlayerChoiceRows { factions: all.take(it.index() as int), ..t }, k),
            report_built(*report, PlayerChoiceRows { factions: all.take(it.index() as int), ..t }, k),
    {
        let ghost i = it.index() as int;
        let ghost t0 = PlayerChoiceRows { factions: all.take(i), ..t };
        let ghost t1 = PlayerChoiceRows { factions: all.take(i + 1), ..t };
        let ghost old_chs = chs@;
        proof {
            assert(all.take(i + 1).drop_last() =~= all.take(i));
            assert(all.take(i + 1).last() == row);
            assert(all.take(i + 1) =~= all.take(i).push(row));
        }
        report.reward_faction_rows_seen = report.reward_faction_rows_seen + 1;
        let choice_id = row.choice_id;
        let response_id = row.response_id;
        let record_id = row.faction_id;
        match chs.remove(&choice_id) {
            None => {
                report.skipped_reward_factions_missing_choice.push((choice_id, response_id));
                proof {
                    assert(!has_choice(t.choices, choice_id));
                    assert(rows_missing_choice(t1.factions, t.choices) =~= rows_missing_choice(t0.factions, t.choices).push((choice_id, response_id)));
                    assert(rows_missing_response(t1.factions, t.choices, t.responses) =~= rows_missing_response(t0.factions, t.choices, t.responses));
                    assert(rows_missing_reward(t1.factions, t.choices, t.responses, t.rewards) =~= rows_missing_reward(t0.factions, t.choices, t.responses, t.rewards));
                    assert(rows_missing_record(t1.factions, t.choices, t.responses, t.rewards, k.faction) =~= rows_missing_record(t0.factions, t.choices, t.responses, t.rewards, k.faction));
                    lemma_load_reward_faction_rows(old_chs, t0, t1, k, row);
                }
            },
            Some(ch) => {
                let ghost ch0 = ch;
                proof {
                    assert(old_chs.contains_key(choice_id));
                    assert(choice_built(ch0, choice_id, t0, k));
                    lemma_response_ids(ch0, choice_id, t0, k);
                }
                let mut ch = ch;
                match find_response(&ch.responses, response_id) {
                    None => {
                        report.skipped_reward_factions_missing_response.push((choice_id, response_id));
                        chs.insert(choice_id, ch);
                        proof {
                            let rs = responses_of(t.responses, choice_id);
                            assert(!names_response(rs, response_id)) by {
                                assert forall|j: int| 0 <= j < rs.len() implies #[trigger] rs[j].response_id
                                    != response_id by {
                                    assert(ch0.responses@[j].response_id == rs[j].response_id);
                                }
                            }
                            assert(rows_missing_choice(t1.factions, t.choices) =~= rows_missing_choice(t0.factions, t.choices));
                            assert(rows_missing_response(t1.factions, t.choices, t.responses) =~= rows_missing_response(t0.factions, t.choices, t.responses).push((choice_id, response_id)));
                            assert(rows_missing_reward(t1.factions, t.choices, t.responses, t.rewards) =~= rows_missing_reward(t0.factions, t.choices, t.responses, t.rewards));
                            assert(rows_missing_record(t1.factions, t.choices, t.responses, t.rewards, k.faction) =~= rows_missing_record(t0.factions, t.choices, t.responses, t.rewards, k.faction));
                            lemma_load_reward_faction_rows(old_chs, t0, t1, k, row);
                        }
                    },
                    Some(j) => {
                        let ghost rs = responses_of(t.responses, choice_id);
                        proof {
                            assert forall|k2: int| 0 <= k2 < j implies rs[k2].response_id
                                != rs[j as int].response_id by {
                                assert(ch0.responses@[k2].response_id == rs[k2].response_id);
                            }
                            assert(first_of_its_id(rs, j as int));
                            assert(names_response(rs, response_id));
                            assert(response_built(ch0.responses@[j as int], rs, j as int, choice_id, t0, k));
                        }
                        let mut resp = ch.responses.remove(j);
                        let ghost resp0 = resp;
                        match resp.reward.take() {
                            None => {
                                report.skipped_reward_factions_missing_reward.push((choice_id, response_id));
                                ch.responses.insert(j, resp);
                                chs.insert(choice_id, ch);
                                proof {
                                    assert(resp == resp0);
                                    assert(ch.responses@ =~= ch0.responses@);
                                    assert(last_reward_row(t.rewards, choice_id, response_id) is None);
                                    assert(rows_missing_choice(t1.factions, t.choices) =~= rows_missing_choice(t0.factions, t.choices));
                                    assert(rows_missing_response(t1.factions, t.choices, t.responses) =~= rows_missing_response(t0.factions, t.choices, t.responses));
                                    assert(rows_missing_reward(t1.factions, t.choices, t.responses, t.rewards) =~= rows_missing_reward(t0.factions, t.choices, t.responses, t.rewards).push((choice_id, response_id)));
                                    assert(rows_missing_record(t1.factions, t.choices, t.responses, t.rewards, k.faction) =~= rows_missing_record(t0.factions, t.choices, t.responses, t.rewards, k.faction));
                                    lemma_load_reward_faction_rows(old_chs, t0, t1, k, row);
                                }
                            },
                            Some(rw) => {
                                let ghost rw0 = rw;
                                let mut rw = rw;
                                let found = known(record_id);
                                proof {
                                    lemma_predicate_answer(*known, record_id, found);
                                    assert(last_reward_row(t.rewards, choice_id, response_id) is Some);
                                }
                                if found {
                                    rw.faction.push(PlayerChoiceResponseRewardEntryLikeCpp { id: row.faction_id, quantity: row.quantity });
                                    report.loaded_reward_factions = report.loaded_reward_factions + 1;
                                } else {
                                    report.skipped_reward_factions_missing_faction.push((choice_id, response_id, record_id));
                                }
                                resp.reward = Some(rw);
                                ch.responses.insert(j, resp);
                                chs.insert(choice_id, ch);
                                proof {
                                    assert(rows_missing_choice(t1.factions, t.choices) =~= rows_missing_choice(t0.factions, t.choices));
                                    assert(rows_missing_response(t1.factions, t.choices, t.responses) =~= rows_missing_response(t0.factions, t.choices, t.responses));
                                    assert(rows_missing_reward(t1.factions, t.choices, t.responses, t.rewards) =~= rows_missing_reward(t0.factions, t.choices, t.responses, t.rewards));
                                    assert(rows_missing_record(t1.factions, t.choices, t.responses, t.rewards, k.faction) =~= if found { rows_missing_record(t0.factions, t.choices, t.responses, t.rewards, k.faction) } else { rows_missing_record(t0.factions, t.choices, t.responses, t.rewards, k.faction).push((choice_id, response_id, record_id)) });
                                    assert(ch.responses@ =~= ch0.responses@.update(j as int, resp));
                                    assert(response_built(resp, rs, j as int, choice_id, t1, k)) by {
                                        assert(faction_entries(t1.factions, choice_id, response_id, k.faction) =~= if found {
                                            faction_entries(t0.factions, choice_id, response_id, k.faction).push(
                                                PlayerChoiceResponseRewardEntryLikeCpp { id: record_id, quantity: row.quantity },
                                            )
                                        } else {
                                            faction_entries(t0.factions, choice_id, response_id, k.faction)
                                        });
                                        lemma_load_reward_faction_rows_same(t0, t1, k, choice_id, response_id, row);
                                    }
                                    assert forall|c: i32| #[trigger] chs@.contains_key(c) implies choice_built(
                                        chs@[c],
                                        c,
                                        t1,
                                        k,
                                    ) by {
                                        let chc = old_chs[c];
                                        assert(choice_built(chc, c, t0, k));
                                        assert forall|j2: int| #![trigger chs@[c].responses@[j2]] 0 <= j2
                                            < chs@[c].responses@.len() implies response_built(
                                            chs@[c].responses@[j2],
                                            responses_of(t1.responses, c),
                                            j2,
                                            c,
                                            t1,
                                            k,
                                        ) by {
                                            if c != choice_id || j2 != j {
                                                assert(chs@[c].responses@[j2] == chc.responses@[j2]);
                                                assert(response_built(
                                                    chc.responses@[j2],
                                                    responses_of(t0.responses, c),
                                                    j2,
                                                    c,
                                                    t0,
                                                    k,
                                                ));
                                                if c == choice_id && rs[j2].response_id == response_id {
                                                    assert(j2 > j);
                                                    assert(!first_of_its_id(rs, j2));
                                                }
                                                if !(c == choice_id && responses_of(t0.responses, c)[j2].response_id == response_id) {
                                                    lemma_load_reward_faction_rows_other(t0, t1, k, c, responses_of(t0.responses, c)[j2].response_id, row);
                                                }
                                            }
                                        }
                                    }
                                }
                            },
                        }
                    },
                }
            },
        }
    }
    proof {
        assert(all.take(all.len() as int) =~= all);
    }
}

proof fn lemma_load_reward_faction_rows_other(
    t0: PlayerChoiceRows,
    t1: PlayerChoiceRows,
    k: PlayerChoiceChecks,
    c: i32,
    rid: i32,
    row: PlayerChoiceResponseRewardFactionRowLikeCpp,
)
    requires
        t1 == (PlayerChoiceRows { factions: t0.factions.push(row), ..t0 }),
        !(c == row.choice_id && rid == row.response_id),
    ensures
        last_reward_row(t1.rewards, c, rid) == last_reward_row(t0.rewards, c, rid),
        item_rows_for(t1.items, c, rid, k.item) == item_rows_for(t0.items, c, rid, k.item),
        item_rows_for(t1.item_choices, c, rid, k.item) == item_rows_for(t0.item_choices, c, rid, k.item),
        currency_entries(t1.currencies, c, rid, k.currency) == currency_entries(t0.currencies, c, rid, k.currency),
        faction_entries(t1.factions, c, rid, k.faction) == faction_entries(t0.factions, c, rid, k.faction),
{
    assert(t1.factions.drop_last() =~= t0.factions);
}

proof fn lemma_load_reward_faction_rows_same(
    t0: PlayerChoiceRows,
    t1: PlayerChoiceRows,
    k: PlayerChoiceChecks,
    c: i32,
    rid: i32,
    row: PlayerChoiceResponseRewardFactionRowLikeCpp,
)
    requires
        t1 == (PlayerChoiceRows { factions: t0.factions.push(row), ..t0 }),
    ensures
        last_reward_row(t1.rewards, c, rid) == last_reward_row(t0.rewards, c, rid),
        item_rows_for(t1.items, c, rid, k.item) == item_rows_for(t0.items, c, rid, k.item),
        item_rows_for(t1.item_choices, c, rid, k.item) == item_rows_for(t0.item_choices, c, rid, k.item),
        currency_entries(t1.currencies, c, rid, k.currency) == currency_entries(t0.currencies, c, rid, k.currency),
{
    assert(t1.factions.drop_last() =~= t0.factions);
}

/// A reward faction row that reaches no reward leaves every loaded choice as it
/// was.
proof fn lemma_load_reward_faction_rows(
    chs: Map<i32, PlayerChoiceLikeCpp>,
    t0: PlayerChoiceRows,
    t1: PlayerChoiceRows,
    k: PlayerChoiceChecks,
    row: PlayerChoiceResponseRewardFactionRowLikeCpp,
)
    requires
        choices_built(chs, t0, k),
        t1 == (PlayerChoiceRows { factions: t0.factions.push(row), ..t0 }),
        !(has_choice(t0.choices, row.choice_id) && names_response(
            responses_of(t0.responses, row.choice_id),
            row.response_id,
        ) && last_reward_row(t0.rewards, row.choice_id, row.response_id) is Some),
    ensures
        choices_built(chs, t1, k),
{
    assert forall|c: i32| #[trigger] chs.contains_key(c) implies choice_built(chs[c], c, t1, k) by {
        let chc = chs[c];
        assert(choice_built(chc, c, t0, k));
        assert forall|j: int| #![trigger chc.responses@[j]] 0 <= j < chc.responses@.len() implies response_built(
            chc.responses@[j],
            responses_of(t1.responses, c),
            j,
            c,
            t1,
            k,
        ) by {
            let rs = responses_of(t0.responses, c);
            assert(response_built(chc.responses@[j], rs, j, c, t0, k));
            if c == row.choice_id && rs[j].response_id == row.response_id {
                if first_of_its_id(rs, j) && last_reward_row(t0.rewards, c, row.response_id) is Some {
                    assert(names_response(rs, row.response_id));
                }
            } else {
                lemma_load_reward_faction_rows_other(t0, t1, k, c, rs[j].response_id, row);
            }
        }
    }
}


/// Reads the reward item choice rows: each row whose reward is found and whose item
/// exists adds to that reward's item choices, in row order.
fn load_reward_item_choice_rows<I: Fn(u32) -> bool>(
    chs: &mut HashMap<i32, PlayerChoiceLikeCpp>,
    report: &mut PlayerChoiceLoadReportLikeCpp,
    rows: Vec<PlayerChoiceResponseRewardItemRowLikeCpp>,
    known: &I,
    Ghost(t): Ghost<PlayerChoiceRows>,
    Ghost(k): Ghost<PlayerChoiceChecks>,
)
    requires
        is_predicate(*known),
        k.item == (|x: u32| holds(*known, x)),
        t.item_choices.len() == 0,
        
        choices_built(old(chs)@, t, k),
        report_built(*old(report), t, k),
    ensures
        choices_built(final(chs)@, PlayerChoiceRows { item_choices: rows@, ..t }, k),
        report_built(*final(report), PlayerChoiceRows { item_choices: rows@, ..t }, k),
{
    let ghost all = rows@;
    let n = rows.len();
    proof {
        assert(all.take(0) =~= t.item_choices);
    }
    for row in it: rows
        invariant
            all == it.seq(),
            n == all.len(),
            is_predicate(*known),
            k.item == (|x: u32| holds(*known, x)),
            
            choices_built(chs@, PlayerChoiceRows { item_choices: all.take(it.index() as int), ..t }, k),
            report_built(*report, PlayerChoiceRows { item_choices: all.take(it.index() as int), ..t }, k),
    {
        let ghost i = it.index() as int;
        let ghost t0 = PlayerChoiceRows { item_choices: all.take(i), ..t };
        let ghost t1 = PlayerChoiceRows { item_choices: all.take(i + 1), ..t };
        let ghost old_chs = chs@;
        proof {
            assert(all.take(i + 1).drop_last() =~= all.take(i));
            assert(all.take(i + 1).last() == row);
            assert(all.take(i + 1) =~= all.take(i).push(row));
        }
        report.reward_item_choice_rows_seen = report.reward_item_choice_rows_seen + 1;
        let choice_id = row.choice_id;
        let response_id = row.response_id;
        let record_id = row.item_id;
        match chs.remove(&choice_id) {
            None => {
                report.skipped_reward_item_choices_missing_choice.push((choice_id, response_id));
                proof {
                    assert(!has_choice(t.choices, choice_id));
                    assert(rows_missing_choice(t1.item_choices, t.choices) =~= rows_missing_choice(t0.item_choices, t.choices).push((choice_id, response_id)));
                    assert(rows_missing_response(t1.item_choices, t.choices, t.responses) =~= rows_missing_response(t0.item_choices, t.choices, t.responses));
                    assert(rows_missing_reward(t1.item_choices, t.choices, t.responses, t.rewards) =~= rows_missing_reward(t0.item_choices, t.choices, t.responses, t.rewards));
                    assert(rows_missing_record(t1.item_choices, t.choices, t.responses, t.rewards, k.item) =~= rows_missing_record(t0.item_choices, t.choices, t.responses, t.rewards, k.item));
                    lemma_load_reward_item_choice_rows(old_chs, t0, t1, k, row);
                }
            },
            Some(ch) => {
                let ghost ch0 = ch;
                proof {
                    assert(old_chs.contains_key(choice_id));
                    assert(choice_built(ch0, choice_id, t0, k));
                    lemma_response_ids(ch0, choice_id, t0, k);
                }
                let mut ch = ch;
                match find_response(&ch.responses, response_id) {
                    None => {
                        report.skipped_reward_item_choices_missing_response.push((choice_id, response_id));
                        chs.insert(choice_id, ch);
                        proof {
                            let rs = responses_of(t.responses, choice_id);
                            assert(!names_response(rs, response_id)) by {
                                assert forall|j: int| 0 <= j < rs.len() implies #[trigger] rs[j].response_id
                                    != response_id by {
                                    assert(ch0.responses@[j].response_id == rs[j].response_id);
                                }
                            }
                            assert(rows_missing_choice(t1.item_choices, t.choices) =~= rows_missing_choice(t0.item_choices, t.choices));
                            assert(rows_missing_response(t1.item_choices, t.choices, t.responses) =~= rows_missing_response(t0.item_choices, t.choices, t.responses).push((choice_id, response_id)));
                            assert(rows_missing_reward(t1.item_choices, t.choices, t.responses, t.rewards) =~= rows_missing_reward(t0.item_choices, t.choices, t.responses, t.rewards));
                            assert(rows_missing_record(t1.item_choices, t.choices, t.responses, t.rewards, k.item) =~= rows_missing_record(t0.item_choices, t.choices, t.responses, t.rewards, k.item));
                            lemma_load_reward_item_choice_rows(old_chs, t0, t1, k, row);
                        }
                    },
                    Some(j) => {
                        let ghost rs = responses_of(t.responses, choice_id);
                        proof {
                            assert forall|k2: int| 0 <= k2 < j implies rs[k2].response_id
                                != rs[j as int].response_id by {
                                assert(ch0.responses@[k2].response_id == rs[k2].response_id);
                            }
                            assert(first_of_its_id(rs, j as int));
                            assert(names_response(rs, response_id));
                            assert(response_built(ch0.responses@[j as int], rs, j as int, choice_id, t0, k));
                        }
                        let mut resp = ch.responses.remove(j);
                        let ghost resp0 = resp;
                        match resp.reward.take() {
                            None => {
                                report.skipped_reward_item_choices_missing_reward.push((choice_id, response_id));
                                ch.responses.insert(j, resp);
                                chs.insert(choice_id, ch);
                                proof {
                                    assert(resp == resp0);
                                    assert(ch.responses@ =~= ch0.responses@);
                                    assert(last_reward_row(t.rewards, choice_id, response_id) is None);
                                    assert(rows_missing_choice(t1.item_choices, t.choices) =~= rows_missing_choice(t0.item_choices, t.choices));
                                    assert(rows_missing_response(t1.item_choices, t.choices, t.responses) =~= rows_missing_response(t0.item_choices, t.choices, t.responses));
                                    assert(rows_missing_reward(t1.item_choices, t.choices, t.responses, t.rewards) =~= rows_missing_reward(t0.item_choices, t.choices, t.responses, t.rewards).push((choice_id, response_id)));
                                    assert(rows_missing_record(t1.item_choices, t.choices, t.responses, t.rewards, k.item) =~= rows_missing_record(t0.item_choices, t.choices, t.responses, t.rewards, k.item));
                                    lemma_load_reward_item_choice_rows(old_chs, t0, t1, k, row);
                                }
                            },
                            Some(rw) => {
                                let ghost rw0 = rw;
                                let mut rw = rw;
                                let found = known(record_id);
                                proof {
                                    lemma_predicate_answer(*known, record_id, found);
                                    assert(last_reward_row(t.rewards, choice_id, response_id) is Some);
                                }
                                if found {
                                    let part = PlayerChoiceResponseRewardItemLikeCpp {
                                        id: row.item_id,
                                        bonus_list_ids: parse_bonus_list_ids_like_cpp(&row.bonus_list_ids_raw),
                                        quantity: row.quantity,
                                    };
                                    rw.item_choices.push(part);
                                    report.loaded_reward_item_choices = report.loaded_reward_item_choices + 1;
                                } else {
                                    report.skipped_reward_item_choices_missing_item.push((choice_id, response_id, record_id));
                                }
                                resp.reward = Some(rw);
                                ch.responses.insert(j, resp);
                                chs.insert(choice_id, ch);
                                proof {
                                    assert(rows_missing_choice(t1.item_choices, t.choices) =~= rows_missing_choice(t0.item_choices, t.choices));
                                    assert(rows_missing_response(t1.item_choices, t.choices, t.responses) =~= rows_missing_response(t0.item_choices, t.choices, t.responses));
                                    assert(rows_missing_reward(t1.item_choices, t.choices, t.responses, t.rewards) =~= rows_missing_reward(t0.item_choices, t.choices, t.responses, t.rewards));
                                    assert(rows_missing_record(t1.item_choices, t.choices, t.responses, t.rewards, k.item) =~= if found { rows_missing_record(t0.item_choices, t.choices, t.responses, t.rewards, k.item) } else { rows_missing_record(t0.item_choices, t.choices, t.responses, t.rewards, k.item).push((choice_id, response_id, record_id)) });
                                    assert(ch.responses@ =~= ch0.responses@.update(j as int, resp));
                                    assert(response_built(resp, rs, j as int, choice_id, t1, k)) by {
                                        let old_rows = item_rows_for(t0.item_choices, choice_id, response_id, k.item);
                                        let new_rows = item_rows_for(t1.item_choices, choice_id, response_id, k.item);
                                        assert(new_rows =~= if found { old_rows.push(row) } else { old_rows });
                                        assert(items_from_rows(rw0.item_choices@, old_rows));
                                        lemma_load_reward_item_choice_rows_same(t0, t1, k, choice_id, response_id, row);
                                    }
                                    assert forall|c: i32| #[trigger] chs@.contains_key(c) implies choice_built(
                                        chs@[c],
                                        c,
                                        t1,
                                        k,
                                    ) by {
                                        let chc = old_chs[c];
                                        assert(choice_built(chc, c, t0, k));
                                        assert forall|j2: int| #![trigger chs@[c].responses@[j2]] 0 <= j2
                                            < chs@[c].responses@.len() implies response_built(
                                            chs@[c].responses@[j2],
                                            responses_of(t1.responses, c),
                                            j2,
                                            c,
                                            t1,
                                            k,
                                        ) by {
                                            if c != choice_id || j2 != j {
                                                assert(chs@[c].responses@[j2] == chc.responses@[j2]);
                                                assert(response_built(
                                                    chc.responses@[j2],
                                                    responses_of(t0.responses, c),
                                                    j2,
                                                    c,
                                                    t0,
                                                    k,
                                                ));
                                                if c == choice_id && rs[j2].response_id == response_id {
                                                    assert(j2 > j);
                                                    assert(!first_of_its_id(rs, j2));
                                                }
                                                if !(c == choice_id && responses_of(t0.responses, c)[j2].response_id == response_id) {
                                                    lemma_load_reward_item_choice_rows_other(t0, t1, k, c, responses_of(t0.responses, c)[j2].response_id, row);
                                                }
                                            }
                                        }
                                    }
                                }
                            },
                        }
                    },
                }
            },
        }
    }
    proof {
        assert(all.take(all.len() as int) =~= all);
    }
}

proof fn lemma_load_reward_item_choice_rows_other(
    t0: PlayerChoiceRows,
    t1: PlayerChoiceRows,
    k: PlayerChoiceChecks,
    c: i32,
    rid: i32,
    row: PlayerChoiceResponseRewardItemRowLikeCpp,
)
    requires
        t1 == (PlayerChoiceRows { item_choices: t0.item_choices.push(row), ..t0 }),
        !(c == row.choice_id && rid == row.response_id),
    ensures
        last_reward_row(t1.rewards, c, rid) == last_reward_row(t0.rewards, c, rid),
        item_rows_for(t1.items, c, rid, k.item) == item_rows_for(t0.items, c, rid, k.item),
        item_rows_for(t1.item_choices, c, rid, k.item) == item_rows_for(t0.item_choices, c, rid, k.item),
        currency_entries(t1.currencies, c, rid, k.currency) == currency_entries(t0.currencies, c, rid, k.currency),
        faction_entries(t1.factions, c, rid, k.faction) == faction_entries(t0.factions, c, rid, k.faction),
{
    assert(t1.item_choices.drop_last() =~= t0.item_choices);
}

proof fn lemma_load_reward_item_choice_rows_same(
    t0: PlayerChoiceRows,
    t1: PlayerChoiceRows,
    k: PlayerChoiceChecks,
    c: i32,
    rid: i32,
    row: PlayerChoiceResponseRewardItemRowLikeCpp,
)
    requires
        t1 == (PlayerChoiceRows { item_choices: t0.item_choices.push(row), ..t0 }),
    ensures
        last_reward_row(t1.rewards, c, rid) == last_reward_row(t0.rewards, c, rid),
        item_rows_for(t1.items, c, rid, k.item) == item_rows_for(t0.items, c, rid, k.item),
        currency_entries(t1.currencies, c, rid, k.currency) == currency_entries(t0.currencies, c, rid, k.currency),
        faction_entries(t1.factions, c, rid, k.faction) == faction_entries(t0.factions, c, rid, k.faction),
{
    assert(t1.item_choices.drop_last() =~= t0.item_choices);
}

/// A reward item choice row that reaches no reward leaves every loaded choice as it
/// was.
proof fn lemma_load_reward_item_choice_rows(
    chs: Map<i32, PlayerChoiceLikeCpp>,
    t0: PlayerChoiceRows,
    t1: PlayerChoiceRows,
    k: PlayerChoiceChecks,
    row: PlayerChoiceResponseRewardItemRowLikeCpp,
)
    requires
        choices_built(chs, t0, k),
        t1 == (PlayerChoiceRows { item_choices: t0.item_choices.push(row), ..t0 }),
        !(has_choice(t0.choices, row.choice_id) && names_response(
            responses_of(t0.responses, row.choice_id),
            row.response_id,
        ) && last_reward_row(t0.rewards, row.choice_id, row.response_id) is Some),
    ensures
        choices_built(chs, t1, k),
{
    assert forall|c: i32| #[trigger] chs.contains_key(c) implies choice_built(chs[c], c, t1, k) by {
        let chc = chs[c];
        assert(choice_built(chc, c, t0, k));
        assert forall|j: int| #![trigger chc.responses@[j]] 0 <= j < chc.responses@.len() implies response_built(
            chc.responses@[j],
            responses_of(t1.responses, c),
            j,
            c,
            t1,
            k,
        ) by {
            let rs = responses_of(t0.responses, c);
            assert(response_built(chc.responses@[j], rs, j, c, t0, k));
            if c == row.choice_id && rs[j].response_id == row.response_id {
                if first_of_its_id(rs, j) && last_reward_row(t0.rewards, c, row.response_id) is Some {
                    assert(names_response(rs, row.response_id));
                }
            } else {
                lemma_load_reward_item_choice_rows_other(t0, t1, k, c, rs[j].response_id, row);
            }
        }
    }
}


/// Checks under which no referenced record exists.
pub open spec fn no_checks() -> PlayerChoiceChecks {
    PlayerChoiceChecks {
        title: |x: u32| false,
        package: |x: u32| false,
        skill_line: |x: u32| false,
        item: |x: u32| false,
        currency: |x: u32| false,
        faction: |x: u32| false,
    }
}

impl PlayerChoiceStoreLikeCpp {
    /// Loads the choices and their responses, with no reward tables.
    pub fn from_rows_like_cpp(
        choice_rows: Vec<PlayerChoiceRowLikeCpp>,
        response_rows: Vec<PlayerChoiceResponseRowLikeCpp>,
    ) -> (out: PlayerChoiceLoadOutcomeLikeCpp)
        ensures
            loaded_like_cpp(
                out,
                PlayerChoiceRows { choices: choice_rows@, responses: response_rows@, ..no_rows() },
                no_checks(),
            ),
    {
        let never = |x: u32| -> (b: bool)
            ensures
                !b,
            { false };
        let out = Self::build_rows_like_cpp(
            choice_rows,
            response_rows,
            Vec::new(),
            Vec::new(),
            Vec::new(),
            Vec::new(),
            Vec::new(),
            never,
            never,
            never,
            never,
            never,
            never,
        );
        proof {
            assert((|x: u32| holds(never, x)) =~= (|x: u32| false));
        }
        out
    }

    /// Loads the choices, their responses and the responses' rewards.
    pub fn from_rows_and_rewards_like_cpp<T: Fn(u32) -> bool, P: Fn(u32) -> bool, S: Fn(u32) -> bool>(
        choice_rows: Vec<PlayerChoiceRowLikeCpp>,
        response_rows: Vec<PlayerChoiceResponseRowLikeCpp>,
        reward_rows: Vec<PlayerChoiceResponseRewardRowLikeCpp>,
        title_exists: T,
        quest_package_exists: P,
        skill_line_exists: S,
    ) -> (out: PlayerChoiceLoadOutcomeLikeCpp)
        requires
            is_predicate(title_exists),
            is_predicate(quest_package_exists),
            is_predicate(skill_line_exists),
        ensures
            loaded_like_cpp(
                out,
                PlayerChoiceRows {
                    choices: choice_rows@,
                    responses: response_rows@,
                    rewards: reward_rows@,
                    ..no_rows()
                },
                PlayerChoiceChecks {
                    title: |x: u32| holds(title_exists, x),
                    package: |x: u32| holds(quest_package_exists, x),
                    skill_line: |x: u32| holds(skill_line_exists, x),
                    ..no_checks()
                },
            ),
    {
        let never = |x: u32| -> (b: bool)
            ensures
                !b,
            { false };
        let out = Self::build_rows_like_cpp(
            choice_rows,
            response_rows,
            reward_rows,
            Vec::new(),
            Vec::new(),
            Vec::new(),
            Vec::new(),
            title_exists,
            quest_package_exists,
            skill_line_exists,
            never,
            never,
            never,
        );
        proof {
            assert((|x: u32| holds(never, x)) =~= (|x: u32| false));
        }
        out
    }

    /// Loads the choices, their responses, the rewards and the reward items.
    pub fn from_rows_rewards_and_items_like_cpp<
        T: Fn(u32) -> bool,
        P: Fn(u32) -> bool,
        S: Fn(u32) -> bool,
        I: Fn(u32) -> bool,
    >(
        choice_rows: Vec<PlayerChoiceRowLikeCpp>,
        response_rows: Vec<PlayerChoiceResponseRowLikeCpp>,
        reward_rows: Vec<PlayerChoiceResponseRewardRowLikeCpp>,
        reward_item_rows: Vec<PlayerChoiceResponseRewardItemRowLikeCpp>,
        title_exists: T,
        quest_package_exists: P,
        skill_line_exists: S,
        item_exists: I,
    ) -> (out: PlayerChoiceLoadOutcomeLikeCpp)
        requires
            is_predicate(title_exists),
            is_predicate(quest_package_exists),
            is_predicate(skill_line_exists),
            is_predicate(item_exists),
        ensures
            loaded_like_cpp(
                out,
                PlayerChoiceRows {
                    choices: choice_rows@,
                    responses: response_rows@,
                    rewards: reward_rows@,
                    items: reward_item_rows@,
                    ..no_rows()
                },
                PlayerChoiceChecks {
                    title: |x: u32| holds(title_exists, x),
                    package: |x: u32| holds(quest_package_exists, x),
                    skill_line: |x: u32| holds(skill_line_exists, x),
                    item: |x: u32| holds(item_exists, x),
                    ..no_checks()
                },
            ),
    {
        let never = |x: u32| -> (b: bool)
            ensures
                !b,
            { false };
        let out = Self::build_rows_like_cpp(
            choice_rows,
            response_rows,
            reward_rows,
            reward_item_rows,
            Vec::new(),
            Vec::new(),
            Vec::new(),
            title_exists,
            quest_package_exists,
            skill_line_exists,
            item_exists,
            never,
            never,
        );
        proof {
            assert((|x: u32| holds(never, x)) =~= (|x: u32| false));
        }
        out
    }

    /// Loads the choices, their responses, the rewards, the reward items and
    /// the reward currencies.
    pub fn from_rows_rewards_items_and_currencies_like_cpp<
        T: Fn(u32) -> bool,
        P: Fn(u32) -> bool,
        S: Fn(u32) -> bool,
        I: Fn(u32) -> bool,
        C: Fn(u32) -> bool,
    >(
        choice_rows: Vec<PlayerChoiceRowLikeCpp>,
        response_rows: Vec<PlayerChoiceResponseRowLikeCpp>,
        reward_rows: Vec<PlayerChoiceResponseRewardRowLikeCpp>,
        reward_item_rows: Vec<PlayerChoiceResponseRewardItemRowLikeCpp>,
        reward_currency_rows: Vec<PlayerChoiceResponseRewardCurrencyRowLikeCpp>,
        title_exists: T,
        quest_package_exists: P,
        skill_line_exists: S,
        item_exists: I,
        currency_exists: C,
    ) -> (out: PlayerChoiceLoadOutcomeLikeCpp)
        requires
            is_predicate(title_exists),
            is_predicate(quest_package_exists),
            is_predicate(skill_line_exists),
            is_predicate(item_exists),
            is_predicate(currency_exists),
        ensures
            loaded_like_cpp(
                out,
                PlayerChoiceRows {
                    choices: choice_rows@,
                    responses: response_rows@,
                    rewards: reward_rows@,
                    items: reward_item_rows@,
                    currencies: reward_currency_rows@,
                    ..no_rows()
                },
                PlayerChoiceChecks {
                    title: |x: u32| holds(title_exists, x),
                    package: |x: u32| holds(quest_package_exists, x),
                    skill_line: |x: u32| holds(skill_line_exists, x),
                    item: |x: u32| holds(item_exists, x),
                    currency: |x: u32| holds(currency_exists, x),
                    ..no_checks()
                },
            ),
    {
        let never = |x: u32| -> (b: bool)
            ensures
                !b,
            { false };
        let out = Self::build_rows_like_cpp(
            choice_rows,
            response_rows,
            reward_rows,
            reward_item_rows,
            reward_currency_rows,
            Vec::new(),
            Vec::new(),
            title_exists,
            quest_package_exists,
            skill_line_exists,
            item_exists,
            currency_exists,
            never,
        );
        proof {
            assert((|x: u32| holds(never, x)) =~= (|x: u32| false));
        }
        out
    }

    /// Loads every player choice table, reward item choices included.
    pub fn from_rows_rewards_items_currencies_factions_and_item_choices_like_cpp<
        T: Fn(u32) -> bool,
        P: Fn(u32) -> bool,
        S: Fn(u32) -> bool,
        I: Fn(u32) -> bool,
        C: Fn(u32) -> bool,
        F: Fn(u32) -> bool,
    >(
        choice_rows: Vec<PlayerChoiceRowLikeCpp>,
        response_rows: Vec<PlayerChoiceResponseRowLikeCpp>,
        reward_rows: Vec<PlayerChoiceResponseRewardRowLikeCpp>,
        reward_item_rows: Vec<PlayerChoiceResponseRewardItemRowLikeCpp>,
        reward_currency_rows: Vec<PlayerChoiceResponseRewardCurrencyRowLikeCpp>,
        reward_faction_rows: Vec<PlayerChoiceResponseRewardFactionRowLikeCpp>,
        reward_item_choice_rows: Vec<PlayerChoiceResponseRewardItemRowLikeCpp>,
        title_exists: T,
        quest_package_exists: P,
        skill_line_exists: S,
        item_exists: I,
        currency_exists: C,
        faction_exists: F,
    ) -> (out: PlayerChoiceLoadOutcomeLikeCpp)
        requires
            is_predicate(title_exists),
            is_predicate(quest_package_exists),
            is_predicate(skill_line_exists),
            is_predicate(item_exists),
            is_predicate(currency_exists),
            is_predicate(faction_exists),
        ensures
            loaded_like_cpp(
                out,
                PlayerChoiceRows {
                    choices: choice_rows@,
                    responses: response_rows@,
                    rewards: reward_rows@,
                    items: reward_item_rows@,
                    currencies: reward_currency_rows@,
                    factions: reward_faction_rows@,
                    item_choices: reward_item_choice_rows@,
                },
                checks_of(
                    title_exists,
                    quest_package_exists,
                    skill_line_exists,
                    item_exists,
                    currency_exists,
                    faction_exists,
                ),
            ),
    {
        Self::build_rows_like_cpp(
            choice_rows,
            response_rows,
            reward_rows,
            reward_item_rows,
            reward_currency_rows,
            reward_faction_rows,
            reward_item_choice_rows,
            title_exists,
            quest_package_exists,
            skill_line_exists,
            item_exists,
            currency_exists,
            faction_exists,
        )
    }

    /// Loads every player choice table but the reward item choices.
    pub fn from_rows_rewards_items_currencies_and_factions_like_cpp<
        T: Fn(u32) -> bool,
        P: Fn(u32) -> bool,
        S: Fn(u32) -> bool,
        I: Fn(u32) -> bool,
        C: Fn(u32) -> bool,
        F: Fn(u32) -> bool,
    >(
        choice_rows: Vec<PlayerChoiceRowLikeCpp>,
        response_rows: Vec<PlayerChoiceResponseRowLikeCpp>,
        reward_rows: Vec<PlayerChoiceResponseRewardRowLikeCpp>,
        reward_item_rows: Vec<PlayerChoiceResponseRewardItemRowLikeCpp>,
        reward_currency_rows: Vec<PlayerChoiceResponseRewardCurrencyRowLikeCpp>,
        reward_faction_rows: Vec<PlayerChoiceResponseRewardFactionRowLikeCpp>,
        title_exists: T,
        quest_package_exists: P,
        skill_line_exists: S,
        item_exists: I,
        currency_exists: C,
        faction_exists: F,
    ) -> (out: PlayerChoiceLoadOutcomeLikeCpp)
        requires
            is_predicate(title_exists),
            is_predicate(quest_package_exists),
            is_predicate(skill_line_exists),
            is_predicate(item_exists),
            is_predicate(currency_exists),
            is_predicate(faction_exists),
        ensures
            loaded_like_cpp(
                out,
                PlayerChoiceRows {
                    choices: choice_rows@,
                    responses: response_rows@,
                    rewards: reward_rows@,
                    items: reward_item_rows@,
                    currencies: reward_currency_rows@,
                    factions: reward_faction_rows@,
                    item_choices: Seq::empty(),
                },
                checks_of(
                    title_exists,
                    quest_package_exists,
                    skill_line_exists,
                    item_exists,
                    currency_exists,
                    faction_exists,
                ),
            ),
    {
        Self::build_rows_like_cpp(
            choice_rows,
            response_rows,
            reward_rows,
            reward_item_rows,
            reward_currency_rows,
            reward_faction_rows,
            Vec::new(),
            title_exists,
            quest_package_exists,
            skill_line_exists,
            item_exists,
            currency_exists,
            faction_exists,
        )
    }

    fn build_rows_like_cpp<
        T: Fn(u32) -> bool,
        P: Fn(u32) -> bool,
        S: Fn(u32) -> bool,
        I: Fn(u32) -> bool,
        C: Fn(u32) -> bool,
        F: Fn(u32) -> bool,
    >(
        choice_rows: Vec<PlayerChoiceRowLikeCpp>,
        response_rows: Vec<PlayerChoiceResponseRowLikeCpp>,
        reward_rows: Vec<PlayerChoiceResponseRewardRowLikeCpp>,
        reward_item_rows: Vec<PlayerChoiceResponseRewardItemRowLikeCpp>,
        reward_currency_rows: Vec<PlayerChoiceResponseRewardCurrencyRowLikeCpp>,
        reward_faction_rows: Vec<PlayerChoiceResponseRewardFactionRowLikeCpp>,
        reward_item_choice_rows: Vec<PlayerChoiceResponseRewardItemRowLikeCpp>,
        title_exists: T,
        quest_package_exists: P,
        skill_line_exists: S,
        item_exists: I,
        currency_exists: C,
        faction_exists: F,
    ) -> (out: PlayerChoiceLoadOutcomeLikeCpp)
        requires
            is_predicate(title_exists),
            is_predicate(quest_package_exists),
            is_predicate(skill_line_exists),
            is_predicate(item_exists),
            is_predicate(currency_exists),
            is_predicate(faction_exists),
        ensures
            loaded_like_cpp(
                out,
                PlayerChoiceRows {
                    choices: choice_rows@,
                    responses: response_rows@,
                    rewards: reward_rows@,
                    items: reward_item_rows@,
                    currencies: reward_currency_rows@,
                    factions: reward_faction_rows@,
                    item_choices: reward_item_choice_rows@,
                },
                checks_of(
                    title_exists,
                    quest_package_exists,
                    skill_line_exists,
                    item_exists,
                    currency_exists,
                    faction_exists,
                ),
            ),
    {
        let ghost k = checks_of(
            title_exists,
            quest_package_exists,
            skill_line_exists,
            item_exists,
            currency_exists,
            faction_exists,
        );
        let ghost cr = choice_rows@;
        let ghost rr = response_rows@;
        let ghost wr = reward_rows@;
        let ghost ir = reward_item_rows@;
        let ghost ur = reward_currency_rows@;
        let ghost fr = reward_faction_rows@;
        let ghost xr = reward_item_choice_rows@;
        let mut report = empty_report();
        let mut chs = load_choice_rows(choice_rows, &mut report, Ghost(k));
        proof {
            assert(after_responses(cr, Seq::empty()) == PlayerChoiceRows { choices: cr, ..no_rows() });
        }
        load_response_rows(&mut chs, &mut report, response_rows, Ghost(cr), Ghost(k));
        proof {
            assert(after_rewards(cr, rr, Seq::empty()) == after_responses(cr, rr));
        }
        load_reward_rows(
            &mut chs,
            &mut report,
            reward_rows,
            &title_exists,
            &quest_package_exists,
            &skill_line_exists,
            Ghost(cr),
            Ghost(rr),
            Ghost(k),
        );
        let ghost t3 = after_rewards(cr, rr, wr);
        load_reward_item_rows(&mut chs, &mut report, reward_item_rows, &item_exists, Ghost(t3), Ghost(k));
        let ghost t4 = PlayerChoiceRows { items: ir, ..t3 };
        load_reward_currency_rows(
            &mut chs,
            &mut report,
            reward_currency_rows,
            &currency_exists,
            Ghost(t4),
            Ghost(k),
        );
        let ghost t5 = PlayerChoiceRows { currencies: ur, ..t4 };
        load_reward_faction_rows(
            &mut chs,
            &mut report,
            reward_faction_rows,
            &faction_exists,
            Ghost(t5),
            Ghost(k),
        );
        let ghost t6 = PlayerChoiceRows { factions: fr, ..t5 };
        load_reward_item_choice_rows(
            &mut chs,
            &mut report,
            reward_item_choice_rows,
            &item_exists,
            Ghost(t6),
            Ghost(k),
        );
        PlayerChoiceLoadOutcomeLikeCpp { store: PlayerChoiceStoreLikeCpp { choices: chs }, report }
    }

    /// The choice with the id.
    pub fn get_player_choice_like_cpp(&self, choice_id: i32) -> (r: Option<&PlayerChoiceLikeCpp>)
        ensures
            r == (if self@.contains_key(choice_id) {
                Some(&self@[choice_id])
            } else {
                None
            }),
    {
        self.choices.get(&choice_id)
    }

    pub fn len(&self) -> (n: usize)
        ensures
            n == self@.len(),
    {
        self.choices.len()
    }

    pub fn is_empty(&self) -> (b: bool)
        ensures
            b == self@.is_empty(),
    {
        self.choices.is_empty()
    }
}

} // verus!
