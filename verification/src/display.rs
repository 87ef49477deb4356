//! Short forms for display: a symbol for a harvest, a word for an asset, a
//! cell of the scoreboard, a short name for a tile, a brief for a long
//! description.

use crate::models::asset::AssetType;
use crate::models::board::HarvestType;
use crate::models::player::Player;
use crate::text::{int_text, push_int};
use vstd::prelude::*;
use vstd::string::{StrSliceExecFns, StringExecFns};

verus! {

/// The letter that stands for a harvest; none for a tile without harvest.
pub open spec fn harvest_symbol_text(harvest_type: HarvestType) -> Seq<char> {
    match harvest_type {
        HarvestType::HayCutting1
        | HarvestType::HayCutting2
        | HarvestType::HayCutting3
        | HarvestType::HayCutting4 => "H"@,
        HarvestType::Cherry | HarvestType::Apple => "F"@,
        HarvestType::Wheat | HarvestType::Corn => "G"@,
        HarvestType::Livestock => "L"@,
        HarvestType::NoHarvest => ""@,
    }
}

/// The letter that stands for a harvest; none for a tile without harvest.
pub fn get_harvest_symbol(harvest_type: &HarvestType) -> (s: &'static str)
    ensures
        s@ == harvest_symbol_text(*harvest_type),
{
    match harvest_type {
        HarvestType::HayCutting1
        | HarvestType::HayCutting2
        | HarvestType::HayCutting3
        | HarvestType::HayCutting4 => "H",
        HarvestType::Cherry | HarvestType::Apple => "F",
        HarvestType::Wheat | HarvestType::Corn => "G",
        HarvestType::Livestock => "L",
        HarvestType::NoHarvest => "",
    }
}

/// The word for an asset where options are shown.
pub open spec fn asset_word(asset_type: AssetType) -> Seq<char> {
    match asset_type {
        AssetType::Grain => "Grain"@,
        AssetType::Hay => "Hay"@,
        AssetType::Cows => "Cattle"@,
        AssetType::Fruit => "Fruit"@,
        AssetType::Tractor => "Tractor"@,
        AssetType::Harvester => "Harvester"@,
    }
}

/// The word for an asset where options are shown.
pub fn format_asset_type(asset_type: AssetType) -> (s: String)
    ensures
        s@ == asset_word(asset_type),
{
    match asset_type {
        AssetType::Grain => String::from_str("Grain"),
        AssetType::Hay => String::from_str("Hay"),
        AssetType::Cows => String::from_str("Cattle"),
        AssetType::Fruit => String::from_str("Fruit"),
        AssetType::Tractor => String::from_str("Tractor"),
        AssetType::Harvester => String::from_str("Harvester"),
    }
}

/// What the scoreboard shows for an asset: the quantity, and the crop
/// factor behind a times sign where it is not one.
pub open spec fn asset_cell_text(p: Player, asset_type: AssetType) -> Seq<char> {
    if p.spec_crop_multiplier(asset_type).percent == 100 {
        int_text(p.assets.quantity(asset_type))
    } else {
        int_text(p.assets.quantity(asset_type)) + "\u{d7}"@ + p.spec_crop_multiplier(
            asset_type,
        ).tenths_text()
    }
}

/// What the scoreboard shows for an asset.
pub fn format_asset_cell(player: &Player, asset_type: AssetType) -> (s: String)
    ensures
        s@ == asset_cell_text(*player, asset_type),
{
    let mut s = String::new();
    push_int(&mut s, player.assets.quantity_of(&asset_type) as i64);
    assert(s@ =~= int_text(player.assets.quantity(asset_type)));
    let multiplier = player.get_crop_multiplier(&asset_type);
    if !multiplier.is_one() {
        s.append("\u{d7}");
        multiplier.push_tenths(&mut s);
    }
    s
}

/// Whether a character is white space.
pub open spec fn is_space(c: char) -> bool {
    c == ' ' || ('\u{9}' <= c <= '\u{d}') || c == '\u{85}' || c == '\u{a0}' || c == '\u{1680}' || (
    '\u{2000}' <= c <= '\u{200a}') || c == '\u{2028}' || c == '\u{2029}' || c == '\u{202f}' || c
        == '\u{205f}' || c == '\u{3000}'
}

/// Whether a character is white space.
pub fn is_blank(c: char) -> (b: bool)
    ensures
        b == is_space(c),
{
    c == ' ' || ('\u{9}' <= c && c <= '\u{d}') || c == '\u{85}' || c == '\u{a0}' || c == '\u{1680}'
        || ('\u{2000}' <= c && c <= '\u{200a}') || c == '\u{2028}' || c == '\u{2029}' || c
        == '\u{202f}' || c == '\u{205f}' || c == '\u{3000}'
}

/// The first place from `i` on that holds no white space; the end where
/// there is none.
pub open spec fn word_start(text: Seq<char>, i: int) -> int
    decreases text.len() - i,
{
    if i < 0 || i >= text.len() {
        text.len() as int
    } else if is_space(text[i]) {
        word_start(text, i + 1)
    } else {
        i
    }
}

/// The first place from `i` on that holds white space; the end where there
/// is none.
pub open spec fn word_end(text: Seq<char>, i: int) -> int
    decreases text.len() - i,
{
    if i < 0 || i >= text.len() {
        text.len() as int
    } else if is_space(text[i]) {
        i
    } else {
        word_end(text, i + 1)
    }
}

/// The short name of a tile. A name of three words or more whose second is
/// "Week" and whose first has three characters or more is cut to the first
/// three characters of the first word, " W", and the third word. Any other
/// name is cut to ten characters.
pub open spec fn short_tile_name(name: Seq<char>) -> Seq<char> {
    let a0 = word_start(name, 0);
    let a1 = word_end(name, a0);
    let b0 = word_start(name, a1);
    let b1 = word_end(name, b0);
    let c0 = word_start(name, b1);
    let c1 = word_end(name, c0);
    if c0 < name.len() && name.subrange(b0, b1) == "Week"@ && a1 - a0 >= 3 {
        name.subrange(a0, a0 + 3) + " W"@ + name.subrange(c0, c1)
    } else if name.len() > 10 {
        name.subrange(0, 10)
    } else {
        name
    }
}

/// The characters of a text.
pub fn chars_of(text: &str) -> (v: Vec<char>)
    ensures
        v@ == text@,
{
    let n = text.unicode_len();
    let mut v: Vec<char> = Vec::new();
    let mut i: usize = 0;
    while i < n
        invariant
            i <= n,
            n == text@.len(),
            v@ == text@.take(i as int),
        decreases n - i,
    {
        v.push(text.get_char(i));
        assert(v@ =~= text@.take(i + 1));
        i += 1;
    }
    assert(text@.take(n as int) =~= text@);
    v
}

/// Computes `word_start`.
fn find_word_start(chars: &Vec<char>, from: usize) -> (i: usize)
    requires
        from <= chars@.len(),
    ensures
        i == word_start(chars@, from as int),
        from <= i <= chars@.len(),
    decreases chars@.len() - from,
{
    if from >= chars.len() {
        chars.len()
    } else if is_blank(chars[from]) {
        find_word_start(chars, from + 1)
    } else {
        from
    }
}

/// Computes `word_end`.
fn find_word_end(chars: &Vec<char>, from: usize) -> (i: usize)
    requires
        from <= chars@.len(),
    ensures
        i == word_end(chars@, from as int),
        from <= i <= chars@.len(),
    decreases chars@.len() - from,
{
    if from >= chars.len() {
        chars.len()
    } else if is_blank(chars[from]) {
        from
    } else {
        find_word_end(chars, from + 1)
    }
}

/// Whether the characters from `from` to `to` are those of `word`.
fn is_word(chars: &Vec<char>, from: usize, to: usize, word: &str) -> (b: bool)
    requires
        from <= to <= chars@.len(),
    ensures
        b == (chars@.subrange(from as int, to as int) == word@),
{
    let n = word.unicode_len();
    if to - from != n {
        return false;
    }
    let mut k: usize = 0;
    while k < n
        invariant
            k <= n,
            n == word@.len(),
            to - from == n,
            from <= to <= chars@.len(),
            forall|j: int| 0 <= j < k ==> chars@[from + j] == word@[j],
        decreases n - k,
    {
        if chars[from + k] != word.get_char(k) {
            assert(chars@.subrange(from as int, to as int)[k as int] != word@[k as int]);
            return false;
        }
        k += 1;
    }
    assert(chars@.subrange(from as int, to as int) =~= word@);
    true
}

/// The short name of a tile.
pub fn get_short_tile_name(tile_name: &str) -> (s: String)
    ensures
        s@ == short_tile_name(tile_name@),
{
    let chars = chars_of(tile_name);
    let n = chars.len();
    let a0 = find_word_start(&chars, 0);
    let a1 = find_word_end(&chars, a0);
    let b0 = find_word_start(&chars, a1);
    let b1 = find_word_end(&chars, b0);
    let c0 = find_word_start(&chars, b1);
    let c1 = find_word_end(&chars, c0);
    if c0 < n && is_word(&chars, b0, b1, "Week") && a1 - a0 >= 3 {
        let mut s = String::from_str(tile_name.substring_char(a0, a0 + 3));
        s.append(" W");
        s.append(tile_name.substring_char(c0, c1));
        s
    } else if n > 10 {
        String::from_str(tile_name.substring_char(0, 10))
    } else {
        String::from_str(tile_name)
    }
}

/// Whether `pattern` stands in `text` at the place `i`.
pub open spec fn occurs_at(text: Seq<char>, pattern: Seq<char>, i: int) -> bool {
    0 <= i && i + pattern.len() <= text.len() && text.subrange(i, i + pattern.len()) == pattern
}

/// Whether `pattern` stands in `text` at the place `from` or later.
pub open spec fn occurs_from(text: Seq<char>, pattern: Seq<char>, from: int) -> bool {
    exists|i: int| from <= i && #[trigger] occurs_at(text, pattern, i)
}

/// Whether `i` is the first place from `from` on at which `pattern` stands
/// in `text`.
pub open spec fn is_first_from(text: Seq<char>, pattern: Seq<char>, from: int, i: int) -> bool {
    &&& from <= i
    &&& occurs_at(text, pattern, i)
    &&& forall|j: int| from <= j < i ==> !#[trigger] occurs_at(text, pattern, j)
}

/// The first place from `from` on at which `pattern` stands in `text`,
/// where there is one.
pub open spec fn position_from(text: Seq<char>, pattern: Seq<char>, from: int) -> int {
    choose|i: int| is_first_from(text, pattern, from, i)
}

/// Whether `pattern` stands in `text`.
pub open spec fn contains_text(text: Seq<char>, pattern: Seq<char>) -> bool {
    occurs_from(text, pattern, 0)
}

/// The end of the stretch that runs from `from` through the next full
/// stop; the end of the text where no full stop follows.
pub open spec fn through_stop(text: Seq<char>, from: int) -> int {
    if occurs_from(text, "."@, from) {
        position_from(text, "."@, from) + 1
    } else {
        text.len() as int
    }
}

/// The brief of a description. A description of fewer than fifty
/// characters is its own brief. Of a longer one:
///
/// * what is collected or paid is told up to the full stop after the
///   dollar sign;
/// * a move is told from "Go to" to the full stop;
/// * a doubled or halved harvest, and a draw from a deck, have fixed
///   words;
/// * all else is cut after the first sentence.
pub open spec fn brief_of(text: Seq<char>) -> Seq<char> {
    if text.len() < 50 {
        text
    } else if (contains_text(text, "COLLECT"@) || contains_text(text, "PAY"@)) && contains_text(
        text,
        "$"@,
    ) {
        text.subrange(0, through_stop(text, position_from(text, "$"@, 0)))
    } else if contains_text(text, "Go to"@) {
        text.subrange(
            position_from(text, "Go to"@, 0),
            through_stop(text, position_from(text, "Go to"@, 0)),
        )
    } else if contains_text(text, "harvest"@) && contains_text(text, "Double"@) {
        "Double harvest this year."@
    } else if contains_text(text, "harvest"@) && contains_text(text, "Cut"@) && contains_text(
        text,
        "half"@,
    ) {
        "Cut harvest in half."@
    } else if contains_text(text, "Draw"@) && contains_text(text, "O.T.B."@) {
        "Draw O.T.B."@
    } else if contains_text(text, "Draw"@) && contains_text(text, "Farmer's Fate"@) {
        "Draw Farmer's Fate."@
    } else {
        text.subrange(0, through_stop(text, 0))
    }
}

/// The first place at which something stands is the only one that is the
/// first.
pub proof fn lemma_position_from(text: Seq<char>, pattern: Seq<char>, from: int, i: int)
    requires
        is_first_from(text, pattern, from, i),
    ensures
        position_from(text, pattern, from) == i,
        occurs_from(text, pattern, from),
{
    let c = position_from(text, pattern, from);
    assert(is_first_from(text, pattern, from, c));
    if c < i {
        assert(!occurs_at(text, pattern, c));
    }
    if i < c {
        assert(!occurs_at(text, pattern, i));
    }
}

/// Whether `pattern` stands in the characters at the place `i`.
fn matches_at(chars: &Vec<char>, pattern: &Vec<char>, i: usize) -> (b: bool)
    requires
        i + pattern@.len() <= chars@.len(),
    ensures
        b == occurs_at(chars@, pattern@, i as int),
{
    let m = pattern.len();
    let n = chars.len();
    let mut k: usize = 0;
    while k < m
        invariant
            k <= m,
            m == pattern@.len(),
            n == chars@.len(),
            i + m <= n,
            forall|j: int| 0 <= j < k ==> chars@[i + j] == pattern@[j],
        decreases m - k,
    {
        if chars[i + k] != pattern[k] {
            assert(chars@.subrange(i as int, i + m)[k as int] != pattern@[k as int]);
            return false;
        }
        k += 1;
    }
    assert(chars@.subrange(i as int, i + m) =~= pattern@);
    true
}

/// The first place from `from` on at which `pattern` stands in the
/// characters.
fn find_from(chars: &Vec<char>, pattern: &str, from: usize) -> (r: Option<usize>)
    ensures
        match r {
            Some(i) => occurs_from(chars@, pattern@, from as int) && i == position_from(
                chars@,
                pattern@,
                from as int,
            ) && from <= i && i + pattern@.len() <= chars@.len(),
            None => !occurs_from(chars@, pattern@, from as int),
        },
{
    let wanted = chars_of(pattern);
    let n = chars.len();
    let m = wanted.len();
    if m > n {
        return None;
    }
    let last = n - m;
    let mut i: usize = from;
    loop
        invariant
            from <= i,
            m <= n,
            last == n - m,
            n == chars@.len(),
            m == wanted@.len(),
            wanted@ == pattern@,
            forall|j: int| from <= j < i ==> !#[trigger] occurs_at(chars@, pattern@, j),
        decreases last + 1 - i,
    {
        if i > last {
            return None;
        }
        if matches_at(chars, &wanted, i) {
            proof {
                lemma_position_from(chars@, pattern@, from as int, i as int);
            }
            return Some(i);
        }
        if i == last {
            return None;
        }
        i += 1;
    }
}

/// The end of the stretch that runs from `from` through the next full
/// stop.
fn find_stop(chars: &Vec<char>, from: usize) -> (end: usize)
    requires
        from <= chars@.len(),
    ensures
        end == through_stop(chars@, from as int),
        from <= end <= chars@.len(),
{
    proof {
        reveal_strlit(".");
        assert("."@.len() == 1);
    }
    let n = chars.len();
    match find_from(chars, ".", from) {
        Some(i) => i + 1,
        None => n,
    }
}

/// The brief of a description.
pub fn generate_brief_description(description: &str) -> (s: String)
    ensures
        s@ == brief_of(description@),
{
    let chars = chars_of(description);
    let n = chars.len();
    if n < 50 {
        return String::from_str(description);
    }
    let dollar = find_from(&chars, "$", 0);
    if find_from(&chars, "COLLECT", 0).is_some() || find_from(&chars, "PAY", 0).is_some() {
        match dollar {
            Some(at) => {
                let end = find_stop(&chars, at);
                return String::from_str(description.substring_char(0, end));
            },
            None => {},
        }
    }
    match find_from(&chars, "Go to", 0) {
        Some(at) => {
            let end = find_stop(&chars, at);
            return String::from_str(description.substring_char(at, end));
        },
        None => {},
    }
    if find_from(&chars, "harvest", 0).is_some() {
        if find_from(&chars, "Double", 0).is_some() {
            return String::from_str("Double harvest this year.");
        }
        if find_from(&chars, "Cut", 0).is_some() && find_from(&chars, "half", 0).is_some() {
            return String::from_str("Cut harvest in half.");
        }
    }
    if find_from(&chars, "Draw", 0).is_some() {
        if find_from(&chars, "O.T.B.", 0).is_some() {
            return String::from_str("Draw O.T.B.");
        }
        if find_from(&chars, "Farmer's Fate", 0).is_some() {
            return String::from_str("Draw Farmer's Fate.");
        }
    }
    let end = find_stop(&chars, 0);
    String::from_str(description.substring_char(0, end))
}

} // verus!
