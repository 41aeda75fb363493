//! The hero bitmask: eleven hero classes in a fixed order, bit `i` of a mask
//! standing for hero `i`.

use vstd::prelude::*;
use crate::constants::{HERO_COUNT, HERO_NAMES, MAX_HERO_MASK};
use crate::utils::{join, joined, lowercase, parse_unsigned, text_eq, to_lowercase, unsigned_within};

verus! {

/// The name of hero `i`.
pub open spec fn hero_name(i: int) -> Seq<char> {
    if i == 0 {
        "战士"@
    } else if i == 1 {
        "萨满祭司"@
    } else if i == 2 {
        "潜行者"@
    } else if i == 3 {
        "圣骑士"@
    } else if i == 4 {
        "猎人"@
    } else if i == 5 {
        "德鲁伊"@
    } else if i == 6 {
        "术士"@
    } else if i == 7 {
        "法师"@
    } else if i == 8 {
        "牧师"@
    } else if i == 9 {
        "恶魔猎手"@
    } else {
        "死亡骑士"@
    }
}

/// The bit that stands for hero `i`.
pub open spec fn hero_bit(i: int) -> u32 {
    1u32 << (i as u32)
}

/// The first hero at or after `from` that is called `name`.
pub open spec fn hero_position_from(name: Seq<char>, from: int) -> Option<int>
    decreases 11 - from,
{
    if from < 0 || from >= 11 {
        None
    } else if hero_name(from) == name {
        Some(from)
    } else {
        hero_position_from(name, from + 1)
    }
}

/// The position of the hero called exactly `name`, if there is one.
pub open spec fn hero_position(name: Seq<char>) -> Option<int> {
    hero_position_from(name, 0)
}

/// The bit of the hero called `name`; no bit for an unknown name.
pub open spec fn name_bit(name: Seq<char>) -> u32 {
    match hero_position(name) {
        Some(i) => hero_bit(i),
        None => 0,
    }
}

/// The names of the heroes below position `k` whose bit is set in `mask`, in table order.
pub open spec fn names_below(mask: u32, k: nat) -> Seq<Seq<char>>
    decreases k,
{
    if k == 0 {
        Seq::empty()
    } else if mask & hero_bit(k - 1) != 0 {
        names_below(mask, (k - 1) as nat).push(hero_name(k - 1))
    } else {
        names_below(mask, (k - 1) as nat)
    }
}

/// Decoding: the names of the heroes that `mask` selects, in table order.
pub open spec fn mask_names(mask: u32) -> Seq<Seq<char>> {
    names_below(mask, 11)
}

/// Encoding: the bitwise OR of the bits of the given names.
pub open spec fn names_mask(names: Seq<Seq<char>>) -> u32
    decreases names.len(),
{
    if names.len() == 0 {
        0
    } else {
        names_mask(names.drop_last()) | name_bit(names.last())
    }
}

/// The mask written in a text: the value of an unsigned literal, 0 for any other text.
pub open spec fn text_mask(text: Seq<char>) -> u32 {
    match unsigned_within(text, u32::MAX as nat) {
        Some(m) => m as u32,
        None => 0,
    }
}

proof fn lemma_names_start_apart()
    ensures
        forall|i: int, j: int|
            0 <= i < 11 && 0 <= j < 11 && i != j ==> #[trigger] hero_name(i)[0] != #[trigger] hero_name(j)[0],
        forall|i: int| 0 <= i < 11 ==> (#[trigger] hero_name(i)).len() >= 2,
{
    reveal_strlit("战士");
    reveal_strlit("萨满祭司");
    reveal_strlit("潜行者");
    reveal_strlit("圣骑士");
    reveal_strlit("猎人");
    reveal_strlit("德鲁伊");
    reveal_strlit("术士");
    reveal_strlit("法师");
    reveal_strlit("牧师");
    reveal_strlit("恶魔猎手");
    reveal_strlit("死亡骑士");
}

/// No two heroes share a name: looking a hero's name up gives that hero.
pub proof fn lemma_hero_names_distinct(i: int)
    requires
        0 <= i < 11,
    ensures
        hero_position(hero_name(i)) == Some(i),
{
    lemma_names_start_apart();
    lemma_position_scan(i, 0);
}

proof fn lemma_position_scan(i: int, from: int)
    requires
        0 <= from <= i < 11,
        forall|a: int, b: int|
            0 <= a < 11 && 0 <= b < 11 && a != b ==> #[trigger] hero_name(a)[0] != #[trigger] hero_name(b)[0],
    ensures
        hero_position_from(hero_name(i), from) == Some(i),
    decreases i - from,
{
    if from < i {
        assert(hero_name(from)[0] != hero_name(i)[0]);
        lemma_position_scan(i, from + 1);
    }
}

proof fn lemma_position_found(name: Seq<char>, from: int)
    requires
        0 <= from,
    ensures
        hero_position_from(name, from) matches Some(i) ==> from <= i < 11 && hero_name(i) == name,
    decreases 11 - from,
{
    if from < 11 && hero_name(from) != name {
        lemma_position_found(name, from + 1);
    }
}

/// The bits of `m` that stand below position `k`.
spec fn low_bits(m: u32, k: u32) -> u32 {
    m & !(0xffff_ffffu32 << k)
}

proof fn lemma_low_bits(m: u32, k: u32)
    requires
        k < 11,
    ensures
        low_bits(m, 0) == 0,
        m & (1u32 << k) != 0 ==> low_bits(m, k) | (1u32 << k) == low_bits(m, (k + 1) as u32),
        m & (1u32 << k) == 0 ==> low_bits(m, k) == low_bits(m, (k + 1) as u32),
        m <= 2047 ==> low_bits(m, 11) == m,
{
    assert(m & !(0xffff_ffffu32 << 0u32) == 0) by (bit_vector);
    assert(k < 11 && m & (1u32 << k) != 0 ==> (m & !(0xffff_ffffu32 << k)) | (1u32 << k) == m & !(
    0xffff_ffffu32 << ((k + 1) as u32))) by (bit_vector);
    assert(k < 11 && m & (1u32 << k) == 0 ==> m & !(0xffff_ffffu32 << k) == m & !(0xffff_ffffu32 << ((k
        + 1) as u32))) by (bit_vector);
    assert(m <= 2047 ==> m & !(0xffff_ffffu32 << 11u32) == m) by (bit_vector);
}

proof fn lemma_round_trip_below(m: u32, k: nat)
    requires
        k <= 11,
    ensures
        names_mask(names_below(m, k)) == low_bits(m, k as u32),
    decreases k,
{
    if k == 0 {
        lemma_low_bits(m, 0);
    } else {
        let j = (k - 1) as nat;
        lemma_round_trip_below(m, j);
        lemma_low_bits(m, j as u32);
        lemma_hero_names_distinct(j as int);
        if m & hero_bit(j as int) != 0 {
            let names = names_below(m, j).push(hero_name(j as int));
            assert(names.drop_last() =~= names_below(m, j));
            assert(names.last() == hero_name(j as int));
        }
    }
}

/// Decoding a mask into hero names and encoding those names again, by the
/// bitwise OR of each name's bit, gives the mask back.
pub proof fn lemma_mask_round_trip(m: u32)
    requires
        0 < m <= MAX_HERO_MASK,
    ensures
        names_mask(mask_names(m)) == m,
{
    lemma_round_trip_below(m, 11);
    lemma_low_bits(m, 0);
}

/// The full mask has exactly the eleven hero bits set.
pub proof fn lemma_full_mask()
    ensures
        MAX_HERO_MASK == (1u32 << 11) - 1,
{
    assert(2047u32 == (1u32 << 11u32) - 1) by (bit_vector);
}

/// What a single input selects when it is the word for all heroes or a
/// written mask; 0 where it is neither. `lowered` is the input in lowercase.
pub open spec fn single_input_mask(lowered: Seq<char>) -> u32 {
    if lowered == "all"@ || lowered == "全部"@ {
        MAX_HERO_MASK
    } else {
        text_mask(lowered)
    }
}

/// What a list of names selects: each known name adds its bit, and the word
/// for all heroes replaces what was gathered by the full mask. Other inputs
/// add nothing. `lowered` holds each input in lowercase.
pub open spec fn named_mask(inputs: Seq<Seq<char>>, lowered: Seq<Seq<char>>) -> u32
    decreases inputs.len(),
{
    if inputs.len() == 0 || lowered.len() != inputs.len() {
        0
    } else {
        let before = named_mask(inputs.drop_last(), lowered.drop_last());
        match hero_position(inputs.last()) {
            Some(i) => before | hero_bit(i),
            None => if lowered.last() == "all"@ || inputs.last() == "全部"@ {
                MAX_HERO_MASK
            } else {
                before
            },
        }
    }
}

/// The mask that a hero selection stands for. A single input may be the
/// word for all heroes or a written mask; where that gives nothing, the
/// inputs are read as names.
pub open spec fn selection_mask(inputs: Seq<Seq<char>>, lowered: Seq<Seq<char>>) -> u32 {
    let direct = if inputs.len() == 1 && lowered.len() == 1 {
        single_input_mask(lowered[0])
    } else {
        0
    };
    if direct != 0 {
        direct
    } else {
        named_mask(inputs, lowered)
    }
}

/// Each text in lowercase.
pub open spec fn lowercase_each(texts: Seq<Seq<char>>) -> Seq<Seq<char>> {
    Seq::new(texts.len(), |i: int| lowercase(texts[i]))
}

/// How a selection is shown: the word for all heroes for the full mask, the
/// selected names separated by commas otherwise.
pub open spec fn selection_label(mask: u32) -> Seq<char> {
    if mask == MAX_HERO_MASK {
        "全部"@
    } else {
        joined(mask_names(mask), ", "@)
    }
}

/// Where every input is the name of a hero, reading the inputs as names
/// gives the bitwise OR of their bits.
pub proof fn lemma_named_mask_of_heroes(inputs: Seq<Seq<char>>, lowered: Seq<Seq<char>>)
    requires
        lowered.len() == inputs.len(),
        forall|i: int| 0 <= i < inputs.len() ==> hero_position(#[trigger] inputs[i]) is Some,
    ensures
        named_mask(inputs, lowered) == names_mask(inputs),
    decreases inputs.len(),
{
    if inputs.len() > 0 {
        assert(hero_position(inputs[inputs.len() - 1]) is Some);
        assert forall|i: int| 0 <= i < inputs.drop_last().len() implies hero_position(
            #[trigger] inputs.drop_last()[i],
        ) is Some by {
            assert(inputs.drop_last()[i] == inputs[i]);
        }
        lemma_named_mask_of_heroes(inputs.drop_last(), lowered.drop_last());
    }
}

/// Looks a hero up by its exact name.
pub fn hero_index(name: &str) -> (found: Option<usize>)
    ensures
        found is Some <==> hero_position(name@) is Some,
        found matches Some(i) ==> hero_position(name@) == Some(i as int) && i < HERO_COUNT
            && hero_name(i as int) == name@,
{
    proof {
        lemma_position_found(name@, 0);
    }
    let mut i: usize = 0;
    while i < HERO_COUNT
        invariant
            i <= 11,
            hero_position(name@) == hero_position_from(name@, i as int),
        decreases 11 - i,
    {
        if text_eq(HERO_NAMES[i], name) {
            return Some(i);
        }
        i = i + 1;
    }
    None
}

/// The names of the heroes that `mask` selects, in table order.
pub fn mask_hero_names(mask: u32) -> (names: Vec<String>)
    ensures
        names.deep_view() == mask_names(mask),
{
    let mut names: Vec<String> = Vec::new();
    let mut i: usize = 0;
    assert(names.deep_view() =~= names_below(mask, 0));
    while i < HERO_COUNT
        invariant
            i <= 11,
            names.deep_view() == names_below(mask, i as nat),
        decreases 11 - i,
    {
        let bit: u32 = 1u32 << (i as u32);
        if mask & bit != 0 {
            let ghost before = names.deep_view();
            names.push(String::from_str(HERO_NAMES[i]));
            assert(names.deep_view() =~= before.push(hero_name(i as int)));
        }
        i = i + 1;
    }
    names
}

/// Whether an input is the word for all heroes, given its lowercase form.
fn is_all_word(input: &str, lowered: &str) -> (all: bool)
    ensures
        all == (lowered@ == "all"@ || input@ == "全部"@),
{
    text_eq(lowered, "all") || text_eq(input, "全部")
}

/// Reads a hero selection whose lowercase forms are given beside the
/// inputs, one for each; lists of different lengths select nothing.
pub fn selection_mask_of(inputs: &Vec<String>, lowered: &Vec<String>) -> (mask: u32)
    ensures
        mask == selection_mask(inputs.deep_view(), lowered.deep_view()),
{
    let ghost ins = inputs.deep_view();
    let ghost lows = lowered.deep_view();
    if lowered.len() != inputs.len() {
        return 0;
    }
    let mut mask: u32 = 0;
    if inputs.len() == 1 {
        let lower = lowered[0].as_str();
        if is_all_word(lower, lower) {
            mask = MAX_HERO_MASK;
        } else {
            match parse_unsigned(lower, 0xffff_ffff) {
                Some(m) => {
                    mask = m as u32;
                },
                None => {},
            }
        }
        assert(mask == single_input_mask(lows[0]));
    }
    if mask != 0 {
        return mask;
    }
    let mut i: usize = 0;
    assert(ins.take(0) =~= Seq::<Seq<char>>::empty());
    while i < inputs.len()
        invariant
            i <= inputs.len(),
            lowered.len() == inputs.len(),
            ins == inputs.deep_view(),
            lows == lowered.deep_view(),
            mask == named_mask(ins.take(i as int), lows.take(i as int)),
        decreases inputs.len() - i,
    {
        proof {
            assert(ins.take(i + 1).drop_last() =~= ins.take(i as int));
            assert(lows.take(i + 1).drop_last() =~= lows.take(i as int));
            assert(ins.take(i + 1).last() == inputs[i as int]@);
            assert(lows.take(i + 1).last() == lowered[i as int]@);
        }
        match hero_index(inputs[i].as_str()) {
            Some(idx) => {
                let bit: u32 = 1u32 << (idx as u32);
                mask = mask | bit;
            },
            None => {
                if is_all_word(inputs[i].as_str(), lowered[i].as_str()) {
                    mask = MAX_HERO_MASK;
                }
            },
        }
        i = i + 1;
    }
    proof {
        assert(ins.take(i as int) =~= ins);
        assert(lows.take(i as int) =~= lows);
    }
    mask
}

/// Reads a hero selection: the word for all heroes, a written mask, or hero
/// names, the bits of several names combined by bitwise OR.
pub fn hero_selection_mask(inputs: &Vec<String>) -> (mask: u32)
    ensures
        mask == selection_mask(inputs.deep_view(), lowercase_each(inputs.deep_view())),
{
    let mut lowered: Vec<String> = Vec::new();
    let mut i: usize = 0;
    while i < inputs.len()
        invariant
            i <= inputs.len(),
            lowered.len() == i,
            forall|j: int| 0 <= j < i ==> (#[trigger] lowered[j])@ == lowercase(inputs[j]@),
        decreases inputs.len() - i,
    {
        lowered.push(to_lowercase(inputs[i].as_str()));
        i = i + 1;
    }
    assert(lowered.deep_view() =~= lowercase_each(inputs.deep_view()));
    selection_mask_of(inputs, &lowered)
}

/// How a selection is shown: the word for all heroes for the full mask, the
/// selected names separated by commas otherwise.
pub fn selection_text(mask: u32) -> (text: String)
    ensures
        text@ == selection_label(mask),
{
    if mask == MAX_HERO_MASK {
        String::from_str("全部")
    } else {
        let names = mask_hero_names(mask);
        join(&names, ", ")
    }
}

} // verus!
