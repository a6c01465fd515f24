//! The order of the patch files of a dependency.
//!
//! A patch file is named by a number, a `-` and a descriptive slug, as in
//! `0001-update-line1.patch`. The number alone decides the order in which
//! patches are applied: it is compared as a number, so `0010` comes after
//! `0002`, and no two patches may carry the same one.

use crate::text::{
    all_digits, chars_of, digits_value, is_digit, lemma_digits_value_grows,
    lemma_zero_padded_reads_back, zero_padded, zero_padded_string,
};
use vstd::prelude::*;
use vstd::seq_lib::{
    to_multiset_build, to_multiset_contains, to_multiset_insert, to_multiset_len,
    to_multiset_remove,
};

verus! {

/// Why a list of patch names has no order.
#[derive(Debug, Clone, PartialEq, Eq)]
pub enum SequenceError {
    /// `name` does not begin with a number.
    InvalidPatchName { name: String },
    /// Two names begin with `number`.
    DuplicatePrefix { number: u32 },
}

/// What a `SequenceError` holds.
pub enum SequenceErrorView {
    InvalidPatchName { name: Seq<char> },
    DuplicatePrefix { number: u32 },
}

impl View for SequenceError {
    type V = SequenceErrorView;

    open spec fn view(&self) -> SequenceErrorView {
        match self {
            SequenceError::InvalidPatchName { name } => SequenceErrorView::InvalidPatchName {
                name: name@,
            },
            SequenceError::DuplicatePrefix { number } => SequenceErrorView::DuplicatePrefix {
                number: *number,
            },
        }
    }
}

/// Whether the prefix of `name` ends at `end`: there is no `-` before `end`,
/// and `end` is the place of a `-` or the end of the name.
pub open spec fn prefix_ends_at(name: Seq<char>, end: int) -> bool {
    &&& 0 <= end <= name.len()
    &&& forall|j: int| 0 <= j < end ==> name[j] != '-'
    &&& (end == name.len() || name[end] == '-')
}

/// The part of `name` before its first `-`; all of it if it has none.
pub open spec fn prefix_of(name: Seq<char>) -> Seq<char> {
    name.take(choose|end: int| prefix_ends_at(name, end))
}

/// `s` without the `+` sign that may stand in front of a number.
pub open spec fn unsigned(s: Seq<char>) -> Seq<char> {
    if s.len() > 0 && s[0] == '+' {
        s.skip(1)
    } else {
        s
    }
}

/// The number that `s` spells: decimal digits, at least one, after an
/// optional `+`, with a value that fits in 32 bits. Anything else spells no
/// number.
pub open spec fn number_of(s: Seq<char>) -> Option<u32> {
    let digits = unsigned(s);
    if digits.len() > 0 && all_digits(digits) && digits_value(digits) <= u32::MAX {
        Some(digits_value(digits) as u32)
    } else {
        None
    }
}

/// The number that the patch file `name` carries, if its prefix spells one.
pub open spec fn patch_number(name: Seq<char>) -> Option<u32> {
    number_of(prefix_of(name))
}

/// Whether every name carries a number.
pub open spec fn all_numbered(names: Seq<Seq<char>>) -> bool {
    forall|i: int| 0 <= i < names.len() ==> patch_number(#[trigger] names[i]) is Some
}

/// Whether no two names carry the same number.
pub open spec fn numbers_distinct(names: Seq<Seq<char>>) -> bool {
    forall|i: int, j: int|
        0 <= i < j < names.len() ==> patch_number(#[trigger] names[i]) != patch_number(
            #[trigger] names[j],
        )
}

/// Whether the names stand in strictly ascending order of their numbers.
pub open spec fn ascending(names: Seq<Seq<char>>) -> bool {
    forall|i: int, j: int|
        0 <= i < j < names.len() ==> patch_number(#[trigger] names[i])->0 < patch_number(
            #[trigger] names[j],
        )->0
}

/// Whether `names[at]` is the first name that carries no number.
pub open spec fn first_unnumbered(names: Seq<Seq<char>>, at: int) -> bool {
    &&& 0 <= at < names.len()
    &&& patch_number(names[at]) is None
    &&& forall|j: int| 0 <= j < at ==> patch_number(#[trigger] names[j]) is Some
}

/// Whether `names[at]` is the first name whose number an earlier name
/// carries too.
pub open spec fn first_repeat(names: Seq<Seq<char>>, at: int) -> bool {
    &&& 0 <= at < names.len()
    &&& numbers_distinct(names.take(at))
    &&& exists|i: int| 0 <= i < at && patch_number(#[trigger] names[i]) == patch_number(names[at])
}

/// Whether `sorted` is the order of application of `names`: the same names,
/// each as often as before, in strictly ascending order of their numbers.
pub open spec fn is_order_of(sorted: Seq<Seq<char>>, names: Seq<Seq<char>>) -> bool {
    &&& sorted.to_multiset() == names.to_multiset()
    &&& all_numbered(sorted)
    &&& ascending(sorted)
}

/// What comes of putting `names` in order: the names in their order of
/// application; or the first name without a number; or, where all names
/// carry one, the number of the first name that repeats an earlier one's.
pub open spec fn sequenced(names: Seq<Seq<char>>) -> Result<Seq<Seq<char>>, SequenceErrorView> {
    if !all_numbered(names) {
        Err(
            SequenceErrorView::InvalidPatchName {
                name: names[choose|at: int| first_unnumbered(names, at)],
            },
        )
    } else if !numbers_distinct(names) {
        Err(
            SequenceErrorView::DuplicatePrefix {
                number: patch_number(names[choose|at: int| first_repeat(names, at)])->0,
            },
        )
    } else {
        Ok(choose|sorted: Seq<Seq<char>>| is_order_of(sorted, names))
    }
}

/// Whether `next` is the number for a new patch file beside `names`: one
/// more than the greatest number that any of them carries, and 1 where none
/// carries a number.
pub open spec fn is_next_number(names: Seq<Seq<char>>, next: int) -> bool {
    &&& next >= 1
    &&& forall|i: int|
        0 <= i < names.len() && patch_number(#[trigger] names[i]) is Some ==> patch_number(
            names[i],
        )->0 < next
    &&& (next == 1 || exists|i: int|
        0 <= i < names.len() && patch_number(#[trigger] names[i]) is Some && patch_number(
            names[i],
        )->0 == next - 1)
}

/// The number for a new patch file beside `names`.
pub open spec fn next_number(names: Seq<Seq<char>>) -> int {
    choose|next: int| is_next_number(names, next)
}

/// The name of the patch file with number `number` and slug `slug`: the
/// number with zeros in front up to four digits, `-`, the slug, `.patch`.
pub open spec fn numbered_name(number: u32, slug: Seq<char>) -> Seq<char> {
    zero_padded(number as nat, 4) + seq!['-'] + slug + ".patch"@
}

/// The end of a prefix is fixed by the name.
pub proof fn lemma_prefix_end_unique(name: Seq<char>, end: int)
    requires
        prefix_ends_at(name, end),
    ensures
        prefix_of(name) == name.take(end),
{
}

/// A patch file named by `numbered_name` carries the number it was named
/// with.
pub proof fn lemma_numbered_name_carries_number(number: u32, slug: Seq<char>)
    ensures
        patch_number(numbered_name(number, slug)) == Some(number),
{
    let digits = zero_padded(number as nat, 4);
    let name = numbered_name(number, slug);
    lemma_zero_padded_reads_back(number as nat, 4);
    lemma_prefix_end_unique(name, digits.len() as int);
    assert(name.take(digits.len() as int) =~= digits);
}

/// There is one first name without a number only.
pub proof fn lemma_first_unnumbered_unique(names: Seq<Seq<char>>, at: int)
    requires
        first_unnumbered(names, at),
    ensures
        !all_numbered(names),
        (choose|k: int| first_unnumbered(names, k)) == at,
{
}

/// There is one first repeated number only.
pub proof fn lemma_first_repeat_unique(names: Seq<Seq<char>>, at: int)
    requires
        first_repeat(names, at),
    ensures
        !numbers_distinct(names),
        (choose|k: int| first_repeat(names, k)) == at,
{
    let chosen = choose|k: int| first_repeat(names, k);
    let early = choose|i: int|
        0 <= i < at && patch_number(#[trigger] names[i]) == patch_number(names[at]);
    if chosen > at {
        let seen = names.take(chosen);
        assert(patch_number(seen[early]) != patch_number(seen[at]));
    }
    if chosen < at {
        let late = choose|i: int|
            0 <= i < chosen && patch_number(#[trigger] names[i]) == patch_number(names[chosen]);
        let seen = names.take(at);
        assert(patch_number(seen[late]) != patch_number(seen[chosen]));
    }
}

/// Two lists of the same names, both in ascending order of their numbers,
/// are one list: the order of application depends on the names alone.
pub proof fn lemma_order_unique(a: Seq<Seq<char>>, b: Seq<Seq<char>>)
    requires
        a.to_multiset() == b.to_multiset(),
        ascending(a),
        ascending(b),
    ensures
        a == b,
    decreases a.len(),
{
    to_multiset_len(a);
    to_multiset_len(b);
    if a.len() > 0 {
        // Each list holds the first name of the other. Were the two first
        // names not the same, each would come after the other.
        to_multiset_contains(a, a[0]);
        to_multiset_contains(b, a[0]);
        to_multiset_contains(a, b[0]);
        to_multiset_contains(b, b[0]);
        assert(a[0] == b[0]);
        // Without them the lists still hold the same names, in order.
        to_multiset_remove(a, 0);
        to_multiset_remove(b, 0);
        lemma_order_unique(a.drop_first(), b.drop_first());
        assert(b =~= seq![b[0]] + b.drop_first());
    }
}

/// In a list in ascending order there is a place for a number that none of
/// its names carries: smaller numbers before it, greater ones from it on.
proof fn lemma_place_exists(sorted: Seq<Seq<char>>, number: u32, from: int) -> (place: int)
    requires
        ascending(sorted),
        0 <= from <= sorted.len(),
        forall|k: int| 0 <= k < sorted.len() ==> patch_number(#[trigger] sorted[k])->0 != number,
        forall|k: int| 0 <= k < from ==> patch_number(#[trigger] sorted[k])->0 < number,
    ensures
        0 <= place <= sorted.len(),
        forall|k: int| 0 <= k < place ==> patch_number(#[trigger] sorted[k])->0 < number,
        forall|k: int|
            place <= k < sorted.len() ==> patch_number(#[trigger] sorted[k])->0 > number,
    decreases sorted.len() - from,
{
    if from == sorted.len() {
        from
    } else if patch_number(sorted[from])->0 > number {
        from
    } else {
        lemma_place_exists(sorted, number, from + 1)
    }
}

/// Names that all carry a number, no two the same, have an order of
/// application.
pub proof fn lemma_order_exists(names: Seq<Seq<char>>)
    requires
        all_numbered(names),
        numbers_distinct(names),
    ensures
        exists|sorted: Seq<Seq<char>>| is_order_of(sorted, names),
    decreases names.len(),
{
    if names.len() == 0 {
        assert(is_order_of(names, names));
    } else {
        let init = names.drop_last();
        let last = names.last();
        let number = patch_number(last)->0;
        lemma_order_exists(init);
        let before = choose|sorted: Seq<Seq<char>>| is_order_of(sorted, init);
        assert forall|k: int| 0 <= k < before.len() implies patch_number(#[trigger] before[k])->0
            != number by {
            to_multiset_contains(before, before[k]);
            to_multiset_contains(init, before[k]);
        }
        let place = lemma_place_exists(before, number, 0);
        let sorted = before.insert(place, last);
        to_multiset_insert(before, place, last);
        assert(names =~= init.push(last));
        to_multiset_build(init, last);
        assert(is_order_of(sorted, names));
    }
}

/// What `sequenced` gives: an order of application exactly where every name
/// carries a number and no two carry the same; else the first name without
/// a number; else the first number that is repeated.
pub proof fn lemma_sequenced(names: Seq<Seq<char>>)
    ensures
        match sequenced(names) {
            Ok(sorted) => all_numbered(names) && numbers_distinct(names) && is_order_of(
                sorted,
                names,
            ),
            Err(SequenceErrorView::InvalidPatchName { name }) => exists|at: int|
                first_unnumbered(names, at) && name == names[at],
            Err(SequenceErrorView::DuplicatePrefix { number }) => all_numbered(names) && exists|
                at: int,
            | first_repeat(names, at) && patch_number(names[at]) == Some(number),
        },
{
    if !all_numbered(names) {
        let at = lemma_first_gap(names, 0);
        lemma_first_unnumbered_unique(names, at);
    } else if !numbers_distinct(names) {
        let at = lemma_first_clash(names, 0);
        lemma_first_repeat_unique(names, at);
    } else {
        lemma_order_exists(names);
    }
}

/// Names that stand in their order of application are put in that order
/// again: an order, once made, stays.
pub proof fn lemma_order_is_stable(sorted: Seq<Seq<char>>)
    requires
        all_numbered(sorted),
        ascending(sorted),
    ensures
        sequenced(sorted) == Ok::<Seq<Seq<char>>, SequenceErrorView>(sorted),
{
    assert(is_order_of(sorted, sorted));
    let chosen = choose|s: Seq<Seq<char>>| is_order_of(s, sorted);
    lemma_order_unique(chosen, sorted);
}

/// Where not every name carries a number, one is the first without.
proof fn lemma_first_gap(names: Seq<Seq<char>>, from: int) -> (at: int)
    requires
        !all_numbered(names),
        0 <= from <= names.len(),
        forall|j: int| 0 <= j < from ==> patch_number(#[trigger] names[j]) is Some,
    ensures
        first_unnumbered(names, at),
    decreases names.len() - from,
{
    if from < names.len() && patch_number(names[from]) is None {
        from
    } else {
        lemma_first_gap(names, from + 1)
    }
}

/// Where two names carry the same number, one is the first to repeat.
proof fn lemma_first_clash(names: Seq<Seq<char>>, from: int) -> (at: int)
    requires
        !numbers_distinct(names),
        0 <= from <= names.len(),
        numbers_distinct(names.take(from)),
    ensures
        first_repeat(names, at),
    decreases names.len() - from,
{
    if from == names.len() {
        assert(names.take(from) =~= names);
        0
    } else if exists|i: int|
        0 <= i < from && patch_number(#[trigger] names[i]) == patch_number(names[from]) {
        from
    } else {
        let grown = names.take(from + 1);
        assert forall|i: int, j: int| 0 <= i < j < grown.len() implies patch_number(
            #[trigger] grown[i],
        ) != patch_number(#[trigger] grown[j]) by {
            if j < from {
                assert(names.take(from)[i] == names[i] && names.take(from)[j] == names[j]);
            }
        }
        lemma_first_clash(names, from + 1)
    }
}

/// There is one number for a new patch file only.
pub proof fn lemma_next_number_unique(names: Seq<Seq<char>>, next: int)
    requires
        is_next_number(names, next),
    ensures
        next_number(names) == next,
{
    // Of two such numbers the greater one is not 1, so a name carries the
    // number before it, which the smaller one exceeds.
    assert(is_next_number(names, next_number(names)));
}

/// There is a number for a new patch file, whatever the names are: it is
/// greater than every number that they carry.
pub proof fn lemma_next_number_exists(names: Seq<Seq<char>>)
    ensures
        is_next_number(names, next_number(names)),
{
    let next = lemma_next_number_upto(names, names.len() as int);
    assert(names.take(names.len() as int) =~= names);
}

/// The number for a new patch file beside the first `upto` names.
proof fn lemma_next_number_upto(names: Seq<Seq<char>>, upto: int) -> (next: int)
    requires
        0 <= upto <= names.len(),
    ensures
        is_next_number(names.take(upto), next),
    decreases upto,
{
    if upto == 0 {
        1
    } else {
        let before = lemma_next_number_upto(names, upto - 1);
        let seen = names.take(upto - 1);
        let grown = names.take(upto);
        let last = names[upto - 1];
        assert forall|i: int| 0 <= i < upto - 1 implies #[trigger] grown[i] == seen[i] by {}
        assert(grown[upto - 1] == last);
        if patch_number(last) is Some && patch_number(last)->0 >= before {
            patch_number(last)->0 + 1
        } else {
            before
        }
    }
}

/// The place where the prefix of `chars` ends.
fn prefix_end(chars: &Vec<char>) -> (end: usize)
    ensures
        prefix_ends_at(chars@, end as int),
{
    let mut end: usize = 0;
    while end < chars.len() && chars[end] != '-'
        invariant
            end <= chars.len(),
            forall|j: int| 0 <= j < end ==> chars@[j] != '-',
        decreases chars.len() - end,
    {
        end += 1;
    }
    end
}

/// The number that the first `end` characters of `chars` spell.
fn read_number(chars: &Vec<char>, end: usize) -> (res: Option<u32>)
    requires
        end <= chars.len(),
    ensures
        res == number_of(chars@.take(end as int)),
{
    let start: usize = if end > 0 && chars[0] == '+' {
        1
    } else {
        0
    };
    let ghost digits = unsigned(chars@.take(end as int));
    if start == end {
        return None;
    }
    let mut value: u64 = 0;
    let mut i: usize = start;
    while i < end
        invariant
            start <= i <= end <= chars.len(),
            digits == unsigned(chars@.take(end as int)),
            digits == chars@.subrange(start as int, end as int),
            all_digits(digits.take(i - start)),
            value == digits_value(digits.take(i - start)),
            value <= u32::MAX,
        decreases end - i,
    {
        let c: char = chars[i];
        if c < '0' || c > '9' {
            assert(!is_digit(digits[i - start]));
            return None;
        }
        let digit: u64 = (c as u32 - '0' as u32) as u64;
        let ghost longer = digits.take(i - start + 1);
        assert(longer.drop_last() =~= digits.take(i - start));
        value = value * 10 + digit;
        if value > 0xffff_ffff {
            proof {
                lemma_digits_value_grows(digits, i - start + 1);
            }
            return None;
        }
        i += 1;
    }
    assert(digits.take(end - start) =~= digits);
    Some(value as u32)
}

/// The number that the patch file `name` carries: what stands before its
/// first `-`, read as a number. `None` if that is not an optional `+` and
/// then decimal digits, or if the number does not fit in 32 bits.
pub fn parse_patch_number(name: &str) -> (res: Option<u32>)
    ensures
        res == patch_number(name@),
{
    let chars = chars_of(name);
    let end = prefix_end(&chars);
    proof {
        lemma_prefix_end_unique(name@, end as int);
    }
    read_number(&chars, end)
}

/// The patch file names `names` in their order of application: ascending by
/// number. Fails if a name carries no number, and if two carry the same.
pub fn order(names: &Vec<String>) -> (res: Result<Vec<String>, SequenceError>)
    ensures
        match res {
            Ok(sorted) => {
                &&& sequenced(names.deep_view()) == Ok::<Seq<Seq<char>>, SequenceErrorView>(
                    sorted.deep_view(),
                )
                &&& all_numbered(names.deep_view())
                &&& numbers_distinct(names.deep_view())
                &&& is_order_of(sorted.deep_view(), names.deep_view())
            },
            Err(e) => {
                &&& sequenced(names.deep_view()) == Err::<Seq<Seq<char>>, SequenceErrorView>(e@)
                &&& match e {
                    SequenceError::InvalidPatchName { name } => exists|at: int|
                        first_unnumbered(names.deep_view(), at) && name@ == names.deep_view()[at],
                    SequenceError::DuplicatePrefix { number } => all_numbered(names.deep_view())
                        && exists|at: int|
                        first_repeat(names.deep_view(), at) && patch_number(
                            names.deep_view()[at],
                        ) == Some(number),
                }
            },
        },
{
    let ghost all = names.deep_view();
    let mut numbers: Vec<u32> = Vec::new();
    let mut i: usize = 0;
    while i < names.len()
        invariant
            i <= names.len(),
            all == names.deep_view(),
            numbers.len() == i,
            forall|j: int| 0 <= j < i ==> patch_number(#[trigger] all[j]) == Some(numbers@[j]),
        decreases names.len() - i,
    {
        match parse_patch_number(names[i].as_str()) {
            Some(number) => {
                numbers.push(number);
            },
            None => {
                proof {
                    lemma_first_unnumbered_unique(all, i as int);
                }
                return Err(SequenceError::InvalidPatchName { name: names[i].clone() });
            },
        }
        i += 1;
    }
    let mut sorted: Vec<String> = Vec::new();
    let mut keys: Vec<u32> = Vec::new();
    let mut i: usize = 0;
    assert(sorted.deep_view() =~= all.take(0));
    while i < names.len()
        invariant
            i <= names.len(),
            all == names.deep_view(),
            numbers.len() == names.len(),
            forall|j: int|
                0 <= j < names.len() ==> patch_number(#[trigger] all[j]) == Some(numbers@[j]),
            keys.len() == sorted.len(),
            forall|k: int|
                0 <= k < sorted.len() ==> patch_number(#[trigger] sorted.deep_view()[k]) == Some(
                    keys@[k],
                ),
            forall|a: int, b: int| 0 <= a < b < keys.len() ==> keys@[a] < keys@[b],
            sorted.deep_view().to_multiset() == all.take(i as int).to_multiset(),
            numbers_distinct(all.take(i as int)),
        decreases names.len() - i,
    {
        let number: u32 = numbers[i];
        let mut at: usize = 0;
        while at < keys.len() && keys[at] < number
            invariant
                at <= keys.len(),
                forall|k: int| 0 <= k < at ==> keys@[k] < number,
            decreases keys.len() - at,
        {
            at += 1;
        }
        let ghost before = sorted.deep_view();
        let ghost seen = all.take(i as int);
        if at < keys.len() && keys[at] == number {
            proof {
                to_multiset_contains(before, before[at as int]);
                to_multiset_contains(seen, before[at as int]);
                lemma_first_repeat_unique(all, i as int);
            }
            return Err(SequenceError::DuplicatePrefix { number });
        }
        sorted.insert(at, names[i].clone());
        keys.insert(at, number);
        proof {
            let after = sorted.deep_view();
            let grown = all.take(i + 1);
            assert(after =~= before.insert(at as int, all[i as int]));
            assert(grown =~= seen.push(all[i as int]));
            to_multiset_insert(before, at as int, all[i as int]);
            to_multiset_build(seen, all[i as int]);
            assert forall|a: int, b: int| 0 <= a < b < grown.len() implies patch_number(
                #[trigger] grown[a],
            ) != patch_number(#[trigger] grown[b]) by {
                if b == i {
                    to_multiset_contains(seen, seen[a]);
                    to_multiset_contains(before, seen[a]);
                }
            }
        }
        i += 1;
    }
    assert(all.take(names.len() as int) =~= all);
    proof {
        let chosen = choose|s: Seq<Seq<char>>| is_order_of(s, all);
        assert(is_order_of(sorted.deep_view(), all));
        lemma_order_unique(chosen, sorted.deep_view());
    }
    Ok(sorted)
}

/// The number for a new patch file: one more than the greatest number that
/// a name in `names` carries, and 1 where none carries a number. Names
/// without a number are passed over. `None` if the greatest number is the
/// greatest that fits in 32 bits.
pub fn next_available_number(names: &Vec<String>) -> (res: Option<u32>)
    ensures
        match res {
            Some(next) => next == next_number(names.deep_view()),
            None => next_number(names.deep_view()) > u32::MAX,
        },
        is_next_number(names.deep_view(), next_number(names.deep_view())),
{
    let ghost all = names.deep_view();
    let mut greatest: u32 = 0;
    let mut i: usize = 0;
    while i < names.len()
        invariant
            i <= names.len(),
            all == names.deep_view(),
            forall|j: int|
                0 <= j < i && patch_number(#[trigger] all[j]) is Some ==> patch_number(all[j])->0
                    <= greatest,
            greatest == 0 || exists|j: int|
                0 <= j < i && patch_number(#[trigger] all[j]) == Some(greatest),
        decreases names.len() - i,
    {
        match parse_patch_number(names[i].as_str()) {
            Some(number) => {
                assert(patch_number(all[i as int]) == Some(number));
                if number > greatest {
                    greatest = number;
                }
            },
            None => {
            },
        }
        i += 1;
    }
    proof {
        lemma_next_number_unique(all, greatest + 1);
    }
    if greatest == u32::MAX {
        None
    } else {
        Some(greatest + 1)
    }
}

/// The file name of the patch with number `number` and slug `slug`.
pub fn patch_file_name(number: u32, slug: &str) -> (out: String)
    ensures
        out@ == numbered_name(number, slug@),
        patch_number(out@) == Some(number),
{
    let mut out = zero_padded_string(number as u64, 4);
    proof {
        reveal_strlit("-");
        lemma_numbered_name_carries_number(number, slug@);
    }
    out.append("-");
    assert(out@ =~= zero_padded(number as nat, 4) + seq!['-']);
    out.append(slug);
    out.append(".patch");
    out
}

} // verus!
