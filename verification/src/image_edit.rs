//! Image editing: which keyframes of the avatar animation apply to a frame
//! of the gif. (Blending them and compositing pixels is floating-point work
//! that stays with the caller.)
use vstd::prelude::*;
use vstd::string::*;

use crate::text::{decimal, decimal_string, digit_char, str_eq};

verus! {

pub open spec fn is_digit(c: char) -> bool {
    '0' <= c && c <= '9'
}

pub open spec fn digit_value(c: char) -> nat {
    if is_digit(c) {
        (c as int - 48) as nat
    } else {
        0
    }
}

/// The value of a string of decimal digits.
pub open spec fn digits_value(s: Seq<char>) -> nat
    decreases s.len(),
{
    if s.len() == 0 {
        0
    } else {
        digits_value(s.drop_last()) * 10 + digit_value(s.last())
    }
}

/// The digits of a number as `str::parse::<usize>` reads them: after an optional `+`.
pub open spec fn unsigned_digits(s: Seq<char>) -> Seq<char> {
    if s.len() > 0 && s[0] == '+' {
        s.drop_first()
    } else {
        s
    }
}

/// The number that `str::parse::<usize>` reads from `s`, if it reads one:
/// an optional `+`, then at least one decimal digit, of value at most `usize::MAX`.
pub open spec fn parse_usize(s: Seq<char>) -> Option<nat> {
    let digits = unsigned_digits(s);
    if digits.len() > 0 && (forall|i: int| 0 <= i < digits.len() ==> is_digit(digits[i]))
        && digits_value(digits) <= usize::MAX {
        Some(digits_value(digits))
    } else {
        None
    }
}

proof fn lemma_digits_value_grows(s: Seq<char>, k: int)
    requires
        0 <= k <= s.len(),
    ensures
        digits_value(s.subrange(0, k)) <= digits_value(s),
    decreases s.len() - k,
{
    if k < s.len() {
        let t = s.subrange(0, k + 1);
        assert(t.drop_last() =~= s.subrange(0, k));
        lemma_digits_value_grows(s, k + 1);
    } else {
        assert(s.subrange(0, k) =~= s);
    }
}

/// Reads a number as `str::parse::<usize>` does.
pub fn parse_usize_str(s: &str) -> (r: Option<usize>)
    ensures
        match r {
            Some(v) => parse_usize(s@) == Some(v as nat),
            None => parse_usize(s@) is None,
        },
{
    let n: usize = s.unicode_len();
    let start: usize = if n > 0 && s.get_char(0) == '+' {
        1
    } else {
        0
    };
    let ghost digits = unsigned_digits(s@);
    assert(digits =~= s@.subrange(start as int, n as int));
    if start == n {
        return None;
    }
    let mut acc: usize = 0;
    let mut i: usize = start;
    while i < n
        invariant
            start <= i <= n,
            n == s@.len(),
            digits =~= s@.subrange(start as int, n as int),
            digits == unsigned_digits(s@),
            forall|j: int| 0 <= j < i - start ==> is_digit(digits[j]),
            acc as nat == digits_value(digits.subrange(0, i - start)),
        decreases n - i,
    {
        let c: char = s.get_char(i);
        if !(c >= '0' && c <= '9') {
            assert(!is_digit(digits[i - start]));
            assert(parse_usize(s@) is None);
            return None;
        }
        let d: usize = (c as u32 - 48) as usize;
        let ghost prefix = digits.subrange(0, i - start + 1);
        assert(prefix.drop_last() =~= digits.subrange(0, i - start));
        assert(prefix.last() == c);
        assert(digit_value(c) == d as nat);
        assert(digits_value(prefix) == acc * 10 + d);
        match acc.checked_mul(10) {
            Some(m) => match m.checked_add(d) {
                Some(v) => {
                    acc = v;
                },
                None => {
                    proof {
                        lemma_digits_value_grows(digits, i - start + 1);
                        assert(digits_value(digits) > usize::MAX);
                    }
                    return None;
                },
            },
            None => {
                proof {
                    lemma_digits_value_grows(digits, i - start + 1);
                    assert(digits_value(digits) > usize::MAX);
                }
                return None;
            },
        }
        i = i + 1;
    }
    assert(digits.subrange(0, n - start) =~= digits);
    Some(acc)
}

/// The largest of `vals` below `frame`, if any.
pub open spec fn max_below(vals: Seq<nat>, frame: nat) -> Option<nat>
    decreases vals.len(),
{
    if vals.len() == 0 {
        None
    } else {
        let m = max_below(vals.drop_last(), frame);
        let v = vals.last();
        if v < frame {
            match m {
                Some(x) => Some(if v > x { v } else { x }),
                None => Some(v),
            }
        } else {
            m
        }
    }
}

/// The smallest of `vals` above `frame`, if any.
pub open spec fn min_above(vals: Seq<nat>, frame: nat) -> Option<nat>
    decreases vals.len(),
{
    if vals.len() == 0 {
        None
    } else {
        let m = min_above(vals.drop_last(), frame);
        let v = vals.last();
        if v > frame {
            match m {
                Some(x) => Some(if v < x { v } else { x }),
                None => Some(v),
            }
        } else {
            m
        }
    }
}

/// The frame numbers that the keys name.
pub open spec fn key_values(keys: Seq<Seq<char>>) -> Seq<nat> {
    keys.map_values(|k: Seq<char>| parse_usize(k)->0)
}

pub open spec fn keys_view(keys: Seq<String>) -> Seq<Seq<char>> {
    keys.map_values(|k: String| k@)
}

/// Which keyframes apply to a frame, by their position among the keys.
#[derive(Debug, Clone, Copy, PartialEq, Eq, Structural)]
pub enum KeyframeChoice {
    /// The keyframe of exactly this frame
    Exact(usize),
    /// No keyframes at all: the default one
    Default,
    /// Only keyframes on one side of the frame: the nearest one
    Single(usize),
    /// The nearest keyframes before and after the frame, to blend
    Between(usize, usize),
}

/// Whether looking up keyframes for `frame` is defined: either a keyframe
/// of that frame exists, or every key is a number and the nearest numbers
/// on either side are written as keys in their shortest form.
pub open spec fn keyframes_usable(keys: Seq<Seq<char>>, frame: nat) -> bool {
    ||| keys.contains(decimal(frame))
    ||| {
        &&& forall|i: int| 0 <= i < keys.len() ==> parse_usize(#[trigger] keys[i]) is Some
        &&& max_below(key_values(keys), frame) matches Some(b) ==> keys.contains(decimal(b))
        &&& min_above(key_values(keys), frame) matches Some(a) ==> keys.contains(decimal(a))
    }
}

/// Which keyframes apply to `frame`: its own one, else the nearest before
/// and after it, else the nearest on one side, else the default.
pub open spec fn keyframe_choice(keys: Seq<Seq<char>>, frame: nat, c: KeyframeChoice) -> bool {
    if keys.contains(decimal(frame)) {
        c matches KeyframeChoice::Exact(i) && i < keys.len() && keys[i as int] == decimal(frame)
    } else {
        let vals = key_values(keys);
        match (max_below(vals, frame), min_above(vals, frame)) {
            (None, None) => c is Default,
            (None, Some(a)) => c matches KeyframeChoice::Single(i) && i < keys.len() && keys[i as int]
                == decimal(a),
            (Some(b), None) => c matches KeyframeChoice::Single(i) && i < keys.len() && keys[i as int]
                == decimal(b),
            (Some(b), Some(a)) => c matches KeyframeChoice::Between(i, j) && i < keys.len() && j
                < keys.len() && keys[i as int] == decimal(b) && keys[j as int] == decimal(a),
        }
    }
}

/// Position of the key written `name`, if any.
fn find_key(keys: &Vec<String>, name: &str) -> (r: Option<usize>)
    ensures
        r matches Some(i) ==> i < keys.len() && keys_view(keys@)[i as int] == name@,
        r is None ==> !keys_view(keys@).contains(name@),
{
    let mut i: usize = 0;
    while i < keys.len()
        invariant
            i <= keys.len(),
            forall|j: int| 0 <= j < i ==> keys@[j]@ != name@,
        decreases keys.len() - i,
    {
        if str_eq(keys[i].as_str(), name) {
            return Some(i);
        }
        i = i + 1;
    }
    proof {
        if keys_view(keys@).contains(name@) {
            let j = choose|j: int| 0 <= j < keys.len() && keys_view(keys@)[j] == name@;
            assert(keys@[j]@ == name@);
        }
    }
    None
}

/// Which keyframes (named by `keys`) apply to frame `frame`, if the lookup is defined.
fn try_choose_keyframes(keys: &Vec<String>, frame: usize) -> (r: Option<KeyframeChoice>)
    ensures
        r is Some <==> keyframes_usable(keys_view(keys@), frame as nat),
        r matches Some(c) ==> keyframe_choice(keys_view(keys@), frame as nat, c),
{
    let ghost kv = keys_view(keys@);
    // first try to find exact keyframe
    let exact = decimal_string(frame as u64);
    if let Some(i) = find_key(keys, exact.as_str()) {
        proof {
            assert(kv.contains(decimal(frame as nat))) by {
                assert(kv[i as int] == decimal(frame as nat));
            }
        }
        return Some(KeyframeChoice::Exact(i));
    }
    let ghost vals = key_values(kv);
    let mut before: Option<usize> = None;
    let mut after: Option<usize> = None;
    let mut i: usize = 0;
    while i < keys.len()
        invariant
            i <= keys.len(),
            kv == keys_view(keys@),
            vals == key_values(kv),
            !kv.contains(decimal(frame as nat)),
            forall|j: int| 0 <= j < i ==> parse_usize(#[trigger] kv[j]) is Some,
            match before {
                Some(b) => max_below(vals.subrange(0, i as int), frame as nat) == Some(b as nat),
                None => max_below(vals.subrange(0, i as int), frame as nat) is None,
            },
            match after {
                Some(a) => min_above(vals.subrange(0, i as int), frame as nat) == Some(a as nat),
                None => min_above(vals.subrange(0, i as int), frame as nat) is None,
            },
        decreases keys.len() - i,
    {
        let v: usize = match parse_usize_str(keys[i].as_str()) {
            Some(v) => v,
            None => {
                assert(parse_usize(kv[i as int]) is None);
                return None;
            },
        };
        let ghost t = vals.subrange(0, i + 1);
        assert(t.drop_last() =~= vals.subrange(0, i as int));
        assert(t.last() == v as nat);
        if v < frame {
            before = match before {
                Some(b) => Some(if v > b { v } else { b }),
                None => Some(v),
            };
        }
        if v > frame {
            after = match after {
                Some(a) => Some(if v < a { v } else { a }),
                None => Some(v),
            };
        }
        i = i + 1;
    }
    assert(vals.subrange(0, keys.len() as int) =~= vals);
    let jb: Option<usize> = match before {
        Some(b) => {
            let name = decimal_string(b as u64);
            match find_key(keys, name.as_str()) {
                Some(j) => Some(j),
                None => return None,
            }
        },
        None => None,
    };
    let ja: Option<usize> = match after {
        Some(a) => {
            let name = decimal_string(a as u64);
            match find_key(keys, name.as_str()) {
                Some(j) => Some(j),
                None => return None,
            }
        },
        None => None,
    };
    match (jb, ja) {
        (None, None) => Some(KeyframeChoice::Default),
        (None, Some(j)) => Some(KeyframeChoice::Single(j)),
        (Some(j), None) => Some(KeyframeChoice::Single(j)),
        (Some(j), Some(k)) => Some(KeyframeChoice::Between(j, k)),
    }
}

/// Whether [`choose_keyframes`] is defined on `keys` and `frame`.
pub fn can_choose_keyframes(keys: &Vec<String>, frame: usize) -> (r: bool)
    ensures
        r == keyframes_usable(keys_view(keys@), frame as nat),
{
    try_choose_keyframes(keys, frame).is_some()
}

/// Which keyframes (named by `keys`) apply to frame `frame`.
pub fn choose_keyframes(keys: &Vec<String>, frame: usize) -> (r: KeyframeChoice)
    requires
        keyframes_usable(keys_view(keys@), frame as nat),
    ensures
        keyframe_choice(keys_view(keys@), frame as nat, r),
{
    try_choose_keyframes(keys, frame).unwrap()
}

proof fn lemma_decimal_is_digits(n: nat)
    ensures
        decimal(n).len() > 0,
        forall|i: int| 0 <= i < decimal(n).len() ==> is_digit(#[trigger] decimal(n)[i]),
        digits_value(decimal(n)) == n,
        decimal(n)[0] != '+',
    decreases n,
{
    reveal_strlit("0123456789");
    if n < 10 {
        assert(decimal(n) =~= seq![digit_char(n)]);
        assert(decimal(n).drop_last() =~= Seq::<char>::empty());
        assert(digit_value(digit_char(n)) == n);
        assert(digits_value(decimal(n)) == digits_value(Seq::<char>::empty()) * 10 + digit_value(
            digit_char(n),
        ));
    } else {
        lemma_decimal_is_digits(n / 10);
        let d = decimal(n);
        assert(d =~= decimal(n / 10).push(digit_char(n % 10)));
        assert(d.drop_last() =~= decimal(n / 10));
        assert(digit_value(digit_char(n % 10)) == n % 10);
        assert((n / 10) * 10 + n % 10 == n);
        assert(digits_value(d) == digits_value(decimal(n / 10)) * 10 + digit_value(d.last()));
        assert(d[0] == decimal(n / 10)[0]);
        assert forall|i: int| 0 <= i < d.len() implies is_digit(#[trigger] d[i]) by {
            if i < d.len() - 1 {
                assert(d[i] == decimal(n / 10)[i]);
            }
        }
    }
}

/// A number written in its shortest decimal form is read back as that
/// number: `parse::<usize>` undoes `to_string` on every `usize`.
pub proof fn lemma_parse_decimal(n: nat)
    requires
        n <= usize::MAX,
    ensures
        parse_usize(decimal(n)) == Some(n),
{
    lemma_decimal_is_digits(n);
    assert(unsigned_digits(decimal(n)) == decimal(n));
}

proof fn lemma_max_below_is_a_value(vals: Seq<nat>, frame: nat)
    ensures
        max_below(vals, frame) matches Some(b) ==> vals.contains(b),
        min_above(vals, frame) matches Some(a) ==> vals.contains(a),
    decreases vals.len(),
{
    if vals.len() > 0 {
        lemma_max_below_is_a_value(vals.drop_last(), frame);
        let last = vals.len() - 1;
        assert(vals[last] == vals.last());
        if let Some(x) = max_below(vals.drop_last(), frame) {
            let j = choose|j: int| 0 <= j < vals.drop_last().len() && vals.drop_last()[j] == x;
            assert(vals[j] == x);
        }
        if let Some(x) = min_above(vals.drop_last(), frame) {
            let j = choose|j: int| 0 <= j < vals.drop_last().len() && vals.drop_last()[j] == x;
            assert(vals[j] == x);
        }
    }
}

/// Keyframes keyed by plain frame numbers can be looked up for every frame:
/// if each key is the shortest decimal form of a `usize`, the lookup is defined.
pub proof fn lemma_plain_keys_usable(keys: Seq<Seq<char>>, frame: nat)
    requires
        forall|i: int|
            0 <= i < keys.len() ==> exists|n: nat| n <= usize::MAX && #[trigger] keys[i] == decimal(n),
    ensures
        keyframes_usable(keys, frame),
{
    let vals = key_values(keys);
    assert forall|i: int| 0 <= i < keys.len() implies parse_usize(#[trigger] keys[i]) is Some
        && decimal(vals[i]) == keys[i] by {
        let n = choose|n: nat| n <= usize::MAX && keys[i] == decimal(n);
        lemma_parse_decimal(n);
    }
    lemma_max_below_is_a_value(vals, frame);
    if let Some(b) = max_below(vals, frame) {
        let j = choose|j: int| 0 <= j < vals.len() && vals[j] == b;
        assert(keys[j] == decimal(b));
    }
    if let Some(a) = min_above(vals, frame) {
        let j = choose|j: int| 0 <= j < vals.len() && vals[j] == a;
        assert(keys[j] == decimal(a));
    }
}

/// The nearest values around a frame: `max_below` is the largest value
/// below the frame and `min_above` the smallest above it, whatever the order
/// of the values; `None` means there is no value on that side.
pub proof fn lemma_nearest_values(vals: Seq<nat>, frame: nat)
    ensures
        max_below(vals, frame) matches Some(b) ==> {
            &&& vals.contains(b)
            &&& b < frame
            &&& forall|v: nat| vals.contains(v) && v < frame ==> v <= b
        },
        max_below(vals, frame) is None ==> forall|v: nat| vals.contains(v) ==> v >= frame,
        min_above(vals, frame) matches Some(a) ==> {
            &&& vals.contains(a)
            &&& a > frame
            &&& forall|v: nat| vals.contains(v) && v > frame ==> v >= a
        },
        min_above(vals, frame) is None ==> forall|v: nat| vals.contains(v) ==> v <= frame,
    decreases vals.len(),
{
    lemma_max_below_is_a_value(vals, frame);
    if vals.len() > 0 {
        let rest = vals.drop_last();
        lemma_nearest_values(rest, frame);
        let last = vals.len() - 1;
        assert(vals[last] == vals.last());
        assert forall|v: nat| vals.contains(v) implies rest.contains(v) || v == vals.last() by {
            let j = choose|j: int| 0 <= j < vals.len() && vals[j] == v;
            if j < last {
                assert(rest[j] == v);
            }
        }
    }
}

/// The keyframes chosen for a frame between keyframes are the nearest ones:
/// the key at `i` names the largest keyed frame below `frame`, the key at `j`
/// the smallest one above it, whatever the order of the keys.
pub proof fn lemma_blend_between_nearest(keys: Seq<Seq<char>>, frame: nat, i: usize, j: usize)
    requires
        forall|k: int| 0 <= k < keys.len() ==> parse_usize(#[trigger] keys[k]) is Some,
        keyframe_choice(keys, frame, KeyframeChoice::Between(i, j)),
    ensures
        i < keys.len(),
        j < keys.len(),
        parse_usize(keys[i as int])->0 < frame < parse_usize(keys[j as int])->0,
        forall|k: int|
            0 <= k < keys.len() && parse_usize(#[trigger] keys[k])->0 < frame ==> parse_usize(keys[k])->0
                <= parse_usize(keys[i as int])->0,
        forall|k: int|
            0 <= k < keys.len() && parse_usize(#[trigger] keys[k])->0 > frame ==> parse_usize(keys[k])->0
                >= parse_usize(keys[j as int])->0,
{
    let vals = key_values(keys);
    lemma_nearest_values(vals, frame);
    let b = max_below(vals, frame)->0;
    let a = min_above(vals, frame)->0;
    assert(b <= usize::MAX) by {
        let k = choose|k: int| 0 <= k < vals.len() && vals[k] == b;
        assert(parse_usize(keys[k]) is Some);
    }
    assert(a <= usize::MAX) by {
        let k = choose|k: int| 0 <= k < vals.len() && vals[k] == a;
        assert(parse_usize(keys[k]) is Some);
    }
    lemma_parse_decimal(b);
    lemma_parse_decimal(a);
    assert forall|k: int| 0 <= k < keys.len() && parse_usize(#[trigger] keys[k])->0 < frame implies parse_usize(
        keys[k],
    )->0 <= b by {
        assert(vals[k] == parse_usize(keys[k])->0);
        assert(vals.contains(vals[k]));
    }
    assert forall|k: int| 0 <= k < keys.len() && parse_usize(#[trigger] keys[k])->0 > frame implies parse_usize(
        keys[k],
    )->0 >= a by {
        assert(vals[k] == parse_usize(keys[k])->0);
        assert(vals.contains(vals[k]));
    }
}

/// The other choices: an exact choice names a key of the frame itself; a
/// single keyframe is the nearest keyed frame and every other keyed frame
/// lies on its side (or names the frame itself in another spelling); the default is chosen only when no key names another frame.
pub proof fn lemma_other_choices_nearest(keys: Seq<Seq<char>>, frame: nat, c: KeyframeChoice)
    requires
        frame <= usize::MAX,
        forall|k: int| 0 <= k < keys.len() ==> parse_usize(#[trigger] keys[k]) is Some,
        keyframe_choice(keys, frame, c),
    ensures
        c matches KeyframeChoice::Exact(i) ==> i < keys.len() && parse_usize(keys[i as int]) == Some(frame),
        c matches KeyframeChoice::Single(i) ==> {
            &&& i < keys.len()
            &&& parse_usize(keys[i as int])->0 != frame
            &&& (parse_usize(keys[i as int])->0 < frame ==> forall|k: int|
                0 <= k < keys.len() ==> parse_usize(#[trigger] keys[k])->0 <= parse_usize(keys[i as int])->0
                    || parse_usize(keys[k])->0 == frame)
            &&& (parse_usize(keys[i as int])->0 > frame ==> forall|k: int|
                0 <= k < keys.len() ==> parse_usize(#[trigger] keys[k])->0 >= parse_usize(keys[i as int])->0
                    || parse_usize(keys[k])->0 == frame)
        },
        c is Default ==> forall|k: int| 0 <= k < keys.len() ==> parse_usize(#[trigger] keys[k]) == Some(frame),
{
    let vals = key_values(keys);
    lemma_nearest_values(vals, frame);
    lemma_parse_decimal(frame);
    assert forall|k: int| 0 <= k < keys.len() implies #[trigger] vals[k] == parse_usize(keys[k])->0
        && vals.contains(vals[k]) && vals[k] <= usize::MAX by {
        assert(parse_usize(keys[k]) is Some);
    }
    if !keys.contains(decimal(frame)) {
        if let Some(b) = max_below(vals, frame) {
            let k = choose|k: int| 0 <= k < vals.len() && vals[k] == b;
            assert(vals[k] == b);
            lemma_parse_decimal(b);
        }
        if let Some(a) = min_above(vals, frame) {
            let k = choose|k: int| 0 <= k < vals.len() && vals[k] == a;
            assert(vals[k] == a);
            lemma_parse_decimal(a);
        }
        match c {
            KeyframeChoice::Single(i) => {
                let x = parse_usize(keys[i as int])->0;
                if x < frame {
                    assert(min_above(vals, frame) is None);
                    assert forall|k: int| 0 <= k < keys.len() implies parse_usize(#[trigger] keys[k])->0
                        <= x || parse_usize(keys[k])->0 == frame by {
                        assert(vals[k] == parse_usize(keys[k])->0 && vals.contains(vals[k]));
                    }
                } else {
                    assert(max_below(vals, frame) is None);
                    assert forall|k: int| 0 <= k < keys.len() implies parse_usize(#[trigger] keys[k])->0
                        >= x || parse_usize(keys[k])->0 == frame by {
                        assert(vals[k] == parse_usize(keys[k])->0 && vals.contains(vals[k]));
                    }
                }
            },
            KeyframeChoice::Default => {
                assert forall|k: int| 0 <= k < keys.len() implies parse_usize(#[trigger] keys[k]) == Some(
                    frame,
                ) by {
                    assert(vals[k] == parse_usize(keys[k])->0 && vals.contains(vals[k]));
                    assert(parse_usize(keys[k]) is Some);
                }
            },
            _ => {},
        }
    }
}

} // verus!
