//! Capture targets and the identifiers they travel under.

use crate::error::CaptureError;
use crate::search::{first_index, is_first_index, lemma_first_index_is, lemma_first_index_none};
use crate::text::{decimal_digits, push_decimal, push_signed_decimal, signed_decimal};
use vstd::prelude::*;
use vstd::string::StringExecFns;

verus! {

/// Something that can be captured: a top-level window or a monitor.
///
/// A target is a snapshot. Its `id` is only meaningful until the next
/// enumeration, because the handle behind it can go stale.
#[derive(Clone, Debug)]
pub struct CaptureTarget {
    /// `window:<handle>` or `monitor:<index>`.
    pub id: String,
    pub title: String,
    /// `window` or `monitor`.
    pub target_type: String,
    pub process_name: String,
    /// Owning process of a window; 0 for a monitor.
    pub process_id: u32,
    pub width: u32,
    pub height: u32,
    /// Base64 of a JPEG still, or empty when no thumbnail could be taken.
    pub thumbnail: String,
}

/// A target as plain values.
pub struct TargetView {
    pub id: Seq<char>,
    pub title: Seq<char>,
    pub target_type: Seq<char>,
    pub process_name: Seq<char>,
    pub process_id: u32,
    pub width: u32,
    pub height: u32,
    pub thumbnail: Seq<char>,
}

impl View for CaptureTarget {
    type V = TargetView;

    open spec fn view(&self) -> TargetView {
        TargetView {
            id: self.id@,
            title: self.title@,
            target_type: self.target_type@,
            process_name: self.process_name@,
            process_id: self.process_id,
            width: self.width,
            height: self.height,
            thumbnail: self.thumbnail@,
        }
    }
}

/// The targets of a list as plain values.
pub open spec fn targets_view(targets: Seq<CaptureTarget>) -> Seq<TargetView> {
    targets.map_values(|t: CaptureTarget| t@)
}

/// What an identifier points at.
#[derive(Clone, Copy, Debug, PartialEq, Eq, Structural)]
pub enum TargetRef {
    /// The window with this handle.
    Window(isize),
    /// The monitor at this position of the enumeration.
    Monitor(usize),
}

/// The identifier of the window with handle `handle`.
pub open spec fn spec_window_id(handle: isize) -> Seq<char> {
    "window:"@ + signed_decimal(handle as int)
}

/// The identifier of the monitor at position `index`.
pub open spec fn spec_monitor_id(index: usize) -> Seq<char> {
    "monitor:"@ + decimal_digits(index as nat)
}

/// The identifier of `target`.
pub open spec fn spec_target_id(target: TargetRef) -> Seq<char> {
    match target {
        TargetRef::Window(handle) => spec_window_id(handle),
        TargetRef::Monitor(index) => spec_monitor_id(index),
    }
}

/// Writes the identifier of a window.
pub fn window_id(handle: isize) -> (id: String)
    ensures
        id@ == spec_window_id(handle),
{
    let mut id = String::from_str("window:");
    push_signed_decimal(&mut id, handle as i64);
    id
}

/// Writes the identifier of a monitor.
pub fn monitor_id(index: usize) -> (id: String)
    ensures
        id@ == spec_monitor_id(index),
{
    let mut id = String::from_str("monitor:");
    push_decimal(&mut id, index as u128);
    id
}

/// Writes the identifier of `target`.
pub fn target_id(target: TargetRef) -> (id: String)
    ensures
        id@ == spec_target_id(target),
{
    match target {
        TargetRef::Window(handle) => window_id(handle),
        TargetRef::Monitor(index) => monitor_id(index),
    }
}

/// `c` is a decimal digit.
pub open spec fn is_digit(c: char) -> bool {
    '0' <= c && c <= '9'
}

/// Every character of `s` is a decimal digit.
pub open spec fn all_digits(s: Seq<char>) -> bool {
    forall|i: int| 0 <= i < s.len() ==> is_digit(#[trigger] s[i])
}

/// The number that the digits `s` spell.
pub open spec fn digits_value(s: Seq<char>) -> nat
    decreases s.len(),
{
    if s.len() == 0 {
        0
    } else {
        digits_value(s.drop_last()) * 10 + (s.last() as int - 48) as nat
    }
}

/// The number spelled by `s`, where `s` is one or more digits.
pub open spec fn parse_magnitude(s: Seq<char>) -> Option<nat> {
    if s.len() > 0 && all_digits(s) {
        Some(digits_value(s))
    } else {
        None
    }
}

/// The integer spelled by `s`: an optional sign, then one or more digits. A
/// minus sign is read only where `signed` allows it.
pub open spec fn parse_integer(s: Seq<char>, signed: bool) -> Option<int> {
    if s.len() > 0 && s[0] == '+' {
        match parse_magnitude(s.skip(1)) {
            Some(v) => Some(v as int),
            None => None,
        }
    } else if s.len() > 0 && s[0] == '-' && signed {
        match parse_magnitude(s.skip(1)) {
            Some(v) => Some(-(v as int)),
            None => None,
        }
    } else {
        match parse_magnitude(s) {
            Some(v) => Some(v as int),
            None => None,
        }
    }
}

/// The position of the first colon of `s`, if it has one.
pub open spec fn first_colon(s: Seq<char>) -> Option<int> {
    first_index(s, ':')
}

/// What the identifier `s` points at.
///
/// The text before the first colon names the kind, `window` or `monitor`;
/// the text after it is the handle, a signed integer, or the index, an
/// unsigned one. A number that does not fit the machine's word is no number.
pub open spec fn parse_target(s: Seq<char>) -> Option<TargetRef> {
    match first_colon(s) {
        None => None,
        Some(k) => {
            let kind = s.subrange(0, k);
            let value = s.subrange(k + 1, s.len() as int);
            if kind == "window"@ {
                match parse_integer(value, true) {
                    Some(v) => if isize::MIN <= v <= isize::MAX {
                        Some(TargetRef::Window(v as isize))
                    } else {
                        None
                    },
                    None => None,
                }
            } else if kind == "monitor"@ {
                match parse_integer(value, false) {
                    Some(v) => if 0 <= v <= usize::MAX {
                        Some(TargetRef::Monitor(v as usize))
                    } else {
                        None
                    },
                    None => None,
                }
            } else {
                None
            }
        },
    }
}

/// A longer run of digits spells a number at least as large as any of its
/// beginnings.
proof fn lemma_digits_value_grows(s: Seq<char>, j: int)
    requires
        0 <= j <= s.len(),
    ensures
        digits_value(s.subrange(0, j)) <= digits_value(s),
    decreases s.len(),
{
    if j == s.len() {
        assert(s.subrange(0, j) =~= s);
    } else {
        lemma_digits_value_grows(s.drop_last(), j);
        assert(s.drop_last().subrange(0, j) =~= s.subrange(0, j));
    }
}

/// An identifier with a character outside ASCII points at nothing.
proof fn lemma_non_ascii_points_nowhere(s: Seq<char>)
    requires
        !vstd::utf8::is_ascii_chars(s),
    ensures
        parse_target(s) is None,
{
    reveal_strlit("window");
    reveal_strlit("monitor");
    let i = choose|i: int| 0 <= i < s.len() && !('\0' <= #[trigger] s[i] <= '\u{7f}');
    match first_colon(s) {
        None => {},
        Some(k) => {
            assert(is_first_index(s, ':', k));
            let kind = s.subrange(0, k);
            let value = s.subrange(k + 1, s.len() as int);
            assert(kind.len() == k);
            if i < k {
                assert(kind[i] == s[i]);
                if kind == "window"@ {
                    assert("window"@[i] == s[i]);
                    assert(i < 6);
                }
                if kind == "monitor"@ {
                    assert("monitor"@[i] == s[i]);
                    assert(i < 7);
                }
            } else {
                assert(i > k);
                let at = i - k - 1;
                assert(value[at] == s[i]);
                assert(!is_digit(value[at]));
                if at > 0 {
                    assert(value.skip(1)[at - 1] == value[at]);
                    assert(!all_digits(value.skip(1)));
                }
                assert(!all_digits(value));
                assert(parse_magnitude(value) is None);
                if at == 0 {
                    assert(value[0] != '+' && value[0] != '-');
                } else {
                    assert(parse_magnitude(value.skip(1)) is None);
                }
                assert(parse_integer(value, true) is None);
                assert(parse_integer(value, false) is None);
            }
        },
    }
}

/// Reads the digits from `start` to the end of `id` as a number of at most
/// `limit`.
fn magnitude_from(id: &str, start: usize, limit: u128) -> (r: Option<u128>)
    requires
        id.is_ascii(),
        start <= id@.len(),
        limit <= 0x1_0000_0000_0000_0000,
    ensures
        r == match parse_magnitude(id@.subrange(start as int, id@.len() as int)) {
            Some(v) => if v <= limit {
                Some(v as u128)
            } else {
                None
            },
            None => None,
        },
{
    let bytes = id.as_bytes();
    let n = bytes.len();
    proof {
        vstd::string::is_ascii_spec_bytes(id);
    }
    let ghost digits = id@.subrange(start as int, id@.len() as int);
    if start >= n {
        return None;
    }
    let mut acc: u128 = 0;
    let mut i: usize = start;
    while i < n
        invariant
            start <= i <= n,
            n == id@.len(),
            n == bytes@.len(),
            id.is_ascii(),
            forall|j: int| 0 <= j < n ==> bytes@[j] == id@[j] as u8,
            digits == id@.subrange(start as int, id@.len() as int),
            all_digits(digits.subrange(0, i - start)),
            acc == digits_value(digits.subrange(0, i - start)),
            acc <= limit,
            limit <= 0x1_0000_0000_0000_0000,
        decreases n - i,
    {
        let b = bytes[i];
        let ghost upto = digits.subrange(0, i - start + 1);
        proof {
            assert(upto.drop_last() =~= digits.subrange(0, i - start));
            assert(upto.last() == id@[i as int]);
            assert('\0' <= id@[i as int] <= '\u{7f}');
        }
        if b < 48 || b > 57 {
            proof {
                assert(!is_digit(digits[i - start]));
            }
            return None;
        }
        acc = acc * 10 + (b - 48) as u128;
        proof {
            assert(is_digit(upto.last()));
            assert forall|j: int| 0 <= j < upto.len() implies is_digit(#[trigger] upto[j]) by {
                if j < upto.len() - 1 {
                    assert(upto[j] == digits.subrange(0, i - start)[j]);
                }
            }
        }
        if acc > limit {
            proof {
                if all_digits(digits) {
                    lemma_digits_value_grows(digits, i - start + 1);
                }
            }
            return None;
        }
        i = i + 1;
    }
    proof {
        assert(digits.subrange(0, i - start) =~= digits);
    }
    Some(acc)
}

/// Reads an identifier.
///
/// Every text that `parse_target` gives a meaning is accepted, and only
/// those: all others are an `InvalidTarget`.
pub fn parse_target_id(id: &str) -> (r: Result<TargetRef, CaptureError>)
    ensures
        r == match parse_target(id@) {
            Some(target) => Ok::<TargetRef, CaptureError>(target),
            None => Err::<TargetRef, CaptureError>(CaptureError::InvalidTarget),
        },
{
    if !id.is_ascii() {
        proof {
            lemma_non_ascii_points_nowhere(id@);
        }
        return Err(CaptureError::InvalidTarget);
    }
    let bytes = id.as_bytes();
    let n = bytes.len();
    proof {
        vstd::string::is_ascii_spec_bytes(id);
        reveal_strlit("window");
        reveal_strlit("monitor");
    }
    let mut k: usize = 0;
    while k < n && bytes[k] != 58
        invariant
            k <= n,
            n == id@.len(),
            n == bytes@.len(),
            id.is_ascii(),
            forall|j: int| 0 <= j < n ==> bytes@[j] == id@[j] as u8,
            forall|j: int| 0 <= j < k ==> id@[j] != ':',
        decreases n - k,
    {
        proof {
            assert('\0' <= id@[k as int] <= '\u{7f}');
        }
        k = k + 1;
    }
    if k >= n {
        proof {
            lemma_first_index_none(id@, ':');
        }
        return Err(CaptureError::InvalidTarget);
    }
    proof {
        assert('\0' <= id@[k as int] <= '\u{7f}');
        assert(is_first_index(id@, ':', k as int));
        lemma_first_index_is(id@, ':', k as int);
    }
    let ghost kind = id@.subrange(0, k as int);
    let ghost value = id@.subrange(k + 1, n as int);
    let is_window = k == 6 && bytes[0] == 119 && bytes[1] == 105 && bytes[2] == 110 && bytes[3]
        == 100 && bytes[4] == 111 && bytes[5] == 119;
    let is_monitor = k == 7 && bytes[0] == 109 && bytes[1] == 111 && bytes[2] == 110 && bytes[3]
        == 105 && bytes[4] == 116 && bytes[5] == 111 && bytes[6] == 114;
    proof {
        reveal_strlit("window");
        reveal_strlit("monitor");
        assert forall|j: int| 0 <= j < k implies '\0' <= #[trigger] id@[j] <= '\u{7f}' by {}
        assert(kind.len() == k);
        if is_window {
            assert(kind =~= "window"@);
        } else if kind == "window"@ {
            assert(k == 6);
            assert(forall|j: int| 0 <= j < 6 ==> kind[j] == id@[j]);
            assert(kind[0] == 'w' && kind[1] == 'i' && kind[2] == 'n' && kind[3] == 'd' && kind[4]
                == 'o' && kind[5] == 'w');
            assert(false);
        }
        if is_monitor {
            assert(kind =~= "monitor"@);
        } else if kind == "monitor"@ {
            assert(k == 7);
            assert(forall|j: int| 0 <= j < 7 ==> kind[j] == id@[j]);
            assert(kind[0] == 'm' && kind[1] == 'o' && kind[2] == 'n' && kind[3] == 'i' && kind[4]
                == 't' && kind[5] == 'o' && kind[6] == 'r');
            assert(false);
        }
    }
    if !is_window && !is_monitor {
        return Err(CaptureError::InvalidTarget);
    }
    let first = k + 1;
    let sign: u8 = if first < n {
        bytes[first]
    } else {
        0
    };
    proof {
        if first < n {
            assert(value[0] == id@[first as int]);
            assert('\0' <= id@[first as int] <= '\u{7f}');
            assert(value.skip(1) =~= id@.subrange(first + 1, n as int));
        }
        assert(value =~= id@.subrange(first as int, n as int));
    }
    if is_window {
        if sign == 45 {
            let floor: u128 = (isize::MAX as u128) + 1;
            match magnitude_from(id, first + 1, floor) {
                Some(v) => {
                    let negated: i128 = -(v as i128);
                    Ok(TargetRef::Window(negated as isize))
                },
                None => Err(CaptureError::InvalidTarget),
            }
        } else {
            let digits_at = if sign == 43 {
                first + 1
            } else {
                first
            };
            match magnitude_from(id, digits_at, isize::MAX as u128) {
                Some(v) => Ok(TargetRef::Window(v as isize)),
                None => Err(CaptureError::InvalidTarget),
            }
        }
    } else {
        let digits_at = if sign == 43 {
            first + 1
        } else {
            first
        };
        match magnitude_from(id, digits_at, usize::MAX as u128) {
            Some(v) => Ok(TargetRef::Monitor(v as usize)),
            None => Err(CaptureError::InvalidTarget),
        }
    }
}

/// The digits of a number are digits, and they spell that number.
pub proof fn lemma_decimal_digits_spell(n: nat)
    ensures
        all_digits(decimal_digits(n)),
        decimal_digits(n).len() >= 1,
        digits_value(decimal_digits(n)) == n,
    decreases n,
{
    if n < 10 {
        let s = decimal_digits(n);
        assert(s.drop_last() =~= Seq::<char>::empty());
        assert(digits_value(s.drop_last()) == 0);
    } else {
        lemma_decimal_digits_spell(n / 10);
        let front = decimal_digits(n / 10);
        let s = decimal_digits(n);
        assert(s.drop_last() =~= front);
        assert(s.last() == crate::text::digit_char((n % 10) as int));
        assert forall|i: int| 0 <= i < s.len() implies is_digit(#[trigger] s[i]) by {
            if i < front.len() {
                assert(s[i] == front[i]);
            }
        }
    }
}

/// The text of an integer reads back as that integer.
pub proof fn lemma_signed_decimal_reads_back(v: int)
    ensures
        parse_integer(signed_decimal(v), true) == Some(v),
        v >= 0 ==> parse_integer(signed_decimal(v), false) == Some(v),
{
    if v < 0 {
        let digits = decimal_digits((-v) as nat);
        lemma_decimal_digits_spell((-v) as nat);
        let s = signed_decimal(v);
        assert(s[0] == '-');
        assert(s.skip(1) =~= digits);
    } else {
        lemma_decimal_digits_spell(v as nat);
        let s = signed_decimal(v);
        assert(is_digit(s[0]));
    }
}

/// An identifier that was written for a target reads back as that target.
pub proof fn lemma_target_id_round_trip(target: TargetRef)
    ensures
        parse_target(spec_target_id(target)) == Some(target),
{
    reveal_strlit("window:");
    reveal_strlit("monitor:");
    reveal_strlit("window");
    reveal_strlit("monitor");
    let s = spec_target_id(target);
    match target {
        TargetRef::Window(handle) => {
            let value = signed_decimal(handle as int);
            lemma_signed_decimal_reads_back(handle as int);
            assert(s == "window:"@ + value);
            assert(is_first_index(s, ':', 6));
            lemma_first_index_is(s, ':', 6);
            assert(s.subrange(0, 6) =~= "window"@);
            assert(s.subrange(7, s.len() as int) =~= value);
        },
        TargetRef::Monitor(index) => {
            let value = decimal_digits(index as nat);
            lemma_signed_decimal_reads_back(index as int);
            assert(s == "monitor:"@ + value);
            assert(is_first_index(s, ':', 7));
            lemma_first_index_is(s, ':', 7);
            assert(s.subrange(0, 7) =~= "monitor"@);
            assert(s.subrange(8, s.len() as int) =~= value);
            assert("monitor"@ != "window"@);
        },
    }
}

/// Different targets have different identifiers.
pub proof fn lemma_target_ids_differ(a: TargetRef, b: TargetRef)
    requires
        a != b,
    ensures
        spec_target_id(a) != spec_target_id(b),
{
    lemma_target_id_round_trip(a);
    lemma_target_id_round_trip(b);
}

} // verus!
