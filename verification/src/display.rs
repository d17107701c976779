//! Display bookkeeping: the modes a display offers, and the set of known
//! displays indexed by display id.

use vstd::prelude::*;
use vstd::std_specs::iter::IteratorSpec;
use std::collections::HashMap;

use crate::events::{F64Bits, F64_TWO_BITS};

verus! {

/// A display mode.
#[derive(Debug, Clone, Copy)]
pub struct DisplayMode {
    pub width: u32,
    pub height: u32,
    /// Refresh rate in millihertz (60000 = 60 Hz).
    pub refresh_rate: u32,
    pub bits_per_pixel: u32,
    pub is_retina: bool,
}

/// Whether mode `a` comes before mode `b` in the order in which modes are
/// listed: by width, then height, then refresh rate, largest first.
pub open spec fn mode_key_gt(a: DisplayMode, b: DisplayMode) -> bool {
    a.width > b.width || (a.width == b.width && (a.height > b.height || (a.height == b.height
        && a.refresh_rate > b.refresh_rate)))
}

/// Whether two modes have the same width, height and refresh rate.
pub open spec fn same_mode_key(a: DisplayMode, b: DisplayMode) -> bool {
    a.width == b.width && a.height == b.height && a.refresh_rate == b.refresh_rate
}

/// Whether a list of modes is in listing order with no two modes of the same
/// size and refresh rate.
pub open spec fn strictly_descending(s: Seq<DisplayMode>) -> bool {
    forall|i: int, j: int| 0 <= i < j < s.len() ==> #[trigger] mode_key_gt(s[i], s[j])
}

/// Whether `s[k]` is the first mode in `s` with its size and refresh rate.
#[verifier::opaque]
pub open spec fn first_occurrence(s: Seq<DisplayMode>, k: int) -> bool {
    0 <= k < s.len() && forall|j: int| 0 <= j < k ==> !#[trigger] same_mode_key(s[j], s[k])
}

/// Whether `m` is the first mode of `raw`, among those before position
/// `bound`, with its size and refresh rate.
#[verifier::opaque]
pub open spec fn first_of_its_key(raw: Seq<DisplayMode>, m: DisplayMode, bound: int) -> bool {
    exists|k: int| 0 <= k < bound && #[trigger] first_occurrence(raw, k) && m == raw[k]
}

/// Whether some mode of `out` has the size and refresh rate of `m`.
#[verifier::opaque]
pub open spec fn key_listed(out: Seq<DisplayMode>, m: DisplayMode) -> bool {
    exists|i: int| 0 <= i < out.len() && #[trigger] same_mode_key(out[i], m)
}

/// Whether `out` is the normalized form of the raw mode list `raw`: sorted
/// by width, height and refresh rate, largest first, with one mode for each
/// size and refresh rate found in `raw`, namely the first such mode of `raw`.
pub open spec fn normalized_modes(raw: Seq<DisplayMode>, out: Seq<DisplayMode>) -> bool {
    &&& strictly_descending(out)
    &&& forall|i: int| 0 <= i < out.len() ==> first_of_its_key(raw, #[trigger] out[i], raw.len() as int)
    &&& forall|k: int| 0 <= k < raw.len() && #[trigger] first_occurrence(raw, k) ==> out.contains(raw[k])
}

fn mode_gt(a: &DisplayMode, b: &DisplayMode) -> (r: bool)
    ensures
        r == mode_key_gt(*a, *b),
{
    a.width > b.width || (a.width == b.width && (a.height > b.height || (a.height == b.height
        && a.refresh_rate > b.refresh_rate)))
}

fn mode_same(a: &DisplayMode, b: &DisplayMode) -> (r: bool)
    ensures
        r == same_mode_key(*a, *b),
{
    a.width == b.width && a.height == b.height && a.refresh_rate == b.refresh_rate
}

proof fn lemma_sorted_same_elements(a: Seq<DisplayMode>, b: Seq<DisplayMode>)
    requires
        strictly_descending(a),
        strictly_descending(b),
        forall|i: int| 0 <= i < a.len() ==> b.contains(#[trigger] a[i]),
        forall|j: int| 0 <= j < b.len() ==> a.contains(#[trigger] b[j]),
    ensures
        a == b,
    decreases a.len(),
{
    if a.len() == 0 {
        if b.len() > 0 {
            assert(a.contains(b[0]));
        }
        assert(a =~= b);
    } else {
        assert(b.contains(a[0]));
        let j = choose|j: int| 0 <= j < b.len() && b[j] == a[0];
        assert(a.contains(b[0]));
        let i = choose|i: int| 0 <= i < a.len() && a[i] == b[0];
        if j > 0 {
            assert(mode_key_gt(b[0], b[j]));
            if i > 0 {
                assert(mode_key_gt(a[0], a[i]));
            }
            assert(false);
        }
        let ta = a.drop_first();
        let tb = b.drop_first();
        assert forall|x: int| 0 <= x < ta.len() implies tb.contains(#[trigger] ta[x]) by {
            assert(ta[x] == a[x + 1]);
            assert(mode_key_gt(a[0], a[x + 1]));
            assert(b.contains(a[x + 1]));
            let y = choose|y: int| 0 <= y < b.len() && b[y] == a[x + 1];
            assert(y != 0);
            assert(tb[y - 1] == b[y]);
        }
        assert forall|y: int| 0 <= y < tb.len() implies ta.contains(#[trigger] tb[y]) by {
            assert(tb[y] == b[y + 1]);
            assert(mode_key_gt(b[0], b[y + 1]));
            assert(a.contains(b[y + 1]));
            let x = choose|x: int| 0 <= x < a.len() && a[x] == b[y + 1];
            assert(x != 0);
            assert(ta[x - 1] == a[x]);
        }
        assert forall|p: int, q: int| 0 <= p < q < ta.len() implies #[trigger] mode_key_gt(ta[p], ta[q]) by {
            assert(mode_key_gt(a[p + 1], a[q + 1]));
        }
        assert forall|p: int, q: int| 0 <= p < q < tb.len() implies #[trigger] mode_key_gt(tb[p], tb[q]) by {
            assert(mode_key_gt(b[p + 1], b[q + 1]));
        }
        lemma_sorted_same_elements(ta, tb);
        assert(a =~= seq![a[0]] + ta);
        assert(b =~= seq![b[0]] + tb);
    }
}

/// A raw mode list has only one normalized form.
pub proof fn lemma_normalized_unique(raw: Seq<DisplayMode>, a: Seq<DisplayMode>, b: Seq<DisplayMode>)
    requires
        normalized_modes(raw, a),
        normalized_modes(raw, b),
    ensures
        a == b,
{
    assert forall|i: int| 0 <= i < a.len() implies b.contains(#[trigger] a[i]) by {
        assert(first_of_its_key(raw, a[i], raw.len() as int));
        reveal(first_of_its_key);
        let k = choose|k: int| 0 <= k < raw.len() && #[trigger] first_occurrence(raw, k) && a[i] == raw[k];
    }
    assert forall|j: int| 0 <= j < b.len() implies a.contains(#[trigger] b[j]) by {
        assert(first_of_its_key(raw, b[j], raw.len() as int));
        reveal(first_of_its_key);
        let k = choose|k: int| 0 <= k < raw.len() && #[trigger] first_occurrence(raw, k) && b[j] == raw[k];
    }
    lemma_sorted_same_elements(a, b);
}

/// A normalized mode list is its own normalized form, so normalizing twice
/// gives what normalizing once gives.
pub proof fn lemma_normalized_idempotent(raw: Seq<DisplayMode>, out: Seq<DisplayMode>)
    requires
        normalized_modes(raw, out),
    ensures
        normalized_modes(out, out),
{
    lemma_descending_is_normalized(out);
}

/// A list that is sorted with no repeated size and refresh rate is already
/// normalized.
proof fn lemma_descending_is_normalized(s: Seq<DisplayMode>)
    requires
        strictly_descending(s),
    ensures
        normalized_modes(s, s),
{
    assert forall|k: int| 0 <= k < s.len() implies #[trigger] first_occurrence(s, k) by {
        reveal(first_occurrence);
        assert forall|j: int| 0 <= j < k implies !#[trigger] same_mode_key(s[j], s[k]) by {
            assert(mode_key_gt(s[j], s[k]));
        }
    }
    assert forall|i: int| 0 <= i < s.len() implies first_of_its_key(s, #[trigger] s[i], s.len() as int) by {
        reveal(first_of_its_key);
        assert(first_occurrence(s, i));
    }
    assert forall|k: int| 0 <= k < s.len() && #[trigger] first_occurrence(s, k) implies s.contains(s[k]) by {
    }
}

/// What holds after the first `idx` raw modes have been merged into `out`.
spec fn merge_inv(raw: Seq<DisplayMode>, out: Seq<DisplayMode>, idx: int) -> bool {
    &&& 0 <= idx <= raw.len()
    &&& strictly_descending(out)
    &&& forall|i: int| 0 <= i < out.len() ==> first_of_its_key(raw, #[trigger] out[i], idx)
    &&& forall|k: int| 0 <= k < idx && #[trigger] first_occurrence(raw, k) ==> out.contains(raw[k])
    &&& forall|j: int| 0 <= j < idx ==> #[trigger] key_listed(out, raw[j])
}

proof fn lemma_merge_skip(raw: Seq<DisplayMode>, out: Seq<DisplayMode>, idx: int, p: int)
    requires
        merge_inv(raw, out, idx),
        idx < raw.len(),
        0 <= p < out.len(),
        same_mode_key(out[p], raw[idx]),
    ensures
        merge_inv(raw, out, idx + 1),
{
    assert(!first_occurrence(raw, idx)) by {
        assert(first_of_its_key(raw, out[p], idx));
        reveal(first_of_its_key);
        let k = choose|k: int| 0 <= k < idx && #[trigger] first_occurrence(raw, k) && out[p] == raw[k];
        reveal(first_occurrence);
        assert(same_mode_key(raw[k], raw[idx]));
    }
    assert forall|i: int| 0 <= i < out.len() implies first_of_its_key(raw, #[trigger] out[i], idx + 1) by {
        assert(first_of_its_key(raw, out[i], idx));
        reveal(first_of_its_key);
    }
    assert(key_listed(out, raw[idx])) by {
        reveal(key_listed);
        assert(same_mode_key(out[p], raw[idx]));
    }
}

proof fn lemma_merge_insert(raw: Seq<DisplayMode>, old_out: Seq<DisplayMode>, idx: int, p: int)
    requires
        merge_inv(raw, old_out, idx),
        idx < raw.len(),
        0 <= p <= old_out.len(),
        forall|q: int| 0 <= q < p ==> mode_key_gt(#[trigger] old_out[q], raw[idx]),
        p < old_out.len() ==> !mode_key_gt(old_out[p], raw[idx]) && !same_mode_key(old_out[p], raw[idx]),
    ensures
        merge_inv(raw, old_out.insert(p, raw[idx]), idx + 1),
{
    let m = raw[idx];
    let out = old_out.insert(p, m);
    assert forall|i: int| 0 <= i < old_out.len() implies !same_mode_key(#[trigger] old_out[i], m) by {
        if i < p {
            assert(mode_key_gt(old_out[i], m));
        } else if i > p {
            assert(mode_key_gt(old_out[p], old_out[i]));
        }
    }
    assert(first_occurrence(raw, idx)) by {
        reveal(first_occurrence);
        assert forall|j: int| 0 <= j < idx implies !#[trigger] same_mode_key(raw[j], raw[idx]) by {
            assert(key_listed(old_out, raw[j]));
            reveal(key_listed);
            let i = choose|i: int| 0 <= i < old_out.len() && #[trigger] same_mode_key(old_out[i], raw[j]);
            assert(!same_mode_key(old_out[i], m));
        }
    }
    assert forall|a: int, b: int| 0 <= a < b < out.len() implies #[trigger] mode_key_gt(out[a], out[b]) by {
        if b < p {
            assert(out[a] == old_out[a] && out[b] == old_out[b]);
        } else if b == p {
            assert(out[a] == old_out[a]);
        } else if a == p {
            assert(out[b] == old_out[b - 1]);
            if b - 1 > p {
                assert(mode_key_gt(old_out[p], old_out[b - 1]));
            }
        } else if a < p {
            assert(out[a] == old_out[a] && out[b] == old_out[b - 1]);
        } else {
            assert(out[a] == old_out[a - 1] && out[b] == old_out[b - 1]);
        }
    }
    assert forall|i: int| 0 <= i < out.len() implies first_of_its_key(raw, #[trigger] out[i], idx + 1) by {
        if i < p {
            assert(out[i] == old_out[i]);
            assert(first_of_its_key(raw, old_out[i], idx));
            reveal(first_of_its_key);
        } else if i == p {
            assert(out[i] == raw[idx]);
            reveal(first_of_its_key);
            assert(first_occurrence(raw, idx));
        } else {
            assert(out[i] == old_out[i - 1]);
            assert(first_of_its_key(raw, old_out[i - 1], idx));
            reveal(first_of_its_key);
        }
    }
    assert forall|k: int| 0 <= k < idx + 1 && #[trigger] first_occurrence(raw, k) implies out.contains(raw[k]) by {
        if k == idx {
            assert(out[p] == raw[k]);
        } else {
            assert(old_out.contains(raw[k]));
            let i = choose|i: int| 0 <= i < old_out.len() && old_out[i] == raw[k];
            if i < p {
                assert(out[i] == raw[k]);
            } else {
                assert(out[i + 1] == raw[k]);
            }
        }
    }
    assert forall|j: int| 0 <= j < idx + 1 implies #[trigger] key_listed(out, raw[j]) by {
        reveal(key_listed);
        if j == idx {
            assert(same_mode_key(out[p], raw[j]));
        } else {
            assert(key_listed(old_out, raw[j]));
            let i = choose|i: int| 0 <= i < old_out.len() && #[trigger] same_mode_key(old_out[i], raw[j]);
            if i < p {
                assert(same_mode_key(out[i], raw[j]));
            } else {
                assert(same_mode_key(out[i + 1], raw[j]));
            }
        }
    }
}

/// The modes of a normalized list are listed by width, largest first; modes
/// of equal width by height, largest first; modes of equal size by refresh
/// rate, highest first; and no two modes share width, height and refresh
/// rate.
pub proof fn lemma_normalized_listing_order(raw: Seq<DisplayMode>, out: Seq<DisplayMode>, i: int, j: int)
    requires
        normalized_modes(raw, out),
        0 <= i < j < out.len(),
    ensures
        out[i].width > out[j].width || (out[i].width == out[j].width && out[i].height > out[j].height) || (
        out[i].width == out[j].width && out[i].height == out[j].height && out[i].refresh_rate
            > out[j].refresh_rate),
{
    assert(mode_key_gt(out[i], out[j]));
}

/// Whether some mode of `out` has the width, height and refresh rate of `m`.
pub open spec fn lists_size_and_rate(out: Seq<DisplayMode>, m: DisplayMode) -> bool {
    exists|i: int|
        0 <= i < out.len() && out[i].width == m.width && out[i].height == m.height && out[i].refresh_rate
            == m.refresh_rate
}

/// Whether no mode before `raw[k]` has its width, height and refresh rate.
pub open spec fn earliest_of_its_size_and_rate(raw: Seq<DisplayMode>, k: int) -> bool {
    0 <= k < raw.len() && forall|j: int|
        0 <= j < k ==> !((#[trigger] raw[j]).width == raw[k].width && raw[j].height == raw[k].height
            && raw[j].refresh_rate == raw[k].refresh_rate)
}

/// Whether `m` is a raw mode that no earlier raw mode matches in width,
/// height and refresh rate.
pub open spec fn is_earliest_raw_mode(raw: Seq<DisplayMode>, m: DisplayMode) -> bool {
    exists|k: int| #[trigger] earliest_of_its_size_and_rate(raw, k) && raw[k] == m
}

/// Every mode of a normalized list is a mode of the raw list, namely the
/// first raw mode with its width, height and refresh rate, and every size
/// and refresh rate of the raw list is listed.
pub proof fn lemma_normalized_same_modes(raw: Seq<DisplayMode>, out: Seq<DisplayMode>)
    requires
        normalized_modes(raw, out),
    ensures
        forall|i: int| 0 <= i < out.len() ==> raw.contains(#[trigger] out[i]),
        forall|i: int|
            0 <= i < out.len() ==> is_earliest_raw_mode(raw, #[trigger] out[i]),
        forall|k: int| 0 <= k < raw.len() ==> lists_size_and_rate(out, #[trigger] raw[k]),
{
    assert forall|i: int| 0 <= i < out.len() implies raw.contains(#[trigger] out[i]) && is_earliest_raw_mode(
        raw,
        out[i],
    ) by {
        assert(first_of_its_key(raw, out[i], raw.len() as int));
        reveal(first_of_its_key);
        let k = choose|k: int| 0 <= k < raw.len() && #[trigger] first_occurrence(raw, k) && out[i] == raw[k];
        assert(raw[k] == out[i]);
        reveal(first_occurrence);
        assert forall|j: int| 0 <= j < k implies !((#[trigger] raw[j]).width == raw[k].width && raw[j].height
            == raw[k].height && raw[j].refresh_rate == raw[k].refresh_rate) by {
            assert(!same_mode_key(raw[j], raw[k]));
        }
        assert(earliest_of_its_size_and_rate(raw, k));
    }
    assert forall|k: int| 0 <= k < raw.len() implies lists_size_and_rate(out, #[trigger] raw[k]) by {
        let k0 = lemma_first_occurrence_exists(raw, k);
        assert(out.contains(raw[k0]));
        let i = choose|i: int| 0 <= i < out.len() && out[i] == raw[k0];
        assert(out[i].width == raw[k].width && out[i].height == raw[k].height && out[i].refresh_rate
            == raw[k].refresh_rate);
    }
}

/// Sorts a display's modes by resolution and refresh rate, largest first,
/// and removes modes that repeat a resolution and refresh rate (the first of
/// them is kept).
pub fn normalize_display_modes(raw: &Vec<DisplayMode>) -> (out: Vec<DisplayMode>)
    ensures
        normalized_modes(raw@, out@),
{
    let mut out: Vec<DisplayMode> = Vec::new();
    let mut idx: usize = 0;
    while idx < raw.len()
        invariant
            idx <= raw.len(),
            merge_inv(raw@, out@, idx as int),
        decreases raw.len() - idx,
    {
        let m = raw[idx];
        let mut p: usize = 0;
        while p < out.len() && mode_gt(&out[p], &m)
            invariant
                p <= out.len(),
                forall|q: int| 0 <= q < p ==> mode_key_gt(#[trigger] out@[q], m),
            decreases out.len() - p,
        {
            p = p + 1;
        }
        if p < out.len() && mode_same(&out[p], &m) {
            // A mode with this size and refresh rate is already listed.
            proof {
                lemma_merge_skip(raw@, out@, idx as int, p as int);
            }
        } else {
            proof {
                lemma_merge_insert(raw@, out@, idx as int, p as int);
            }
            out.insert(p, m);
        }
        idx = idx + 1;
    }
    out
}

/// Display information as the platform reports it.
#[derive(Debug)]
pub struct MacOSDisplay {
    /// The Core Graphics display id.
    pub display_id: u32,
    /// Display name (e.g. "Built-in Retina Display").
    pub name: String,
    /// Physical size in millimeters, where known.
    pub physical_size_mm: Option<(u32, u32)>,
    /// Current resolution.
    pub resolution: (u32, u32),
    /// Refresh rate in millihertz (60000 = 60 Hz).
    pub refresh_rate: u32,
    /// Scale factor (2.0 for Retina).
    pub scale_factor: F64Bits,
    /// Whether this is the main display.
    pub is_main: bool,
}

/// The decimal digit character of `d` (0 to 9).
pub open spec fn digit_char(d: nat) -> char {
    (48 + d) as char
}

/// The decimal representation of `n`, without leading zeros.
pub open spec fn decimal(n: nat) -> Seq<char>
    decreases n,
{
    if n < 10 {
        seq![digit_char(n)]
    } else {
        decimal(n / 10).push(digit_char(n % 10))
    }
}

/// The number that a string of decimal digits stands for, each character
/// read as its distance from '0'.
pub open spec fn decimal_value(s: Seq<char>) -> int
    decreases s.len(),
{
    if s.len() == 0 {
        0
    } else {
        decimal_value(s.drop_last()) * 10 + (s.last() as int - '0' as int)
    }
}

/// The decimal representation of `n` consists of the characters '0' to '9'
/// and, read back as a base-10 number, is `n`.
proof fn lemma_digit_char_value(d: nat)
    requires
        d < 10,
    ensures
        digit_char(d) as int == '0' as int + d,
{
    assert(d == 0 || d == 1 || d == 2 || d == 3 || d == 4 || d == 5 || d == 6 || d == 7 || d == 8 || d == 9);
}

pub proof fn lemma_decimal_reads_back(n: nat)
    ensures
        decimal_value(decimal(n)) == n,
        forall|i: int| 0 <= i < decimal(n).len() ==> '0' <= #[trigger] decimal(n)[i] <= '9',
        decimal(n).len() > 0,
        n >= 10 ==> decimal(n).len() > 1,
        decimal(n).len() > 1 ==> decimal(n)[0] != '0',
    decreases n,
{
    if n < 10 {
        lemma_digit_char_value(n);
        assert(decimal(n) == seq![digit_char(n)]);
        assert(decimal(n).drop_last() =~= Seq::<char>::empty());
        assert(decimal(n).last() == digit_char(n));
        assert(decimal_value(decimal(n)) == decimal_value(Seq::<char>::empty()) * 10 + (digit_char(n) as int
            - '0' as int));
    } else {
        lemma_decimal_reads_back(n / 10);
        lemma_digit_char_value(n % 10);
        let p = decimal(n / 10);
        assert(decimal(n) == p.push(digit_char(n % 10)));
        assert(decimal(n).drop_last() =~= p);
        assert((n / 10) * 10 + n % 10 == n) by (nonlinear_arith);
        assert(decimal(n).last() == digit_char(n % 10));
        assert(decimal_value(decimal(n)) == decimal_value(p) * 10 + (digit_char(n % 10) as int - '0' as int));
        assert forall|i: int| 0 <= i < decimal(n).len() implies '0' <= #[trigger] decimal(n)[i] <= '9' by {
            if i < p.len() {
                assert(decimal(n)[i] == p[i]);
            }
        }
        assert(decimal(n)[0] == p[0]);
        if n / 10 < 10 {
            lemma_digit_char_value(n / 10);
            assert(p == seq![digit_char(n / 10)]);
            assert(p[0] as int != '0' as int);
        }
    }
}

/// The one-character string of a decimal digit.
fn digit_str(d: u32) -> (r: &'static str)
    requires
        d < 10,
    ensures
        r@ == seq![digit_char(d as nat)],
{
    proof {
        reveal_strlit("0");
        reveal_strlit("1");
        reveal_strlit("2");
        reveal_strlit("3");
        reveal_strlit("4");
        reveal_strlit("5");
        reveal_strlit("6");
        reveal_strlit("7");
        reveal_strlit("8");
        reveal_strlit("9");
    }
    match d {
        0 => "0",
        1 => "1",
        2 => "2",
        3 => "3",
        4 => "4",
        5 => "5",
        6 => "6",
        7 => "7",
        8 => "8",
        _ => "9",
    }
}

/// Appends the decimal representation of `n` to `s`.
pub fn append_decimal(s: &mut String, n: u32)
    ensures
        final(s)@ == old(s)@ + decimal(n as nat),
    decreases n,
{
    if n >= 10 {
        append_decimal(s, n / 10);
    }
    s.append(digit_str(n % 10));
    proof {
        if n >= 10 {
            assert(decimal(n as nat) == decimal((n / 10) as nat).push(digit_char((n % 10) as nat)));
        }
    }
    assert(s@ =~= old(s)@ + decimal(n as nat));
}

/// The name of a display that is not the main one: "Display " followed by
/// the display id in decimal.
pub fn numbered_display_name(display_id: u32) -> (r: String)
    ensures
        r@ == "Display "@ + decimal(display_id as nat),
{
    let mut name = "Display ".to_owned();
    append_decimal(&mut name, display_id);
    name
}

/// The refresh rate to report for a measured rate in millihertz: a display
/// that reports no rate (0) counts as 60 Hz.
pub open spec fn reported_refresh_rate(refresh_mhz: u32) -> u32 {
    if refresh_mhz == 0 { 60_000 } else { refresh_mhz }
}

/// `kDisplayModeNativeFlag`: the mode is a native (Retina) mode.
pub const DISPLAY_MODE_NATIVE_FLAG: u32 = 0x0020_0000;

impl DisplayMode {
    /// A display mode as the platform describes it: size, refresh rate in
    /// millihertz (0 when unknown, which counts as 60 Hz), bit depth and
    /// mode flags; the native-mode flag marks a Retina mode.
    pub fn from_platform(width: u32, height: u32, refresh_mhz: u32, bits_per_pixel: u32, io_flags: u32) -> (r: DisplayMode)
        ensures
            r == (DisplayMode {
                width,
                height,
                refresh_rate: reported_refresh_rate(refresh_mhz),
                bits_per_pixel,
                is_retina: io_flags & DISPLAY_MODE_NATIVE_FLAG != 0,
            }),
    {
        let refresh_rate = if refresh_mhz == 0 { 60_000 } else { refresh_mhz };
        DisplayMode { width, height, refresh_rate, bits_per_pixel, is_retina: (io_flags & DISPLAY_MODE_NATIVE_FLAG) != 0 }
    }
}

/// What the platform reports of one active display: its id, the size and
/// refresh rate (in millihertz, 0 when unknown) of its current mode, its
/// physical size where known, and its scale factor.
#[derive(Debug, Clone, Copy)]
pub struct PlatformDisplay {
    pub display_id: u32,
    pub resolution: (u32, u32),
    pub refresh_mhz: u32,
    pub physical_size_mm: Option<(u32, u32)>,
    pub scale_factor: F64Bits,
}

/// Whether `r` is the display information for the active display `p`, given
/// the id of the main display: the main display is named "Built-in
/// Display", any other "Display <id>"; a refresh rate of 0 counts as 60 Hz.
pub open spec fn is_display_from_platform(r: MacOSDisplay, p: PlatformDisplay, main_id: u32) -> bool {
    &&& r.display_id == p.display_id
    &&& r.name@ == (if p.display_id == main_id {
        "Built-in Display"@
    } else {
        "Display "@ + decimal(p.display_id as nat)
    })
    &&& r.physical_size_mm == p.physical_size_mm
    &&& r.resolution == p.resolution
    &&& r.refresh_rate == reported_refresh_rate(p.refresh_mhz)
    &&& r.scale_factor == p.scale_factor
    &&& r.is_main == (p.display_id == main_id)
}

impl MacOSDisplay {
    /// Display information for an active display (see
    /// `is_display_from_platform`).
    pub fn from_platform(
        display_id: u32,
        main_id: u32,
        resolution: (u32, u32),
        refresh_mhz: u32,
        physical_size_mm: Option<(u32, u32)>,
        scale_factor: F64Bits,
    ) -> (r: MacOSDisplay)
        ensures
            is_display_from_platform(
                r,
                PlatformDisplay { display_id, resolution, refresh_mhz, physical_size_mm, scale_factor },
                main_id,
            ),
    {
        let name = if display_id == main_id {
            "Built-in Display".to_owned()
        } else {
            numbered_display_name(display_id)
        };
        let refresh_rate = if refresh_mhz == 0 { 60_000 } else { refresh_mhz };
        MacOSDisplay {
            display_id,
            name,
            physical_size_mm,
            resolution,
            refresh_rate,
            scale_factor,
            is_main: display_id == main_id,
        }
    }

    /// Display information for the platform's list of active displays, in
    /// list order, given the id of the main display (an empty list, as when
    /// the list cannot be read, gives no display).
    pub fn from_platform_list(active: &Vec<PlatformDisplay>, main_id: u32) -> (r: Vec<MacOSDisplay>)
        ensures
            r.len() == active.len(),
            forall|i: int| 0 <= i < r.len() ==> is_display_from_platform(#[trigger] r[i], active[i], main_id),
    {
        let mut r: Vec<MacOSDisplay> = Vec::new();
        let mut i: usize = 0;
        while i < active.len()
            invariant
                i <= active.len(),
                r.len() == i,
                forall|q: int| 0 <= q < i ==> is_display_from_platform(#[trigger] r[q], active[q], main_id),
            decreases active.len() - i,
        {
            let p = active[i];
            let d = MacOSDisplay::from_platform(
                p.display_id,
                main_id,
                p.resolution,
                p.refresh_mhz,
                p.physical_size_mm,
                p.scale_factor,
            );
            r.push(d);
            i = i + 1;
        }
        r
    }
}

/// Display bounds.
#[derive(Debug, Clone, Copy)]
pub struct DisplayBounds {
    pub x: F64Bits,
    pub y: F64Bits,
    pub width: F64Bits,
    pub height: F64Bits,
}

/// Information about a known display.
#[derive(Debug)]
pub struct DisplayInfo {
    pub id: u32,
    pub name: String,
    pub bounds: DisplayBounds,
    pub mode: DisplayMode,
    pub physical_size_mm: Option<(u32, u32)>,
    pub is_builtin: bool,
    pub is_main: bool,
    pub scale_factor: F64Bits,
}

/// The contents of a `DisplayInfo`, with the name as a sequence of chars.
pub struct DisplayInfoView {
    pub id: u32,
    pub name: Seq<char>,
    pub bounds: DisplayBounds,
    pub mode: DisplayMode,
    pub physical_size_mm: Option<(u32, u32)>,
    pub is_builtin: bool,
    pub is_main: bool,
    pub scale_factor: F64Bits,
}

impl View for DisplayInfo {
    type V = DisplayInfoView;

    open spec fn view(&self) -> DisplayInfoView {
        DisplayInfoView {
            id: self.id,
            name: self.name@,
            bounds: self.bounds,
            mode: self.mode,
            physical_size_mm: self.physical_size_mm,
            is_builtin: self.is_builtin,
            is_main: self.is_main,
            scale_factor: self.scale_factor,
        }
    }
}

impl Clone for DisplayInfo {
    fn clone(&self) -> (r: Self)
        ensures
            r@ == self@,
    {
        DisplayInfo {
            id: self.id,
            name: self.name.clone(),
            bounds: self.bounds,
            mode: self.mode,
            physical_size_mm: self.physical_size_mm,
            is_builtin: self.is_builtin,
            is_main: self.is_main,
            scale_factor: self.scale_factor,
        }
    }
}

/// A display configuration event.
#[derive(Debug)]
pub enum DisplayEvent {
    /// A new display was connected.
    Added(DisplayInfo),
    /// A display was disconnected (its id).
    Removed(u32),
    /// A display's configuration changed (resolution, position, ...).
    Changed(DisplayInfo),
    /// The main display changed (the new main display's id).
    MainChanged(u32),
}

/// The refresh rate assumed where nothing better is known: 60 Hz.
pub const DEFAULT_REFRESH_RATE: u32 = 60_000;

/// The modes of the simulated display: 2560x1600 and 1920x1200, both at
/// 60 Hz and 32 bits per pixel, the first a Retina mode.
pub open spec fn platform_modes() -> Seq<DisplayMode> {
    seq![
        DisplayMode { width: 2560, height: 1600, refresh_rate: 60_000, bits_per_pixel: 32, is_retina: true },
        DisplayMode { width: 1920, height: 1200, refresh_rate: 60_000, bits_per_pixel: 32, is_retina: false },
    ]
}

/// Whether a mode list offers a refresh rate above 60 Hz (ProMotion).
pub open spec fn has_promotion_mode(modes: Seq<DisplayMode>) -> bool {
    exists|i: int| 0 <= i < modes.len() && #[trigger] modes[i].refresh_rate > DEFAULT_REFRESH_RATE
}

/// Whether `r` is the highest refresh rate of the list (60 Hz for an empty
/// list).
pub open spec fn is_max_refresh_rate(modes: Seq<DisplayMode>, r: u32) -> bool {
    if modes.len() == 0 {
        r == DEFAULT_REFRESH_RATE
    } else {
        (exists|i: int| 0 <= i < modes.len() && #[trigger] modes[i].refresh_rate == r) && (forall|i: int|
            0 <= i < modes.len() ==> #[trigger] modes[i].refresh_rate <= r)
    }
}

/// A display as the platform side hands it over: the enumerated display,
/// what is worked out for it in floating point (its bounds, at the origin
/// with the display's resolution, and whether its scale factor is above
/// 1.5), and the modes that the platform lists for it.
pub struct ReportedDisplay {
    pub display: MacOSDisplay,
    pub bounds: DisplayBounds,
    pub is_retina: bool,
    pub modes: Vec<DisplayMode>,
}

/// A known display: its information and the modes listed for it.
pub struct KnownDisplay {
    pub info: DisplayInfoView,
    pub modes: Seq<DisplayMode>,
}

/// The information kept for an enumerated display: its id, name, physical
/// size and scale factor; the given bounds; a 32-bit mode of its resolution
/// at its refresh rate, Retina as given; built in and main when it is the
/// main display.
pub open spec fn display_info_of(d: MacOSDisplay, bounds: DisplayBounds, is_retina: bool) -> DisplayInfoView {
    DisplayInfoView {
        id: d.display_id,
        name: d.name@,
        bounds,
        mode: DisplayMode {
            width: d.resolution.0,
            height: d.resolution.1,
            refresh_rate: d.refresh_rate,
            bits_per_pixel: 32,
            is_retina,
        },
        physical_size_mm: d.physical_size_mm,
        is_builtin: d.is_main,
        is_main: d.is_main,
        scale_factor: d.scale_factor,
    }
}

impl View for ReportedDisplay {
    type V = KnownDisplay;

    open spec fn view(&self) -> KnownDisplay {
        KnownDisplay {
            info: display_info_of(self.display, self.bounds, self.is_retina),
            modes: self.modes@.map_values(|m: DisplayMode| with_reported_rate(m)),
        }
    }
}

impl DisplayInfo {
    /// The information kept for an enumerated display (see
    /// `display_info_of`).
    pub fn from_display(display: &MacOSDisplay, bounds: DisplayBounds, is_retina: bool) -> (r: DisplayInfo)
        ensures
            r@ == display_info_of(*display, bounds, is_retina),
    {
        DisplayInfo {
            id: display.display_id,
            name: display.name.clone(),
            bounds,
            mode: DisplayMode {
                width: display.resolution.0,
                height: display.resolution.1,
                refresh_rate: display.refresh_rate,
                bits_per_pixel: 32,
                is_retina,
            },
            physical_size_mm: display.physical_size_mm,
            is_builtin: display.is_main,
            is_main: display.is_main,
            scale_factor: display.scale_factor,
        }
    }
}

/// A mode as it is kept: a refresh rate of 0 (unknown) counts as 60 Hz.
pub open spec fn with_reported_rate(m: DisplayMode) -> DisplayMode {
    DisplayMode { refresh_rate: reported_refresh_rate(m.refresh_rate), ..m }
}

/// Whether every mode of the list has a positive refresh rate.
pub open spec fn rates_positive(s: Seq<DisplayMode>) -> bool {
    forall|i: int| 0 <= i < s.len() ==> (#[trigger] s[i]).refresh_rate > 0
}

/// A reported display's modes are kept in order with the refresh rate the
/// platform reported for them, a rate of 0 (unknown) being read as 60 Hz;
/// size, bit depth and Retina flag are kept as reported.
pub proof fn lemma_reported_modes_keep_rates(d: ReportedDisplay, i: int)
    requires
        0 <= i < d.modes@.len(),
    ensures
        d@.modes.len() == d.modes@.len(),
        d.modes@[i].refresh_rate > 0 ==> d@.modes[i].refresh_rate == d.modes@[i].refresh_rate,
        d.modes@[i].refresh_rate == 0 ==> d@.modes[i].refresh_rate == 60_000,
        d@.modes[i].width == d.modes@[i].width,
        d@.modes[i].height == d.modes@[i].height,
        d@.modes[i].bits_per_pixel == d.modes@[i].bits_per_pixel,
        d@.modes[i].is_retina == d.modes@[i].is_retina,
{
}

/// The modes as they are kept (see `with_reported_rate`), in the same order.
fn kept_display_modes(v: &Vec<DisplayMode>) -> (r: Vec<DisplayMode>)
    ensures
        r@ == v@.map_values(|m: DisplayMode| with_reported_rate(m)),
        rates_positive(r@),
{
    let mut r: Vec<DisplayMode> = Vec::new();
    let mut i: usize = 0;
    while i < v.len()
        invariant
            i <= v.len(),
            r@ == v@.subrange(0, i as int).map_values(|m: DisplayMode| with_reported_rate(m)),
        decreases v.len() - i,
    {
        let m = v[i];
        let refresh_rate = if m.refresh_rate == 0 { DEFAULT_REFRESH_RATE } else { m.refresh_rate };
        r.push(DisplayMode { refresh_rate, ..m });
        proof {
            assert(v@.subrange(0, i + 1) =~= v@.subrange(0, i as int).push(m));
        }
        i = i + 1;
    }
    assert(v@.subrange(0, i as int) =~= v@);
    r
}

/// A normalized mode list keeps only modes of the raw list, so when every
/// raw mode has a positive refresh rate, so has every listed mode.
pub proof fn lemma_normalized_rates_positive(raw: Seq<DisplayMode>, out: Seq<DisplayMode>)
    requires
        normalized_modes(raw, out),
        rates_positive(raw),
    ensures
        rates_positive(out),
{
    assert forall|i: int| 0 <= i < out.len() implies (#[trigger] out[i]).refresh_rate > 0 by {
        assert(first_of_its_key(raw, out[i], raw.len() as int));
        reveal(first_of_its_key);
        let k = choose|k: int| 0 <= k < raw.len() && #[trigger] first_occurrence(raw, k) && out[i] == raw[k];
        assert(raw[k].refresh_rate > 0);
    }
}

/// The modes that the platform lists for the simulated display (see
/// `platform_modes`).
pub fn simulated_display_modes() -> (r: Vec<DisplayMode>)
    ensures
        r@ == platform_modes(),
{
    let r = vec![
        DisplayMode { width: 2560, height: 1600, refresh_rate: 60_000, bits_per_pixel: 32, is_retina: true },
        DisplayMode { width: 1920, height: 1200, refresh_rate: 60_000, bits_per_pixel: 32, is_retina: false },
    ];
    assert(r@ =~= platform_modes());
    r
}

/// Whether `infos[k]` is the last display of `infos` with its id.
pub open spec fn last_with_its_id(infos: Seq<KnownDisplay>, k: int) -> bool {
    0 <= k < infos.len() && forall|j: int| k < j < infos.len() ==> #[trigger] infos[j].info.id != infos[k].info.id
}

/// The display table built from `infos` by inserting each display under its
/// id in turn, a later display replacing an earlier one with the same id.
pub open spec fn table_from(infos: Seq<KnownDisplay>) -> Map<u32, KnownDisplay>
    decreases infos.len(),
{
    if infos.len() == 0 {
        Map::empty()
    } else {
        table_from(infos.drop_last()).insert(infos.last().info.id, infos.last())
    }
}

/// Whether every display of the table is kept under its own id and lists
/// only modes with a positive refresh rate.
pub open spec fn table_wf(t: Map<u32, KnownDisplay>) -> bool {
    forall|id: u32| #[trigger] t.contains_key(id) ==> t[id].info.id == id && rates_positive(t[id].modes)
}

/// The modes listed for the display with id `id` (none for an unknown id).
pub open spec fn modes_of(t: Map<u32, KnownDisplay>, id: u32) -> Seq<DisplayMode> {
    if t.contains_key(id) {
        t[id].modes
    } else {
        Seq::empty()
    }
}

/// Whether `d` is the information of a display of the table.
pub open spec fn is_known_info(t: Map<u32, KnownDisplay>, d: DisplayInfoView) -> bool {
    exists|id: u32| #[trigger] t.contains_key(id) && t[id].info == d
}

/// Whether the display table has a main display.
pub open spec fn has_main(t: Map<u32, KnownDisplay>) -> bool {
    exists|id: u32| #[trigger] t.contains_key(id) && t[id].info.is_main
}

/// A display table holds the id of every display it was built from, and
/// under each id the last display given with that id.
pub proof fn lemma_table_from(infos: Seq<KnownDisplay>)
    ensures
        forall|k: int| 0 <= k < infos.len() ==> #[trigger] table_from(infos).contains_key(infos[k].info.id),
        forall|id: u32| #[trigger] table_from(infos).contains_key(id) ==> exists|k: int|
            #[trigger] last_with_its_id(infos, k) && infos[k].info.id == id && table_from(infos)[id] == infos[k],
    decreases infos.len(),
{
    if infos.len() > 0 {
        let p = infos.drop_last();
        let x = infos.last();
        let n = infos.len() - 1;
        lemma_table_from(p);
        let t = table_from(infos);
        assert(t == table_from(p).insert(x.info.id, x));
        assert forall|k: int| 0 <= k < infos.len() implies #[trigger] t.contains_key(infos[k].info.id) by {
            if k < n {
                assert(infos[k] == p[k]);
                assert(table_from(p).contains_key(p[k].info.id));
            }
        }
        assert forall|id: u32| #[trigger] t.contains_key(id) implies exists|k: int|
            #[trigger] last_with_its_id(infos, k) && infos[k].info.id == id && t[id] == infos[k] by {
            if id == x.info.id {
                assert(last_with_its_id(infos, n));
            } else {
                assert(table_from(p).contains_key(id));
                let k = choose|k: int| #[trigger] last_with_its_id(p, k) && p[k].info.id == id && table_from(p)[id] == p[k];
                assert(infos[k] == p[k]);
                assert forall|j: int| k < j < infos.len() implies #[trigger] infos[j].info.id != infos[k].info.id by {
                    if j < n {
                        assert(infos[j] == p[j]);
                    }
                }
                assert(last_with_its_id(infos, k));
            }
        }
    }
}

/// In a display table, the display kept for an id is the last display given
/// with that id.
pub proof fn lemma_table_keeps_last(infos: Seq<KnownDisplay>, k: int)
    requires
        last_with_its_id(infos, k),
    ensures
        table_from(infos).contains_key(infos[k].info.id),
        table_from(infos)[infos[k].info.id] == infos[k],
{
    lemma_table_from(infos);
    let id = infos[k].info.id;
    assert(table_from(infos).contains_key(id));
    let k2 = choose|k2: int| #[trigger] last_with_its_id(infos, k2) && infos[k2].info.id == id && table_from(infos)[id]
        == infos[k2];
    if k < k2 {
        assert(infos[k2].info.id != infos[k].info.id);
    } else if k2 < k {
        assert(infos[k].info.id != infos[k2].info.id);
    }
}

/// A display table has a main display when the last display given with
/// some id is a main display; in particular, a list of displays with
/// distinct ids and a main display gives a table with a main display.
pub proof fn lemma_table_has_main(infos: Seq<KnownDisplay>, k: int)
    requires
        last_with_its_id(infos, k),
        infos[k].info.is_main,
    ensures
        has_main(table_from(infos)),
{
    lemma_table_keeps_last(infos, k);
    let id = infos[k].info.id;
    assert(table_from(infos).contains_key(id) && table_from(infos)[id].info.is_main);
}

/// A table built from reported displays keeps each under its own id, with
/// positive refresh rates.
pub proof fn lemma_reported_table_wf(displays: Seq<ReportedDisplay>)
    ensures
        table_wf(table_from(displays.map_values(|d: ReportedDisplay| d@))),
{
    let iv = displays.map_values(|d: ReportedDisplay| d@);
    let t = table_from(iv);
    lemma_table_from(iv);
    assert forall|id: u32| #[trigger] t.contains_key(id) implies t[id].info.id == id && rates_positive(t[id].modes) by {
        let k = choose|k: int| #[trigger] last_with_its_id(iv, k) && iv[k].info.id == id && t[id] == iv[k];
        let raw = displays[k].modes@;
        assert(iv[k].modes == raw.map_values(|m: DisplayMode| with_reported_rate(m)));
        assert forall|q: int| 0 <= q < t[id].modes.len() implies (#[trigger] t[id].modes[q]).refresh_rate > 0 by {
            assert(t[id].modes[q] == with_reported_rate(raw[q]));
        }
    }
}

/// An entry of the display table.
struct DisplayEntry {
    info: DisplayInfo,
    modes: Vec<DisplayMode>,
}

/// The contents of a table entry.
spec fn entry_view(e: DisplayEntry) -> KnownDisplay {
    KnownDisplay { info: e.info@, modes: e.modes@ }
}

/// Display manager: the known displays, indexed by display id, with the
/// modes listed for each.
pub struct DisplayManager {
    displays: HashMap<u32, DisplayEntry>,
}

impl View for DisplayManager {
    type V = Map<u32, KnownDisplay>;

    closed spec fn view(&self) -> Map<u32, KnownDisplay> {
        self.displays@.map_values(|e: DisplayEntry| entry_view(e))
    }
}

impl DisplayManager {
    #[verifier::type_invariant]
    spec fn wf(self) -> bool {
        table_wf(self@)
    }

    /// Creates a display manager that knows the given displays (as
    /// enumerated from the platform), each under its id; of displays that
    /// share an id the last one counts.
    pub fn new(displays: Vec<ReportedDisplay>) -> (r: Self)
        ensures
            r@ == table_from(displays@.map_values(|d: ReportedDisplay| d@)),
    {
        let mut r = DisplayManager { displays: HashMap::new() };
        r.refresh_displays(displays);
        r
    }

    /// Replaces the known displays by the given ones, each under its id; of
    /// displays that share an id the last one counts.
    pub fn refresh_displays(&mut self, displays: Vec<ReportedDisplay>)
        ensures
            final(self)@ == table_from(displays@.map_values(|d: ReportedDisplay| d@)),
    {
        broadcast use vstd::std_specs::hash::group_hash_axioms;
        let ghost iv = displays@.map_values(|d: ReportedDisplay| d@);
        let mut table: HashMap<u32, DisplayEntry> = HashMap::new();
        let mut idx: usize = 0;
        proof {
            assert(table@.map_values(|e: DisplayEntry| entry_view(e)) =~= Map::<u32, KnownDisplay>::empty());
            assert(iv.subrange(0, 0) =~= Seq::<KnownDisplay>::empty());
        }
        while idx < displays.len()
            invariant
                idx <= displays.len(),
                iv == displays@.map_values(|d: ReportedDisplay| d@),
                table@.map_values(|e: DisplayEntry| entry_view(e)) == table_from(iv.subrange(0, idx as int)),
            decreases displays.len() - idx,
        {
            let report = &displays[idx];
            let entry = DisplayEntry {
                info: DisplayInfo::from_display(&report.display, report.bounds, report.is_retina),
                modes: kept_display_modes(&report.modes),
            };
            let id = entry.info.id;
            let ghost before = table@;
            let ghost ev = entry_view(entry);
            proof {
                assert(ev == iv[idx as int]);
                assert(iv.subrange(0, idx + 1).drop_last() =~= iv.subrange(0, idx as int));
                assert(iv.subrange(0, idx + 1).last() == ev);
            }
            table.insert(id, entry);
            proof {
                assert(table@.map_values(|e: DisplayEntry| entry_view(e)) =~= before.map_values(
                    |e: DisplayEntry| entry_view(e),
                ).insert(id, ev));
            }
            idx = idx + 1;
        }
        proof {
            assert(iv.subrange(0, idx as int) =~= iv);
            lemma_reported_table_wf(displays@);
        }
        self.displays = table;
    }

    /// All known displays, each once (in no particular order).
    pub fn get_displays(&self) -> (r: Vec<DisplayInfo>)
        ensures
            r.len() == self@.len(),
            forall|i: int| 0 <= i < r.len() ==> is_known_info(self@, #[trigger] r@[i]@),
            forall|id: u32| #[trigger] self@.contains_key(id) ==> exists|i: int| 0 <= i < r.len() && r@[i]@ == self@[id].info,
    {
        broadcast use vstd::std_specs::hash::group_hash_axioms;
        let ghost all = vstd::std_specs::hash::spec_values_iter(&self.displays).remaining().unref();
        let mut r: Vec<DisplayInfo> = Vec::new();
        for e in it: self.displays.values()
            invariant
                all == vstd::std_specs::hash::spec_values_iter(&self.displays).remaining().unref(),
                it.seq().unref() == all,
                r.len() == it.index(),
                forall|i: int| 0 <= i < r.len() ==> (#[trigger] r@[i])@ == all[i].info@,
        {
            r.push(e.info.clone());
        }
        proof {
            assert(all.to_set() == self.displays@.values());
            assert(self@.dom() =~= self.displays@.dom());
            assert forall|i: int| 0 <= i < r.len() implies is_known_info(self@, #[trigger] r@[i]@) by {
                assert(all.to_set().contains(all[i]));
                let id = choose|id: u32| self.displays@.contains_key(id) && self.displays@[id] == all[i];
                assert(self@.contains_key(id) && self@[id].info == r@[i]@);
            }
            assert forall|id: u32| #[trigger] self@.contains_key(id) implies exists|i: int| 0 <= i < r.len() && r@[i]@
                == self@[id].info by {
                assert(self.displays@.values().contains(self.displays@[id]));
                assert(all.to_set().contains(self.displays@[id]));
                let i = choose|i: int| 0 <= i < all.len() && all[i] == self.displays@[id];
                assert(r@[i]@ == self@[id].info);
            }
        }
        r
    }

    /// The main display, if a known display is the main one (of several
    /// main displays, any one may come back).
    pub fn get_main_display(&self) -> (r: Option<DisplayInfo>)
        ensures
            r is Some <==> has_main(self@),
            r matches Some(d) ==> exists|id: u32| #[trigger] self@.contains_key(id) && self@[id].info == d@ && d@.is_main,
    {
        broadcast use vstd::std_specs::hash::group_hash_axioms;
        let ghost all = vstd::std_specs::hash::spec_values_iter(&self.displays).remaining().unref();
        proof {
            assert(all.to_set() == self.displays@.values());
            assert(self@.dom() =~= self.displays@.dom());
        }
        for e in it: self.displays.values()
            invariant
                all == vstd::std_specs::hash::spec_values_iter(&self.displays).remaining().unref(),
                all.to_set() == self.displays@.values(),
                self@.dom() == self.displays@.dom(),
                it.seq().unref() == all,
                forall|i: int| 0 <= i < it.index() ==> !(#[trigger] all[i]).info.is_main,
        {
            if e.info.is_main {
                proof {
                    assert(all.to_set().contains(all[it.index()]));
                    let id = choose|id: u32| self.displays@.contains_key(id) && self.displays@[id] == all[it.index()];
                    assert(self@.contains_key(id) && self@[id].info.is_main);
                }
                return Some(e.info.clone());
            }
        }
        proof {
            assert forall|id: u32| #[trigger] self@.contains_key(id) implies !self@[id].info.is_main by {
                assert(self.displays@.values().contains(self.displays@[id]));
                let i = choose|i: int| 0 <= i < all.len() && all[i] == self.displays@[id];
            }
        }
        None
    }

    /// The display with the given id, if known.
    pub fn get_display(&self, id: u32) -> (r: Option<DisplayInfo>)
        ensures
            r is Some <==> self@.contains_key(id),
            r matches Some(d) ==> d@ == self@[id].info,
    {
        broadcast use vstd::std_specs::hash::group_hash_axioms;
        match self.displays.get(&id) {
            Some(e) => Some(e.info.clone()),
            None => None,
        }
    }

    /// The modes that a display offers, sorted by resolution and refresh
    /// rate, largest first, without repeats, each with a positive refresh
    /// rate (none for an unknown display).
    pub fn get_display_modes(&self, display_id: u32) -> (r: Vec<DisplayMode>)
        ensures
            normalized_modes(modes_of(self@, display_id), r@),
            rates_positive(r@),
    {
        broadcast use vstd::std_specs::hash::group_hash_axioms;
        proof {
            use_type_invariant(self);
        }
        match self.displays.get(&display_id) {
            Some(e) => {
                assert(modes_of(self@, display_id) == e.modes@);
                let r = normalize_display_modes(&e.modes);
                proof {
                    lemma_normalized_rates_positive(e.modes@, r@);
                }
                r
            },
            None => {
                let r: Vec<DisplayMode> = Vec::new();
                assert(modes_of(self@, display_id) =~= Seq::<DisplayMode>::empty());
                r
            },
        }
    }

    /// Whether a display offers a refresh rate above 60 Hz (ProMotion).
    pub fn supports_promotion(&self, display_id: u32) -> (r: bool)
        ensures
            r == has_promotion_mode(modes_of(self@, display_id)),
    {
        let modes = self.get_display_modes(display_id);
        proof {
            lemma_normalized_keeps_refresh_rates(modes_of(self@, display_id), modes@);
        }
        any_promotion_mode(&modes)
    }

    /// The highest refresh rate that a display offers (60 Hz if it lists no
    /// mode).
    pub fn max_refresh_rate(&self, display_id: u32) -> (r: u32)
        ensures
            is_max_refresh_rate(modes_of(self@, display_id), r),
    {
        let modes = self.get_display_modes(display_id);
        proof {
            lemma_normalized_keeps_refresh_rates(modes_of(self@, display_id), modes@);
        }
        max_refresh_rate_of(&modes)
    }

    /// The displays that the platform reports: one simulated main display of
    /// 2560x1600 at 60 Hz, scale 2, 344x215 mm.
    pub fn enumerate_displays() -> (r: Vec<MacOSDisplay>)
        ensures
            r.len() == 1,
            r[0].display_id == 0,
            r[0].name@ == "Simulated Display"@,
            r[0].physical_size_mm == Some((344u32, 215u32)),
            r[0].resolution == (2560u32, 1600u32),
            r[0].refresh_rate == 60_000,
            r[0].scale_factor == F64Bits(F64_TWO_BITS),
            r[0].is_main,
    {
        vec![
            MacOSDisplay {
                display_id: 0,
                name: "Simulated Display".to_owned(),
                physical_size_mm: Some((344, 215)),
                resolution: (2560, 1600),
                refresh_rate: 60_000,
                scale_factor: F64Bits(F64_TWO_BITS),
                is_main: true,
            },
        ]
    }
}

/// Whether some mode offers a refresh rate above 60 Hz.
pub fn any_promotion_mode(modes: &Vec<DisplayMode>) -> (r: bool)
    ensures
        r == has_promotion_mode(modes@),
{
    let mut i: usize = 0;
    while i < modes.len()
        invariant
            i <= modes.len(),
            forall|q: int| 0 <= q < i ==> (#[trigger] modes@[q]).refresh_rate <= DEFAULT_REFRESH_RATE,
        decreases modes.len() - i,
    {
        if modes[i].refresh_rate > DEFAULT_REFRESH_RATE {
            assert(modes@[i as int].refresh_rate > DEFAULT_REFRESH_RATE);
            return true;
        }
        i = i + 1;
    }
    false
}

/// The highest refresh rate of a mode list, or 60 Hz for an empty list.
pub fn max_refresh_rate_of(modes: &Vec<DisplayMode>) -> (r: u32)
    ensures
        is_max_refresh_rate(modes@, r),
{
    if modes.len() == 0 {
        return DEFAULT_REFRESH_RATE;
    }
    let mut best: u32 = modes[0].refresh_rate;
    let mut i: usize = 1;
    assert(modes@[0].refresh_rate == best);
    while i < modes.len()
        invariant
            1 <= i <= modes.len(),
            exists|q: int| 0 <= q < i && #[trigger] modes@[q].refresh_rate == best,
            forall|q: int| 0 <= q < i ==> #[trigger] modes@[q].refresh_rate <= best,
        decreases modes.len() - i,
    {
        if modes[i].refresh_rate > best {
            best = modes[i].refresh_rate;
            assert(modes@[i as int].refresh_rate == best);
        }
        i = i + 1;
    }
    best
}

/// Every mode of a list shares its size and refresh rate with the first mode
/// of the list that has them.
proof fn lemma_first_occurrence_exists(raw: Seq<DisplayMode>, k: int) -> (k0: int)
    requires
        0 <= k < raw.len(),
    ensures
        0 <= k0 <= k,
        first_occurrence(raw, k0),
        same_mode_key(raw[k0], raw[k]),
    decreases k,
{
    reveal(first_occurrence);
    if forall|j: int| 0 <= j < k ==> !#[trigger] same_mode_key(raw[j], raw[k]) {
        k
    } else {
        let j = choose|j: int| 0 <= j < k && #[trigger] same_mode_key(raw[j], raw[k]);
        lemma_first_occurrence_exists(raw, j)
    }
}

/// Whether some mode of the list has refresh rate `r`.
pub open spec fn rate_offered(s: Seq<DisplayMode>, r: u32) -> bool {
    exists|i: int| 0 <= i < s.len() && s[i].refresh_rate == r
}

/// The refresh rates offered by the normalized list are those of the raw
/// list.
proof fn lemma_normalized_same_rates(raw: Seq<DisplayMode>, out: Seq<DisplayMode>)
    requires
        normalized_modes(raw, out),
    ensures
        forall|r: u32| #[trigger] rate_offered(out, r) == rate_offered(raw, r),
        out.len() == 0 <==> raw.len() == 0,
{
    assert forall|r: u32| #[trigger] rate_offered(out, r) implies rate_offered(raw, r) by {
        let i = choose|i: int| 0 <= i < out.len() && out[i].refresh_rate == r;
        assert(first_of_its_key(raw, out[i], raw.len() as int));
        reveal(first_of_its_key);
        let k = choose|k: int| 0 <= k < raw.len() && #[trigger] first_occurrence(raw, k) && out[i] == raw[k];
        assert(raw[k].refresh_rate == r);
    }
    assert forall|r: u32| #[trigger] rate_offered(raw, r) implies rate_offered(out, r) by {
        let k = choose|k: int| 0 <= k < raw.len() && raw[k].refresh_rate == r;
        let k0 = lemma_first_occurrence_exists(raw, k);
        assert(out.contains(raw[k0]));
        let i = choose|i: int| 0 <= i < out.len() && out[i] == raw[k0];
        assert(out[i].refresh_rate == r);
    }
    if raw.len() > 0 {
        let k0 = lemma_first_occurrence_exists(raw, 0);
        assert(out.contains(raw[k0]));
    }
    if out.len() > 0 {
        assert(first_of_its_key(raw, out[0], raw.len() as int));
        reveal(first_of_its_key);
    }
}

proof fn lemma_normalized_same_max(raw: Seq<DisplayMode>, out: Seq<DisplayMode>, r: u32)
    requires
        forall|x: u32| #[trigger] rate_offered(out, x) == rate_offered(raw, x),
        out.len() == 0 <==> raw.len() == 0,
    ensures
        is_max_refresh_rate(out, r) == is_max_refresh_rate(raw, r),
{
    if out.len() > 0 {
        if is_max_refresh_rate(out, r) {
            let i = choose|i: int| 0 <= i < out.len() && #[trigger] out[i].refresh_rate == r;
            assert(rate_offered(out, r));
            assert(rate_offered(raw, r));
            assert forall|q: int| 0 <= q < raw.len() implies #[trigger] raw[q].refresh_rate <= r by {
                assert(rate_offered(raw, raw[q].refresh_rate));
                assert(rate_offered(out, raw[q].refresh_rate));
            }
        }
        if is_max_refresh_rate(raw, r) {
            let k = choose|k: int| 0 <= k < raw.len() && #[trigger] raw[k].refresh_rate == r;
            assert(rate_offered(raw, r));
            assert(rate_offered(out, r));
            assert forall|q: int| 0 <= q < out.len() implies #[trigger] out[q].refresh_rate <= r by {
                assert(rate_offered(out, out[q].refresh_rate));
                assert(rate_offered(raw, out[q].refresh_rate));
            }
        }
    }
}

/// Normalizing a mode list keeps exactly the refresh rates it offers, so the
/// highest rate and the presence of a ProMotion rate are those of the raw
/// list.
pub proof fn lemma_normalized_keeps_refresh_rates(raw: Seq<DisplayMode>, out: Seq<DisplayMode>)
    requires
        normalized_modes(raw, out),
    ensures
        has_promotion_mode(out) == has_promotion_mode(raw),
        forall|r: u32| is_max_refresh_rate(out, r) == is_max_refresh_rate(raw, r),
{
    lemma_normalized_same_rates(raw, out);
    if has_promotion_mode(out) {
        let i = choose|i: int| 0 <= i < out.len() && #[trigger] out[i].refresh_rate > DEFAULT_REFRESH_RATE;
        assert(rate_offered(out, out[i].refresh_rate));
        assert(rate_offered(raw, out[i].refresh_rate));
    }
    if has_promotion_mode(raw) {
        let k = choose|k: int| 0 <= k < raw.len() && #[trigger] raw[k].refresh_rate > DEFAULT_REFRESH_RATE;
        assert(rate_offered(raw, raw[k].refresh_rate));
        assert(rate_offered(out, raw[k].refresh_rate));
    }
    assert forall|r: u32| is_max_refresh_rate(out, r) == is_max_refresh_rate(raw, r) by {
        lemma_normalized_same_max(raw, out, r);
    }
}

/// A display that the platform reports gets its id and size as reported;
/// a refresh rate of 0 (unknown) reads as 60 Hz and any other rate is kept;
/// it is the main display exactly when its id is the main display's id; the
/// main display is named "Built-in Display", and any other display is named
/// "Display " followed by digits that read back as its id.
pub proof fn lemma_display_from_platform_fields(r: MacOSDisplay, p: PlatformDisplay, main_id: u32)
    requires
        is_display_from_platform(r, p, main_id),
    ensures
        r.display_id == p.display_id,
        r.resolution == p.resolution,
        p.refresh_mhz == 0 ==> r.refresh_rate == 60_000,
        p.refresh_mhz != 0 ==> r.refresh_rate == p.refresh_mhz,
        r.is_main <==> p.display_id == main_id,
        p.display_id == main_id ==> r.name@ == "Built-in Display"@,
        p.display_id != main_id ==> r.name@.take(8) == "Display "@ && decimal_value(r.name@.skip(8))
            == p.display_id && forall|i: int| 8 <= i < r.name@.len() ==> '0' <= #[trigger] r.name@[i] <= '9',
{
    reveal_strlit("Display ");
    if p.display_id != main_id {
        let d = decimal(p.display_id as nat);
        lemma_decimal_reads_back(p.display_id as nat);
        assert(r.name@ == "Display "@ + d);
        assert(r.name@.take(8) =~= "Display "@);
        assert(r.name@.skip(8) =~= d);
        assert forall|i: int| 8 <= i < r.name@.len() implies '0' <= #[trigger] r.name@[i] <= '9' by {
            assert(r.name@[i] == d[i - 8]);
        }
    }
}

/// A platform mode is a Retina mode exactly when its flags carry the native
/// flag (bit 21, `kDisplayModeNativeFlag`); a refresh rate of 0 (unknown)
/// reads as 60 Hz and any other rate is kept.
pub proof fn lemma_platform_mode_fields(
    r: DisplayMode,
    width: u32,
    height: u32,
    refresh_mhz: u32,
    bits_per_pixel: u32,
    io_flags: u32,
)
    requires
        r == (DisplayMode {
            width,
            height,
            refresh_rate: reported_refresh_rate(refresh_mhz),
            bits_per_pixel,
            is_retina: io_flags & DISPLAY_MODE_NATIVE_FLAG != 0,
        }),
    ensures
        r.is_retina <==> io_flags & 0x0020_0000 != 0,
        refresh_mhz == 0 ==> r.refresh_rate == 60_000,
        refresh_mhz != 0 ==> r.refresh_rate == refresh_mhz,
        r.width == width && r.height == height && r.bits_per_pixel == bits_per_pixel,
{
}

/// The information kept for a reported display: its id, name and physical
/// size as enumerated; a 32-bit mode of the display's resolution at its
/// refresh rate, Retina as reported; built in and main exactly when it is
/// the main display.
pub proof fn lemma_reported_display_info(d: ReportedDisplay)
    ensures
        d@.info.id == d.display.display_id,
        d@.info.name == d.display.name@,
        d@.info.mode.width == d.display.resolution.0,
        d@.info.mode.height == d.display.resolution.1,
        d@.info.mode.refresh_rate == d.display.refresh_rate,
        d@.info.mode.bits_per_pixel == 32,
        d@.info.mode.is_retina == d.is_retina,
        d@.info.physical_size_mm == d.display.physical_size_mm,
        d@.info.is_main == d.display.is_main,
        d@.info.is_builtin == d.display.is_main,
        d@.info.scale_factor == d.display.scale_factor,
        d@.info.bounds == d.bounds,
{
}

/// A mode list supports ProMotion exactly when some mode runs faster than
/// 60 Hz; the highest refresh rate is at least every mode's rate and is the
/// rate of some mode, or 60 Hz for an empty list.
pub proof fn lemma_promotion_and_max_rate(modes: Seq<DisplayMode>, r: u32)
    ensures
        has_promotion_mode(modes) <==> exists|i: int| 0 <= i < modes.len() && #[trigger] modes[i].refresh_rate > 60_000,
        is_max_refresh_rate(modes, r) && modes.len() > 0 ==> (forall|i: int|
            0 <= i < modes.len() ==> #[trigger] modes[i].refresh_rate <= r) && exists|i: int|
            0 <= i < modes.len() && #[trigger] modes[i].refresh_rate == r,
        modes.len() == 0 ==> (is_max_refresh_rate(modes, r) <==> r == 60_000),
{
}

/// The modes listed for a known display are those kept for it; an unknown
/// display lists none.
pub proof fn lemma_modes_of_table(t: Map<u32, KnownDisplay>, id: u32)
    ensures
        t.contains_key(id) ==> modes_of(t, id) == t[id].modes,
        !t.contains_key(id) ==> modes_of(t, id).len() == 0,
{
}

} // verus!
