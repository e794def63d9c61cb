//! Decisions of the menu bar companion: brightness as a slider percentage
//! and back, the brightness label, and which boards a refresh adds or
//! removes.

use vstd::prelude::*;

use crate::device::Board;
use crate::protocol::MAX_BRIGHTNESS;

verus! {

/// A brightness as a percentage of [`MAX_BRIGHTNESS`], rounded to nearest.
pub open spec fn percent_of(value: int) -> int {
    (value * 100 + MAX_BRIGHTNESS / 2) / MAX_BRIGHTNESS as int
}

/// The brightness for a slider percentage, rounded to nearest and capped at
/// [`MAX_BRIGHTNESS`].
pub open spec fn brightness_of(percent: int) -> int {
    let b = (percent * MAX_BRIGHTNESS + 50) / 100;
    if b <= MAX_BRIGHTNESS {
        b
    } else {
        MAX_BRIGHTNESS as int
    }
}

/// A brightness as a percentage, rounded to nearest.
pub fn percent(value: u16) -> (r: u32)
    ensures
        r == percent_of(value as int),
        value <= MAX_BRIGHTNESS ==> r <= 100,
{
    let r = (value as u32 * 100 + (MAX_BRIGHTNESS as u32) / 2) / MAX_BRIGHTNESS as u32;
    proof {
        if value <= MAX_BRIGHTNESS {
            assert((value as int * 100 + 511) / 1023 <= 100) by (nonlinear_arith)
                requires
                    value <= 1023,
            ;
        }
    }
    r
}

/// The brightness a slider dragged to `percent` sets.
pub fn brightness_from_percent(percent: u32) -> (r: u16)
    requires
        percent as int * MAX_BRIGHTNESS + 50 <= u32::MAX,
    ensures
        r == brightness_of(percent as int),
{
    let b = (percent * MAX_BRIGHTNESS as u32 + 50) / 100;
    if b <= MAX_BRIGHTNESS as u32 {
        b as u16
    } else {
        MAX_BRIGHTNESS
    }
}

/// Percentage -> brightness -> percentage is the identity on the slider's
/// range, so setting the slider never makes it jump.
pub proof fn lemma_percent_round_trip(p: int)
    requires
        0 <= p <= 100,
    ensures
        brightness_of(p) <= MAX_BRIGHTNESS,
        percent_of(brightness_of(p)) == p,
{
    let b = (p * 1023 + 50) / 100;
    assert(0 <= b <= 1023 && percent_of(b) == p) by (nonlinear_arith)
        requires
            0 <= p <= 100,
            b == (p * 1023 + 50) / 100,
            percent_of(b) == (b * 100 + 511) / 1023,
    ;
}

/// Decimal digits of `n`, most significant first.
pub open spec fn decimal_chars(n: nat) -> Seq<char>
    decreases n,
{
    if n < 10 {
        seq![digit_char(n)]
    } else {
        decimal_chars(n / 10).push(digit_char(n % 10))
    }
}

/// The ASCII digit of `d` (0..=9).
pub open spec fn digit_char(d: nat) -> char {
    if d == 0 {
        '0'
    } else if d == 1 {
        '1'
    } else if d == 2 {
        '2'
    } else if d == 3 {
        '3'
    } else if d == 4 {
        '4'
    } else if d == 5 {
        '5'
    } else if d == 6 {
        '6'
    } else if d == 7 {
        '7'
    } else if d == 8 {
        '8'
    } else {
        '9'
    }
}

fn digit_str(d: u32) -> (r: &'static str)
    requires
        d < 10,
    ensures
        r@ == seq![digit_char(d as nat)],
{
    proof {
        reveal_strlit("0");
        reveal_strlit("1");
        reveal_strlit("2");
        reveal_strlit("3");
        reveal_strlit("4");
        reveal_strlit("5");
        reveal_strlit("6");
        reveal_strlit("7");
        reveal_strlit("8");
        reveal_strlit("9");
    }
    let r = if d == 0 {
        "0"
    } else if d == 1 {
        "1"
    } else if d == 2 {
        "2"
    } else if d == 3 {
        "3"
    } else if d == 4 {
        "4"
    } else if d == 5 {
        "5"
    } else if d == 6 {
        "6"
    } else if d == 7 {
        "7"
    } else if d == 8 {
        "8"
    } else {
        "9"
    };
    assert(r@ =~= seq![digit_char(d as nat)]);
    r
}

/// `n` in decimal.
pub fn decimal(n: u32) -> (r: String)
    ensures
        r@ == decimal_chars(n as nat),
    decreases n,
{
    if n < 10 {
        String::from_str(digit_str(n))
    } else {
        let mut s = decimal(n / 10);
        s.append(digit_str(n % 10));
        s
    }
}

/// The brightness label of a board's submenu, e.g. `Brightness: 50%`.
pub fn brightness_text(value: u16) -> (r: String)
    ensures
        r@ == "Brightness: "@ + decimal_chars(percent_of(value as int) as nat) + "%"@,
{
    let mut s = String::from_str("Brightness: ");
    let p = percent(value);
    let digits = decimal(p);
    s.append(digits.as_str());
    s.append("%");
    s
}

/// What to do with the "no device" placeholder after a refresh.
#[derive(Debug, Clone, Copy, PartialEq, Eq, Structural)]
pub enum PlaceholderChange {
    Show,
    Hide,
    Keep,
}

/// The placeholder is shown exactly while no board is known.
pub fn placeholder_change(no_boards: bool, placeholder_shown: bool) -> (r: PlaceholderChange)
    ensures
        r == if no_boards && !placeholder_shown {
            PlaceholderChange::Show
        } else if !no_boards && placeholder_shown {
            PlaceholderChange::Hide
        } else {
            PlaceholderChange::Keep
        },
{
    if no_boards && !placeholder_shown {
        PlaceholderChange::Show
    } else if !no_boards && placeholder_shown {
        PlaceholderChange::Hide
    } else {
        PlaceholderChange::Keep
    }
}

/// Whether one of `boards` carries `serial`.
pub open spec fn board_listed(boards: Seq<Board>, serial: Seq<u8>) -> bool {
    exists|q: int| 0 <= q < boards.len() && #[trigger] boards[q].serial@ == serial
}

/// Whether `serial` is one of `serials`.
pub open spec fn listed(serials: Seq<Vec<u8>>, serial: Seq<u8>) -> bool {
    exists|k: int| 0 <= k < serials.len() && #[trigger] serials[k]@ == serial
}

fn bytes_equal(a: &[u8], b: &[u8]) -> (r: bool)
    ensures
        r == (a@ == b@),
{
    match crate::device::compare_bytes(a, b) {
        crate::device::ByteOrder::Equal => true,
        _ => false,
    }
}

fn contains_serial(serials: &Vec<Vec<u8>>, serial: &[u8]) -> (r: bool)
    ensures
        r == listed(serials@, serial@),
{
    let n = serials.len();
    let mut k: usize = 0;
    while k < n
        invariant
            n == serials@.len(),
            k <= n,
            forall|m: int| 0 <= m < k ==> serials@[m]@ != serial@,
        decreases n - k,
    {
        if bytes_equal(serials[k].as_slice(), serial) {
            return true;
        }
        k = k + 1;
    }
    false
}

/// Indices, in order, of the discovered boards that are not tracked yet:
/// the only ones a refresh has to read and add.
pub fn boards_to_add(discovered: &Vec<Board>, known: &Vec<Vec<u8>>) -> (r: Vec<usize>)
    ensures
        forall|m: int| 0 <= m < r@.len() ==> #[trigger] r@[m] < discovered@.len(),
        forall|m: int, n: int| 0 <= m < n < r@.len() ==> r@[m] < r@[n],
        forall|i: int|
            0 <= i < discovered@.len() ==> (r@.contains(i as usize) <==> !listed(
                known@,
                #[trigger] discovered@[i].serial@,
            )),
{
    let mut out: Vec<usize> = Vec::new();
    let n = discovered.len();
    let mut i: usize = 0;
    while i < n
        invariant
            n == discovered@.len(),
            i <= n,
            forall|m: int| 0 <= m < out@.len() ==> #[trigger] out@[m] < i,
            forall|m: int, k: int| 0 <= m < k < out@.len() ==> out@[m] < out@[k],
            forall|j: int|
                0 <= j < i ==> (out@.contains(j as usize) <==> !listed(
                    known@,
                    #[trigger] discovered@[j].serial@,
                )),
        decreases n - i,
    {
        let ghost before = out@;
        if !contains_serial(known, discovered[i].serial.as_slice()) {
            out.push(i);
        }
        assert forall|j: int|
            0 <= j < i + 1 implies (out@.contains(j as usize) <==> !listed(
            known@,
            #[trigger] discovered@[j].serial@,
        )) by {
            if j < i {
                if before.contains(j as usize) {
                    let m = choose|m: int| 0 <= m < before.len() && before[m] == j as usize;
                    assert(out@[m] == j as usize);
                }
                if out@.contains(j as usize) {
                    let m = choose|m: int| 0 <= m < out@.len() && out@[m] == j as usize;
                    if m < before.len() {
                        assert(before[m] == j as usize);
                    }
                }
            } else {
                if out@.contains(j as usize) {
                    let m = choose|m: int| 0 <= m < out@.len() && out@[m] == j as usize;
                    if m < before.len() {
                        assert(before[m] < i);
                    }
                }
                if out@.len() > before.len() {
                    assert(out@[before.len() as int] == i);
                }
            }
        }
        i = i + 1;
    }
    out
}

/// Indices, in order, of the known serials no longer discovered: the
/// boards a refresh tears down.
pub fn serials_to_remove(known: &Vec<Vec<u8>>, discovered: &Vec<Board>) -> (r: Vec<usize>)
    ensures
        forall|m: int| 0 <= m < r@.len() ==> #[trigger] r@[m] < known@.len(),
        forall|m: int, n: int| 0 <= m < n < r@.len() ==> r@[m] < r@[n],
        forall|i: int|
            0 <= i < known@.len() ==> (r@.contains(i as usize) <==> !board_listed(discovered@, #[trigger] known@[i]@)),
{
    let mut serials: Vec<Vec<u8>> = Vec::new();
    let nd = discovered.len();
    let mut q: usize = 0;
    while q < nd
        invariant
            nd == discovered@.len(),
            q <= nd,
            serials@.len() == q,
            forall|m: int| 0 <= m < q ==> #[trigger] serials@[m]@ == discovered@[m].serial@,
        decreases nd - q,
    {
        serials.push(copy_bytes(&discovered[q].serial));
        q = q + 1;
    }
    let mut out: Vec<usize> = Vec::new();
    let n = known.len();
    let mut i: usize = 0;
    while i < n
        invariant
            n == known@.len(),
            i <= n,
            serials@.len() == discovered@.len(),
            forall|m: int| 0 <= m < serials@.len() ==> #[trigger] serials@[m]@ == discovered@[m].serial@,
            forall|m: int| 0 <= m < out@.len() ==> #[trigger] out@[m] < i,
            forall|m: int, k: int| 0 <= m < k < out@.len() ==> out@[m] < out@[k],
            forall|j: int|
                0 <= j < i ==> (out@.contains(j as usize) <==> !board_listed(discovered@, #[trigger] known@[j]@)),
        decreases n - i,
    {
        let ghost before = out@;
        let present = contains_serial(&serials, known[i].as_slice());
        proof {
            if present {
                let k = choose|k: int| 0 <= k < serials@.len() && #[trigger] serials@[k]@ == known@[i as int]@;
                assert(discovered@[k].serial@ == known@[i as int]@);
            } else {
                assert forall|q: int| 0 <= q < discovered@.len() implies #[trigger] discovered@[q].serial@
                    != known@[i as int]@ by {
                    assert(serials@[q]@ == discovered@[q].serial@);
                }
            }
        }
        if !present {
            out.push(i);
        }
        assert forall|j: int|
            0 <= j < i + 1 implies (out@.contains(j as usize) <==> !board_listed(discovered@, #[trigger] known@[j]@)) by {
            if j < i {
                if before.contains(j as usize) {
                    let m = choose|m: int| 0 <= m < before.len() && before[m] == j as usize;
                    assert(out@[m] == j as usize);
                }
                if out@.contains(j as usize) {
                    let m = choose|m: int| 0 <= m < out@.len() && out@[m] == j as usize;
                    if m < before.len() {
                        assert(before[m] == j as usize);
                    }
                }
            } else {
                if out@.contains(j as usize) {
                    let m = choose|m: int| 0 <= m < out@.len() && out@[m] == j as usize;
                    if m < before.len() {
                        assert(before[m] < i);
                    }
                }
                if out@.len() > before.len() {
                    assert(out@[before.len() as int] == i);
                }
            }
        }
        i = i + 1;
    }
    out
}

fn copy_bytes(v: &Vec<u8>) -> (r: Vec<u8>)
    ensures
        r@ == v@,
{
    let mut r: Vec<u8> = Vec::new();
    let n = v.len();
    let mut i: usize = 0;
    while i < n
        invariant
            n == v@.len(),
            i <= n,
            r@ == v@.take(i as int),
        decreases n - i,
    {
        r.push(v[i]);
        assert(v@.take(i + 1) =~= v@.take(i as int).push(v@[i as int]));
        i = i + 1;
    }
    assert(v@.take(n as int) =~= v@);
    r
}

/// A board's brightness as last written from the slider, and the slider
/// percentage it corresponds to.
pub struct SliderSync {
    pub brightness: u16,
    pub synced_percent: u32,
}

impl SliderSync {
    pub fn new(brightness: u16) -> (r: Self)
        ensures
            r.brightness == brightness,
            r.synced_percent == percent_of(brightness as int),
    {
        SliderSync { brightness, synced_percent: percent(brightness) }
    }

    /// Reconciles the slider position read this tick: when it moved, the new
    /// brightness to write to the board; otherwise `None`.
    pub fn on_slider(&mut self, dragged_percent: u32) -> (r: Option<u16>)
        requires
            dragged_percent as int * MAX_BRIGHTNESS + 50 <= u32::MAX,
        ensures
            dragged_percent == old(self).synced_percent ==> r == None::<u16> && *final(self)
                == *old(self),
            dragged_percent != old(self).synced_percent ==> {
                &&& r == Some(brightness_of(dragged_percent as int) as u16)
                &&& final(self).brightness == brightness_of(dragged_percent as int)
                &&& final(self).synced_percent == dragged_percent
            },
    {
        if dragged_percent == self.synced_percent {
            return None;
        }
        self.brightness = brightness_from_percent(dragged_percent);
        self.synced_percent = dragged_percent;
        Some(self.brightness)
    }
}

/// The byte at `(row, k)` of an image whose rows start `stride` bytes apart.
pub open spec fn row_byte(data: Seq<u8>, stride: int, row: int, k: int) -> u8 {
    data[row * stride + k]
}

proof fn lemma_row_index(r0: int, k0: int, row: int, row_len: int)
    requires
        0 <= r0 < row,
        0 <= k0 < row_len,
    ensures
        0 <= r0 * row_len + k0 < row * row_len,
{
    assert(0 <= r0 * row_len + k0 < row * row_len) by (nonlinear_arith)
        requires
            0 <= r0 < row,
            0 <= k0 < row_len,
    ;
}

/// The RGBA pixels of a `width` x `height` bitmap whose rows start `stride`
/// bytes apart (each row may carry padding past its `width * 4` bytes),
/// packed into consecutive rows with the padding dropped.
pub fn copy_rgba(data: &[u8], stride: usize, width: usize, height: usize) -> (r: Vec<u8>)
    requires
        width * 4 <= stride,
        height * stride <= data@.len(),
    ensures
        r@.len() == width * height * 4,
        forall|row: int, k: int|
            0 <= row < height && 0 <= k < width * 4 ==> #[trigger] r@[row * (width * 4) + k]
                == row_byte(data@, stride as int, row, k),
{
    let row_len = width * 4;
    let n = data.len();
    let mut out: Vec<u8> = Vec::new();
    let mut row: usize = 0;
    while row < height
        invariant
            row_len == width * 4,
            row_len <= stride,
            n == data@.len(),
            height * stride <= n,
            row <= height,
            out@.len() == row * row_len,
            forall|r0: int, k: int|
                0 <= r0 < row && 0 <= k < row_len ==> #[trigger] out@[r0 * row_len + k]
                    == row_byte(data@, stride as int, r0, k),
        decreases height - row,
    {
        assert(row * stride + stride <= height * stride) by (nonlinear_arith)
            requires
                row < height,
        ;
        let start = row * stride;
        let ghost prev = out@;
        let mut k: usize = 0;
        while k < row_len
            invariant
                row_len == width * 4,
                row_len <= stride,
                n == data@.len(),
                start == row * stride,
                start + stride <= n,
                k <= row_len,
                prev.len() == row * row_len,
                out@.len() == row * row_len + k,
                out@.take(row * row_len) == prev,
                forall|k0: int|
                    0 <= k0 < k ==> #[trigger] out@[row * row_len + k0] == row_byte(
                        data@,
                        stride as int,
                        row as int,
                        k0,
                    ),
            decreases row_len - k,
        {
            let ghost before = out@;
            out.push(data[start + k]);
            assert(out@.take(row * row_len) =~= before.take(row * row_len));
            k = k + 1;
        }
        assert forall|r0: int, k0: int|
            0 <= r0 < row + 1 && 0 <= k0 < row_len implies #[trigger] out@[r0 * row_len + k0]
            == row_byte(data@, stride as int, r0, k0) by {
            if r0 < row {
                lemma_row_index(r0, k0, row as int, row_len as int);
                assert(out@.take(row * row_len)[r0 * row_len + k0] == out@[r0 * row_len + k0]);
            }
        }
        assert((row + 1) * row_len == row * row_len + row_len) by (nonlinear_arith);
        row = row + 1;
    }
    assert(height * row_len == width * height * 4) by (nonlinear_arith)
        requires
            row_len == width * 4,
    ;
    out
}
} // verus!
