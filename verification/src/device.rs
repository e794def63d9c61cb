//! Finding connected CinemaControl boards in a HID device listing and
//! telling them apart: every HID interface of one board shares its USB
//! serial number, so interfaces are grouped by serial into one [`Board`]
//! each, ordered by ascending serial.

use vstd::prelude::*;

use crate::protocol::{PRODUCT_ID, VENDOR_ID};

verus! {

/// HID interface number of the brightness interface.
pub const BRIGHTNESS_INTERFACE: i32 = 0;

/// HID interface number of the power telemetry interface.
pub const POWER_INTERFACE: i32 = 1;

/// HID interface number of the thermal telemetry interface.
pub const THERMAL_INTERFACE: i32 = 2;

/// HID interface number of the chip temperature interface.
pub const CHIP_TEMP_INTERFACE: i32 = 3;

/// One entry of a HID device listing, as the host's HID backend reports it.
#[derive(Debug)]
pub struct DeviceEntry {
    pub vendor_id: u16,
    pub product_id: u16,
    /// UTF-8 bytes of the USB serial number (empty when the device has none).
    pub serial: Vec<u8>,
    pub interface_number: i32,
    /// Platform path of this interface, without a trailing NUL.
    pub path: Vec<u8>,
}

/// A connected board. Each path is `None` when the board's firmware does not
/// expose that interface; a board only needs *some* interface to be listed.
#[derive(Debug)]
pub struct Board {
    /// UTF-8 bytes of the board's USB serial number.
    pub serial: Vec<u8>,
    pub brightness_path: Option<Vec<u8>>,
    pub power_path: Option<Vec<u8>>,
    pub thermal_path: Option<Vec<u8>>,
    pub chip_temp_path: Option<Vec<u8>>,
}

/// Why a device listing could not be turned into boards.
#[derive(Debug, Clone, Copy, PartialEq, Eq, Structural)]
pub enum DiscoverError {
    /// A CinemaControl device reported an interface number other than the
    /// four the firmware defines.
    UnexpectedInterface(i32),
}

/// Strict lexicographic order on byte strings (a proper prefix comes first),
/// which for UTF-8 is the order of the strings themselves.
pub open spec fn bytes_lt(a: Seq<u8>, b: Seq<u8>) -> bool
    decreases a.len(),
{
    if a.len() == 0 {
        b.len() > 0
    } else if b.len() == 0 {
        false
    } else if a[0] != b[0] {
        a[0] < b[0]
    } else {
        bytes_lt(a.drop_first(), b.drop_first())
    }
}

/// No byte string comes before itself.
pub proof fn lemma_bytes_lt_irreflexive(a: Seq<u8>)
    ensures
        !bytes_lt(a, a),
    decreases a.len(),
{
    if a.len() > 0 {
        lemma_bytes_lt_irreflexive(a.drop_first());
    }
}

/// The byte order is transitive.
pub proof fn lemma_bytes_lt_transitive(a: Seq<u8>, b: Seq<u8>, c: Seq<u8>)
    requires
        bytes_lt(a, b),
        bytes_lt(b, c),
    ensures
        bytes_lt(a, c),
    decreases a.len(),
{
    if a.len() > 0 && b.len() > 0 && c.len() > 0 && a[0] == b[0] && b[0] == c[0] {
        lemma_bytes_lt_transitive(a.drop_first(), b.drop_first(), c.drop_first());
    }
}

/// Two different byte strings are ordered one way or the other, never both.
pub proof fn lemma_bytes_lt_total(a: Seq<u8>, b: Seq<u8>)
    ensures
        a != b ==> (bytes_lt(a, b) || bytes_lt(b, a)),
        !(bytes_lt(a, b) && bytes_lt(b, a)),
    decreases a.len(),
{
    if a.len() > 0 && b.len() > 0 && a[0] == b[0] {
        lemma_bytes_lt_total(a.drop_first(), b.drop_first());
        if a.drop_first() == b.drop_first() {
            assert(a =~= seq![a[0]] + a.drop_first());
            assert(b =~= seq![b[0]] + b.drop_first());
        }
    } else if a.len() == 0 && b.len() == 0 {
        assert(a =~= b);
    }
}

/// Result of comparing two byte strings.
#[derive(Debug, Clone, Copy, PartialEq, Eq, Structural)]
pub enum ByteOrder {
    Less,
    Equal,
    Greater,
}

/// Compares two byte strings in [`bytes_lt`] order.
pub fn compare_bytes(a: &[u8], b: &[u8]) -> (r: ByteOrder)
    ensures
        (r == ByteOrder::Less) == bytes_lt(a@, b@),
        (r == ByteOrder::Equal) == (a@ == b@),
        (r == ByteOrder::Greater) == bytes_lt(b@, a@),
{
    proof {
        lemma_bytes_lt_total(a@, b@);
        lemma_bytes_lt_irreflexive(a@);
    }
    let la = a.len();
    let lb = b.len();
    let mut i: usize = 0;
    assert(a@.skip(0) =~= a@);
    assert(b@.skip(0) =~= b@);
    while i < la && i < lb
        invariant
            la == a@.len(),
            lb == b@.len(),
            i <= la,
            i <= lb,
            a@.take(i as int) == b@.take(i as int),
            bytes_lt(a@, b@) == bytes_lt(a@.skip(i as int), b@.skip(i as int)),
            bytes_lt(b@, a@) == bytes_lt(b@.skip(i as int), a@.skip(i as int)),
        decreases la - i,
    {
        if a[i] != b[i] {
            if a[i] < b[i] {
                return ByteOrder::Less;
            } else {
                return ByteOrder::Greater;
            }
        }
        assert(a@.skip(i as int).drop_first() =~= a@.skip(i + 1));
        assert(b@.skip(i as int).drop_first() =~= b@.skip(i + 1));
        assert(a@.take(i + 1) =~= a@.take(i as int).push(a@[i as int]));
        assert(b@.take(i + 1) =~= b@.take(i as int).push(b@[i as int]));
        i = i + 1;
    }
    if la == lb {
        assert(a@ =~= a@.take(i as int));
        assert(b@ =~= b@.take(i as int));
        ByteOrder::Equal
    } else if la < lb {
        ByteOrder::Less
    } else {
        ByteOrder::Greater
    }
}

/// Whether a listing entry belongs to a CinemaControl board.
pub open spec fn is_board_entry(e: DeviceEntry) -> bool {
    e.vendor_id == VENDOR_ID && e.product_id == PRODUCT_ID
}

/// Whether `n` is one of the four interface numbers the firmware defines.
pub open spec fn is_known_interface(n: i32) -> bool {
    0 <= n <= 3
}

/// A board entry with an interface number the firmware does not define.
pub open spec fn is_bad_entry(e: DeviceEntry) -> bool {
    is_board_entry(e) && !is_known_interface(e.interface_number)
}

/// Path of the last board entry in `es` with the given serial and interface
/// number, if any.
pub open spec fn last_path(es: Seq<DeviceEntry>, serial: Seq<u8>, iface: i32) -> Option<Seq<u8>>
    decreases es.len(),
{
    if es.len() == 0 {
        None
    } else {
        let e = es.last();
        if is_board_entry(e) && e.serial@ == serial && e.interface_number == iface {
            Some(e.path@)
        } else {
            last_path(es.drop_last(), serial, iface)
        }
    }
}

/// Whether some board entry in `es` carries `serial`.
pub open spec fn serial_listed(es: Seq<DeviceEntry>, serial: Seq<u8>) -> bool {
    exists|j: int| 0 <= j < es.len() && is_board_entry(es[j]) && #[trigger] es[j].serial@ == serial
}

/// The byte view of an optional path.
pub open spec fn opt_bytes(o: Option<Vec<u8>>) -> Option<Seq<u8>> {
    match o {
        Some(v) => Some(v@),
        None => None,
    }
}

/// The path a board holds for interface number `iface`.
pub open spec fn board_path(b: Board, iface: i32) -> Option<Seq<u8>> {
    if iface == BRIGHTNESS_INTERFACE {
        opt_bytes(b.brightness_path)
    } else if iface == POWER_INTERFACE {
        opt_bytes(b.power_path)
    } else if iface == THERMAL_INTERFACE {
        opt_bytes(b.thermal_path)
    } else if iface == CHIP_TEMP_INTERFACE {
        opt_bytes(b.chip_temp_path)
    } else {
        None
    }
}

/// Boards strictly ascending by serial.
pub open spec fn boards_sorted(bs: Seq<Board>) -> bool {
    forall|i: int, j: int|
        0 <= i < j < bs.len() ==> bytes_lt(#[trigger] bs[i].serial@, #[trigger] bs[j].serial@)
}

/// `bs` is exactly the grouping of the board entries of `es`: one board per
/// distinct serial, ascending by serial, each holding for every interface the
/// path of the last entry that named it.
pub open spec fn groups_entries(bs: Seq<Board>, es: Seq<DeviceEntry>) -> bool {
    &&& boards_sorted(bs)
    &&& forall|q: int| 0 <= q < bs.len() ==> serial_listed(es, #[trigger] bs[q].serial@)
    &&& forall|j: int|
        #![trigger es[j]]
        0 <= j < es.len() && is_board_entry(es[j]) ==> exists|q: int|
            0 <= q < bs.len() && #[trigger] bs[q].serial@ == #[trigger] es[j].serial@
    &&& forall|q: int, k: i32|
        0 <= q < bs.len() && is_known_interface(k) ==> #[trigger] board_path(bs[q], k) == last_path(
            es,
            bs[q].serial@,
            k,
        )
}

/// No board entry carries `serial`, so none of its interfaces has a path.
proof fn lemma_unlisted_has_no_path(es: Seq<DeviceEntry>, serial: Seq<u8>, iface: i32)
    requires
        !serial_listed(es, serial),
    ensures
        last_path(es, serial, iface) == None::<Seq<u8>>,
    decreases es.len(),
{
    if es.len() > 0 {
        let e = es.last();
        assert(!(is_board_entry(e) && e.serial@ == serial)) by {
            if is_board_entry(e) && e.serial@ == serial {
                assert(es[es.len() - 1].serial@ == serial);
            }
        }
        assert forall|j: int|
            0 <= j < es.drop_last().len() && is_board_entry(es.drop_last()[j]) implies #[trigger] es.drop_last()[j].serial@
            != serial by {
            assert(es.drop_last()[j] == es[j]);
        }
        lemma_unlisted_has_no_path(es.drop_last(), serial, iface);
    }
}

/// Copies a byte vector.
fn copy_bytes(v: &Vec<u8>) -> (r: Vec<u8>)
    ensures
        r@ == v@,
{
    let mut r: Vec<u8> = Vec::new();
    let n = v.len();
    let mut i: usize = 0;
    while i < n
        invariant
            n == v@.len(),
            i <= n,
            r@ == v@.take(i as int),
        decreases n - i,
    {
        r.push(v[i]);
        assert(v@.take(i + 1) =~= v@.take(i as int).push(v@[i as int]));
        i = i + 1;
    }
    assert(v@.take(n as int) =~= v@);
    r
}

/// Stores `path` as `board`'s path for the known interface number `iface`.
fn set_board_path(board: &mut Board, iface: i32, path: Vec<u8>)
    requires
        is_known_interface(iface),
    ensures
        final(board).serial@ == old(board).serial@,
        forall|k: i32|
            board_path(*final(board), k) == if k == iface {
                Some(path@)
            } else {
                board_path(*old(board), k)
            },
{
    if iface == BRIGHTNESS_INTERFACE {
        board.brightness_path = Some(path);
    } else if iface == POWER_INTERFACE {
        board.power_path = Some(path);
    } else if iface == THERMAL_INTERFACE {
        board.thermal_path = Some(path);
    } else {
        board.chip_temp_path = Some(path);
    }
}

/// Groups a HID device listing into boards.
///
/// Entries from other devices (vendor/product ID not the CinemaControl one)
/// are skipped. Fails on the first CinemaControl entry whose interface number
/// is not one of the four the firmware defines. Otherwise returns one board
/// per distinct serial, ascending by serial, each holding for every interface
/// the path of the last entry that named it.
pub fn discover(entries: &[DeviceEntry]) -> (r: Result<Vec<Board>, DiscoverError>)
    ensures
        match r {
            Ok(boards) => {
                &&& forall|j: int| 0 <= j < entries@.len() ==> !is_bad_entry(#[trigger] entries@[j])
                &&& groups_entries(boards@, entries@)
            },
            Err(DiscoverError::UnexpectedInterface(n)) => exists|j: int|
                0 <= j < entries@.len() && is_bad_entry(#[trigger] entries@[j]) && (forall|k: int|
                    0 <= k < j ==> !is_bad_entry(#[trigger] entries@[k]))
                    && n == entries@[j].interface_number,
        },
{
    let mut boards: Vec<Board> = Vec::new();
    let n = entries.len();
    let mut i: usize = 0;
    while i < n
        invariant
            n == entries@.len(),
            i <= n,
            forall|j: int| 0 <= j < i ==> !is_bad_entry(#[trigger] entries@[j]),
            groups_entries(boards@, entries@.take(i as int)),
        decreases n - i,
    {
        let ghost before = entries@.take(i as int);
        let ghost after = entries@.take(i + 1);
        assert(after.drop_last() =~= before);
        assert(after.last() == entries@[i as int]);
        let e = &entries[i];
        if e.vendor_id == VENDOR_ID && e.product_id == PRODUCT_ID {
            if e.interface_number < 0 || e.interface_number > 3 {
                return Err(DiscoverError::UnexpectedInterface(e.interface_number));
            }
            let ghost s = e.serial@;
            // Find where this serial is, or belongs.
            let mut p: usize = 0;
            let mut found = false;
            while p < boards.len()
                invariant_except_break
                    !found,
                invariant
                    p <= boards@.len(),
                    forall|q: int| 0 <= q < p ==> bytes_lt(#[trigger] boards@[q].serial@, s),
                    boards_sorted(boards@),
                    s == e.serial@,
                ensures
                    p <= boards@.len(),
                    forall|q: int| 0 <= q < p ==> bytes_lt(#[trigger] boards@[q].serial@, s),
                    found ==> p < boards@.len() && boards@[p as int].serial@ == s,
                    !found ==> forall|q: int|
                        p <= q < boards@.len() ==> bytes_lt(s, #[trigger] boards@[q].serial@),
                decreases boards@.len() - p,
            {
                match compare_bytes(boards[p].serial.as_slice(), e.serial.as_slice()) {
                    ByteOrder::Less => {
                        p = p + 1;
                    },
                    ByteOrder::Equal => {
                        found = true;
                        break ;
                    },
                    ByteOrder::Greater => {
                        assert forall|q: int| p <= q < boards@.len() implies bytes_lt(
                            s,
                            #[trigger] boards@[q].serial@,
                        ) by {
                            if q > p {
                                assert(bytes_lt(boards@[p as int].serial@, boards@[q].serial@));
                                lemma_bytes_lt_transitive(
                                    s,
                                    boards@[p as int].serial@,
                                    boards@[q].serial@,
                                );
                            }
                        }
                        break ;
                    },
                }
            }
            let ghost old_boards = boards@;
            if !found {
                // A serial not seen before: nothing listed it yet.
                proof {
                    assert forall|j: int|
                        0 <= j < before.len() && is_board_entry(before[j]) implies #[trigger] before[j].serial@
                        != s by {
                        if before[j].serial@ == s {
                            let q = choose|q: int|
                                0 <= q < old_boards.len() && #[trigger] old_boards[q].serial@
                                    == before[j].serial@;
                            if q < p {
                                lemma_bytes_lt_irreflexive(s);
                            } else {
                                lemma_bytes_lt_irreflexive(s);
                            }
                        }
                    }
                    assert(!serial_listed(before, s));
                }
                let fresh = Board {
                    serial: copy_bytes(&e.serial),
                    brightness_path: None,
                    power_path: None,
                    thermal_path: None,
                    chip_temp_path: None,
                };
                boards.insert(p, fresh);
                proof {
                    assert forall|k: i32|
                        is_known_interface(k) implies #[trigger] board_path(boards@[p as int], k)
                        == last_path(before, s, k) by {
                        lemma_unlisted_has_no_path(before, s, k);
                    }
                }
            }
            let ghost mid = boards@;
            let mut board = boards.remove(p);
            set_board_path(&mut board, e.interface_number, copy_bytes(&e.path));
            boards.insert(p, board);
            proof {
                // The boards after this entry, against the listing up to it.
                assert(boards@.len() == mid.len());
                assert forall|q: int| 0 <= q < boards@.len() && q != p implies #[trigger] boards@[q]
                    == mid[q] by {}
                assert(boards@[p as int].serial@ == s);
                // Ordering: unchanged serials.
                assert forall|a: int, b: int|
                    0 <= a < b < boards@.len() implies bytes_lt(
                    #[trigger] boards@[a].serial@,
                    #[trigger] boards@[b].serial@,
                ) by {
                    if found {
                        assert(mid =~= old_boards);
                        assert(boards_sorted(old_boards));
                        let _ = old_boards[a];
                        let _ = old_boards[b];
                    } else {
                        let sa = mid[a].serial@;
                        let sb = mid[b].serial@;
                        if a < p && b == p {
                            assert(mid[a] == old_boards[a]);
                        } else if a == p && b > p {
                            assert(mid[b] == old_boards[b - 1]);
                        } else if b < p {
                            assert(mid[a] == old_boards[a] && mid[b] == old_boards[b]);
                            let _ = old_boards[a];
                            let _ = old_boards[b];
                        } else if a > p {
                            assert(mid[a] == old_boards[a - 1] && mid[b] == old_boards[b - 1]);
                            let _ = old_boards[a - 1];
                            let _ = old_boards[b - 1];
                        } else {
                            assert(a < p && b > p);
                            assert(mid[a] == old_boards[a] && mid[b] == old_boards[b - 1]);
                            let _ = old_boards[a];
                            let _ = old_boards[b - 1];
                        }
                    }
                }
                // Every board serial is listed.
                assert forall|q: int| 0 <= q < boards@.len() implies serial_listed(
                    after,
                    #[trigger] boards@[q].serial@,
                ) by {
                    if q == p {
                        assert(after[i as int].serial@ == s);
                    } else {
                        let oq = if !found && q > p {
                            q - 1
                        } else {
                            q
                        };
                        assert(boards@[q] == old_boards[oq]);
                        assert(serial_listed(before, old_boards[oq].serial@));
                        let j = choose|j: int|
                            0 <= j < before.len() && is_board_entry(before[j])
                                && #[trigger] before[j].serial@ == old_boards[oq].serial@;
                        assert(after[j] == before[j]);
                    }
                }
                // Every listed serial has a board.
                assert forall|j: int| 0 <= j < after.len() && is_board_entry(after[j]) implies exists|
                    q: int,
                |
                    0 <= q < boards@.len() && #[trigger] boards@[q].serial@
                        == #[trigger] after[j].serial@ by {
                    if j == i {
                        assert(boards@[p as int].serial@ == after[j].serial@);
                    } else {
                        assert(after[j] == before[j]);
                        let oq = choose|oq: int|
                            0 <= oq < old_boards.len() && #[trigger] old_boards[oq].serial@
                                == before[j].serial@;
                        if found && oq == p {
                            assert(boards@[p as int].serial@ == after[j].serial@);
                        } else {
                            let q = if !found && oq >= p {
                                oq + 1
                            } else {
                                oq
                            };
                            assert(boards@[q] == mid[q]);
                            assert(boards@[q] == old_boards[oq]);
                        }
                    }
                }
                // Paths.
                assert forall|q: int, k: i32|
                    0 <= q < boards@.len() && is_known_interface(k) implies #[trigger] board_path(
                    boards@[q],
                    k,
                ) == last_path(after, boards@[q].serial@, k) by {
                    if q == p {
                        assert(board_path(mid[q], k) == last_path(before, s, k)) by {
                            if found {
                                assert(mid[q] == old_boards[q]);
                            }
                        }
                    } else {
                        let oq = if !found && q > p {
                            q - 1
                        } else {
                            q
                        };
                        assert(boards@[q] == old_boards[oq]);
                        assert(board_path(old_boards[oq], k) == last_path(
                            before,
                            old_boards[oq].serial@,
                            k,
                        ));
                        if !found {
                            if oq < p {
                                assert(bytes_lt(old_boards[oq].serial@, s));
                            } else {
                                assert(bytes_lt(s, old_boards[oq].serial@));
                            }
                            lemma_bytes_lt_irreflexive(s);
                        } else {
                            assert(bytes_lt(old_boards[oq].serial@, s) || bytes_lt(
                                s,
                                old_boards[oq].serial@,
                            )) by {
                                if q < p {
                                    assert(bytes_lt(old_boards[q].serial@, old_boards[p as int].serial@));
                                } else {
                                    assert(bytes_lt(old_boards[p as int].serial@, old_boards[q].serial@));
                                }
                            }
                            lemma_bytes_lt_irreflexive(s);
                        }
                    }
                }
            }
        } else {
            proof {
                assert forall|q: int| 0 <= q < boards@.len() implies serial_listed(
                    after,
                    #[trigger] boards@[q].serial@,
                ) by {
                    assert(serial_listed(before, boards@[q].serial@));
                    let j = choose|j: int|
                        0 <= j < before.len() && is_board_entry(before[j])
                            && #[trigger] before[j].serial@ == boards@[q].serial@;
                    assert(after[j] == before[j]);
                }
                assert forall|j: int| 0 <= j < after.len() && is_board_entry(after[j]) implies exists|
                    q: int,
                |
                    0 <= q < boards@.len() && #[trigger] boards@[q].serial@
                        == #[trigger] after[j].serial@ by {
                    assert(after[j] == before[j]);
                }
            }
        }
        i = i + 1;
    }
    assert(entries@.take(n as int) =~= entries@);
    Ok(boards)
}

} // verus!
