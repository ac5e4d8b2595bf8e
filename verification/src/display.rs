//! Virtual display planning and bookkeeping.
//!
//! The platform calls that make and release a display live with the
//! application; this module decides every value handed to them, tracks the
//! handles that they return, and decides what is released and when.

use vstd::prelude::*;
use vstd::string::StringSliceAdditionalSpecFns;
use vstd::utf8::{encode_scalar, encode_utf8};
use crate::text::{chars_of, free_of};
use vstd::arithmetic::div_mod::{lemma_add_mod_noop, lemma_mod_mod, lemma_mul_mod_noop_left};

verus! {

/// A single resolution mode.
#[derive(Debug, Clone, Copy, PartialEq, Eq, Structural)]
pub struct ResolutionMode {
    pub width: u32,
    pub height: u32,
}

/// What a virtual display is made with.
#[derive(Debug, Clone)]
pub struct DisplayConfig {
    pub width: u32,
    pub height: u32,
    pub frame_rate: u32,
    pub name: String,
    /// All available resolutions (each becomes a display mode).
    pub available_modes: Vec<ResolutionMode>,
}

/// The modes a display offers when nothing else is configured.
pub open spec fn default_modes() -> Seq<ResolutionMode> {
    seq![
        ResolutionMode { width: 1280, height: 720 },
        ResolutionMode { width: 1920, height: 1080 },
        ResolutionMode { width: 2560, height: 1440 },
        ResolutionMode { width: 3440, height: 1440 },
        ResolutionMode { width: 3840, height: 2160 },
    ]
}

impl Default for DisplayConfig {
    fn default() -> (r: Self)
        ensures
            r.width == 3440,
            r.height == 1440,
            r.frame_rate == 60,
            r.name@ == "Parsec"@,
            r.available_modes@ == default_modes(),
    {
        let mut modes: Vec<ResolutionMode> = Vec::new();
        modes.push(ResolutionMode { width: 1280, height: 720 });
        modes.push(ResolutionMode { width: 1920, height: 1080 });
        modes.push(ResolutionMode { width: 2560, height: 1440 });
        modes.push(ResolutionMode { width: 3440, height: 1440 });
        modes.push(ResolutionMode { width: 3840, height: 2160 });
        assert(modes@ =~= default_modes());
        DisplayConfig {
            width: 3440,
            height: 1440,
            frame_rate: 60,
            name: "Parsec".to_owned(),
            available_modes: modes,
        }
    }
}

/// The 64-bit djb2 state after reading `b`: start at 5381, then for each byte
/// multiply by 33 and add the byte, wrapping at 2^64.
pub open spec fn djb2_state(b: Seq<u8>) -> int
    decreases b.len(),
{
    if b.len() == 0 {
        5381
    } else {
        (djb2_state(b.drop_last()) * 33 + b.last()) % 0x1_0000_0000_0000_0000
    }
}

/// The djb2 hash of `b`, cut to its low 32 bits.
pub open spec fn djb2(b: Seq<u8>) -> int {
    djb2_state(b) % 0x1_0000_0000
}

/// The djb2 hash of the UTF-8 bytes of `s`, cut to 32 bits.
pub fn djb2_hash(s: &str) -> (r: u32)
    ensures
        r == djb2(s.spec_bytes()),
{
    let bytes = s.as_bytes();
    let n = bytes.len();
    let mut hash: u64 = 5381;
    let mut i: usize = 0;
    while i < n
        invariant
            n == bytes@.len(),
            bytes@ == s.spec_bytes(),
            i <= n,
            hash == djb2_state(bytes@.take(i as int)),
        decreases n - i,
    {
        let c = bytes[i];
        let next: u128 = (hash as u128) * 33 + (c as u128);
        assert(bytes@.take(i + 1).drop_last() =~= bytes@.take(i as int));
        hash = (next % 0x1_0000_0000_0000_0000u128) as u64;
        i = i + 1;
    }
    assert(bytes@.take(n as int) =~= bytes@);
    (hash % 0x1_0000_0000u64) as u32
}

/// Appending a byte updates the 32-bit hash on its own: multiply by 33 and
/// add the byte, wrapping at 2^32.
pub proof fn law_djb2_append_byte(b: Seq<u8>, c: u8)
    ensures
        djb2(b.push(c)) == (djb2(b) * 33 + c) % 0x1_0000_0000,
{
    let m: int = 0x1_0000_0000;
    let big: int = 0x1_0000_0000_0000_0000;
    let st = djb2_state(b);
    assert(b.push(c).drop_last() =~= b);
    assert(djb2_state(b.push(c)) == (st * 33 + c) % big);
    assert(big == m * m);
    lemma_mod_mod(st * 33 + c, m, m);
    lemma_add_mod_noop(st * 33, c as int, m);
    lemma_add_mod_noop((st % m) * 33, c as int, m);
    lemma_mul_mod_noop_left(st, 33, m);
}

/// The UTF-8 encoding of two character sequences one after the other.
pub proof fn lemma_encode_utf8_concat(a: Seq<char>, b: Seq<char>)
    ensures
        encode_utf8(a + b) == encode_utf8(a) + encode_utf8(b),
    decreases a.len(),
{
    if a.len() == 0 {
        assert(a + b =~= b);
        assert(encode_utf8(a) + encode_utf8(b) =~= encode_utf8(b));
    } else {
        lemma_encode_utf8_concat(a.drop_first(), b);
        assert((a + b)[0] == a[0]);
        assert((a + b).drop_first() =~= a.drop_first() + b);
        assert(encode_scalar(a[0] as u32) + (encode_utf8(a.drop_first()) + encode_utf8(b))
            =~= (encode_scalar(a[0] as u32) + encode_utf8(a.drop_first())) + encode_utf8(b));
    }
}

/// Appending an ASCII character to a name updates its hash on its own:
/// multiply by 33 and add the character's code, wrapping at 2^32.
pub proof fn law_djb2_append_ascii(s: Seq<char>, c: char)
    requires
        (c as u32) < 0x80,
    ensures
        djb2(encode_utf8(s.push(c))) == (djb2(encode_utf8(s)) * 33 + (c as u32)) % 0x1_0000_0000,
{
    assert(s.push(c) =~= s + seq![c]);
    lemma_encode_utf8_concat(s, seq![c]);
    let one = seq![c];
    assert(one.drop_first() =~= Seq::<char>::empty());
    let u = c as u32;
    assert(encode_utf8(Seq::<char>::empty()) =~= Seq::<u8>::empty());
    assert(encode_utf8(one) =~= encode_scalar(u));
    assert((u & 0x7F) == u) by (bit_vector)
        requires
            u < 0x80,
    ;
    assert(encode_scalar(u) =~= seq![u as u8]);
    assert(encode_utf8(s) + seq![(c as u32) as u8] =~= encode_utf8(s).push((c as u32) as u8));
    law_djb2_append_byte(encode_utf8(s), (c as u32) as u8);
}

/// `value` held within `[min, max]`: below `min` gives `min`, above `max`
/// gives `max`.
pub open spec fn clamp_spec(value: int, min: int, max: int) -> int {
    if value < min {
        min
    } else if value > max {
        max
    } else {
        value
    }
}

/// With `min <= max` the held value lies in `[min, max]`, and a value
/// already there is kept.
pub proof fn law_clamp_within(value: int, min: int, max: int)
    requires
        min <= max,
    ensures
        min <= clamp_spec(value, min, max) <= max,
        min <= value <= max ==> clamp_spec(value, min, max) == value,
{
}

/// Holds `value` within `[min, max]`.
pub fn clamp(value: i32, min: i32, max: i32) -> (r: i32)
    ensures
        r == clamp_spec(value as int, min as int, max as int),
{
    if value < min {
        min
    } else if value > max {
        max
    } else {
        value
    }
}

/// `acc` followed by each element of `xs` that is not already present, in
/// the order of `xs`.
pub open spec fn dedup_extend<A>(acc: Seq<A>, xs: Seq<A>) -> Seq<A>
    decreases xs.len(),
{
    if xs.len() == 0 {
        acc
    } else {
        let r = dedup_extend(acc, xs.drop_last());
        if r.contains(xs.last()) {
            r
        } else {
            r.push(xs.last())
        }
    }
}

/// No element occurs twice in `s`.
pub open spec fn no_duplicates<A>(s: Seq<A>) -> bool {
    forall|i: int, j: int| 0 <= i < j < s.len() ==> s[i] != s[j]
}

/// Extending never drops or reorders what was there, never repeats an
/// element, and holds exactly the elements of `acc` and of `xs`.
pub proof fn law_dedup_extend<A>(acc: Seq<A>, xs: Seq<A>)
    requires
        no_duplicates(acc),
    ensures
        dedup_extend(acc, xs).len() >= acc.len(),
        dedup_extend(acc, xs).take(acc.len() as int) == acc,
        no_duplicates(dedup_extend(acc, xs)),
        forall|x: A| dedup_extend(acc, xs).contains(x) <==> (acc.contains(x) || xs.contains(x)),
    decreases xs.len(),
{
    if xs.len() == 0 {
        assert(acc.take(acc.len() as int) =~= acc);
    } else {
        let xs0 = xs.drop_last();
        law_dedup_extend(acc, xs0);
        let r = dedup_extend(acc, xs0);
        assert forall|x: A| xs.contains(x) <==> (xs0.contains(x) || x == xs.last()) by {
            if xs.contains(x) {
                let k = choose|k: int| 0 <= k < xs.len() && xs[k] == x;
                if k < xs.len() - 1 {
                    assert(xs0[k] == x);
                }
            }
            if xs0.contains(x) {
                let k = choose|k: int| 0 <= k < xs0.len() && xs0[k] == x;
                assert(xs[k] == x);
            }
            if x == xs.last() {
                assert(xs[xs.len() - 1] == x);
            }
        }
        if !r.contains(xs.last()) {
            let r2 = r.push(xs.last());
            assert(r2.take(acc.len() as int) =~= r.take(acc.len() as int));
            assert forall|x: A| r2.contains(x) <==> (r.contains(x) || x == xs.last()) by {
                if r2.contains(x) {
                    let k = choose|k: int| 0 <= k < r2.len() && r2[k] == x;
                    if k < r.len() {
                        assert(r[k] == x);
                    }
                }
                if r.contains(x) {
                    let k = choose|k: int| 0 <= k < r.len() && r[k] == x;
                    assert(r2[k] == x);
                }
                if x == xs.last() {
                    assert(r2[r.len() as int] == x);
                }
            }
            assert forall|i: int, j: int| 0 <= i < j < r2.len() implies r2[i] != r2[j] by {
                if j == r.len() {
                    assert(r[i] == r2[i]);
                }
            }
        }
    }
}

fn contains_pair(v: &Vec<(u32, u32)>, p: (u32, u32)) -> (r: bool)
    ensures
        r == v@.contains(p),
{
    let n = v.len();
    let mut i: usize = 0;
    while i < n
        invariant
            n == v@.len(),
            i <= n,
            forall|j: int| 0 <= j < i ==> v@[j] != p,
        decreases n - i,
    {
        let q = v[i];
        if q.0 == p.0 && q.1 == p.1 {
            assert(v@[i as int] == p);
            return true;
        }
        i = i + 1;
    }
    false
}

/// The current resolution followed by every other listed mode, each once,
/// in the order listed.
pub fn unique_modes(width: u32, height: u32, all_modes: &[(u32, u32)]) -> (r: Vec<(u32, u32)>)
    ensures
        r@ == dedup_extend(seq![(width, height)], all_modes@),
{
    let mut unique: Vec<(u32, u32)> = Vec::new();
    unique.push((width, height));
    let n = all_modes.len();
    let mut i: usize = 0;
    assert(all_modes@.take(0) =~= Seq::<(u32, u32)>::empty());
    assert(unique@ =~= seq![(width, height)]);
    while i < n
        invariant
            n == all_modes@.len(),
            i <= n,
            unique@ == dedup_extend(seq![(width, height)], all_modes@.take(i as int)),
        decreases n - i,
    {
        let m = all_modes[i];
        assert(all_modes@.take(i + 1).drop_last() =~= all_modes@.take(i as int));
        assert(all_modes@.take(i + 1).last() == m);
        if !contains_pair(&unique, m) {
            unique.push(m);
        }
        i = i + 1;
    }
    assert(all_modes@.take(n as int) =~= all_modes@);
    unique
}

/// Whether a mode also gets a half-size scaled companion on a HiDPI display.
pub open spec fn has_scaled_mode(hidpi: bool, m: (u32, u32)) -> bool {
    hidpi && m.0 >= 1280 && m.1 >= 720
}

/// The display modes made from `modes`: each mode, followed by its
/// half-size companion where `has_scaled_mode` holds.
pub open spec fn expand_modes(modes: Seq<(u32, u32)>, hidpi: bool) -> Seq<(u32, u32)>
    decreases modes.len(),
{
    if modes.len() == 0 {
        Seq::empty()
    } else {
        let m = modes.last();
        let r = expand_modes(modes.drop_last(), hidpi).push(m);
        if has_scaled_mode(hidpi, m) {
            r.push(((m.0 / 2) as u32, (m.1 / 2) as u32))
        } else {
            r
        }
    }
}

/// The display modes to register for `modes`.
pub fn mode_list(modes: &Vec<(u32, u32)>, hidpi: bool) -> (r: Vec<(u32, u32)>)
    ensures
        r@ == expand_modes(modes@, hidpi),
{
    let mut out: Vec<(u32, u32)> = Vec::new();
    let n = modes.len();
    let mut i: usize = 0;
    assert(modes@.take(0) =~= Seq::<(u32, u32)>::empty());
    while i < n
        invariant
            n == modes@.len(),
            i <= n,
            out@ == expand_modes(modes@.take(i as int), hidpi),
        decreases n - i,
    {
        let m = modes[i];
        assert(modes@.take(i + 1).drop_last() =~= modes@.take(i as int));
        assert(modes@.take(i + 1).last() == m);
        out.push(m);
        if hidpi && m.0 >= 1280 && m.1 >= 720 {
            out.push((m.0 / 2, m.1 / 2));
        }
        i = i + 1;
    }
    assert(modes@.take(n as int) =~= modes@);
    out
}

/// Without HiDPI the display modes are exactly the given ones.
pub proof fn lemma_expand_modes_plain(modes: Seq<(u32, u32)>)
    ensures
        expand_modes(modes, false) == modes,
    decreases modes.len(),
{
    if modes.len() > 0 {
        lemma_expand_modes_plain(modes.drop_last());
        assert(modes.drop_last().push(modes.last()) =~= modes);
    }
}

/// The largest of `start` and the widths (`first`) or heights (`!first`) of
/// `modes`.
pub open spec fn max_dimension(start: u32, modes: Seq<(u32, u32)>, first: bool) -> u32
    decreases modes.len(),
{
    if modes.len() == 0 {
        start
    } else {
        let r = max_dimension(start, modes.drop_last(), first);
        let d = if first {
            modes.last().0
        } else {
            modes.last().1
        };
        if d > r {
            d
        } else {
            r
        }
    }
}

/// The largest dimension is at least `start` and every listed one, and is one
/// of them.
pub proof fn law_max_dimension(start: u32, modes: Seq<(u32, u32)>, first: bool)
    ensures
        max_dimension(start, modes, first) >= start,
        forall|i: int|
            0 <= i < modes.len() ==> max_dimension(start, modes, first) >= (if first {
                modes[i].0
            } else {
                modes[i].1
            }),
        max_dimension(start, modes, first) == start || exists|i: int|
            0 <= i < modes.len() && max_dimension(start, modes, first) == (if first {
                modes[i].0
            } else {
                modes[i].1
            }),
    decreases modes.len(),
{
    if modes.len() > 0 {
        let m0 = modes.drop_last();
        law_max_dimension(start, m0, first);
        assert forall|i: int| 0 <= i < m0.len() implies modes[i] == m0[i] by {}
        if max_dimension(start, modes, first) != start && max_dimension(start, m0, first)
            == max_dimension(start, modes, first) {
            let k = choose|k: int|
                0 <= k < m0.len() && max_dimension(start, m0, first) == (if first {
                    m0[k].0
                } else {
                    m0[k].1
                });
            assert(modes[k] == m0[k]);
        }
    }
}

fn max_dimension_exec(start: u32, modes: &[(u32, u32)], first: bool) -> (r: u32)
    ensures
        r == max_dimension(start, modes@, first),
{
    let n = modes.len();
    let mut best = start;
    let mut i: usize = 0;
    assert(modes@.take(0) =~= Seq::<(u32, u32)>::empty());
    while i < n
        invariant
            n == modes@.len(),
            i <= n,
            best == max_dimension(start, modes@.take(i as int), first),
        decreases n - i,
    {
        let m = modes[i];
        assert(modes@.take(i + 1).drop_last() =~= modes@.take(i as int));
        assert(modes@.take(i + 1).last() == m);
        let d = if first {
            m.0
        } else {
            m.1
        };
        if d > best {
            best = d;
        }
        i = i + 1;
    }
    assert(modes@.take(n as int) =~= modes@);
    best
}

/// Everything that is decided before a virtual display is made.
pub struct DisplayPlan {
    /// Refresh rate in Hz, held within 30..=120.
    pub refresh_rate: i32,
    /// Pixel density, held within 72..=300.
    pub ppi: i32,
    /// Widest width over the requested and the listed modes.
    pub max_width: u32,
    /// Tallest height over the requested and the listed modes.
    pub max_height: u32,
    /// Display modes to register, in order.
    pub modes: Vec<(u32, u32)>,
}

/// How a display identifies itself, derived from its name.
pub struct DisplayIdentity {
    /// Serial number: the djb2 hash of the display name.
    pub serial: u32,
    /// Product id: bits 16..32 of the serial number.
    pub product_id: u32,
    /// Vendor id.
    pub vendor_id: u32,
}

/// A display name the platform can take: it must become a C string, so it
/// holds no NUL character.
pub open spec fn valid_display_name(name: Seq<char>) -> bool {
    free_of(name, '\0')
}

/// Whether a display name holds no NUL character.
pub fn is_valid_display_name(name: &str) -> (r: bool)
    ensures
        r == valid_display_name(name@),
{
    let chars = chars_of(name);
    let n = chars.len();
    let mut i: usize = 0;
    while i < n
        invariant
            n == chars@.len(),
            chars@ == name@,
            i <= n,
            forall|j: int| 0 <= j < i ==> chars@[j] != '\0',
        decreases n - i,
    {
        if chars[i] == '\0' {
            return false;
        }
        i = i + 1;
    }
    true
}

/// The identity of a display named `name`: its serial number (the djb2 hash
/// of the name's UTF-8 bytes), the serial's upper half as product id, and
/// the vendor id 0xeeee. The name must become a C string, so it holds no NUL.
pub fn display_identity(name: &str) -> (r: DisplayIdentity)
    requires
        valid_display_name(name@),
    ensures
        r.serial == djb2(name.spec_bytes()),
        r.product_id == r.serial / 0x10000,
        r.vendor_id == 0xeeee,
{
    let serial = djb2_hash(name);
    let product_id = (serial >> 16) & 0xFFFF;
    assert((serial >> 16) & 0xFFFF == serial / 0x10000) by (bit_vector);
    DisplayIdentity { serial, product_id, vendor_id: 0xeeee }
}

/// The refresh rate used for a requested rate: the request read as a signed
/// 32-bit number, held within 30..=120.
pub open spec fn planned_refresh_rate(refresh_rate: u32) -> int {
    clamp_spec((refresh_rate as i32) as int, 30, 120)
}

/// The values planned for a display, when width and height are non-zero.
pub open spec fn plan_matches(
    p: DisplayPlan,
    width: u32,
    height: u32,
    refresh_rate: u32,
    hidpi: bool,
    ppi: i32,
    all_modes: Seq<(u32, u32)>,
) -> bool {
    &&& p.refresh_rate == planned_refresh_rate(refresh_rate)
    &&& p.ppi == clamp_spec(ppi as int, 72, 300)
    &&& p.max_width == max_dimension(width, all_modes, true)
    &&& p.max_height == max_dimension(height, all_modes, false)
    &&& p.modes@ == expand_modes(dedup_extend(seq![(width, height)], all_modes), hidpi)
}

/// The message given when a display of zero width or height is requested.
pub open spec fn zero_size_message() -> Seq<char> {
    "Width and height must be greater than 0"@
}

/// Decides the size, rate, density and modes a new virtual display is made
/// with; a zero width or height is refused.
pub fn plan_display(
    width: u32,
    height: u32,
    refresh_rate: u32,
    hidpi: bool,
    ppi: i32,
    all_modes: &[(u32, u32)],
) -> (r: Result<DisplayPlan, String>)
    ensures
        (width == 0 || height == 0) <==> r is Err,
        r matches Err(e) ==> e@ == zero_size_message(),
        r matches Ok(p) ==> plan_matches(
            p,
            width,
            height,
            refresh_rate,
            hidpi,
            ppi,
            all_modes@,
        ),
{
    if width == 0 || height == 0 {
        return Err("Width and height must be greater than 0".to_owned());
    }
    let refresh = clamp(refresh_rate as i32, 30, 120);
    let ppi = clamp(ppi, 72, 300);
    let max_width = max_dimension_exec(width, all_modes, true);
    let max_height = max_dimension_exec(height, all_modes, false);
    let unique = unique_modes(width, height, all_modes);
    let modes = mode_list(&unique, hidpi);
    Ok(
        DisplayPlan {
            refresh_rate: refresh,
            ppi,
            max_width,
            max_height,
            modes,
        },
    )
}

/// The handles of a platform display object set, by their addresses
/// (0 stands for none), and the display's id.
pub struct DisplayHandles {
    pub display: usize,
    pub descriptor: usize,
    pub settings: usize,
    pub display_id: u32,
}

/// A whole display set: a display object is held exactly when the system
/// gave it a non-zero id, and without a display object nothing is held.
pub open spec fn well_formed_handles(h: DisplayHandles) -> bool {
    &&& (h.display != 0 <==> h.display_id != 0)
    &&& h.display == 0 ==> h.descriptor == 0 && h.settings == 0
}

/// The state of the one virtual display that this process may own: the
/// platform objects it holds, by address, and the id the system gave it.
pub struct VirtualDisplayState {
    display: usize,
    descriptor: usize,
    settings: usize,
    display_id: u32,
}

/// The platform objects of a display being made, by address, with its id
/// once known. The steps run in the platform's order (descriptor, display
/// object, id, settings), as their `requires` demand; each records what the
/// platform returned. A failed step hands back everything recorded so far for
/// release and leaves nothing recorded, and the state the build began from is
/// empty, so a failed creation holds nothing. Only a complete build is kept,
/// by `VirtualDisplayState::finish_create`.
pub struct DisplayBuild {
    display: usize,
    descriptor: usize,
    settings: usize,
    display_id: u32,
}

/// The handles that `destroy` hands back for release, in release order: the
/// settings, the descriptor and the display object, each where present.
pub open spec fn release_order(h: DisplayHandles) -> Seq<usize> {
    let a = if h.settings != 0 {
        seq![h.settings]
    } else {
        Seq::empty()
    };
    let b = if h.descriptor != 0 {
        a.push(h.descriptor)
    } else {
        a
    };
    if h.display != 0 {
        b.push(h.display)
    } else {
        b
    }
}

/// Destroying releases each held object once: every handle handed back is
/// a held one, none is handed back twice, and the display object comes last.
pub proof fn law_release_order(h: DisplayHandles)
    requires
        h.display != h.descriptor || h.display == 0,
        h.display != h.settings || h.display == 0,
        h.descriptor != h.settings || h.descriptor == 0,
    ensures
        forall|i: int|
            0 <= i < release_order(h).len() ==> release_order(h)[i] != 0 && (release_order(h)[i]
                == h.settings || release_order(h)[i] == h.descriptor || release_order(h)[i]
                == h.display),
        no_duplicates(release_order(h)),
        h.display != 0 ==> release_order(h).len() > 0 && release_order(h).last() == h.display,
        h.settings != 0 ==> release_order(h).contains(h.settings),
        h.descriptor != 0 ==> release_order(h).contains(h.descriptor),
{
    let r = release_order(h);
    if h.settings != 0 {
        assert(r[0] == h.settings);
    }
    if h.descriptor != 0 {
        let k = if h.settings != 0 { 1int } else { 0int };
        assert(r[k] == h.descriptor);
    }
}

/// A well-formed display set without a display holds nothing to release.
pub proof fn law_nothing_held_without_display(h: DisplayHandles)
    requires
        well_formed_handles(h),
        h.display == 0,
    ensures
        is_empty_state(h),
        release_order(h).len() == 0,
{
}

/// No handle is held and no id is known.
pub open spec fn is_empty_state(h: DisplayHandles) -> bool {
    h.display == 0 && h.descriptor == 0 && h.settings == 0 && h.display_id == 0
}

/// A display being made is ready to be kept: it has a display object and an id.
pub open spec fn build_complete(h: DisplayHandles) -> bool {
    h.display != 0 && h.display_id != 0
}

/// The message given when the platform's virtual display classes are missing.
pub open spec fn classes_missing_message() -> Seq<char> {
    "Failed to get CGVirtualDisplay classes - private API may be unavailable"@
}

/// The message given when no display descriptor could be made.
pub open spec fn descriptor_failed_message() -> Seq<char> {
    "Failed to create CGVirtualDisplayDescriptor"@
}

/// The message given when no display object could be made.
pub open spec fn display_failed_message() -> Seq<char> {
    "Failed to create CGVirtualDisplay"@
}

/// The message given when the system gave the display no id.
pub open spec fn zero_id_message() -> Seq<char> {
    "Failed to create virtual display (displayID is 0)"@
}

/// Checks that all four virtual display classes were found (by address).
pub fn check_classes(descriptor: usize, display: usize, settings: usize, mode: usize) -> (r: Result<
    (),
    String,
>)
    ensures
        r is Ok <==> (descriptor != 0 && display != 0 && settings != 0 && mode != 0),
        r matches Err(e) ==> e@ == classes_missing_message(),
{
    if descriptor == 0 || display == 0 || settings == 0 || mode == 0 {
        Err("Failed to get CGVirtualDisplay classes - private API may be unavailable".to_owned())
    } else {
        Ok(())
    }
}

/// The handles `settings`, `descriptor` and `display`, each where present,
/// in release order.
fn release_list(settings: usize, descriptor: usize, display: usize) -> (r: Vec<usize>)
    ensures
        forall|id: u32|
            r@ == release_order(
                DisplayHandles { display, descriptor, settings, display_id: id },
            ),
{
    let mut released: Vec<usize> = Vec::new();
    if settings != 0 {
        released.push(settings);
    }
    if descriptor != 0 {
        released.push(descriptor);
    }
    if display != 0 {
        released.push(display);
    }
    proof {
        let a: Seq<usize> = if settings != 0 {
            seq![settings]
        } else {
            Seq::empty()
        };
        let b = if descriptor != 0 {
            a.push(descriptor)
        } else {
            a
        };
        if display != 0 {
            assert(released@ =~= b.push(display));
        } else {
            assert(released@ =~= b);
        }
    }
    released
}

impl VirtualDisplayState {
    #[verifier::type_invariant]
    closed spec fn inv(self) -> bool {
        well_formed_handles(self.handles())
    }

    /// The handles and id held.
    pub closed spec fn handles(&self) -> DisplayHandles {
        DisplayHandles {
            display: self.display,
            descriptor: self.descriptor,
            settings: self.settings,
            display_id: self.display_id,
        }
    }

    /// A state that holds nothing.
    pub fn new() -> (r: Self)
        ensures
            is_empty_state(r.handles()),
    {
        VirtualDisplayState { display: 0, descriptor: 0, settings: 0, display_id: 0 }
    }

    /// Whether a display is held: exactly when its id is non-zero; without
    /// one nothing is held.
    pub fn is_created(&self) -> (r: bool)
        ensures
            r == (self.handles().display != 0),
            r == (self.handles().display_id != 0),
            !r ==> is_empty_state(self.handles()),
    {
        proof {
            use_type_invariant(self);
        }
        self.display != 0
    }

    /// The id of the display held; 0 exactly when none is held.
    pub fn get_display_id(&self) -> (r: u32)
        ensures
            r == self.handles().display_id,
            (r != 0) == (self.handles().display != 0),
    {
        proof {
            use_type_invariant(self);
        }
        self.display_id
    }

    /// Lets go of everything held and returns the handles to release, in
    /// release order (none when no display is held).
    pub fn destroy(&mut self) -> (released: Vec<usize>)
        ensures
            is_empty_state(final(self).handles()),
            released@ == release_order(old(self).handles()),
    {
        proof {
            use_type_invariant(&*self);
        }
        let released = release_list(self.settings, self.descriptor, self.display);
        *self = VirtualDisplayState { display: 0, descriptor: 0, settings: 0, display_id: 0 };
        released
    }

    /// The first step of making a display: a display already held is let go
    /// (its handles are handed back for release) and an empty build begins.
    pub fn begin_create(&mut self) -> (r: (Vec<usize>, DisplayBuild))
        ensures
            r.0@ == release_order(old(self).handles()),
            old(self).handles().display == 0 ==> r.0@.len() == 0,
            is_empty_state(final(self).handles()),
            is_empty_state(r.1.handles()),
    {
        proof {
            use_type_invariant(&*self);
        }
        let released = self.destroy();
        (released, DisplayBuild { display: 0, descriptor: 0, settings: 0, display_id: 0 })
    }

    /// The last step of making a display: the completed build becomes the
    /// display held, and its id is returned.
    pub fn finish_create(&mut self, build: DisplayBuild) -> (id: u32)
        requires
            is_empty_state(old(self).handles()),
            build_complete(build.handles()),
        ensures
            final(self).handles() == build.handles(),
            id == build.handles().display_id,
            id != 0,
            well_formed_handles(final(self).handles()),
    {
        *self = VirtualDisplayState {
            display: build.display,
            descriptor: build.descriptor,
            settings: build.settings,
            display_id: build.display_id,
        };
        build.display_id
    }
}

impl DisplayBuild {
    /// The handles recorded so far.
    pub closed spec fn handles(&self) -> DisplayHandles {
        DisplayHandles {
            display: self.display,
            descriptor: self.descriptor,
            settings: self.settings,
            display_id: self.display_id,
        }
    }

    /// Whether the build has a display object and an id.
    pub fn is_complete(&self) -> (r: bool)
        ensures
            r == build_complete(self.handles()),
    {
        self.display != 0 && self.display_id != 0
    }

    /// Records the descriptor that was made; a missing one (0) is an error.
    pub fn attach_descriptor(&mut self, descriptor: usize) -> (r: Result<(), String>)
        requires
            is_empty_state(old(self).handles()),
        ensures
            final(self).handles() == (DisplayHandles { descriptor, ..old(self).handles() }),
            r is Ok <==> descriptor != 0,
            r matches Err(e) ==> e@ == descriptor_failed_message(),
    {
        self.descriptor = descriptor;
        if descriptor == 0 {
            Err("Failed to create CGVirtualDisplayDescriptor".to_owned())
        } else {
            Ok(())
        }
    }

    /// Records the display object that was made. A missing one (0) is an
    /// error, and then the descriptor is let go and handed back for release.
    pub fn attach_display(&mut self, display: usize) -> (r: Result<(), (String, usize)>)
        requires
            old(self).handles().descriptor != 0,
            old(self).handles().display == 0,
            old(self).handles().settings == 0,
            old(self).handles().display_id == 0,
        ensures
            r is Ok <==> display != 0,
            r is Ok ==> final(self).handles() == (DisplayHandles {
                display,
                ..old(self).handles()
            }),
            r matches Err(e) ==> e.0@ == display_failed_message() && e.1 == old(
                self,
            ).handles().descriptor && final(self).handles() == (DisplayHandles {
                display: 0,
                descriptor: 0,
                ..old(self).handles()
            }),
    {
        self.display = display;
        if display == 0 {
            let released = self.descriptor;
            self.descriptor = 0;
            Err(("Failed to create CGVirtualDisplay".to_owned(), released))
        } else {
            Ok(())
        }
    }

    /// Records the id the system gave the display. An id of 0 is an error,
    /// and then everything recorded is let go and handed back for release.
    pub fn attach_display_id(&mut self, id: u32) -> (r: Result<u32, (String, Vec<usize>)>)
        requires
            old(self).handles().descriptor != 0,
            old(self).handles().display != 0,
            old(self).handles().settings == 0,
            old(self).handles().display_id == 0,
        ensures
            r is Ok <==> id != 0,
            r matches Ok(v) ==> v == id && final(self).handles() == (DisplayHandles {
                display_id: id,
                ..old(self).handles()
            }),
            r matches Err(e) ==> e.0@ == zero_id_message() && is_empty_state(final(self).handles())
                && e.1@ == release_order(DisplayHandles { display_id: 0, ..old(self).handles() }),
    {
        if id == 0 {
            let released = release_list(self.settings, self.descriptor, self.display);
            self.display = 0;
            self.descriptor = 0;
            self.settings = 0;
            self.display_id = 0;
            Err(("Failed to create virtual display (displayID is 0)".to_owned(), released))
        } else {
            self.display_id = id;
            Ok(id)
        }
    }

    /// Records the display settings object that was made.
    pub fn attach_settings(&mut self, settings: usize)
        requires
            old(self).handles().display != 0,
            old(self).handles().display_id != 0,
            old(self).handles().settings == 0,
        ensures
            final(self).handles() == (DisplayHandles { settings, ..old(self).handles() }),
    {
        self.settings = settings;
    }
}

/// Lets go of the display when one is held: returns whether one was, and
/// the handles to release. Afterwards nothing is held, so a second call
/// returns `false`.
pub fn destroy_display(state: &mut VirtualDisplayState) -> (r: (bool, Vec<usize>))
    ensures
        r.0 == (old(state).handles().display != 0),
        is_empty_state(final(state).handles()),
        r.1@ == release_order(old(state).handles()),
        !r.0 ==> r.1@.len() == 0,
{
    if state.is_created() {
        let released = state.destroy();
        (true, released)
    } else {
        (false, Vec::new())
    }
}

/// Whether a display is held (exactly when its id is non-zero).
pub fn is_display_created(state: &VirtualDisplayState) -> (r: bool)
    ensures
        r == (state.handles().display != 0),
        r == (state.handles().display_id != 0),
        !r ==> is_empty_state(state.handles()),
{
    state.is_created()
}

/// The id of the display held; 0 exactly when none is held.
pub fn get_display_id(state: &VirtualDisplayState) -> (r: u32)
    ensures
        r == state.handles().display_id,
        (r != 0) == (state.handles().display != 0),
{
    state.get_display_id()
}

/// How the platform mirror setting must change for the wanted mode.
#[derive(Debug, Clone, Copy, PartialEq, Eq, Structural)]
pub enum MirrorChange {
    /// Make the virtual display mirror the main display.
    Enable,
    /// Stop the virtual display from mirroring.
    Disable,
    /// Leave it as it is.
    Keep,
}

/// Mirroring is turned on when wanted and off (when reported as exactly 1)
/// when not wanted.
pub fn mirror_change(use_mirror: bool, is_mirror: u8) -> (r: MirrorChange)
    ensures
        r == (if use_mirror {
            if is_mirror == 0 {
                MirrorChange::Enable
            } else {
                MirrorChange::Keep
            }
        } else if is_mirror == 1 {
            MirrorChange::Disable
        } else {
            MirrorChange::Keep
        }),
{
    if use_mirror {
        if is_mirror == 0 {
            MirrorChange::Enable
        } else {
            MirrorChange::Keep
        }
    } else if is_mirror == 1 {
        MirrorChange::Disable
    } else {
        MirrorChange::Keep
    }
}

/// The corrections to the display arrangement after a display is made.
#[derive(Debug, Clone, Copy, PartialEq, Eq, Structural)]
pub struct ArrangementFixes {
    /// Put the former main display back at the origin.
    pub restore_main: bool,
    /// Stop the former main display from mirroring the new one.
    pub clear_mirror: bool,
}

/// The new display took over as main display (and was not main before)
/// exactly when the former main must be restored; the former main mirrors the
/// new display exactly when that mirror must be cleared.
pub fn arrangement_fixes(main_before: u32, main_after: u32, mirror_source: u32, display_id: u32) -> (r:
    ArrangementFixes)
    ensures
        r.restore_main == (main_after == display_id && main_after != main_before),
        r.clear_mirror == (mirror_source == display_id),
{
    ArrangementFixes {
        restore_main: main_after == display_id && main_after != main_before,
        clear_mirror: mirror_source == display_id,
    }
}

/// What the platform reported when asked to make a display.
pub enum CreateEvent {
    /// A display already existed, so none was made.
    AlreadyCreated,
    /// A display was made with this id.
    Created(u32),
    /// Making the display failed, for this reason.
    Failed(String),
}

/// What the platform reported when asked to remove the display.
pub enum DestroyEvent {
    /// There was no display to remove.
    NothingToDestroy,
    /// The display was removed.
    Destroyed,
    /// Removing the display failed.
    Failed,
}

/// The arguments the platform is asked to make a display with.
pub struct CreateRequest {
    pub width: u32,
    pub height: u32,
    pub refresh_rate: u32,
    pub hidpi: bool,
    pub name: String,
    pub ppi: i32,
    pub use_mirror: bool,
    pub all_modes: Vec<(u32, u32)>,
}

/// The `(width, height)` pairs of `modes`.
pub open spec fn mode_pairs_of(modes: Seq<ResolutionMode>) -> Seq<(u32, u32)> {
    modes.map_values(|m: ResolutionMode| (m.width, m.height))
}

/// The message prefix of a failed display creation.
pub open spec fn create_failed_prefix() -> Seq<char> {
    "Failed to create virtual display: "@
}

/// The message of a failed display removal.
pub open spec fn destroy_failed_message() -> Seq<char> {
    "Failed to destroy virtual display"@
}

/// A virtual display as the application sees it: what it is made with, and
/// its id while it exists.
pub struct VirtualDisplay {
    config: DisplayConfig,
    display_id: Option<u32>,
}

impl VirtualDisplay {
    /// What the display is made with.
    pub closed spec fn spec_config(&self) -> DisplayConfig {
        self.config
    }

    /// The display's id while it exists.
    pub closed spec fn spec_display_id(&self) -> Option<u32> {
        self.display_id
    }

    /// A display to be made with `config`; none exists yet.
    pub fn new(config: DisplayConfig) -> (r: Self)
        ensures
            r.spec_config() == config,
            r.spec_display_id() is None,
    {
        VirtualDisplay { config, display_id: None }
    }

    /// What the display is made with.
    pub fn config(&self) -> (r: &DisplayConfig)
        ensures
            *r == self.spec_config(),
    {
        &self.config
    }

    /// The display's id while it exists.
    pub fn display_id(&self) -> (r: Option<u32>)
        ensures
            r == self.spec_display_id(),
    {
        self.display_id
    }

    /// The arguments to make this display with: the configured size, rate,
    /// name and modes, without HiDPI, at 81 pixels per inch, not mirrored.
    pub fn create_request(&self) -> (r: CreateRequest)
        ensures
            r.width == self.spec_config().width,
            r.height == self.spec_config().height,
            r.refresh_rate == self.spec_config().frame_rate,
            !r.hidpi,
            r.name@ == self.spec_config().name@,
            r.ppi == 81,
            !r.use_mirror,
            r.all_modes@ == mode_pairs_of(self.spec_config().available_modes@),
    {
        let modes = &self.config.available_modes;
        let n = modes.len();
        let mut pairs: Vec<(u32, u32)> = Vec::new();
        let mut i: usize = 0;
        while i < n
            invariant
                n == modes@.len(),
                *modes == self.spec_config().available_modes,
                i <= n,
                pairs@ == mode_pairs_of(modes@.take(i as int)),
            decreases n - i,
        {
            let m = modes[i];
            pairs.push((m.width, m.height));
            assert(mode_pairs_of(modes@.take(i + 1)) =~= mode_pairs_of(modes@.take(i as int)).push(
                (m.width, m.height),
            ));
            i = i + 1;
        }
        assert(modes@.take(n as int) =~= modes@);
        CreateRequest {
            width: self.config.width,
            height: self.config.height,
            refresh_rate: self.config.frame_rate,
            hidpi: false,
            name: self.config.name.clone(),
            ppi: 81,
            use_mirror: false,
            all_modes: pairs,
        }
    }

    /// Takes in what happened when the display was to be made: an existing
    /// display is left alone, a made display is recorded, a failure is
    /// reported with its reason.
    pub fn create(&mut self, event: CreateEvent) -> (r: Result<(), String>)
        ensures
            final(self).spec_config() == old(self).spec_config(),
            match event {
                CreateEvent::AlreadyCreated => r is Ok && final(self).spec_display_id() == old(
                    self,
                ).spec_display_id(),
                CreateEvent::Created(id) => r is Ok && final(self).spec_display_id() == Some(id),
                CreateEvent::Failed(reason) => final(self).spec_display_id() == old(
                    self,
                ).spec_display_id() && (r matches Err(e) && e@ == create_failed_prefix()
                    + reason@),
            },
    {
        match event {
            CreateEvent::AlreadyCreated => Ok(()),
            CreateEvent::Created(id) => {
                self.display_id = Some(id);
                Ok(())
            },
            CreateEvent::Failed(reason) => {
                let mut msg = "Failed to create virtual display: ".to_owned();
                msg.append(reason.as_str());
                Err(msg)
            },
        }
    }

    /// Takes in what happened when the display was to be removed: nothing to
    /// remove is fine, a removal forgets the id, a failure is reported.
    pub fn destroy(&mut self, event: DestroyEvent) -> (r: Result<(), String>)
        ensures
            final(self).spec_config() == old(self).spec_config(),
            match event {
                DestroyEvent::NothingToDestroy => r is Ok && final(self).spec_display_id() == old(
                    self,
                ).spec_display_id(),
                DestroyEvent::Destroyed => r is Ok && final(self).spec_display_id() is None,
                DestroyEvent::Failed => final(self).spec_display_id() == old(
                    self,
                ).spec_display_id() && (r matches Err(e) && e@ == destroy_failed_message()),
            },
    {
        match event {
            DestroyEvent::NothingToDestroy => Ok(()),
            DestroyEvent::Destroyed => {
                self.display_id = None;
                Ok(())
            },
            DestroyEvent::Failed => Err("Failed to destroy virtual display".to_owned()),
        }
    }
    /// The arguments to make this display with, unless a display is already
    /// held on `state` (one display is shared by every `VirtualDisplay` of
    /// the thread), in which case none is made.
    pub fn create_request_on(&self, state: &VirtualDisplayState) -> (r: Option<CreateRequest>)
        ensures
            r is None <==> state.handles().display != 0,
            r matches Some(q) ==> q.width == self.spec_config().width && q.height
                == self.spec_config().height && q.refresh_rate == self.spec_config().frame_rate
                && !q.hidpi && q.name@ == self.spec_config().name@ && q.ppi == 81 && !q.use_mirror
                && q.all_modes@ == mode_pairs_of(self.spec_config().available_modes@),
    {
        if is_display_created(state) {
            None
        } else {
            Some(self.create_request())
        }
    }

    /// Removes the display held on `state`, whichever `VirtualDisplay` made
    /// it: with one held it is let go (its handles are handed back) and this
    /// value forgets its id; with none held nothing changes. Either way it
    /// succeeds and nothing is held afterwards.
    pub fn destroy_on(&mut self, state: &mut VirtualDisplayState) -> (r: (Result<(), String>, Vec<usize>))
        ensures
            r.0 is Ok,
            is_empty_state(final(state).handles()),
            r.1@ == release_order(old(state).handles()),
            final(self).spec_config() == old(self).spec_config(),
            old(state).handles().display != 0 ==> final(self).spec_display_id() is None,
            old(state).handles().display == 0 ==> final(self).spec_display_id() == old(
                self,
            ).spec_display_id() && r.1@.len() == 0,
    {
        if !is_display_created(state) {
            let r = self.destroy(DestroyEvent::NothingToDestroy);
            (r, Vec::new())
        } else {
            let (was_created, released) = destroy_display(state);
            let event = if was_created {
                DestroyEvent::Destroyed
            } else {
                DestroyEvent::Failed
            };
            let r = self.destroy(event);
            (r, released)
        }
    }
}

} // verus!
