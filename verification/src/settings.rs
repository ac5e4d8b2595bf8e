//! User settings: the chosen resolution and frame rate, options, and the
//! user's own resolutions, with the preset lists they are chosen from.

use vstd::prelude::*;
use crate::commands::Command;
use crate::text::{
    chars_of, decimal, decimal_string, find, find_exec, free_of, is_digit, join_path,
    join_path_exec, lemma_decimal_digits, lemma_find_from_first, lemma_parse_decimal, matches_at,
    parse_u32_range, parse_u32_spec,
};

verus! {

/// A named resolution.
#[derive(Debug, Clone)]
pub struct Resolution {
    pub width: u32,
    pub height: u32,
    pub name: String,
}

impl Resolution {
    /// A resolution with the given size and name.
    pub fn new(width: u32, height: u32, name: &str) -> (r: Self)
        ensures
            r.width == width,
            r.height == height,
            r.name@ == name@,
    {
        Resolution { width, height, name: name.to_owned() }
    }
}

impl Default for Resolution {
    fn default() -> (r: Self)
        ensures
            r.width == 3440,
            r.height == 1440,
            r.name@ == "3440x1440 (Ultrawide)"@,
    {
        Resolution::new(3440, 1440, "3440x1440 (Ultrawide)")
    }
}

/// The sizes of the preset resolutions, in menu order.
pub open spec fn preset_sizes() -> Seq<(u32, u32)> {
    seq![(1280, 720), (1920, 1080), (2560, 1440), (3440, 1440), (3840, 2160), (2560, 1080), (5120, 1440)]
}

/// The names of the preset resolutions, in menu order.
pub open spec fn preset_names() -> Seq<Seq<char>> {
    seq![
        "1280x720 (HD)"@,
        "1920x1080 (FHD)"@,
        "2560x1440 (QHD)"@,
        "3440x1440 (Ultrawide)"@,
        "3840x2160 (4K)"@,
        "2560x1080 (Ultrawide FHD)"@,
        "5120x1440 (Super Ultrawide)"@,
    ]
}

/// The preset resolutions, in menu order.
pub fn preset_resolutions() -> (r: Vec<Resolution>)
    ensures
        r@.len() == preset_sizes().len(),
        forall|i: int|
            0 <= i < r@.len() ==> (r@[i].width, r@[i].height) == preset_sizes()[i] && r@[i].name@
                == preset_names()[i],
{
    let mut r: Vec<Resolution> = Vec::new();
    r.push(Resolution::new(1280, 720, "1280x720 (HD)"));
    r.push(Resolution::new(1920, 1080, "1920x1080 (FHD)"));
    r.push(Resolution::new(2560, 1440, "2560x1440 (QHD)"));
    r.push(Resolution::new(3440, 1440, "3440x1440 (Ultrawide)"));
    r.push(Resolution::new(3840, 2160, "3840x2160 (4K)"));
    r.push(Resolution::new(2560, 1080, "2560x1080 (Ultrawide FHD)"));
    r.push(Resolution::new(5120, 1440, "5120x1440 (Super Ultrawide)"));
    r
}

/// The frame rates offered, in menu order.
pub open spec fn frame_rate_list() -> Seq<u32> {
    seq![30, 60, 120, 144]
}

/// The frame rates offered, in menu order.
pub fn frame_rates() -> (r: Vec<u32>)
    ensures
        r@ == frame_rate_list(),
{
    let mut r: Vec<u32> = Vec::new();
    r.push(30);
    r.push(60);
    r.push(120);
    r.push(144);
    assert(r@ =~= frame_rate_list());
    r
}

/// A resolution the user added.
#[derive(Debug, Clone)]
pub struct CustomResolution {
    pub width: u32,
    pub height: u32,
    pub name: String,
}

/// The user's settings.
#[derive(Debug, Clone)]
pub struct Settings {
    pub width: u32,
    pub height: u32,
    pub frame_rate: u32,
    pub auto_create: bool,
    pub start_at_login: bool,
    pub show_tray_icon: bool,
    pub display_name: String,
    pub custom_resolutions: Vec<CustomResolution>,
    /// Kept so that older settings files still load; not used.
    pub hidpi: bool,
}

impl Default for Settings {
    fn default() -> (r: Self)
        ensures
            r.width == 3440,
            r.height == 1440,
            r.frame_rate == 60,
            r.auto_create,
            !r.start_at_login,
            r.show_tray_icon,
            r.display_name@ == "Parsec"@,
            r.custom_resolutions@.len() == 0,
            !r.hidpi,
    {
        Settings {
            width: 3440,
            height: 1440,
            frame_rate: 60,
            auto_create: true,
            start_at_login: false,
            show_tray_icon: true,
            display_name: "Parsec".to_owned(),
            custom_resolutions: Vec::new(),
            hidpi: false,
        }
    }
}

/// `width` and `height` written as `WIDTHxHEIGHT`.
pub open spec fn size_label(width: u32, height: u32) -> Seq<char> {
    decimal(width as nat) + "x"@ + decimal(height as nat)
}

/// The label of a resolution the user added: `WIDTHxHEIGHT (Custom)`.
pub open spec fn custom_label(width: u32, height: u32) -> Seq<char> {
    size_label(width, height) + " (Custom)"@
}

/// Whether a size may be added as a custom resolution: 640..=7680 wide and
/// 480..=4320 high.
pub open spec fn custom_size_allowed(width: u32, height: u32) -> bool {
    640 <= width <= 7680 && 480 <= height <= 4320
}

/// Whether the list already holds a resolution of this size.
pub open spec fn has_custom_size(list: Seq<CustomResolution>, width: u32, height: u32) -> bool {
    exists|i: int| 0 <= i < list.len() && list[i].width == width && list[i].height == height
}

/// `width` and `height` written as `WIDTHxHEIGHT`.
pub fn size_text(width: u32, height: u32) -> (r: String)
    ensures
        r@ == size_label(width, height),
{
    let mut s = decimal_string(width);
    s.append("x");
    let h = decimal_string(height);
    s.append(h.as_str());
    s
}

impl Settings {
    /// The chosen resolution as `WIDTHxHEIGHT`.
    pub fn resolution_display(&self) -> (r: String)
        ensures
            r@ == size_label(self.width, self.height),
    {
        size_text(self.width, self.height)
    }

    /// Whether a resolution of this size was already added.
    pub fn has_custom_resolution(&self, width: u32, height: u32) -> (r: bool)
        ensures
            r == has_custom_size(self.custom_resolutions@, width, height),
    {
        let n = self.custom_resolutions.len();
        let mut i: usize = 0;
        while i < n
            invariant
                n == self.custom_resolutions@.len(),
                i <= n,
                forall|j: int|
                    0 <= j < i ==> !(self.custom_resolutions@[j].width == width
                        && self.custom_resolutions@[j].height == height),
            decreases n - i,
        {
            let c = &self.custom_resolutions[i];
            if c.width == width && c.height == height {
                return true;
            }
            i = i + 1;
        }
        false
    }

    /// Adds a resolution of the user's and chooses it, when its size is
    /// allowed and not yet listed; returns whether it was added. Otherwise
    /// nothing changes.
    pub fn add_custom_resolution(&mut self, width: u32, height: u32) -> (added: bool)
        ensures
            added == (custom_size_allowed(width, height) && !has_custom_size(
                old(self).custom_resolutions@,
                width,
                height,
            )),
            added == (custom_size_allowed(width, height) && forall|i: int|
                0 <= i < old(self).custom_resolutions@.len() ==> !(old(
                    self,
                ).custom_resolutions@[i].width == width && old(self).custom_resolutions@[i].height
                    == height)),
            added ==> final(self).width == width && final(self).height == height
                && final(self).custom_resolutions@.len() == old(self).custom_resolutions@.len() + 1
                && final(self).custom_resolutions@.drop_last() == old(self).custom_resolutions@
                && final(self).custom_resolutions@.last().width == width
                && final(self).custom_resolutions@.last().height == height
                && final(self).custom_resolutions@.last().name@ == custom_label(width, height)
                && final(self).frame_rate == old(self).frame_rate
                && final(self).auto_create == old(self).auto_create
                && final(self).start_at_login == old(self).start_at_login
                && final(self).show_tray_icon == old(self).show_tray_icon
                && final(self).display_name == old(self).display_name
                && final(self).hidpi == old(self).hidpi,
            !added ==> *final(self) == *old(self),
    {
        if !(640 <= width && width <= 7680 && 480 <= height && height <= 4320) {
            return false;
        }
        if self.has_custom_resolution(width, height) {
            return false;
        }
        let mut name = size_text(width, height);
        name.append(" (Custom)");
        self.custom_resolutions.push(CustomResolution { width, height, name });
        self.width = width;
        self.height = height;
        proof {
            assert(self.custom_resolutions@.drop_last() =~= old(self).custom_resolutions@);
        }
        true
    }

    /// Removes the user's resolution at `index`; nothing else changes.
    pub fn remove_custom_resolution(&mut self, index: usize)
        requires
            index < old(self).custom_resolutions@.len(),
        ensures
            final(self).custom_resolutions@ == old(self).custom_resolutions@.remove(index as int),
            *final(self) == (Settings {
                custom_resolutions: final(self).custom_resolutions,
                ..*old(self)
            }),
    {
        self.custom_resolutions.remove(index);
    }

    /// Takes in a menu command: a resolution command sets width and height, a
    /// frame rate command sets the frame rate; nothing else changes.
    pub fn apply_command(&mut self, cmd: Command)
        ensures
            match cmd {
                Command::SetResolution(w, h) => *final(self) == (Settings {
                    width: w,
                    height: h,
                    ..*old(self)
                }),
                Command::SetFps(f) => *final(self) == (Settings { frame_rate: f, ..*old(self) }),
            },
    {
        match cmd {
            Command::SetResolution(w, h) => {
                self.width = w;
                self.height = h;
            },
            Command::SetFps(f) => {
                self.frame_rate = f;
            },
        }
    }
}

/// The size named by a resolution key `WIDTHxHEIGHT`: exactly one `x`, with
/// a number before and after it as `str::parse::<u32>` reads numbers.
pub open spec fn size_key_spec(v: Seq<char>) -> Option<(u32, u32)> {
    match find(v, seq!['x']) {
        Some(k) => if free_of(v.skip(k + 1), 'x') {
            match (parse_u32_spec(v.take(k)), parse_u32_spec(v.skip(k + 1))) {
                (Some(w), Some(h)) => Some((w, h)),
                _ => None,
            }
        } else {
            None
        },
        None => None,
    }
}

/// Reads a resolution key `WIDTHxHEIGHT`.
pub fn parse_size_key(value: &str) -> (r: Option<(u32, u32)>)
    ensures
        r == size_key_spec(value@),
{
    let chars = chars_of(value);
    let mut x: Vec<char> = Vec::new();
    x.push('x');
    assert(x@ =~= seq!['x']);
    let k = match find_exec(&chars, &x) {
        Some(k) => k,
        None => return None,
    };
    let n = chars.len();
    let mut i = k + 1;
    while i < n
        invariant
            n == chars@.len(),
            chars@ == value@,
            find(chars@, seq!['x']) == Some(k as int),
            k + 1 <= i <= n,
            forall|j: int| k + 1 <= j < i ==> chars@[j] != 'x',
        decreases n - i,
    {
        if chars[i] == 'x' {
            let ghost j: int = i - k - 1;
            assert(chars@.skip(k + 1)[j] == 'x');
            assert(!free_of(chars@.skip(k + 1), 'x'));
            return None;
        }
        i = i + 1;
    }
    assert(chars@.take(k as int) =~= chars@.subrange(0, k as int));
    assert(chars@.skip(k + 1) =~= chars@.subrange(k + 1, n as int));
    let w = parse_u32_range(&chars, 0, k);
    let h = parse_u32_range(&chars, k + 1, n);
    match (w, h) {
        (Some(w), Some(h)) => Some((w, h)),
        _ => None,
    }
}

/// A number typed by the user, or `fallback` when it does not read as one.
pub open spec fn number_or(text: Seq<char>, fallback: u32) -> u32 {
    match parse_u32_spec(text) {
        Some(v) => v,
        None => fallback,
    }
}

fn parse_number_or(text: &str, fallback: u32) -> (r: u32)
    ensures
        r == number_or(text@, fallback),
{
    let chars = chars_of(text);
    let n = chars.len();
    assert(chars@.subrange(0, n as int) =~= chars@);
    match parse_u32_range(&chars, 0, n) {
        Some(v) => v,
        None => fallback,
    }
}

impl Settings {
    /// Chooses the resolution named by a key `WIDTHxHEIGHT`; returns whether
    /// the key named one (otherwise nothing changes).
    pub fn choose_resolution_key(&mut self, key: &str) -> (chosen: bool)
        ensures
            chosen == size_key_spec(key@) is Some,
            match size_key_spec(key@) {
                Some(p) => *final(self) == (Settings { width: p.0, height: p.1, ..*old(self) }),
                None => *final(self) == *old(self),
            },
    {
        match parse_size_key(key) {
            Some((w, h)) => {
                self.width = w;
                self.height = h;
                true
            },
            None => false,
        }
    }

    /// Chooses the frame rate typed as `text`; returns whether it read as a
    /// number (otherwise nothing changes).
    pub fn choose_frame_rate_text(&mut self, text: &str) -> (chosen: bool)
        ensures
            chosen == parse_u32_spec(text@) is Some,
            match parse_u32_spec(text@) {
                Some(f) => *final(self) == (Settings { frame_rate: f, ..*old(self) }),
                None => *final(self) == *old(self),
            },
    {
        let chars = chars_of(text);
        let n = chars.len();
        assert(chars@.subrange(0, n as int) =~= chars@);
        match parse_u32_range(&chars, 0, n) {
            Some(f) => {
                self.frame_rate = f;
                true
            },
            None => false,
        }
    }

    /// Adds the resolution typed as width and height (1920 and 1080 where
    /// the text is not a number), as `add_custom_resolution` does.
    pub fn add_custom_resolution_text(&mut self, width_text: &str, height_text: &str) -> (added: bool)
        ensures
            ({
                let w = number_or(width_text@, 1920);
                let h = number_or(height_text@, 1080);
                &&& added == (custom_size_allowed(w, h) && !has_custom_size(
                    old(self).custom_resolutions@,
                    w,
                    h,
                ))
                &&& added == (custom_size_allowed(w, h) && forall|i: int|
                    0 <= i < old(self).custom_resolutions@.len() ==> !(old(
                        self,
                    ).custom_resolutions@[i].width == w && old(self).custom_resolutions@[i].height
                        == h))
                &&& added ==> final(self).width == w && final(self).height == h
                    && final(self).custom_resolutions@.len() == old(self).custom_resolutions@.len()
                    + 1 && final(self).custom_resolutions@.drop_last() == old(
                    self,
                ).custom_resolutions@ && final(self).custom_resolutions@.last().width == w
                    && final(self).custom_resolutions@.last().height == h
                    && final(self).custom_resolutions@.last().name@ == custom_label(w, h)
                    && final(self).frame_rate == old(self).frame_rate
                    && final(self).auto_create == old(self).auto_create
                    && final(self).start_at_login == old(self).start_at_login
                    && final(self).show_tray_icon == old(self).show_tray_icon
                    && final(self).display_name == old(self).display_name
                    && final(self).hidpi == old(self).hidpi
                &&& !added ==> *final(self) == *old(self)
            }),
    {
        let w = parse_number_or(width_text, 1920);
        let h = parse_number_or(height_text, 1080);
        self.add_custom_resolution(w, h)
    }
}

/// Where the settings file lives: `vdisplay/settings.json` under the user's
/// configuration directory, or under `.` when there is none.
pub open spec fn settings_path_for(config_dir: Option<Seq<char>>) -> Seq<char> {
    let base = match config_dir {
        Some(d) => d,
        None => "."@,
    };
    join_path(join_path(base, "vdisplay"@), "settings.json"@)
}

/// Where the settings file lives.
pub fn settings_path(config_dir: Option<&str>) -> (r: String)
    ensures
        r@ == settings_path_for(
            match config_dir {
                Some(d) => Some(d@),
                None => None,
            },
        ),
{
    let base = match config_dir {
        Some(d) => d.to_owned(),
        None => ".".to_owned(),
    };
    let dir = join_path_exec(base, "vdisplay");
    join_path_exec(dir, "settings.json")
}

/// The resolution key written for a size reads back as that size, so the
/// window's resolution list finds the current resolution again.
pub proof fn law_size_label_round_trip(width: u32, height: u32)
    ensures
        size_key_spec(size_label(width, height)) == Some((width, height)),
{
    reveal_strlit("x");
    let a = decimal(width as nat);
    let b = decimal(height as nat);
    lemma_decimal_digits(width as nat);
    lemma_decimal_digits(height as nat);
    lemma_parse_decimal(width);
    lemma_parse_decimal(height);
    let v = size_label(width, height);
    assert(v =~= a + seq!['x'] + b);
    let k = a.len() as int;
    assert(v.subrange(k, k + 1) =~= seq!['x']);
    assert forall|j: int| 0 <= j < k implies !matches_at(v, seq!['x'], j) by {
        assert(v[j] == a[j]);
        assert(is_digit(a[j]));
        assert(v.subrange(j, j + 1)[0] == v[j]);
    }
    lemma_find_from_first(v, seq!['x'], 0, k);
    assert(v.take(k) =~= a);
    assert(v.skip(k + 1) =~= b);
    assert forall|i: int| 0 <= i < b.len() implies b[i] != 'x' by {
        assert(is_digit(b[i]));
    }
}

/// A resolution that was added is listed afterwards, so adding it again
/// changes nothing.
pub proof fn law_added_resolution_is_listed(
    list: Seq<CustomResolution>,
    width: u32,
    height: u32,
    name: String,
)
    ensures
        has_custom_size(list.push(CustomResolution { width, height, name }), width, height),
{
    let l2 = list.push(CustomResolution { width, height, name });
    assert(l2[list.len() as int].width == width && l2[list.len() as int].height == height);
}

/// A size counts as listed exactly when one listed resolution has both that
/// width and that height: a size whose width differs from every listed
/// resolution is not listed, whatever heights the list holds, and neither is
/// one whose height differs from every listed resolution.
pub proof fn law_listed_size_needs_width_and_height(
    list: Seq<CustomResolution>,
    width: u32,
    height: u32,
)
    ensures
        has_custom_size(list, width, height) <==> exists|i: int|
            0 <= i < list.len() && list[i].width == width && list[i].height == height,
        (forall|i: int| 0 <= i < list.len() ==> list[i].width != width) ==> !has_custom_size(
            list,
            width,
            height,
        ),
        (forall|i: int| 0 <= i < list.len() ==> list[i].height != height) ==> !has_custom_size(
            list,
            width,
            height,
        ),
{
}

} // verus!
