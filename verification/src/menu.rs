//! The menu bar menu: its resolution and frame-rate choices, the numbers
//! (tags) that identify them, the check marks, and the status line.

use vstd::prelude::*;
use crate::commands::Command;
use crate::settings::{
    frame_rate_list, frame_rates, preset_names, preset_resolutions, preset_sizes, CustomResolution,
};
use crate::text::{decimal, decimal_string};

verus! {

/// The tag that identifies a resolution choice: `width * 10000 + height`.
pub open spec fn size_tag(width: u32, height: u32) -> int {
    width * 10000 + height
}

/// Whether a size's tag fits the platform's tag type.
pub open spec fn tag_fits(width: u32, height: u32) -> bool {
    size_tag(width, height) <= isize::MAX
}

/// Integer division rounding toward zero, as Rust's `/` does.
pub open spec fn trunc_div(a: int, b: int) -> int {
    if a >= 0 {
        a / b
    } else {
        -((-a) / b)
    }
}

/// The remainder of `trunc_div`, as Rust's `%` gives it.
pub open spec fn trunc_rem(a: int, b: int) -> int {
    if a >= 0 {
        a % b
    } else {
        -((-a) % b)
    }
}

/// The size a resolution tag stands for: the quotient and remainder by 10000,
/// each cut to 32 bits.
pub open spec fn tag_size(tag: int) -> (u32, u32) {
    (trunc_div(tag, 10000) as u32, trunc_rem(tag, 10000) as u32)
}

/// Whether a size's tag fits the platform's tag type.
pub fn fits_menu_tag(width: u32, height: u32) -> (r: bool)
    ensures
        r == tag_fits(width, height),
{
    (width as u128) * 10000 + (height as u128) <= (isize::MAX as u128)
}

/// The tag of a resolution choice.
pub fn menu_tag(width: u32, height: u32) -> (r: isize)
    requires
        tag_fits(width, height),
    ensures
        r == size_tag(width, height),
{
    (width as isize) * 10000 + (height as isize)
}

/// The size a resolution tag stands for.
pub fn tag_resolution(tag: isize) -> (r: (u32, u32))
    ensures
        r == tag_size(tag as int),
{
    let t = tag as i128;
    let (q, m): (i128, i128) = if t >= 0 {
        (t / 10000, t % 10000)
    } else {
        let a = -t;
        (-(a / 10000), -(a % 10000))
    };
    (q as u32, m as u32)
}

/// A size whose height is below 10000 comes back from its tag unchanged.
pub proof fn law_tag_round_trip(width: u32, height: u32)
    requires
        height < 10000,
    ensures
        tag_size(size_tag(width, height)) == (width, height),
{
    let t = size_tag(width, height);
    assert(t / 10000 == width && t % 10000 == height) by (nonlinear_arith)
        requires
            t == width * 10000 + height,
            0 <= height < 10000,
            0 <= width,
    ;
}

/// The command a resolution choice sends.
pub fn resolution_command(tag: isize) -> (r: Command)
    ensures
        r == Command::SetResolution(tag_size(tag as int).0, tag_size(tag as int).1),
{
    let (w, h) = tag_resolution(tag);
    Command::SetResolution(w, h)
}

/// The command a frame-rate choice sends: its tag is the rate.
pub fn fps_command(tag: isize) -> (r: Command)
    ensures
        r == Command::SetFps(tag as u32),
{
    Command::SetFps(tag as u32)
}

/// Choosing a resolution from the menu asks for exactly that resolution.
pub proof fn law_resolution_choice_sends_its_size(width: u32, height: u32)
    requires
        height < 10000,
    ensures
        Command::SetResolution(tag_size(size_tag(width, height)).0, tag_size(size_tag(width, height)).1)
            == Command::SetResolution(width, height),
{
    law_tag_round_trip(width, height);
}

/// An entry of a submenu.
pub enum MenuItem {
    Separator,
    Choice { title: String, tag: isize, checked: bool },
}

/// The abstract value of a submenu entry.
pub enum MenuItemView {
    Separator,
    Choice { title: Seq<char>, tag: int, checked: bool },
}

impl View for MenuItem {
    type V = MenuItemView;

    open spec fn view(&self) -> MenuItemView {
        match self {
            MenuItem::Separator => MenuItemView::Separator,
            MenuItem::Choice { title, tag, checked } => MenuItemView::Choice {
                title: title@,
                tag: *tag as int,
                checked: *checked,
            },
        }
    }
}

/// The abstract value of a submenu.
pub open spec fn menu_view(items: Seq<MenuItem>) -> Seq<MenuItemView> {
    items.map_values(|m: MenuItem| m@)
}

/// The choice for a resolution, checked when it is the current one.
pub open spec fn size_choice(title: Seq<char>, width: u32, height: u32, current: (u32, u32)) -> MenuItemView {
    MenuItemView::Choice {
        title,
        tag: size_tag(width, height),
        checked: (width, height) == current,
    }
}

/// The preset resolution choices.
pub open spec fn preset_choices(current: (u32, u32)) -> Seq<MenuItemView> {
    Seq::new(
        preset_sizes().len(),
        |i: int| size_choice(preset_names()[i], preset_sizes()[i].0, preset_sizes()[i].1, current),
    )
}

/// The choices for the user's resolutions.
pub open spec fn custom_choices(list: Seq<CustomResolution>, current: (u32, u32)) -> Seq<MenuItemView> {
    list.map_values(|c: CustomResolution| size_choice(c.name@, c.width, c.height, current))
}

/// The Resolution submenu: the presets and, when the user added any, a
/// separator followed by the user's resolutions.
pub open spec fn resolution_menu_spec(list: Seq<CustomResolution>, current: (u32, u32)) -> Seq<MenuItemView> {
    if list.len() == 0 {
        preset_choices(current)
    } else {
        preset_choices(current).push(MenuItemView::Separator) + custom_choices(list, current)
    }
}

/// Builds the Resolution submenu, checking the current resolution.
pub fn resolution_menu(customs: &Vec<CustomResolution>, current_width: u32, current_height: u32) -> (r: Vec<MenuItem>)
    requires
        forall|i: int| 0 <= i < customs@.len() ==> tag_fits(customs@[i].width, customs@[i].height),
    ensures
        menu_view(r@) == resolution_menu_spec(customs@, (current_width, current_height)),
{
    let ghost current = (current_width, current_height);
    let presets = preset_resolutions();
    let mut items: Vec<MenuItem> = Vec::new();
    let np = presets.len();
    let mut i: usize = 0;
    while i < np
        invariant
            np == presets@.len(),
            np == preset_sizes().len(),
            forall|k: int|
                0 <= k < presets@.len() ==> (presets@[k].width, presets@[k].height)
                    == preset_sizes()[k] && presets@[k].name@ == preset_names()[k],
            i <= np,
            current == (current_width, current_height),
            menu_view(items@) == preset_choices(current).take(i as int),
        decreases np - i,
    {
        let p = &presets[i];
        assert(tag_fits(p.width, p.height));
        let tag = menu_tag(p.width, p.height);
        let item = MenuItem::Choice {
            title: p.name.clone(),
            tag,
            checked: p.width == current_width && p.height == current_height,
        };
        let ghost before = items@;
        let ghost iv = item@;
        assert(iv == preset_choices(current)[i as int]);
        items.push(item);
        assert(menu_view(items@) =~= menu_view(before).push(iv));
        assert(preset_choices(current).take(i + 1) =~= preset_choices(current).take(i as int).push(iv));
        i = i + 1;
    }
    assert(preset_choices(current).take(np as int) =~= preset_choices(current));
    let nc = customs.len();
    if nc == 0 {
        return items;
    }
    items.push(MenuItem::Separator);
    let ghost base = preset_choices(current).push(MenuItemView::Separator);
    assert(menu_view(items@) =~= base);
    let mut j: usize = 0;
    while j < nc
        invariant
            nc == customs@.len(),
            forall|k: int| 0 <= k < customs@.len() ==> tag_fits(customs@[k].width, customs@[k].height),
            j <= nc,
            current == (current_width, current_height),
            base == preset_choices(current).push(MenuItemView::Separator),
            menu_view(items@) == base + custom_choices(customs@, current).take(j as int),
        decreases nc - j,
    {
        let c = &customs[j];
        let tag = menu_tag(c.width, c.height);
        let item = MenuItem::Choice {
            title: c.name.clone(),
            tag,
            checked: c.width == current_width && c.height == current_height,
        };
        let ghost before = items@;
        let ghost iv = item@;
        assert(iv == custom_choices(customs@, current)[j as int]);
        items.push(item);
        assert(menu_view(items@) =~= menu_view(before).push(iv));
        assert(custom_choices(customs@, current).take(j + 1) =~= custom_choices(customs@, current).take(
            j as int,
        ).push(iv));
        assert(menu_view(items@) =~= base + custom_choices(customs@, current).take(j + 1));
        j = j + 1;
    }
    assert(custom_choices(customs@, current).take(nc as int) =~= custom_choices(customs@, current));
    items
}

/// In the Resolution submenu each preset choice is checked exactly when both
/// its width and its height are the current ones, the separator (present when
/// the user added resolutions) follows the presets, and each of the user's
/// choices is checked exactly when both its width and its height are the
/// current ones.
pub proof fn law_resolution_menu_checks_current_size(
    list: Seq<CustomResolution>,
    current: (u32, u32),
)
    ensures
        ({
            let menu = resolution_menu_spec(list, current);
            let np = preset_sizes().len() as int;
            &&& menu.len() == (if list.len() == 0 {
                np
            } else {
                np + 1 + list.len()
            })
            &&& forall|k: int|
                0 <= k < np ==> #[trigger] menu[k] is Choice && menu[k]->checked == (
                preset_sizes()[k].0 == current.0 && preset_sizes()[k].1 == current.1)
            &&& list.len() > 0 ==> menu[np] is Separator
            &&& forall|k: int|
                0 <= k < list.len() ==> #[trigger] menu[np + 1 + k] is Choice && menu[np + 1
                    + k]->checked == (list[k].width == current.0 && list[k].height == current.1)
        }),
{
    let menu = resolution_menu_spec(list, current);
    let np = preset_sizes().len() as int;
    let pc = preset_choices(current);
    if list.len() > 0 {
        let cc = custom_choices(list, current);
        assert(menu =~= pc.push(MenuItemView::Separator) + cc);
        assert forall|k: int| 0 <= k < list.len() implies #[trigger] menu[np + 1 + k] is Choice
            && menu[np + 1 + k]->checked == (list[k].width == current.0 && list[k].height
            == current.1) by {
            assert(menu[np + 1 + k] == cc[k]);
        }
    }
    assert forall|k: int| 0 <= k < np implies #[trigger] menu[k] is Choice && menu[k]->checked == (
    preset_sizes()[k].0 == current.0 && preset_sizes()[k].1 == current.1) by {
        assert(menu[k] == pc[k]);
    }
}

/// With every height below 10000, a choice of the Resolution submenu is
/// checked exactly when its tag stands for the current size, and a checked
/// choice carries the tag of the current size: no two choices of different
/// sizes (such as two of one width and different heights) are both checked.
pub proof fn law_resolution_menu_checks_by_tag(list: Seq<CustomResolution>, current: (u32, u32))
    requires
        forall|i: int| 0 <= i < list.len() ==> #[trigger] list[i].height < 10000,
    ensures
        forall|k: int|
            0 <= k < resolution_menu_spec(list, current).len() && (#[trigger] resolution_menu_spec(
                list,
                current,
            )[k]) is Choice ==> {
                let item = resolution_menu_spec(list, current)[k];
                &&& item->checked == (tag_size(item->tag) == current)
                &&& item->checked ==> item->tag == size_tag(current.0, current.1)
            },
{
    let menu = resolution_menu_spec(list, current);
    let np = preset_sizes().len() as int;
    law_resolution_menu_checks_current_size(list, current);
    assert forall|k: int| 0 <= k < menu.len() && (#[trigger] menu[k]) is Choice implies {
        let item = menu[k];
        &&& item->checked == (tag_size(item->tag) == current)
        &&& item->checked ==> item->tag == size_tag(current.0, current.1)
    } by {
        if k < np {
            let (w, h) = preset_sizes()[k];
            assert(h < 10000);
            assert(menu[k] == preset_choices(current)[k]) by {
                if list.len() > 0 {
                    assert(menu =~= preset_choices(current).push(MenuItemView::Separator)
                        + custom_choices(list, current));
                }
            }
            law_tag_round_trip(w, h);
        } else {
            let j = k - np - 1;
            assert(menu =~= preset_choices(current).push(MenuItemView::Separator) + custom_choices(
                list,
                current,
            ));
            assert(menu[np + 1 + j] == custom_choices(list, current)[j]);
            assert(list[j].height < 10000);
            law_tag_round_trip(list[j].width, list[j].height);
        }
    }
}

/// The title of a frame-rate choice: `RATE FPS`.
pub open spec fn fps_title(fps: u32) -> Seq<char> {
    decimal(fps as nat) + " FPS"@
}

/// The Frame Rate submenu, checking the current rate.
pub open spec fn fps_menu_spec(current: u32) -> Seq<MenuItemView> {
    frame_rate_list().map_values(
        |f: u32| MenuItemView::Choice { title: fps_title(f), tag: f as int, checked: f == current },
    )
}

/// In the Frame Rate submenu every entry is a choice whose tag is its rate,
/// checked exactly when that rate is the current one.
pub proof fn law_fps_menu_checks_current_rate(current: u32)
    ensures
        fps_menu_spec(current).len() == frame_rate_list().len(),
        forall|k: int|
            0 <= k < fps_menu_spec(current).len() ==> #[trigger] fps_menu_spec(current)[k] is Choice
                && fps_menu_spec(current)[k]->tag == frame_rate_list()[k] as int && fps_menu_spec(
                current,
            )[k]->checked == (fps_menu_spec(current)[k]->tag == current as int),
{
}

/// Builds the Frame Rate submenu, checking the current rate.
pub fn fps_menu(current_fps: u32) -> (r: Vec<MenuItem>)
    ensures
        menu_view(r@) == fps_menu_spec(current_fps),
{
    let rates = frame_rates();
    let n = rates.len();
    let mut items: Vec<MenuItem> = Vec::new();
    let mut i: usize = 0;
    while i < n
        invariant
            rates@ == frame_rate_list(),
            n == rates@.len(),
            i <= n,
            menu_view(items@) == fps_menu_spec(current_fps).take(i as int),
        decreases n - i,
    {
        let f = rates[i];
        let mut title = decimal_string(f);
        title.append(" FPS");
        let item = MenuItem::Choice { title, tag: f as isize, checked: f == current_fps };
        let ghost before = items@;
        let ghost iv = item@;
        assert(iv == fps_menu_spec(current_fps)[i as int]);
        items.push(item);
        assert(menu_view(items@) =~= menu_view(before).push(iv));
        assert(fps_menu_spec(current_fps).take(i + 1) =~= fps_menu_spec(current_fps).take(i as int).push(iv));
        i = i + 1;
    }
    assert(fps_menu_spec(current_fps).take(n as int) =~= fps_menu_spec(current_fps));
    items
}

/// The new check mark of a resolution choice with `tag` once `width` x
/// `height` is chosen: entries with a positive tag are checked exactly when
/// they stand for that size; others keep theirs (`None`).
pub fn resolution_check(tag: isize, width: u32, height: u32) -> (r: Option<bool>)
    ensures
        tag > 0 ==> r == Some(tag_size(tag as int) == (width, height)),
        tag <= 0 ==> r is None,
{
    if tag > 0 {
        let (w, h) = tag_resolution(tag);
        Some(w == width && h == height)
    } else {
        None
    }
}

/// Once a resolution is chosen, a choice is checked exactly when it stands
/// for that resolution.
pub proof fn law_only_chosen_resolution_checked(w: u32, h: u32, width: u32, height: u32)
    requires
        h < 10000,
        size_tag(w, h) > 0,
    ensures
        (tag_size(size_tag(w, h)) == (width, height)) == ((w, h) == (width, height)),
{
    law_tag_round_trip(w, h);
}

/// The check marks of the Frame Rate submenu once `fps` is chosen, in menu
/// order.
pub fn fps_checks(fps: u32) -> (r: Vec<bool>)
    ensures
        r@ == frame_rate_list().map_values(|f: u32| f == fps),
{
    let rates = frame_rates();
    let n = rates.len();
    let mut checks: Vec<bool> = Vec::new();
    let mut i: usize = 0;
    while i < n
        invariant
            rates@ == frame_rate_list(),
            n == rates@.len(),
            i <= n,
            checks@ == frame_rate_list().map_values(|f: u32| f == fps).take(i as int),
        decreases n - i,
    {
        checks.push(rates[i] == fps);
        assert(checks@ =~= frame_rate_list().map_values(|f: u32| f == fps).take(i + 1));
        i = i + 1;
    }
    assert(frame_rate_list().map_values(|f: u32| f == fps).take(n as int) =~= frame_rate_list().map_values(
        |f: u32| f == fps,
    ));
    checks
}

/// The menu's status line: `Connected: NAME` (`Unknown` when the name is
/// missing) or `Status: Monitoring...`.
pub open spec fn tray_status_line(connected: bool, username: Option<Seq<char>>) -> Seq<char> {
    if connected {
        "Connected: "@ + match username {
            Some(u) => u,
            None => "Unknown"@,
        }
    } else {
        "Status: Monitoring..."@
    }
}

/// The menu's status line.
pub fn tray_status_text(connected: bool, username: Option<&str>) -> (r: String)
    ensures
        r@ == tray_status_line(
            connected,
            match username {
                Some(u) => Some(u@),
                None => None,
            },
        ),
{
    if connected {
        let mut s = "Connected: ".to_owned();
        match username {
            Some(u) => s.append(u),
            None => s.append("Unknown"),
        }
        s
    } else {
        "Status: Monitoring...".to_owned()
    }
}

/// An entry of the menu bar item's top-level menu.
#[derive(Debug, Clone, Copy, PartialEq, Eq, Structural)]
pub enum TopMenuEntry {
    /// The connection status line (not selectable).
    Status,
    Separator,
    /// The Resolution submenu.
    Resolution,
    /// The Frame Rate submenu.
    FrameRate,
    /// Brings the settings window forward.
    ShowSettings,
    /// Quits the application.
    Quit,
}

/// The top-level menu, in order.
pub open spec fn top_menu_spec() -> Seq<TopMenuEntry> {
    seq![
        TopMenuEntry::Status,
        TopMenuEntry::Separator,
        TopMenuEntry::Resolution,
        TopMenuEntry::FrameRate,
        TopMenuEntry::Separator,
        TopMenuEntry::ShowSettings,
        TopMenuEntry::Separator,
        TopMenuEntry::Quit,
    ]
}

/// The top-level menu, in order.
pub fn top_menu() -> (r: Vec<TopMenuEntry>)
    ensures
        r@ == top_menu_spec(),
{
    let mut r: Vec<TopMenuEntry> = Vec::new();
    r.push(TopMenuEntry::Status);
    r.push(TopMenuEntry::Separator);
    r.push(TopMenuEntry::Resolution);
    r.push(TopMenuEntry::FrameRate);
    r.push(TopMenuEntry::Separator);
    r.push(TopMenuEntry::ShowSettings);
    r.push(TopMenuEntry::Separator);
    r.push(TopMenuEntry::Quit);
    assert(r@ =~= top_menu_spec());
    r
}

/// Where the status line stands in the top-level menu.
pub fn status_entry_index() -> (r: usize)
    ensures
        r < top_menu_spec().len(),
        top_menu_spec()[r as int] == TopMenuEntry::Status,
{
    0
}

/// Where the Resolution submenu stands in the top-level menu.
pub fn resolution_entry_index() -> (r: usize)
    ensures
        r < top_menu_spec().len(),
        top_menu_spec()[r as int] == TopMenuEntry::Resolution,
{
    2
}

/// Where the Frame Rate submenu stands in the top-level menu.
pub fn frame_rate_entry_index() -> (r: usize)
    ensures
        r < top_menu_spec().len(),
        top_menu_spec()[r as int] == TopMenuEntry::FrameRate,
{
    3
}

/// Each kind of selectable entry stands once in the top-level menu, so the
/// indexes above find exactly that entry.
pub proof fn law_top_menu_entries_unique()
    ensures
        forall|i: int, j: int|
            0 <= i < j < top_menu_spec().len() && top_menu_spec()[i] != TopMenuEntry::Separator
                ==> top_menu_spec()[i] != top_menu_spec()[j],
{
}

} // verus!
