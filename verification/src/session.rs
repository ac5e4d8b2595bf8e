//! The application's decisions: which display to make from the settings,
//! what a connection change does to the display, and what the window shows.

use vstd::prelude::*;
use crate::display::{
    dedup_extend, expand_modes, law_dedup_extend, lemma_expand_modes_plain, mode_pairs_of,
    no_duplicates, planned_refresh_rate, DisplayConfig, ResolutionMode,
};
use crate::settings::{preset_resolutions, preset_sizes, CustomResolution, Settings};

verus! {

/// The preset sizes as display modes.
pub open spec fn preset_modes() -> Seq<ResolutionMode> {
    preset_sizes().map_values(|p: (u32, u32)| ResolutionMode { width: p.0, height: p.1 })
}

/// The user's resolutions as display modes.
pub open spec fn custom_modes(list: Seq<CustomResolution>) -> Seq<ResolutionMode> {
    list.map_values(|c: CustomResolution| ResolutionMode { width: c.width, height: c.height })
}

/// The display configuration for `settings`: its size, frame rate and name,
/// with the preset modes followed by each of the user's resolutions that is
/// not listed yet.
pub open spec fn display_config_for(settings: Settings, c: DisplayConfig) -> bool {
    &&& c.width == settings.width
    &&& c.height == settings.height
    &&& c.frame_rate == settings.frame_rate
    &&& c.name@ == settings.display_name@
    &&& c.available_modes@ == dedup_extend(
        preset_modes(),
        custom_modes(settings.custom_resolutions@),
    )
}

/// The modes of a display made from the settings start with the presets in
/// order, list no mode twice, and include every one of the user's
/// resolutions.
pub proof fn law_display_config_modes(list: Seq<CustomResolution>)
    ensures
        dedup_extend(preset_modes(), custom_modes(list)).len() >= preset_modes().len(),
        dedup_extend(preset_modes(), custom_modes(list)).take(preset_modes().len() as int)
            == preset_modes(),
        no_duplicates(dedup_extend(preset_modes(), custom_modes(list))),
        forall|i: int|
            0 <= i < list.len() ==> dedup_extend(preset_modes(), custom_modes(list)).contains(
                ResolutionMode { width: list[i].width, height: list[i].height },
            ),
{
    let p = preset_modes();
    assert(p.len() == 7);
    assert(p[0] == ResolutionMode { width: 1280, height: 720 });
    assert(p[1] == ResolutionMode { width: 1920, height: 1080 });
    assert(p[2] == ResolutionMode { width: 2560, height: 1440 });
    assert(p[3] == ResolutionMode { width: 3440, height: 1440 });
    assert(p[4] == ResolutionMode { width: 3840, height: 2160 });
    assert(p[5] == ResolutionMode { width: 2560, height: 1080 });
    assert(p[6] == ResolutionMode { width: 5120, height: 1440 });
    assert(no_duplicates(p));
    law_dedup_extend(p, custom_modes(list));
    let c = custom_modes(list);
    assert forall|i: int| 0 <= i < list.len() implies c.contains(
        ResolutionMode { width: list[i].width, height: list[i].height },
    ) by {
        assert(c[i] == ResolutionMode { width: list[i].width, height: list[i].height });
    }
}

/// A display configuration made from the settings carries the chosen width,
/// height, frame rate and display name unchanged, whatever their values; the
/// display is then made at that rate held within 30..=120, so a rate in that
/// range is kept and a higher one (such as 144) runs at 120.
pub proof fn law_display_config_keeps_choices(settings: Settings, c: DisplayConfig)
    requires
        display_config_for(settings, c),
    ensures
        c.width == settings.width,
        c.height == settings.height,
        c.frame_rate == settings.frame_rate,
        c.name@ == settings.display_name@,
        30 <= settings.frame_rate <= 120 ==> planned_refresh_rate(c.frame_rate) == settings.frame_rate,
        120 < settings.frame_rate <= 0x7fff_ffff ==> planned_refresh_rate(c.frame_rate) == 120,
{
}

/// The display made for the settings (without HiDPI, as the application
/// makes it) offers the chosen resolution first, then every preset and every
/// one of the user's resolutions, each once.
pub proof fn law_display_offers_chosen_and_listed_modes(settings: Settings, config: DisplayConfig)
    requires
        display_config_for(settings, config),
    ensures
        ({
            let modes = expand_modes(
                dedup_extend(
                    seq![(settings.width, settings.height)],
                    mode_pairs_of(config.available_modes@),
                ),
                false,
            );
            &&& modes.len() > 0
            &&& modes[0] == (settings.width, settings.height)
            &&& no_duplicates(modes)
            &&& forall|i: int| 0 <= i < preset_sizes().len() ==> modes.contains(preset_sizes()[i])
            &&& forall|i: int|
                0 <= i < settings.custom_resolutions@.len() ==> modes.contains(
                    (settings.custom_resolutions@[i].width, settings.custom_resolutions@[i].height),
                )
        }),
{
    let first = seq![(settings.width, settings.height)];
    let pairs = mode_pairs_of(config.available_modes@);
    let d = dedup_extend(first, pairs);
    lemma_expand_modes_plain(d);
    law_dedup_extend(first, pairs);
    assert(d.take(1)[0] == d[0]);
    law_display_config_modes(settings.custom_resolutions@);
    let am = config.available_modes@;
    assert forall|i: int| 0 <= i < preset_sizes().len() implies d.contains(preset_sizes()[i]) by {
        let m = ResolutionMode { width: preset_sizes()[i].0, height: preset_sizes()[i].1 };
        assert(preset_modes()[i] == m);
        assert(am.take(preset_modes().len() as int)[i] == m);
        assert(am[i] == m);
        assert(pairs[i] == preset_sizes()[i]);
        assert(pairs.contains(preset_sizes()[i]));
    }
    assert forall|i: int| 0 <= i < settings.custom_resolutions@.len() implies d.contains(
        (settings.custom_resolutions@[i].width, settings.custom_resolutions@[i].height),
    ) by {
        let c = settings.custom_resolutions@[i];
        let m = ResolutionMode { width: c.width, height: c.height };
        assert(am.contains(m));
        let k = choose|k: int| 0 <= k < am.len() && am[k] == m;
        assert(pairs[k] == (c.width, c.height));
        assert(pairs.contains((c.width, c.height)));
    }
}

fn contains_mode(modes: &Vec<ResolutionMode>, width: u32, height: u32) -> (r: bool)
    ensures
        r == modes@.contains(ResolutionMode { width, height }),
{
    let n = modes.len();
    let mut i: usize = 0;
    while i < n
        invariant
            n == modes@.len(),
            i <= n,
            forall|j: int| 0 <= j < i ==> modes@[j] != (ResolutionMode { width, height }),
        decreases n - i,
    {
        let m = modes[i];
        if m.width == width && m.height == height {
            assert(modes@[i as int] == ResolutionMode { width, height });
            return true;
        }
        i = i + 1;
    }
    false
}

/// Builds the display configuration for the current settings, with every
/// available mode: the presets, then the user's own.
pub fn build_display_config(settings: &Settings) -> (r: DisplayConfig)
    ensures
        display_config_for(*settings, r),
        r.width == settings.width,
        r.height == settings.height,
        r.frame_rate == settings.frame_rate,
        r.name@ == settings.display_name@,
{
    let presets = preset_resolutions();
    let mut modes: Vec<ResolutionMode> = Vec::new();
    let np = presets.len();
    let mut i: usize = 0;
    while i < np
        invariant
            np == presets@.len(),
            np == preset_sizes().len(),
            forall|k: int|
                0 <= k < presets@.len() ==> (presets@[k].width, presets@[k].height)
                    == preset_sizes()[k],
            i <= np,
            modes@ == preset_modes().take(i as int),
        decreases np - i,
    {
        let p = &presets[i];
        modes.push(ResolutionMode { width: p.width, height: p.height });
        assert(preset_modes().take(i + 1) =~= preset_modes().take(i as int).push(
            ResolutionMode { width: p.width, height: p.height },
        ));
        i = i + 1;
    }
    assert(preset_modes().take(np as int) =~= preset_modes());
    let customs = &settings.custom_resolutions;
    let nc = customs.len();
    let mut j: usize = 0;
    let ghost cm = custom_modes(customs@);
    assert(cm.take(0) =~= Seq::<ResolutionMode>::empty());
    while j < nc
        invariant
            nc == customs@.len(),
            cm == custom_modes(customs@),
            j <= nc,
            modes@ == dedup_extend(preset_modes(), cm.take(j as int)),
        decreases nc - j,
    {
        let c = &customs[j];
        assert(cm.take(j + 1).drop_last() =~= cm.take(j as int));
        assert(cm.take(j + 1).last() == ResolutionMode { width: c.width, height: c.height });
        if !contains_mode(&modes, c.width, c.height) {
            modes.push(ResolutionMode { width: c.width, height: c.height });
        }
        j = j + 1;
    }
    assert(cm.take(nc as int) =~= cm);
    DisplayConfig {
        width: settings.width,
        height: settings.height,
        frame_rate: settings.frame_rate,
        name: settings.display_name.clone(),
        available_modes: modes,
    }
}

/// When settings change while a display is active, the display is made
/// again: the configuration to make it with, or `None` when no display is
/// active (then nothing is made).
pub fn recreate_config(settings: &Settings, display_active: bool) -> (r: Option<DisplayConfig>)
    ensures
        r is Some <==> display_active,
        r matches Some(c) ==> display_config_for(*settings, c),
        r matches Some(c) ==> c.width == settings.width && c.height == settings.height
            && c.frame_rate == settings.frame_rate && c.name@ == settings.display_name@,
{
    if display_active {
        Some(build_display_config(settings))
    } else {
        None
    }
}

/// Whether a Parsec client is connected, and who connected last.
#[derive(Clone, PartialEq)]
pub struct ConnectionStatus {
    pub connected: bool,
    pub username: Option<String>,
}

impl Default for ConnectionStatus {
    fn default() -> (r: Self)
        ensures
            !r.connected,
            r.username is None,
    {
        ConnectionStatus { connected: false, username: None }
    }
}

/// The window's status line: `Connected: NAME` (an unknown name left
/// empty) or `Disconnected`.
pub open spec fn status_line(connected: bool, username: Option<String>) -> Seq<char> {
    if connected {
        "Connected: "@ + match username {
            Some(u) => u@,
            None => Seq::empty(),
        }
    } else {
        "Disconnected"@
    }
}

impl ConnectionStatus {
    /// The status after a connection change of `username`.
    pub fn from_event(connected: bool, username: String) -> (r: Self)
        ensures
            r.connected == connected,
            r.username == Some(username),
    {
        ConnectionStatus { connected, username: Some(username) }
    }

    /// The status line shown in the window's title bar.
    pub fn status_text(&self) -> (r: String)
        ensures
            r@ == status_line(self.connected, self.username),
    {
        if self.connected {
            let mut s = "Connected: ".to_owned();
            match &self.username {
                Some(u) => s.append(u.as_str()),
                None => {},
            }
            s
        } else {
            "Disconnected".to_owned()
        }
    }
}

/// What to do with the virtual display after a connection change.
#[derive(Debug, Clone, Copy, PartialEq, Eq, Structural)]
pub enum DisplayAction {
    Create,
    Destroy,
    Nothing,
}

/// With automatic creation on, a connection makes a display when there is
/// none and a disconnection removes the one there is; otherwise nothing.
pub open spec fn display_action_spec(auto_create: bool, connected: bool, display_present: bool) -> DisplayAction {
    if auto_create && connected && !display_present {
        DisplayAction::Create
    } else if auto_create && !connected && display_present {
        DisplayAction::Destroy
    } else {
        DisplayAction::Nothing
    }
}

/// Decides what a connection change does to the virtual display.
pub fn display_action(auto_create: bool, connected: bool, display_present: bool) -> (r: DisplayAction)
    ensures
        r == display_action_spec(auto_create, connected, display_present),
{
    if auto_create {
        if connected && !display_present {
            DisplayAction::Create
        } else if !connected && display_present {
            DisplayAction::Destroy
        } else {
            DisplayAction::Nothing
        }
    } else {
        DisplayAction::Nothing
    }
}

/// Whether a display exists after carrying out `action` (made displays are
/// taken to exist).
pub open spec fn present_after(action: DisplayAction, display_present: bool) -> bool {
    match action {
        DisplayAction::Create => true,
        DisplayAction::Destroy => false,
        DisplayAction::Nothing => display_present,
    }
}

/// With automatic creation on, the display follows the connection: after
/// any change there is a display exactly when a client is connected, and a
/// repeated report changes nothing.
pub proof fn law_display_follows_connection(connected: bool, display_present: bool)
    ensures
        present_after(display_action_spec(true, connected, display_present), display_present)
            == connected,
        display_action_spec(
            true,
            connected,
            present_after(display_action_spec(true, connected, display_present), display_present),
        ) == DisplayAction::Nothing,
{
}

/// With automatic creation off, connection changes never touch the display.
pub proof fn law_manual_mode_leaves_display(connected: bool, display_present: bool)
    ensures
        display_action_spec(false, connected, display_present) == DisplayAction::Nothing,
{
}

} // verus!
