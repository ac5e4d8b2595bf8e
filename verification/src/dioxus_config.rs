//! The application's own configuration (name, version, window and bundle
//! settings), with the defaults used for anything it leaves out.

use vstd::prelude::*;

verus! {

/// Root configuration: only the sections used at run time.
#[derive(Debug, Clone)]
pub struct DioxusConfig {
    pub application: ApplicationConfig,
    pub desktop: DesktopConfig,
    pub bundle: BundleConfig,
}

/// Bundle configuration (only the identifier is used at run time).
#[derive(Debug, Clone)]
pub struct BundleConfig {
    pub identifier: Option<String>,
}

/// Application metadata used at run time.
#[derive(Debug, Clone)]
pub struct ApplicationConfig {
    /// App display name (shown in the window title).
    pub name: Option<String>,
    /// App version (shown in the title bar).
    pub version: Option<String>,
}

/// Desktop window configuration.
#[derive(Debug, Clone)]
pub struct DesktopConfig {
    pub width: Option<u32>,
    pub height: Option<u32>,
    pub min_width: Option<u32>,
    pub min_height: Option<u32>,
    pub max_width: Option<u32>,
    pub max_height: Option<u32>,
    pub resizable: Option<bool>,
    pub visible: Option<bool>,
}

impl Default for BundleConfig {
    fn default() -> (r: Self)
        ensures
            r.identifier is None,
    {
        BundleConfig { identifier: None }
    }
}

impl Default for ApplicationConfig {
    fn default() -> (r: Self)
        ensures
            r.name is None,
            r.version is None,
    {
        ApplicationConfig { name: None, version: None }
    }
}

impl Default for DesktopConfig {
    fn default() -> (r: Self)
        ensures
            r.width is None,
            r.height is None,
            r.min_width is None,
            r.min_height is None,
            r.max_width is None,
            r.max_height is None,
            r.resizable is None,
            r.visible is None,
    {
        DesktopConfig {
            width: None,
            height: None,
            min_width: None,
            min_height: None,
            max_width: None,
            max_height: None,
            resizable: None,
            visible: None,
        }
    }
}

impl Default for DioxusConfig {
    fn default() -> (r: Self)
        ensures
            r.application.name is None,
            r.application.version is None,
            r.bundle.identifier is None,
            r.desktop.width is None,
            r.desktop.height is None,
            r.desktop.min_width is None,
            r.desktop.min_height is None,
            r.desktop.max_width is None,
            r.desktop.max_height is None,
            r.desktop.resizable is None,
            r.desktop.visible is None,
    {
        DioxusConfig {
            application: ApplicationConfig::default(),
            desktop: DesktopConfig::default(),
            bundle: BundleConfig::default(),
        }
    }
}

/// The text of `s`, or `fallback` when it is absent.
pub open spec fn text_or(s: Option<String>, fallback: Seq<char>) -> Seq<char> {
    match s {
        Some(t) => t@,
        None => fallback,
    }
}

fn string_or(s: &Option<String>, fallback: &str) -> (r: String)
    ensures
        r@ == text_or(*s, fallback@),
{
    match s {
        Some(t) => t.clone(),
        None => fallback.to_owned(),
    }
}

impl DioxusConfig {
    /// Application name for the window title (`PVDisplayPlugin` when unset).
    pub fn app_name(&self) -> (r: String)
        ensures
            r@ == text_or(self.application.name, "PVDisplayPlugin"@),
    {
        string_or(&self.application.name, "PVDisplayPlugin")
    }

    /// The desktop window configuration.
    pub fn desktop_config(&self) -> (r: &DesktopConfig)
        ensures
            *r == self.desktop,
    {
        &self.desktop
    }

    /// Bundle identifier, the launch agent's label
    /// (`com.vdgmstd.parsec-vdisplay` when unset).
    pub fn identifier(&self) -> (r: String)
        ensures
            r@ == text_or(self.bundle.identifier, "com.vdgmstd.parsec-vdisplay"@),
    {
        string_or(&self.bundle.identifier, "com.vdgmstd.parsec-vdisplay")
    }

    /// The version shown in the title bar, or `fallback` when unset.
    pub fn app_version(&self, fallback: &str) -> (r: String)
        ensures
            r@ == text_or(self.application.version, fallback@),
    {
        string_or(&self.application.version, fallback)
    }
}

impl DesktopConfig {
    /// Window width in logical pixels (450 when unset).
    pub fn window_width(&self) -> (r: u32)
        ensures
            r == match self.width {
                Some(w) => w,
                None => 450,
            },
    {
        match self.width {
            Some(w) => w,
            None => 450,
        }
    }

    /// Window height in logical pixels (570 when unset).
    pub fn window_height(&self) -> (r: u32)
        ensures
            r == match self.height {
                Some(h) => h,
                None => 570,
            },
    {
        match self.height {
            Some(h) => h,
            None => 570,
        }
    }

    /// Whether the window may be resized (not unless set).
    pub fn resizable(&self) -> (r: bool)
        ensures
            r == match self.resizable {
                Some(b) => b,
                None => false,
            },
    {
        match self.resizable {
            Some(b) => b,
            None => false,
        }
    }

    /// Whether the window starts visible (it does unless set otherwise).
    pub fn visible(&self) -> (r: bool)
        ensures
            r == match self.visible {
                Some(b) => b,
                None => true,
            },
    {
        match self.visible {
            Some(b) => b,
            None => true,
        }
    }
}

} // verus!
