//! Starting at login through a per-user launch agent: where its property
//! list goes, what it says, and how it is switched on and off.

use vstd::prelude::*;
use crate::dioxus_config::{text_or, DioxusConfig};
use crate::text::{
    contains_seq, free_of, join_path, join_path_exec, lemma_find_from_none, lemma_occurs_only_at,
    matches_at, occurs_only_at,
};

verus! {

/// Where the launch agent for `label` lives under the home directory `home`:
/// `home/Library/LaunchAgents/LABEL.plist`.
pub open spec fn plist_path_for(home: Seq<char>, label: Seq<char>) -> Seq<char> {
    join_path(join_path(join_path(home, "Library"@), "LaunchAgents"@), label + ".plist"@)
}

/// The property list text before the label.
pub open spec fn plist_head() -> Seq<char> {
    "<?xml version=\"1.0\" encoding=\"UTF-8\"?>\n<!DOCTYPE plist PUBLIC \"-//Apple//DTD PLIST 1.0//EN\" \"http://www.apple.com/DTDs/PropertyList-1.0.dtd\">\n<plist version=\"1.0\">\n<dict>\n    <key>Label</key>\n    <string>"@
}

/// The property list text between the label and the program path.
pub open spec fn plist_middle() -> Seq<char> {
    "</string>\n    <key>ProgramArguments</key>\n    <array>\n        <string>"@
}

/// The property list text after the program path.
pub open spec fn plist_tail() -> Seq<char> {
    "</string>\n    </array>\n    <key>RunAtLoad</key>\n    <true/>\n    <key>KeepAlive</key>\n    <false/>\n    <key>StandardOutPath</key>\n    <string>/tmp/vdisplay.log</string>\n    <key>StandardErrorPath</key>\n    <string>/tmp/vdisplay.error.log</string>\n</dict>\n</plist>\n"@
}

/// The message given when the home directory is unknown.
pub open spec fn no_home_message() -> Seq<char> {
    "Cannot find home directory"@
}

/// A change to the login item.
#[derive(Debug, Clone, Copy, PartialEq, Eq, Structural)]
pub enum AutoStartChange {
    /// Write the property list and load the agent.
    Enable,
    /// Unload the agent and remove the property list.
    Disable,
}

/// Starting at login for one application.
pub struct AutoStart {
    label: String,
    plist_path: String,
    app_path: String,
}

impl AutoStart {
    /// The launch agent's label.
    pub closed spec fn spec_label(&self) -> Seq<char> {
        self.label@
    }

    /// Where the launch agent's property list lives.
    pub closed spec fn spec_plist_path(&self) -> Seq<char> {
        self.plist_path@
    }

    /// The program the launch agent starts.
    pub closed spec fn spec_app_path(&self) -> Seq<char> {
        self.app_path@
    }

    /// Login start for the application at `app_path` under the label from
    /// `config` (its bundle identifier).
    pub fn new(config: &DioxusConfig, home: Option<&str>, app_path: &str) -> (r: Result<Self, String>)
        ensures
            r is Ok <==> home is Some,
            r matches Err(e) ==> e@ == no_home_message(),
            r matches Ok(a) ==> a.spec_label() == text_or(
                config.bundle.identifier,
                "com.vdgmstd.parsec-vdisplay"@,
            ) && a.spec_plist_path() == plist_path_for(home.unwrap()@, a.spec_label())
                && a.spec_app_path() == app_path@,
    {
        let label = config.identifier();
        Self::with_label(label.as_str(), home, app_path)
    }

    /// Login start under `label` for the application at `app_path`, with the
    /// property list under the home directory `home`; without a home
    /// directory there is none.
    pub fn with_label(label: &str, home: Option<&str>, app_path: &str) -> (r: Result<Self, String>)
        ensures
            r is Ok <==> home is Some,
            r matches Err(e) ==> e@ == no_home_message(),
            r matches Ok(a) ==> a.spec_label() == label@ && a.spec_plist_path() == plist_path_for(
                home.unwrap()@,
                label@,
            ) && a.spec_app_path() == app_path@,
    {
        let home = match home {
            Some(h) => h,
            None => return Err("Cannot find home directory".to_owned()),
        };
        let library = join_path_exec(home.to_owned(), "Library");
        let agents = join_path_exec(library, "LaunchAgents");
        let mut file = label.to_owned();
        file.append(".plist");
        let plist_path = join_path_exec(agents, file.as_str());
        Ok(AutoStart { label: label.to_owned(), plist_path, app_path: app_path.to_owned() })
    }

    /// The launch agent's label.
    pub fn label(&self) -> (r: &str)
        ensures
            r@ == self.spec_label(),
    {
        self.label.as_str()
    }

    /// Where the launch agent's property list lives.
    pub fn plist_path(&self) -> (r: &str)
        ensures
            r@ == self.spec_plist_path(),
    {
        self.plist_path.as_str()
    }

    /// The program the launch agent starts.
    pub fn app_path(&self) -> (r: &str)
        ensures
            r@ == self.spec_app_path(),
    {
        self.app_path.as_str()
    }

    /// The launch agent's property list: run the program at login, once,
    /// with its output in `/tmp`.
    pub fn plist_content(&self) -> (r: String)
        ensures
            r@ == plist_head() + self.spec_label() + plist_middle() + self.spec_app_path()
                + plist_tail(),
            r@.subrange(r@.len() - 236, r@.len() - 204) == "<key>RunAtLoad</key>\n    <true/>"@,
            r@.subrange(r@.len() - 199, r@.len() - 166) == "<key>KeepAlive</key>\n    <false/>"@,
    {
        let mut s = "<?xml version=\"1.0\" encoding=\"UTF-8\"?>\n<!DOCTYPE plist PUBLIC \"-//Apple//DTD PLIST 1.0//EN\" \"http://www.apple.com/DTDs/PropertyList-1.0.dtd\">\n<plist version=\"1.0\">\n<dict>\n    <key>Label</key>\n    <string>".to_owned();
        s.append(self.label.as_str());
        s.append("</string>\n    <key>ProgramArguments</key>\n    <array>\n        <string>");
        s.append(self.app_path.as_str());
        s.append("</string>\n    </array>\n    <key>RunAtLoad</key>\n    <true/>\n    <key>KeepAlive</key>\n    <false/>\n    <key>StandardOutPath</key>\n    <string>/tmp/vdisplay.log</string>\n    <key>StandardErrorPath</key>\n    <string>/tmp/vdisplay.error.log</string>\n</dict>\n</plist>\n");
        proof {
            law_plist_runs_once_at_login(self.label@, self.app_path@);
        }
        s
    }

    /// The change that toggling makes: an enabled login item is disabled and
    /// a disabled one enabled.
    pub fn toggle(&self, is_enabled: bool) -> (r: AutoStartChange)
        ensures
            r == (if is_enabled {
                AutoStartChange::Disable
            } else {
                AutoStartChange::Enable
            }),
    {
        if is_enabled {
            AutoStartChange::Disable
        } else {
            AutoStartChange::Enable
        }
    }

    /// The `launchctl` arguments that load (`load`) or unload the agent:
    /// `load -w PLIST` or `unload -w PLIST`.
    pub fn launchctl_args(&self, load: bool) -> (r: Vec<String>)
        ensures
            r@.len() == 3,
            r@[0]@ == (if load {
                "load"@
            } else {
                "unload"@
            }),
            r@[1]@ == "-w"@,
            r@[2]@ == self.spec_plist_path(),
    {
        let mut args: Vec<String> = Vec::new();
        if load {
            args.push("load".to_owned());
        } else {
            args.push("unload".to_owned());
        }
        args.push("-w".to_owned());
        args.push(self.plist_path.clone());
        args
    }
}

/// Whether the login item is on after a change.
pub open spec fn enabled_after(change: AutoStartChange) -> bool {
    change == AutoStartChange::Enable
}

/// Toggling turns an enabled login item off and a disabled one on.
pub proof fn law_toggle_flips(is_enabled: bool)
    ensures
        enabled_after(
            if is_enabled {
                AutoStartChange::Disable
            } else {
                AutoStartChange::Enable
            },
        ) == !is_enabled,
{
}

/// Where `K` stands in the fixed parts of the launch agent's text: nowhere
/// in the text before the label or between the label and the program path,
/// and in the closing text only where `KeepAlive` begins.
proof fn lemma_plist_k_positions()
    ensures
        forall|j: int| 0 <= j < plist_head().len() ==> plist_head()[j] != 'K',
        forall|j: int| 0 <= j < plist_middle().len() ==> plist_middle()[j] != 'K',
        forall|j: int| 0 <= j < plist_tail().len() && plist_tail()[j] == 'K' ==> j == 69,
        plist_tail().len() == 263,
        plist_tail().subrange(27, 59) == "<key>RunAtLoad</key>\n    <true/>"@,
        plist_tail().subrange(64, 97) == "<key>KeepAlive</key>\n    <false/>"@,
        plist_tail()[90] == 'f',
{
    reveal_strlit("<key>RunAtLoad</key>\n    <true/>");
    reveal_strlit("<key>KeepAlive</key>\n    <false/>");
    reveal_strlit("<?xml version=\"1.0\" encoding=\"UTF-8\"?>\n<!DOCTYPE plist PUBLIC \"-//Apple//DTD PLIST 1.0//EN\" \"http://www.apple.com/DTDs/PropertyList-1.0.dtd\">\n<plist version=\"1.0\">\n<dict>\n    <key>Label</key>\n    <string>");
    reveal_strlit("</string>\n    <key>ProgramArguments</key>\n    <array>\n        <string>");
    reveal_strlit("</string>\n    </array>\n    <key>RunAtLoad</key>\n    <true/>\n    <key>KeepAlive</key>\n    <false/>\n    <key>StandardOutPath</key>\n    <string>/tmp/vdisplay.log</string>\n    <key>StandardErrorPath</key>\n    <string>/tmp/vdisplay.error.log</string>\n</dict>\n</plist>\n");
    reveal_with_fuel(occurs_only_at, 25);
    assert(occurs_only_at(plist_head(), 'K', -1, 192));
    assert(occurs_only_at(plist_head(), 'K', -1, 168));
    assert(occurs_only_at(plist_head(), 'K', -1, 144));
    assert(occurs_only_at(plist_head(), 'K', -1, 120));
    assert(occurs_only_at(plist_head(), 'K', -1, 96));
    assert(occurs_only_at(plist_head(), 'K', -1, 72));
    assert(occurs_only_at(plist_head(), 'K', -1, 48));
    assert(occurs_only_at(plist_head(), 'K', -1, 24));
    assert(occurs_only_at(plist_head(), 'K', -1, 0));
    lemma_occurs_only_at(plist_head(), 'K', -1, 0);
    assert(occurs_only_at(plist_middle(), 'K', -1, 48));
    assert(occurs_only_at(plist_middle(), 'K', -1, 24));
    assert(occurs_only_at(plist_middle(), 'K', -1, 0));
    lemma_occurs_only_at(plist_middle(), 'K', -1, 0);
    assert(occurs_only_at(plist_tail(), 'K', 69, 240));
    assert(occurs_only_at(plist_tail(), 'K', 69, 216));
    assert(occurs_only_at(plist_tail(), 'K', 69, 192));
    assert(occurs_only_at(plist_tail(), 'K', 69, 168));
    assert(occurs_only_at(plist_tail(), 'K', 69, 144));
    assert(occurs_only_at(plist_tail(), 'K', 69, 120));
    assert(occurs_only_at(plist_tail(), 'K', 69, 96));
    assert(occurs_only_at(plist_tail(), 'K', 69, 72));
    assert(occurs_only_at(plist_tail(), 'K', 69, 48));
    assert(occurs_only_at(plist_tail(), 'K', 69, 24));
    assert(occurs_only_at(plist_tail(), 'K', 69, 0));
    lemma_occurs_only_at(plist_tail(), 'K', 69, 0);
    assert(plist_tail().subrange(27, 59) =~= "<key>RunAtLoad</key>\n    <true/>"@);
    assert(plist_tail().subrange(64, 97) =~= "<key>KeepAlive</key>\n    <false/>"@);
}

/// The launch agent starts the program once at login and does not keep it
/// running: its text asks for `RunAtLoad` with `<true/>` and `KeepAlive` with
/// `<false/>`, at fixed places from its end, whatever the label and program
/// path. The text the agent writes around them never asks for `KeepAlive`
/// with `<true/>`, nor does the whole text when neither the label nor the
/// program path holds a `K`.
pub proof fn law_plist_runs_once_at_login(label: Seq<char>, app: Seq<char>)
    ensures
        ({
            let text = plist_head() + label + plist_middle() + app + plist_tail();
            &&& text.subrange(text.len() - 236, text.len() - 204)
                == "<key>RunAtLoad</key>\n    <true/>"@
            &&& text.subrange(text.len() - 199, text.len() - 166)
                == "<key>KeepAlive</key>\n    <false/>"@
            &&& free_of(label, 'K') && free_of(app, 'K') ==> !contains_seq(
                text,
                "<key>KeepAlive</key>\n    <true/>"@,
            )
        }),
        !contains_seq(plist_head(), "<key>KeepAlive</key>\n    <true/>"@),
        !contains_seq(plist_middle(), "<key>KeepAlive</key>\n    <true/>"@),
        !contains_seq(plist_tail(), "<key>KeepAlive</key>\n    <true/>"@),
{
    let kt = "<key>KeepAlive</key>\n    <true/>"@;
    reveal_strlit("<key>KeepAlive</key>\n    <true/>");
    lemma_plist_k_positions();
    let head = plist_head();
    let middle = plist_middle();
    let tail = plist_tail();
    let text = head + label + middle + app + tail;
    let off = (head.len() + label.len() + middle.len() + app.len()) as int;
    assert(text.len() == off + 263);
    assert(text.subrange(off, off + 263) =~= tail);
    assert(text.subrange(text.len() - 236, text.len() - 204) =~= tail.subrange(27, 59));
    assert(text.subrange(text.len() - 199, text.len() - 166) =~= tail.subrange(64, 97));
    assert(kt[5] == 'K' && kt[26] == 't');
    assert forall|i: int| 0 <= i implies !matches_at(head, kt, i) by {
        if matches_at(head, kt, i) {
            assert(head.subrange(i, i + 32)[5] == head[i + 5]);
        }
    }
    assert forall|i: int| 0 <= i implies !matches_at(middle, kt, i) by {
        if matches_at(middle, kt, i) {
            assert(middle.subrange(i, i + 32)[5] == middle[i + 5]);
        }
    }
    assert forall|i: int| 0 <= i implies !matches_at(tail, kt, i) by {
        if matches_at(tail, kt, i) {
            assert(tail.subrange(i, i + 32)[5] == tail[i + 5]);
            assert(tail.subrange(i, i + 32)[26] == tail[i + 26]);
        }
    }
    lemma_find_from_none(head, kt, 0);
    lemma_find_from_none(middle, kt, 0);
    lemma_find_from_none(tail, kt, 0);
    if free_of(label, 'K') && free_of(app, 'K') {
        let a = head.len() as int;
        let b = a + label.len();
        let c = b + middle.len();
        assert forall|j: int| 0 <= j < text.len() && text[j] == 'K' implies j == off + 69 by {
            if j < a {
                assert(text[j] == head[j]);
            } else if j < b {
                assert(text[j] == label[j - a]);
            } else if j < c {
                assert(text[j] == middle[j - b]);
            } else if j < off {
                assert(text[j] == app[j - c]);
            } else {
                assert(text[j] == tail[j - off]);
            }
        }
        assert forall|i: int| 0 <= i implies !matches_at(text, kt, i) by {
            if matches_at(text, kt, i) {
                assert(text.subrange(i, i + 32)[5] == text[i + 5]);
                assert(text.subrange(i, i + 32)[26] == text[i + 26]);
                assert(text[off + 90] == tail[90]);
            }
        }
        lemma_find_from_none(text, kt, 0);
    }
}

} // verus!
