//! The settings of the appliance and the interface through which they are
//! read and changed.

use vstd::prelude::*;
use vstd::string::StringExecFns;

verus! {

/// Settings of the upstream NTP client.
#[derive(Debug)]
pub struct Ntp {
    pub server_list: Vec<String>,
    pub enable: bool,
    pub cycle: u32,
}

/// Settings of the GPS source.
#[derive(Debug, Copy, Clone, PartialEq, Eq, Structural)]
pub struct Gps {
    pub enable: bool,
}

/// Settings of the display.
#[derive(Debug, Copy, Clone, PartialEq, Eq, Structural)]
pub struct Display {
    pub enable: bool,
}

/// Settings of the real-time clock.
#[derive(Debug, Copy, Clone, PartialEq, Eq, Structural)]
pub struct RTC {
    pub enable: bool,
    pub cycle: u32,
}

/// All settings.
#[derive(Debug)]
pub struct Settings {
    pub ntp: Ntp,
    pub gps: Gps,
    pub display: Display,
    pub rtc: RTC,
}

/// The NTP client's settings as values.
pub struct NtpView {
    pub server_list: Seq<Seq<char>>,
    pub enable: bool,
    pub cycle: u32,
}

/// All settings as values.
pub struct SettingsView {
    pub ntp: NtpView,
    pub gps: Gps,
    pub display: Display,
    pub rtc: RTC,
}

impl View for Ntp {
    type V = NtpView;

    open spec fn view(&self) -> NtpView {
        NtpView {
            server_list: self.server_list@.map_values(|s: String| s@),
            enable: self.enable,
            cycle: self.cycle,
        }
    }
}

impl View for Settings {
    type V = SettingsView;

    open spec fn view(&self) -> SettingsView {
        SettingsView { ntp: self.ntp@, gps: self.gps, display: self.display, rtc: self.rtc }
    }
}

/// The settings of a fresh installation: one public pool server polled
/// every five seconds, every source and device enabled, the real-time clock
/// read every ten seconds.
pub open spec fn default_settings() -> SettingsView {
    SettingsView {
        ntp: NtpView { server_list: seq!["0.ru.pool.ntp.org:123"@], enable: true, cycle: 5000 },
        gps: Gps { enable: true },
        display: Display { enable: true },
        rtc: RTC { enable: true, cycle: 10000 },
    }
}

impl Clone for Ntp {
    /// A copy with the same servers in the same order.
    fn clone(&self) -> (copy: Ntp)
        ensures
            copy@ == self@,
    {
        let mut server_list: Vec<String> = Vec::new();
        let mut i: usize = 0;
        while i < self.server_list.len()
            invariant
                i <= self.server_list@.len(),
                server_list@ == self.server_list@.subrange(0, i as int),
            decreases self.server_list@.len() - i,
        {
            server_list.push(self.server_list[i].clone());
            assert(server_list@ =~= self.server_list@.subrange(0, i + 1));
            i = i + 1;
        }
        assert(server_list@ =~= self.server_list@);
        Ntp { server_list, enable: self.enable, cycle: self.cycle }
    }
}

impl Clone for Settings {
    /// A copy with the same values.
    fn clone(&self) -> (copy: Settings)
        ensures
            copy@ == self@,
    {
        Settings { ntp: self.ntp.clone(), gps: self.gps, display: self.display, rtc: self.rtc }
    }
}

impl Ntp {
    /// Whether the client is to poll at all: it is enabled and has at least
    /// one server.
    pub fn polls(&self) -> (polls: bool)
        ensures
            polls == (self.enable && self.server_list@.len() > 0),
    {
        self.enable && self.server_list.len() > 0
    }

    /// The time between two polls in milliseconds: the low sixteen bits of
    /// the configured cycle.
    pub fn cycle_millis(&self) -> (millis: u16)
        ensures
            millis == self.cycle % 0x1_0000,
    {
        (self.cycle % 0x1_0000) as u16
    }
}

impl RTC {
    /// The time between two readings of the clock in whole seconds.
    pub fn period_secs(&self) -> (secs: u64)
        ensures
            secs == self.cycle / 1000,
    {
        (self.cycle / 1000) as u64
    }
}

impl Settings {
    /// The settings of a fresh installation.
    pub fn new() -> (settings: Settings)
        ensures
            settings@ == default_settings(),
    {
        let mut server_list: Vec<String> = Vec::new();
        server_list.push("0.ru.pool.ntp.org:123".to_owned());
        let settings = Settings {
            ntp: Ntp { server_list, enable: true, cycle: 5000 },
            gps: Gps { enable: true },
            display: Display { enable: true },
            rtc: RTC { enable: true, cycle: 10000 },
        };
        assert(settings@.ntp.server_list =~= default_settings().ntp.server_list);
        settings
    }
}

/// Access to the current settings, part by part.
pub trait Iapi: Sync + Send {
    /// The settings that are held.
    spec fn settings(&self) -> SettingsView;

    /// A copy of all settings.
    fn get_settings(&mut self) -> (current: Settings)
        ensures
            current@ == old(self).settings(),
            final(self).settings() == old(self).settings(),
    ;

    /// A copy of the NTP client's settings.
    fn get_ntp(&mut self) -> (current: Ntp)
        ensures
            current@ == old(self).settings().ntp,
            final(self).settings() == old(self).settings(),
    ;

    /// The GPS source's settings.
    fn get_gps(&mut self) -> (current: Gps)
        ensures
            current == old(self).settings().gps,
            final(self).settings() == old(self).settings(),
    ;

    /// The display's settings.
    fn get_display(&self) -> (current: Display)
        ensures
            current == self.settings().display,
    ;

    /// The real-time clock's settings.
    fn get_rtc(&self) -> (current: RTC)
        ensures
            current == self.settings().rtc,
    ;

    /// Replaces all settings.
    fn set_settings(&mut self, settings: Settings)
        ensures
            final(self).settings() == settings@,
    ;

    /// Replaces the NTP client's settings and nothing else.
    fn set_ntp(&mut self, ntp: Ntp)
        ensures
            final(self).settings() == (SettingsView { ntp: ntp@, ..old(self).settings() }),
    ;

    /// Replaces the GPS source's settings and nothing else.
    fn set_gps(&mut self, gps: Gps)
        ensures
            final(self).settings() == (SettingsView { gps: gps, ..old(self).settings() }),
    ;

    /// Replaces the display's settings and nothing else.
    fn set_display(&mut self, display: Display)
        ensures
            final(self).settings() == (SettingsView { display: display, ..old(self).settings() }),
    ;

    /// Replaces the real-time clock's settings and nothing else.
    fn set_rtc(&mut self, rtc: RTC)
        ensures
            final(self).settings() == (SettingsView { rtc: rtc, ..old(self).settings() }),
    ;
}

impl Iapi for Settings {
    open spec fn settings(&self) -> SettingsView {
        self@
    }

    fn get_settings(&mut self) -> (current: Settings) {
        self.clone()
    }

    fn get_ntp(&mut self) -> (current: Ntp) {
        self.ntp.clone()
    }

    fn get_gps(&mut self) -> (current: Gps) {
        self.gps
    }

    fn get_display(&self) -> (current: Display) {
        self.display
    }

    fn get_rtc(&self) -> (current: RTC) {
        self.rtc
    }

    fn set_settings(&mut self, settings: Settings) {
        self.display = settings.display;
        self.ntp = settings.ntp;
        self.gps = settings.gps;
        self.rtc = settings.rtc;
    }

    fn set_ntp(&mut self, ntp: Ntp) {
        self.ntp = ntp;
    }

    fn set_gps(&mut self, gps: Gps) {
        self.gps = gps;
    }

    fn set_display(&mut self, display: Display) {
        self.display = display;
    }

    fn set_rtc(&mut self, rtc: RTC) {
        self.rtc = rtc;
    }
}

/// Where the settings are kept on disk: a file name without extension and
/// the folder that holds it.
#[derive(Debug)]
pub struct Keeper {
    file: String,
    folder: String,
}

impl Keeper {
    /// The name of the file, without extension.
    pub closed spec fn file(&self) -> Seq<char> {
        self.file@
    }

    /// The folder that holds the file.
    pub closed spec fn folder(&self) -> Seq<char> {
        self.folder@
    }

    /// The location of the file: the folder, a slash, the name and the
    /// extension `.toml`.
    pub open spec fn location(&self) -> Seq<char> {
        self.folder() + "/"@ + self.file() + ".toml"@
    }

    /// A keeper for the file named `file` in `folder`.
    pub fn new(file: String, folder: String) -> (keeper: Keeper)
        ensures
            keeper.file() == file@,
            keeper.folder() == folder@,
    {
        Keeper { file, folder }
    }

    /// The folder that holds the file.
    pub fn directory(&self) -> (folder: String)
        ensures
            folder@ == self.folder(),
    {
        self.folder.clone()
    }

    /// The location of the file.
    pub fn path(&self) -> (path: String)
        ensures
            path@ == self.location(),
    {
        let mut path = self.folder.clone();
        path.append("/");
        path.append(self.file.as_str());
        path.append(".toml");
        path
    }
}

} // verus!
