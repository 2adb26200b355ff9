//! The configuration snapshot that the engine works from.

use crate::text::{lowercase_of, str_eq, strings_view, to_lowercase};
use vstd::prelude::*;

verus! {

/// Settings of the serial device.
#[derive(Debug)]
pub struct ArduinoConfig {
    pub enabled: bool,
    pub com_port: String,
    pub baud_rate: u32,
}

pub struct ArduinoConfigView {
    pub enabled: bool,
    pub com_port: Seq<char>,
    pub baud_rate: u32,
}

impl View for ArduinoConfig {
    type V = ArduinoConfigView;

    open spec fn view(&self) -> ArduinoConfigView {
        ArduinoConfigView {
            enabled: self.enabled,
            com_port: self.com_port@,
            baud_rate: self.baud_rate,
        }
    }
}

impl Clone for ArduinoConfig {
    fn clone(&self) -> (r: ArduinoConfig)
        ensures
            r@ == self@,
    {
        ArduinoConfig {
            enabled: self.enabled,
            com_port: self.com_port.clone(),
            baud_rate: self.baud_rate,
        }
    }
}

/// One key binding of a session: a chord and the name of an action.
#[derive(Debug)]
pub struct KeybindConfig {
    pub key: String,
    pub action: String,
}

pub struct KeybindConfigView {
    pub key: Seq<char>,
    pub action: Seq<char>,
}

impl View for KeybindConfig {
    type V = KeybindConfigView;

    open spec fn view(&self) -> KeybindConfigView {
        KeybindConfigView { key: self.key@, action: self.action@ }
    }
}

impl Clone for KeybindConfig {
    fn clone(&self) -> (r: KeybindConfig)
        ensures
            r@ == self@,
    {
        KeybindConfig { key: self.key.clone(), action: self.action.clone() }
    }
}

/// Settings of the mixer window.
#[derive(Debug)]
pub struct MixerConfig {
    pub enabled: bool,
    pub hotkey: Option<String>,
}

pub struct MixerConfigView {
    pub enabled: bool,
    pub hotkey: Option<Seq<char>>,
}

impl View for MixerConfig {
    type V = MixerConfigView;

    open spec fn view(&self) -> MixerConfigView {
        MixerConfigView {
            enabled: self.enabled,
            hotkey: match self.hotkey {
                Some(hotkey) => Some(hotkey@),
                None => None,
            },
        }
    }
}

impl Clone for MixerConfig {
    fn clone(&self) -> (r: MixerConfig)
        ensures
            r@ == self@,
    {
        MixerConfig {
            enabled: self.enabled,
            hotkey: match &self.hotkey {
                Some(hotkey) => Some(hotkey.clone()),
                None => None,
            },
        }
    }
}

/// Settings of the program as a whole.
#[derive(Clone, Copy, Debug, PartialEq, Eq, Structural)]
pub struct SystemConfig {
    pub autostart: bool,
    pub show_console: bool,
}

/// One audio session that the user controls. `encoder` is the slot of the
/// serial record that carries this session's value; a session without one
/// takes the slot of its position in the list.
#[derive(Debug)]
pub struct SessionConfig {
    pub name: String,
    pub keybinds: Option<Vec<KeybindConfig>>,
    pub encoder: Option<u32>,
}

pub struct SessionConfigView {
    pub name: Seq<char>,
    pub keybinds: Option<Seq<KeybindConfigView>>,
    pub encoder: Option<u32>,
}

impl View for SessionConfig {
    type V = SessionConfigView;

    open spec fn view(&self) -> SessionConfigView {
        SessionConfigView {
            name: self.name@,
            keybinds: match self.keybinds {
                Some(keybinds) => Some(keybinds@.map_values(|k: KeybindConfig| k@)),
                None => None,
            },
            encoder: self.encoder,
        }
    }
}

fn clone_keybinds(keybinds: &Vec<KeybindConfig>) -> (r: Vec<KeybindConfig>)
    ensures
        r@.map_values(|k: KeybindConfig| k@) == keybinds@.map_values(|k: KeybindConfig| k@),
{
    let mut out: Vec<KeybindConfig> = Vec::new();
    let mut i: usize = 0;
    while i < keybinds.len()
        invariant
            i <= keybinds@.len(),
            out@.len() == i,
            forall|k: int| 0 <= k < i ==> (#[trigger] out@[k])@ == keybinds@[k]@,
        decreases keybinds@.len() - i,
    {
        out.push(keybinds[i].clone());
        i = i + 1;
    }
    out
}

impl Clone for SessionConfig {
    fn clone(&self) -> (r: SessionConfig)
        ensures
            r@ == self@,
    {
        SessionConfig {
            name: self.name.clone(),
            keybinds: match &self.keybinds {
                Some(keybinds) => Some(clone_keybinds(keybinds)),
                None => None,
            },
            encoder: self.encoder,
        }
    }
}

/// The whole configuration.
#[derive(Debug)]
pub struct Config {
    pub arduino: ArduinoConfig,
    pub sessions: Vec<SessionConfig>,
    pub mixer: MixerConfig,
    pub system: SystemConfig,
}

pub struct ConfigView {
    pub arduino: ArduinoConfigView,
    pub sessions: Seq<SessionConfigView>,
    pub mixer: MixerConfigView,
    pub system: SystemConfig,
}

impl View for Config {
    type V = ConfigView;

    open spec fn view(&self) -> ConfigView {
        ConfigView {
            arduino: self.arduino@,
            sessions: self.sessions@.map_values(|s: SessionConfig| s@),
            mixer: self.mixer@,
            system: self.system,
        }
    }
}

impl Clone for Config {
    fn clone(&self) -> (r: Config)
        ensures
            r@ == self@,
    {
        let mut sessions: Vec<SessionConfig> = Vec::new();
        let mut i: usize = 0;
        while i < self.sessions.len()
            invariant
                i <= self.sessions@.len(),
                sessions@.len() == i,
                forall|k: int| 0 <= k < i ==> (#[trigger] sessions@[k])@ == self.sessions@[k]@,
            decreases self.sessions@.len() - i,
        {
            sessions.push(self.sessions[i].clone());
            i = i + 1;
        }
        assert(sessions@.map_values(|s: SessionConfig| s@) =~= self.sessions@.map_values(
            |s: SessionConfig| s@,
        ));
        Config {
            arduino: self.arduino.clone(),
            sessions,
            mixer: self.mixer.clone(),
            system: self.system,
        }
    }
}

/// The lower-case names of the sessions in `sessions`, in order, leaving
/// out the reserved name `other`.
pub open spec fn defined_names(sessions: Seq<SessionConfigView>) -> Seq<Seq<char>>
    decreases sessions.len(),
{
    if sessions.len() == 0 {
        Seq::<Seq<char>>::empty()
    } else {
        let init = defined_names(sessions.drop_last());
        let name = lowercase_of(sessions.last().name);
        if name == "other"@ {
            init
        } else {
            init.push(name)
        }
    }
}

/// The holder of the configuration in force. Readers take copies; a reload
/// replaces the whole snapshot at once.
pub struct ConfigStore {
    current: Config,
}

impl View for ConfigStore {
    type V = ConfigView;

    closed spec fn view(&self) -> ConfigView {
        self.current@
    }
}

impl ConfigStore {
    /// A store that holds `config`.
    pub fn new(config: Config) -> (store: ConfigStore)
        ensures
            store@ == config@,
    {
        ConfigStore { current: config }
    }
}

/// A copy of the configuration in force.
pub fn get_config(store: &ConfigStore) -> (config: Config)
    ensures
        config@ == store@,
{
    store.current.clone()
}

/// Puts `config` in force in place of the snapshot held so far.
pub fn set_config(store: &mut ConfigStore, config: Config)
    ensures
        final(store)@ == config@,
{
    store.current = config;
}

/// The names of all configured sessions in lower case, leaving out the
/// reserved name `other`.
pub fn get_defined_session_names(config: &Config) -> (names: Vec<String>)
    ensures
        strings_view(names@) == defined_names(config@.sessions),
{
    let mut names: Vec<String> = Vec::new();
    let mut i: usize = 0;
    while i < config.sessions.len()
        invariant
            i <= config.sessions@.len(),
            strings_view(names@) == defined_names(config@.sessions.take(i as int)),
        decreases config.sessions@.len() - i,
    {
        let ghost before = config@.sessions.take(i as int);
        let ghost after = config@.sessions.take(i + 1);
        proof {
            assert(after.drop_last() =~= before);
        }
        let lower = to_lowercase(config.sessions[i].name.as_str());
        if !str_eq(lower.as_str(), "other") {
            names.push(lower);
        }
        i = i + 1;
    }
    assert(config@.sessions.take(i as int) =~= config@.sessions);
    names
}

} // verus!
