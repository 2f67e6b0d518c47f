use vstd::prelude::*;
use core::time::Duration;
use crate::ident::{fresh_identity, is_identity};
use crate::input::{str_equal, I3BarEvent};
use crate::widget::{icon_for, icon_name, ButtonView, ButtonWidget};

verus! {

/// The settings of one toggle block.
#[derive(Clone, Debug)]
pub struct ToggleConfig {
    /// How long to wait between two probes; `None` probes only once.
    pub interval: Option<Duration>,
    /// Shell command that turns the state on.
    pub command_on: String,
    /// Shell command that turns the state off.
    pub command_off: String,
    /// Shell command whose output tells the state: none means off, any means on.
    pub command_state: String,
    /// Label shown beside the icon.
    pub text: String,
}

impl Default for ToggleConfig {
    fn default() -> (r: ToggleConfig)
        ensures
            r.interval.is_none(),
            r.command_on@.len() == 0,
            r.command_off@.len() == 0,
            r.command_state@.len() == 0,
            r.text@.len() == 0,
    {
        ToggleConfig {
            interval: None,
            command_on: String::new(),
            command_off: String::new(),
            command_state: String::new(),
            text: String::new(),
        }
    }
}

/// Whether a probe's output says the state is on: it wrote any output at all.
/// The one exception is a bare line break, as `echo` alone prints, which counts
/// as no output.
pub open spec fn reports_on(out: Seq<u8>) -> bool {
    out.len() > 0 && out != seq![0x0au8]
}

/// What a toggle block holds, as a reader of its contracts sees it.
pub struct ToggleView {
    pub toggled: bool,
    pub id: Seq<char>,
    pub text: Seq<char>,
    pub icon: Seq<char>,
    pub command_on: Seq<char>,
    pub command_off: Seq<char>,
    pub command_state: Seq<char>,
    pub interval: Option<Duration>,
}

/// The block after a probe whose output was `out`: the state is what the
/// output says, whatever it was before, and the icon follows it.
pub open spec fn after_probe(v: ToggleView, out: Seq<u8>) -> ToggleView {
    ToggleView { toggled: reports_on(out), icon: icon_for(reports_on(out)), ..v }
}

/// The command that a click on the block runs: the one that turns the state off
/// while it is on, else the one that turns it on.
pub open spec fn command_for(v: ToggleView) -> Seq<char> {
    if v.toggled {
        v.command_off
    } else {
        v.command_on
    }
}

/// The block after a click aimed at `target`, where the command that the click
/// selected succeeded or not: only a click on this block whose command
/// succeeded flips the state, and the icon follows it.
pub open spec fn after_click(v: ToggleView, target: Option<Seq<char>>, succeeded: bool) -> ToggleView {
    if target == Some(v.id) && succeeded {
        ToggleView { toggled: !v.toggled, icon: icon_for(!v.toggled), ..v }
    } else {
        v
    }
}

/// A block that shows an on/off state as an icon.
pub struct Toggle {
    text: ButtonWidget,
    command_on: String,
    command_off: String,
    command_state: String,
    update_interval: Option<Duration>,
    toggled: bool,
    id: String,
}

impl View for Toggle {
    type V = ToggleView;

    closed spec fn view(&self) -> ToggleView {
        ToggleView {
            toggled: self.toggled,
            id: self.id@,
            text: self.text@.text,
            icon: self.text@.icon,
            command_on: self.command_on@,
            command_off: self.command_off@,
            command_state: self.command_state@,
            interval: self.update_interval,
        }
    }
}

/// Whether a probe's output says the state is on.
pub fn probe_reports_on(out: &[u8]) -> (r: bool)
    ensures
        r == reports_on(out@),
{
    if out.len() == 0 {
        false
    } else if out.len() == 1 && out[0] == 0x0a {
        assert(out@ =~= seq![0x0au8]);
        false
    } else {
        assert(out@.len() != 1 || out@[0] != 0x0au8);
        assert(out@ != seq![0x0au8]);
        true
    }
}

impl Toggle {
    /// Well formed: the widget carries the block's identity and shows the icon
    /// of the current state.
    pub closed spec fn wf(&self) -> bool {
        &&& self.text@.name == self.id@
        &&& self.text@.icon == icon_for(self.toggled)
    }

    /// A block with the given settings and identity, off until its first probe.
    pub fn with_id(block_config: ToggleConfig, id: String) -> (r: Toggle)
        ensures
            r.wf(),
            r@ == (ToggleView {
                toggled: false,
                id: id@,
                text: block_config.text@,
                icon: icon_for(false),
                command_on: block_config.command_on@,
                command_off: block_config.command_off@,
                command_state: block_config.command_state@,
                interval: block_config.interval,
            }),
    {
        let mut text = ButtonWidget::new(id.as_str()).with_text(block_config.text.as_str());
        text.set_icon(icon_name(false));
        Toggle {
            text,
            command_on: block_config.command_on,
            command_off: block_config.command_off,
            command_state: block_config.command_state,
            update_interval: block_config.interval,
            toggled: false,
            id,
        }
    }

    /// A block with the given settings and a fresh random identity, off until
    /// its first probe.
    pub fn new(block_config: ToggleConfig) -> (r: Toggle)
        ensures
            r.wf(),
            is_identity(r@.id),
            r@ == (ToggleView {
                toggled: false,
                id: r@.id,
                text: block_config.text@,
                icon: icon_for(false),
                command_on: block_config.command_on@,
                command_off: block_config.command_off@,
                command_state: block_config.command_state@,
                interval: block_config.interval,
            }),
    {
        let id = fresh_identity();
        Toggle::with_id(block_config, id)
    }

    /// Takes in the output of the probe command: the state becomes what the
    /// output says, the icon follows, and the result is the configured
    /// interval, after which the host probes again.
    pub fn update(&mut self, probe_output: &[u8]) -> (r: Option<Duration>)
        requires
            old(self).wf(),
        ensures
            final(self).wf(),
            final(self)@ == after_probe(old(self)@, probe_output@),
            r == old(self)@.interval,
    {
        self.toggled = probe_reports_on(probe_output);
        self.text.set_icon(icon_name(self.toggled));
        self.update_interval
    }

    /// Whether a click was aimed at this block.
    pub fn is_target(&self, e: &I3BarEvent) -> (r: bool)
        ensures
            r == (e.target() == Some(self@.id)),
    {
        match &e.name {
            Some(name) => str_equal(name.as_str(), self.id.as_str()),
            None => false,
        }
    }

    /// The command that a click on this block runs now.
    pub fn selected_command(&self) -> (r: &String)
        ensures
            r@ == command_for(self@),
    {
        if self.toggled {
            &self.command_off
        } else {
            &self.command_on
        }
    }

    /// The probe command, whose output tells the state.
    pub fn probe_command(&self) -> (r: &String)
        ensures
            r@ == self@.command_state,
    {
        &self.command_state
    }

    /// The command to run for a click: the selected one where the click was
    /// aimed at this block, else none.
    pub fn click_command(&self, e: &I3BarEvent) -> (r: Option<&String>)
        ensures
            r.is_some() == (e.target() == Some(self@.id)),
            r.is_some() ==> r.unwrap()@ == command_for(self@),
    {
        if self.is_target(e) {
            Some(self.selected_command())
        } else {
            None
        }
    }

    /// Takes in a click and, where it was aimed at this block, whether the
    /// command that `click_command` gave for it succeeded: on success the state
    /// flips and the icon follows; otherwise nothing changes.
    pub fn click(&mut self, e: &I3BarEvent, command_succeeded: bool)
        requires
            old(self).wf(),
        ensures
            final(self).wf(),
            final(self)@ == after_click(old(self)@, e.target(), command_succeeded),
    {
        if command_succeeded && self.is_target(e) {
            self.toggled = !self.toggled;
            self.text.set_icon(icon_name(self.toggled));
        }
    }

    /// Whether the state is on.
    pub fn is_toggled(&self) -> (r: bool)
        ensures
            r == self@.toggled,
    {
        self.toggled
    }

    /// The identity that clicks on this block carry.
    pub fn id(&self) -> (r: &str)
        ensures
            r@ == self@.id,
    {
        self.id.as_str()
    }

    /// The widget to show in the status line.
    pub fn current_view(&self) -> (r: &ButtonWidget)
        requires
            self.wf(),
        ensures
            r@ == (ButtonView { name: self@.id, text: self@.text, icon: self@.icon }),
            r@.icon == icon_for(self@.toggled),
    {
        &self.text
    }
}

/// In a well-formed block the icon is the one of the current state. Every
/// operation keeps blocks well formed, so this holds after each of them.
pub proof fn icon_follows_state(t: &Toggle)
    requires
        t.wf(),
    ensures
        t@.icon == icon_for(t@.toggled),
{
}

/// A probe sets the state to what its output says, whatever the state was,
/// so a second probe with the same output changes nothing.
pub proof fn probe_is_idempotent(v: ToggleView, out: Seq<u8>)
    ensures
        after_probe(v, out).toggled == reports_on(out),
        after_probe(after_probe(v, out), out) == after_probe(v, out),
{
}

/// A click aimed at another block changes neither the state nor the icon.
pub proof fn click_elsewhere_changes_nothing(v: ToggleView, target: Option<Seq<char>>, succeeded: bool)
    requires
        target != Some(v.id),
    ensures
        after_click(v, target, succeeded) == v,
{
}

/// A click aimed at the block flips the state when the selected command
/// succeeds and leaves it as it was when the command fails; either way the
/// icon is then the one of the state.
pub proof fn click_on_block_flips_on_success(v: ToggleView, succeeded: bool)
    requires
        v.icon == icon_for(v.toggled),
    ensures
        after_click(v, Some(v.id), succeeded).toggled == (v.toggled != succeeded),
        succeeded ==> after_click(v, Some(v.id), succeeded).icon == icon_for(!v.toggled),
        !succeeded ==> after_click(v, Some(v.id), succeeded) == v,
        after_click(v, Some(v.id), succeeded).icon == icon_for(after_click(v, Some(v.id), succeeded).toggled),
{
}

} // verus!
