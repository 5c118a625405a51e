//! Command pattern: a remote control whose buttons know nothing of lights and
//! stereos. Each slot holds a command, which packs the device together with
//! what is to be done to it, and can take back what it did.

use crate::text::{decimal, decimal_string};
use vstd::prelude::*;

verus! {

/// A light in some room.
pub struct Light {
    name: String,
}

impl View for Light {
    type V = Seq<char>;

    /// The room of the light.
    closed spec fn view(&self) -> Seq<char> {
        self.name@
    }
}

impl Clone for Light {
    fn clone(&self) -> (copy: Self)
        ensures
            copy@ == self@,
    {
        Light { name: self.name.clone() }
    }
}

/// What a light says when it goes on.
pub open spec fn light_on_text(name: Seq<char>) -> Seq<char> {
    name + " Light is on\n"@
}

/// What a light says when it goes off.
pub open spec fn light_off_text(name: Seq<char>) -> Seq<char> {
    name + " Light is off\n"@
}

impl Light {
    pub fn new(name: &str) -> (light: Self)
        ensures
            light@ == name@,
    {
        Light { name: String::from_str(name) }
    }

    pub fn on(&self) -> (said: String)
        ensures
            said@ == light_on_text(self@),
    {
        let mut said = self.name.clone();
        said.append(" Light is on\n");
        said
    }

    pub fn off(&self) -> (said: String)
        ensures
            said@ == light_off_text(self@),
    {
        let mut said = self.name.clone();
        said.append(" Light is off\n");
        said
    }
}

/// A disc for the stereo.
#[derive(Clone, Copy)]
pub struct Cd;

/// A stereo in some room.
pub struct Stereo {
    name: String,
    cd: Option<Cd>,
    volume: usize,
}

/// What a stereo is, seen from outside.
pub struct StereoView {
    /// The room of the stereo.
    pub name: Seq<char>,
    /// Whether a disc is in.
    pub cd: bool,
    pub volume: nat,
}

/// The volume at which the stereo plays a disc.
pub const PLAY_VOLUME: usize = 11;

impl StereoView {
    pub open spec fn on_text(self) -> Seq<char> {
        self.name + " Stereo is on\n"@
    }

    pub open spec fn off_text(self) -> Seq<char> {
        self.name + " Stereo is off\n"@
    }

    pub open spec fn cd_text(self) -> Seq<char> {
        self.name + " Stereo is set for Cd input\n"@
    }

    pub open spec fn volume_text(self, volume: nat) -> Seq<char> {
        self.name + " Stereo volume set to "@ + decimal(volume) + "\n"@
    }

    /// The stereo with a disc in.
    pub open spec fn with_cd(self) -> StereoView {
        StereoView { cd: true, ..self }
    }

    /// The stereo at another volume.
    pub open spec fn at_volume(self, volume: nat) -> StereoView {
        StereoView { volume, ..self }
    }

    /// What the stereo says when it is switched on, given a disc and turned
    /// up to play it.
    pub open spec fn play_text(self) -> Seq<char> {
        self.on_text() + self.cd_text() + self.volume_text(PLAY_VOLUME as nat)
    }

    /// The stereo as it plays a disc.
    pub open spec fn playing(self) -> StereoView {
        self.with_cd().at_volume(PLAY_VOLUME as nat)
    }
}

impl View for Stereo {
    type V = StereoView;

    closed spec fn view(&self) -> StereoView {
        StereoView { name: self.name@, cd: self.cd is Some, volume: self.volume as nat }
    }
}

impl Clone for Stereo {
    fn clone(&self) -> (copy: Self)
        ensures
            copy@ == self@,
    {
        Stereo { name: self.name.clone(), cd: self.cd, volume: self.volume }
    }
}

impl Stereo {
    pub fn new(name: &str) -> (stereo: Self)
        ensures
            stereo@ == (StereoView { name: name@, cd: false, volume: 0 }),
    {
        Stereo { name: String::from_str(name), cd: None, volume: 0 }
    }

    pub fn on(&self) -> (said: String)
        ensures
            said@ == self@.on_text(),
    {
        let mut said = self.name.clone();
        said.append(" Stereo is on\n");
        said
    }

    pub fn off(&self) -> (said: String)
        ensures
            said@ == self@.off_text(),
    {
        let mut said = self.name.clone();
        said.append(" Stereo is off\n");
        said
    }

    pub fn set_cd(&mut self, cd: Cd) -> (said: String)
        ensures
            said@ == old(self)@.cd_text(),
            final(self)@ == old(self)@.with_cd(),
    {
        let mut said = self.name.clone();
        said.append(" Stereo is set for Cd input\n");
        self.cd = Some(cd);
        said
    }

    pub fn set_volumn(&mut self, volume: usize) -> (said: String)
        ensures
            said@ == old(self)@.volume_text(volume as nat),
            final(self)@ == old(self)@.at_volume(volume as nat),
    {
        let mut said = self.name.clone();
        said.append(" Stereo volume set to ");
        let level = decimal_string(volume);
        said.append(level.as_str());
        said.append("\n");
        self.volume = volume;
        said
    }

    /// Switches the stereo on, puts a disc in and turns it up.
    fn play(&mut self) -> (said: String)
        ensures
            said@ == old(self)@.play_text(),
            final(self)@ == old(self)@.playing(),
    {
        let mut said = self.on();
        let loaded = self.set_cd(Cd {  });
        said.append(loaded.as_str());
        let turned = self.set_volumn(PLAY_VOLUME);
        said.append(turned.as_str());
        said
    }
}

/// What a command is, seen from outside: what it does, and the device it does
/// it to.
pub enum CommandView {
    LightOn(Seq<char>),
    LightOff(Seq<char>),
    No,
    StereoOnWithCd(StereoView),
    StereoOff(StereoView),
    Macro(Seq<CommandView>),
}

/// What a list of commands says when they are executed one after the other.
pub open spec fn execute_texts(commands: Seq<CommandView>) -> Seq<char>
    decreases commands, 0int,
{
    if commands.len() == 0 {
        Seq::empty()
    } else {
        execute_texts(commands.drop_last()) + commands.last().execute_text()
    }
}

/// What a list of commands says when they are undone one after the other.
pub open spec fn undo_texts(commands: Seq<CommandView>) -> Seq<char>
    decreases commands, 0int,
{
    if commands.len() == 0 {
        Seq::empty()
    } else {
        undo_texts(commands.drop_last()) + commands.last().undo_text()
    }
}

/// A list of commands after each was executed.
pub open spec fn executed_all(commands: Seq<CommandView>) -> Seq<CommandView>
    decreases commands, 0int,
{
    if commands.len() == 0 {
        Seq::empty()
    } else {
        executed_all(commands.drop_last()).push(commands.last().executed())
    }
}

/// A list of commands after each was undone.
pub open spec fn undone_all(commands: Seq<CommandView>) -> Seq<CommandView>
    decreases commands, 0int,
{
    if commands.len() == 0 {
        Seq::empty()
    } else {
        undone_all(commands.drop_last()).push(commands.last().undone())
    }
}

impl CommandView {
    /// The name under which a command is listed.
    pub open spec fn name(self) -> Seq<char> {
        match self {
            CommandView::LightOn(_) => "LightOnCommand"@,
            CommandView::LightOff(_) => "LightOffCommand"@,
            CommandView::No => "NoCommand"@,
            CommandView::StereoOnWithCd(_) => "StereoOnWithCdCommand"@,
            CommandView::StereoOff(_) => "StereoOffCommand"@,
            CommandView::Macro(_) => "MacroCommand"@,
        }
    }

    /// What the devices say when the command is executed.
    pub open spec fn execute_text(self) -> Seq<char>
        decreases self, 1int,
    {
        match self {
            CommandView::LightOn(light) => light_on_text(light),
            CommandView::LightOff(light) => light_off_text(light),
            CommandView::No => Seq::empty(),
            CommandView::StereoOnWithCd(stereo) => stereo.play_text(),
            CommandView::StereoOff(stereo) => stereo.off_text(),
            CommandView::Macro(commands) => execute_texts(commands),
        }
    }

    /// The command after it was executed: a stereo that was made to play
    /// holds a disc and is turned up.
    pub open spec fn executed(self) -> CommandView
        decreases self, 1int,
    {
        match self {
            CommandView::StereoOnWithCd(stereo) => CommandView::StereoOnWithCd(stereo.playing()),
            CommandView::Macro(commands) => CommandView::Macro(executed_all(commands)),
            _ => self,
        }
    }

    /// What the devices say when the command is taken back.
    pub open spec fn undo_text(self) -> Seq<char>
        decreases self, 1int,
    {
        match self {
            CommandView::LightOn(light) => light_off_text(light),
            CommandView::LightOff(light) => light_on_text(light),
            CommandView::No => Seq::empty(),
            CommandView::StereoOnWithCd(stereo) => stereo.off_text(),
            CommandView::StereoOff(stereo) => stereo.play_text(),
            CommandView::Macro(commands) => undo_texts(commands),
        }
    }

    /// The command after it was taken back: a stereo that was switched off
    /// plays again.
    pub open spec fn undone(self) -> CommandView
        decreases self, 1int,
    {
        match self {
            CommandView::StereoOff(stereo) => CommandView::StereoOff(stereo.playing()),
            CommandView::Macro(commands) => CommandView::Macro(undone_all(commands)),
            _ => self,
        }
    }
}

/// Switches a light on; taken back, it switches the light off.
pub struct LightOnCommand {
    pub light: Light,
}

impl View for LightOnCommand {
    type V = CommandView;

    open spec fn view(&self) -> CommandView {
        CommandView::LightOn(self.light@)
    }
}

impl LightOnCommand {
    pub fn execute(&mut self) -> (said: String)
        ensures
            said@ == old(self)@.execute_text(),
            final(self)@ == old(self)@.executed(),
    {
        self.light.on()
    }

    pub fn undo(&mut self) -> (said: String)
        ensures
            said@ == old(self)@.undo_text(),
            final(self)@ == old(self)@.undone(),
    {
        self.light.off()
    }

    pub fn name(&self) -> (name: String)
        ensures
            name@ == self@.name(),
    {
        String::from_str("LightOnCommand")
    }
}

impl Clone for LightOnCommand {
    fn clone(&self) -> (copy: Self)
        ensures
            copy@ == self@,
    {
        LightOnCommand { light: self.light.clone() }
    }
}

/// Switches a light off; taken back, it switches the light on.
pub struct LightOffCommand {
    pub light: Light,
}

impl View for LightOffCommand {
    type V = CommandView;

    open spec fn view(&self) -> CommandView {
        CommandView::LightOff(self.light@)
    }
}

impl LightOffCommand {
    pub fn execute(&mut self) -> (said: String)
        ensures
            said@ == old(self)@.execute_text(),
            final(self)@ == old(self)@.executed(),
    {
        self.light.off()
    }

    pub fn undo(&mut self) -> (said: String)
        ensures
            said@ == old(self)@.undo_text(),
            final(self)@ == old(self)@.undone(),
    {
        self.light.on()
    }

    pub fn name(&self) -> (name: String)
        ensures
            name@ == self@.name(),
    {
        String::from_str("LightOffCommand")
    }
}

impl Clone for LightOffCommand {
    fn clone(&self) -> (copy: Self)
        ensures
            copy@ == self@,
    {
        LightOffCommand { light: self.light.clone() }
    }
}

/// Does nothing, and takes nothing back.
#[derive(Clone, Copy)]
pub struct NoCommand;

impl View for NoCommand {
    type V = CommandView;

    open spec fn view(&self) -> CommandView {
        CommandView::No
    }
}

impl NoCommand {
    pub fn execute(&mut self) -> (said: String)
        ensures
            said@ == old(self)@.execute_text(),
            final(self)@ == old(self)@.executed(),
    {
        String::new()
    }

    pub fn undo(&mut self) -> (said: String)
        ensures
            said@ == old(self)@.undo_text(),
            final(self)@ == old(self)@.undone(),
    {
        String::new()
    }

    pub fn name(&self) -> (name: String)
        ensures
            name@ == self@.name(),
    {
        String::from_str("NoCommand")
    }
}

/// Makes a stereo play a disc; taken back, it switches the stereo off.
pub struct StereoOnWithCdCommand {
    pub stereo: Stereo,
}

impl View for StereoOnWithCdCommand {
    type V = CommandView;

    open spec fn view(&self) -> CommandView {
        CommandView::StereoOnWithCd(self.stereo@)
    }
}

impl StereoOnWithCdCommand {
    pub fn execute(&mut self) -> (said: String)
        ensures
            said@ == old(self)@.execute_text(),
            final(self)@ == old(self)@.executed(),
    {
        self.stereo.play()
    }

    pub fn undo(&mut self) -> (said: String)
        ensures
            said@ == old(self)@.undo_text(),
            final(self)@ == old(self)@.undone(),
    {
        self.stereo.off()
    }

    pub fn name(&self) -> (name: String)
        ensures
            name@ == self@.name(),
    {
        String::from_str("StereoOnWithCdCommand")
    }
}

impl Clone for StereoOnWithCdCommand {
    fn clone(&self) -> (copy: Self)
        ensures
            copy@ == self@,
    {
        StereoOnWithCdCommand { stereo: self.stereo.clone() }
    }
}

/// Switches a stereo off; taken back, it makes the stereo play again.
pub struct StereoOffCommand {
    pub stereo: Stereo,
}

impl View for StereoOffCommand {
    type V = CommandView;

    open spec fn view(&self) -> CommandView {
        CommandView::StereoOff(self.stereo@)
    }
}

impl StereoOffCommand {
    pub fn execute(&mut self) -> (said: String)
        ensures
            said@ == old(self)@.execute_text(),
            final(self)@ == old(self)@.executed(),
    {
        self.stereo.off()
    }

    pub fn undo(&mut self) -> (said: String)
        ensures
            said@ == old(self)@.undo_text(),
            final(self)@ == old(self)@.undone(),
    {
        self.stereo.play()
    }

    pub fn name(&self) -> (name: String)
        ensures
            name@ == self@.name(),
    {
        String::from_str("StereoOffCommand")
    }
}

impl Clone for StereoOffCommand {
    fn clone(&self) -> (copy: Self)
        ensures
            copy@ == self@,
    {
        StereoOffCommand { stereo: self.stereo.clone() }
    }
}

/// Runs a list of commands, first to last.
pub struct MacroCommand {
    pub commands: Vec<Command>,
}

/// Any command that a slot of the remote control can hold.
pub enum Command {
    LightOn(LightOnCommand),
    LightOff(LightOffCommand),
    No(NoCommand),
    StereoOnWithCd(StereoOnWithCdCommand),
    StereoOff(StereoOffCommand),
    Macro(MacroCommand),
}

/// The views of a list of commands.
pub open spec fn views(commands: Seq<Command>) -> Seq<CommandView>
    decreases commands, 0int,
{
    if commands.len() == 0 {
        Seq::empty()
    } else {
        views(commands.drop_last()).push(commands.last()@)
    }
}

impl View for MacroCommand {
    type V = CommandView;

    open spec fn view(&self) -> CommandView
        decreases self, 1int,
    {
        CommandView::Macro(views(self.commands@))
    }
}

impl View for Command {
    type V = CommandView;

    open spec fn view(&self) -> CommandView
        decreases self, 2int,
    {
        match self {
            Command::LightOn(command) => command@,
            Command::LightOff(command) => command@,
            Command::No(command) => command@,
            Command::StereoOnWithCd(command) => command@,
            Command::StereoOff(command) => command@,
            Command::Macro(command) => command@,
        }
    }
}

/// The views of a list of commands, one by one.
pub proof fn lemma_views(commands: Seq<Command>)
    ensures
        views(commands).len() == commands.len(),
        forall|i: int| 0 <= i < commands.len() ==> (#[trigger] views(commands)[i]) == commands[i]@,
    decreases commands.len(),
{
    if commands.len() > 0 {
        lemma_views(commands.drop_last());
        assert(views(commands) == views(commands.drop_last()).push(commands.last()@));
    } else {
        assert(views(commands) == Seq::<CommandView>::empty());
    }
}

/// A list of commands after each was executed, one by one.
pub proof fn lemma_executed_all(commands: Seq<CommandView>)
    ensures
        executed_all(commands).len() == commands.len(),
        forall|i: int|
            0 <= i < commands.len() ==> (#[trigger] executed_all(commands)[i])
                == commands[i].executed(),
    decreases commands.len(),
{
    if commands.len() > 0 {
        lemma_executed_all(commands.drop_last());
        assert(executed_all(commands) == executed_all(commands.drop_last()).push(
            commands.last().executed(),
        ));
    } else {
        assert(executed_all(commands) == Seq::<CommandView>::empty());
    }
}

/// A list of commands after each was undone, one by one.
pub proof fn lemma_undone_all(commands: Seq<CommandView>)
    ensures
        undone_all(commands).len() == commands.len(),
        forall|i: int|
            0 <= i < commands.len() ==> (#[trigger] undone_all(commands)[i])
                == commands[i].undone(),
    decreases commands.len(),
{
    if commands.len() > 0 {
        lemma_undone_all(commands.drop_last());
        assert(undone_all(commands) == undone_all(commands.drop_last()).push(
            commands.last().undone(),
        ));
    } else {
        assert(undone_all(commands) == Seq::<CommandView>::empty());
    }
}

impl MacroCommand {
    pub fn execute(&mut self) -> (said: String)
        ensures
            said@ == old(self)@.execute_text(),
            final(self)@ == old(self)@.executed(),
        decreases old(self)@, 0int,
    {
        let ghost before = views(self.commands@);
        proof {
            lemma_views(self.commands@);
        }
        let mut said = String::new();
        let mut i: usize = 0;
        while i < self.commands.len()
            invariant
                i <= self.commands.len(),
                self.commands.len() == before.len(),
                old(self)@ == CommandView::Macro(before),
                said@ == execute_texts(before.take(i as int)),
                forall|j: int| 0 <= j < i ==> (#[trigger] self.commands[j])@ == before[j].executed(),
                forall|j: int| i <= j < before.len() ==> (#[trigger] self.commands[j])@ == before[j],
            decreases self.commands.len() - i,
        {
            proof {
                assert(before.take(i + 1).drop_last() =~= before.take(i as int));
                assert(before.take(i + 1).last() == before[i as int]);
                assert(decreases_to!(old(self)@ => old(self)@->Macro_0));
                assert(decreases_to!(old(self)@->Macro_0 => old(self)@->Macro_0[i as int]));
            }
            let text = self.commands[i].execute();
            said.append(text.as_str());
            i = i + 1;
        }
        proof {
            assert(before.take(i as int) =~= before);
            lemma_views(self.commands@);
            lemma_executed_all(before);
            assert(views(self.commands@) =~= executed_all(before));
        }
        said
    }

    pub fn undo(&mut self) -> (said: String)
        ensures
            said@ == old(self)@.undo_text(),
            final(self)@ == old(self)@.undone(),
        decreases old(self)@, 0int,
    {
        let ghost before = views(self.commands@);
        proof {
            lemma_views(self.commands@);
        }
        let mut said = String::new();
        let mut i: usize = 0;
        while i < self.commands.len()
            invariant
                i <= self.commands.len(),
                self.commands.len() == before.len(),
                old(self)@ == CommandView::Macro(before),
                said@ == undo_texts(before.take(i as int)),
                forall|j: int| 0 <= j < i ==> (#[trigger] self.commands[j])@ == before[j].undone(),
                forall|j: int| i <= j < before.len() ==> (#[trigger] self.commands[j])@ == before[j],
            decreases self.commands.len() - i,
        {
            proof {
                assert(before.take(i + 1).drop_last() =~= before.take(i as int));
                assert(before.take(i + 1).last() == before[i as int]);
                assert(decreases_to!(old(self)@ => old(self)@->Macro_0));
                assert(decreases_to!(old(self)@->Macro_0 => old(self)@->Macro_0[i as int]));
            }
            let text = self.commands[i].undo();
            said.append(text.as_str());
            i = i + 1;
        }
        proof {
            assert(before.take(i as int) =~= before);
            lemma_views(self.commands@);
            lemma_undone_all(before);
            assert(views(self.commands@) =~= undone_all(before));
        }
        said
    }

    pub fn name(&self) -> (name: String)
        ensures
            name@ == self@.name(),
    {
        String::from_str("MacroCommand")
    }
}

impl Command {
    /// Does what the command stands for. The result is what the devices said.
    pub fn execute(&mut self) -> (said: String)
        ensures
            said@ == old(self)@.execute_text(),
            final(self)@ == old(self)@.executed(),
        decreases old(self)@, 1int,
    {
        match self {
            Command::LightOn(command) => command.execute(),
            Command::LightOff(command) => command.execute(),
            Command::No(command) => command.execute(),
            Command::StereoOnWithCd(command) => command.execute(),
            Command::StereoOff(command) => command.execute(),
            Command::Macro(command) => command.execute(),
        }
    }

    /// Takes back what the command did. The result is what the devices said.
    pub fn undo(&mut self) -> (said: String)
        ensures
            said@ == old(self)@.undo_text(),
            final(self)@ == old(self)@.undone(),
        decreases old(self)@, 1int,
    {
        match self {
            Command::LightOn(command) => command.undo(),
            Command::LightOff(command) => command.undo(),
            Command::No(command) => command.undo(),
            Command::StereoOnWithCd(command) => command.undo(),
            Command::StereoOff(command) => command.undo(),
            Command::Macro(command) => command.undo(),
        }
    }

    /// The name under which the command is listed.
    pub fn name(&self) -> (name: String)
        ensures
            name@ == self@.name(),
    {
        match self {
            Command::LightOn(command) => command.name(),
            Command::LightOff(command) => command.name(),
            Command::No(command) => command.name(),
            Command::StereoOnWithCd(command) => command.name(),
            Command::StereoOff(command) => command.name(),
            Command::Macro(command) => command.name(),
        }
    }
}

impl Clone for MacroCommand {
    fn clone(&self) -> (copy: Self)
        ensures
            copy@ == self@,
        decreases self@, 0int,
    {
        proof {
            lemma_views(self.commands@);
        }
        let mut commands: Vec<Command> = Vec::new();
        let mut i: usize = 0;
        while i < self.commands.len()
            invariant
                i <= self.commands.len(),
                commands.len() == i,
                forall|j: int| 0 <= j < i ==> (#[trigger] commands[j])@ == self.commands[j]@,
            decreases self.commands.len() - i,
        {
            proof {
                lemma_views(self.commands@);
                assert(decreases_to!(self@ => self@->Macro_0));
                assert(decreases_to!(self@->Macro_0 => self@->Macro_0[i as int]));
            }
            let command = self.commands[i].clone();
            commands.push(command);
            i = i + 1;
        }
        proof {
            lemma_views(self.commands@);
            lemma_views(commands@);
            assert(views(commands@) =~= views(self.commands@));
        }
        MacroCommand { commands }
    }
}

impl Clone for Command {
    fn clone(&self) -> (copy: Self)
        ensures
            copy@ == self@,
        decreases self@, 1int,
    {
        match self {
            Command::LightOn(command) => Command::LightOn(command.clone()),
            Command::LightOff(command) => Command::LightOff(command.clone()),
            Command::No(command) => Command::No(NoCommand {  }),
            Command::StereoOnWithCd(command) => Command::StereoOnWithCd(command.clone()),
            Command::StereoOff(command) => Command::StereoOff(command.clone()),
            Command::Macro(command) => Command::Macro(command.clone()),
        }
    }
}

/// The number of slots on the remote control.
pub const SLOTS: usize = 7;

/// What a remote control is, seen from outside: the commands behind its on
/// buttons and its off buttons, slot by slot, and the command that the undo
/// button takes back.
pub struct RemoteView {
    pub on: Seq<CommandView>,
    pub off: Seq<CommandView>,
    pub undo: CommandView,
}

/// The line that lists one slot.
pub open spec fn slot_text(slot: nat, on: CommandView, off: CommandView) -> Seq<char> {
    "[slot "@ + decimal(slot) + "] "@ + on.name() + "    "@ + off.name() + "\n"@
}

/// The lines that list the first `slots` slots.
pub open spec fn slots_text(on: Seq<CommandView>, off: Seq<CommandView>, slots: nat) -> Seq<char>
    decreases slots,
{
    if slots == 0 {
        Seq::empty()
    } else {
        slots_text(on, off, (slots - 1) as nat) + slot_text(
            (slots - 1) as nat,
            on[slots - 1],
            off[slots - 1],
        )
    }
}

impl RemoteView {
    /// A remote control has a command behind every button.
    pub open spec fn wf(self) -> bool {
        self.on.len() == SLOTS && self.off.len() == SLOTS
    }

    /// The remote control with other commands in one slot.
    pub open spec fn with_commands(self, slot: int, on: CommandView, off: CommandView) -> RemoteView {
        RemoteView { on: self.on.update(slot, on), off: self.off.update(slot, off), undo: self.undo }
    }

    /// The remote control after the on button of a slot was pushed: the
    /// command was executed and is the one to take back.
    pub open spec fn on_pushed(self, slot: int) -> RemoteView {
        RemoteView {
            on: self.on.update(slot, self.on[slot].executed()),
            off: self.off,
            undo: self.on[slot].executed(),
        }
    }

    /// The remote control after the off button of a slot was pushed: the
    /// command was executed and is the one to take back.
    pub open spec fn off_pushed(self, slot: int) -> RemoteView {
        RemoteView {
            on: self.on,
            off: self.off.update(slot, self.off[slot].executed()),
            undo: self.off[slot].executed(),
        }
    }

    /// The remote control after the undo button was pushed.
    pub open spec fn undo_pushed(self) -> RemoteView {
        RemoteView { on: self.on, off: self.off, undo: self.undo.undone() }
    }

    /// The listing of the remote control: an empty line, a heading, and one
    /// line for each slot.
    pub open spec fn text(self) -> Seq<char> {
        "\n------ Remote Control ------\n"@ + slots_text(self.on, self.off, self.on.len())
    }
}

/// The remote control: seven slots with an on and an off button each, and one
/// undo button.
pub struct RemoteControl {
    on_commands: Vec<Command>,
    off_commands: Vec<Command>,
    undo_command: Command,
}

impl View for RemoteControl {
    type V = RemoteView;

    closed spec fn view(&self) -> RemoteView {
        RemoteView {
            on: views(self.on_commands@),
            off: views(self.off_commands@),
            undo: self.undo_command@,
        }
    }
}

impl RemoteControl {
    /// A remote control with nothing behind its buttons.
    pub fn new() -> (remote: Self)
        ensures
            remote@.wf(),
            remote@.undo == CommandView::No,
            forall|slot: int|
                0 <= slot < SLOTS ==> remote@.on[slot] == CommandView::No && remote@.off[slot]
                    == CommandView::No,
    {
        let mut on_commands: Vec<Command> = Vec::with_capacity(SLOTS);
        let mut off_commands: Vec<Command> = Vec::with_capacity(SLOTS);
        let mut i: usize = 0;
        while i < SLOTS
            invariant
                i <= SLOTS,
                on_commands.len() == i,
                off_commands.len() == i,
                forall|j: int| 0 <= j < i ==> (#[trigger] on_commands[j])@ == CommandView::No,
                forall|j: int| 0 <= j < i ==> (#[trigger] off_commands[j])@ == CommandView::No,
            decreases SLOTS - i,
        {
            on_commands.push(Command::No(NoCommand {  }));
            off_commands.push(Command::No(NoCommand {  }));
            i = i + 1;
        }
        proof {
            lemma_views(on_commands@);
            lemma_views(off_commands@);
        }
        RemoteControl { on_commands, off_commands, undo_command: Command::No(NoCommand {  }) }
    }

    /// Puts a pair of commands behind the buttons of a slot.
    pub fn set_command(&mut self, slot: usize, on_command: Command, off_command: Command)
        requires
            old(self)@.wf(),
            slot < SLOTS,
        ensures
            final(self)@.wf(),
            final(self)@ == old(self)@.with_commands(slot as int, on_command@, off_command@),
    {
        proof {
            lemma_views(self.on_commands@);
            lemma_views(self.off_commands@);
        }
        self.on_commands[slot] = on_command;
        self.off_commands[slot] = off_command;
        proof {
            lemma_views(self.on_commands@);
            lemma_views(self.off_commands@);
            assert(views(self.on_commands@) =~= views(old(self).on_commands@).update(
                slot as int,
                on_command@,
            ));
            assert(views(self.off_commands@) =~= views(old(self).off_commands@).update(
                slot as int,
                off_command@,
            ));
        }
    }

    /// Pushes the on button of a slot: its command is executed and kept as
    /// the one to take back.
    pub fn on_button_was_pushed(&mut self, slot: usize) -> (said: String)
        requires
            old(self)@.wf(),
            slot < SLOTS,
        ensures
            final(self)@.wf(),
            said@ == old(self)@.on[slot as int].execute_text(),
            final(self)@ == old(self)@.on_pushed(slot as int),
    {
        proof {
            lemma_views(self.on_commands@);
        }
        let said = self.on_commands[slot].execute();
        self.undo_command = self.on_commands[slot].clone();
        proof {
            lemma_views(self.on_commands@);
            assert(views(self.on_commands@) =~= views(old(self).on_commands@).update(
                slot as int,
                old(self)@.on[slot as int].executed(),
            ));
        }
        said
    }

    /// Pushes the off button of a slot: its command is executed and kept as
    /// the one to take back.
    pub fn off_button_was_pushed(&mut self, slot: usize) -> (said: String)
        requires
            old(self)@.wf(),
            slot < SLOTS,
        ensures
            final(self)@.wf(),
            said@ == old(self)@.off[slot as int].execute_text(),
            final(self)@ == old(self)@.off_pushed(slot as int),
    {
        proof {
            lemma_views(self.off_commands@);
        }
        let said = self.off_commands[slot].execute();
        self.undo_command = self.off_commands[slot].clone();
        proof {
            lemma_views(self.off_commands@);
            assert(views(self.off_commands@) =~= views(old(self).off_commands@).update(
                slot as int,
                old(self)@.off[slot as int].executed(),
            ));
        }
        said
    }

    /// Pushes the undo button: the command that was executed last is taken
    /// back.
    pub fn undo_button_was_pushed(&mut self) -> (said: String)
        ensures
            said@ == old(self)@.undo.undo_text(),
            final(self)@ == old(self)@.undo_pushed(),
    {
        self.undo_command.undo()
    }

    /// The listing of the remote control.
    pub fn to_string(&self) -> (listing: String)
        requires
            self@.wf(),
        ensures
            listing@ == self@.text(),
    {
        proof {
            lemma_views(self.on_commands@);
            lemma_views(self.off_commands@);
        }
        let mut listing = String::from_str("\n------ Remote Control ------\n");
        let ghost head = listing@;
        let len = self.on_commands.len();
        let mut i: usize = 0;
        while i < len
            invariant
                i <= len,
                len == self.on_commands.len(),
                len == self.off_commands.len(),
                listing@ == head + slots_text(self@.on, self@.off, i as nat),
                self@.on == views(self.on_commands@),
                self@.off == views(self.off_commands@),
            decreases len - i,
        {
            proof {
                lemma_views(self.on_commands@);
                lemma_views(self.off_commands@);
            }
            listing.append("[slot ");
            listing.append(decimal_string(i).as_str());
            listing.append("] ");
            listing.append(self.on_commands[i].name().as_str());
            listing.append("    ");
            listing.append(self.off_commands[i].name().as_str());
            listing.append("\n");
            i = i + 1;
        }
        listing
    }
}

} // verus!
