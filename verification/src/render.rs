//! The render command surface: what the core asks of the rendering
//! collaborator. The core never draws; it names elements and says what is to
//! happen to them.

use crate::launcher::LauncherEntry;
use crate::layout::GridCell;
use crate::network::NetworkStatus;
use crate::notification::Notification;
use crate::power::BatteryReading;
use vstd::prelude::*;

verus! {

/// The visual elements that the core speaks of.
#[derive(Clone, Copy, Debug, PartialEq, Eq, Structural)]
pub enum Element {
    /// The on-screen display, which shows itself for a while after a change
    /// of volume, brightness or microphone state.
    Osd,
    /// The level bar inside the on-screen display.
    LevelBar,
    /// The indicator of a muted microphone.
    MicIcon,
    /// The banner in which a notification arrives.
    Banner,
    /// The list of launcher icons.
    Launcher,
    /// The list of status icons.
    StatusIcons,
    /// The desktop grid.
    Desktop,
}

/// The style tags that the core sets.
#[derive(Clone, Copy, Debug, PartialEq, Eq, Structural)]
pub enum StyleTag {
    /// The level bar shows the volume.
    Volume,
    /// The level bar shows a muted sink.
    Muted,
    /// The level bar shows the brightness.
    Brightness,
}

impl StyleTag {
    /// The name of the tag in the stylesheet.
    pub open spec fn name_spec(self) -> Seq<char> {
        match self {
            StyleTag::Volume => "vol"@,
            StyleTag::Muted => "muted"@,
            StyleTag::Brightness => "blight"@,
        }
    }

    /// The name of the tag in the stylesheet.
    pub fn name(&self) -> (name: &'static str)
        ensures
            name@ == self.name_spec(),
    {
        match self {
            StyleTag::Volume => "vol",
            StyleTag::Muted => "muted",
            StyleTag::Brightness => "blight",
        }
    }
}

/// What can be attached to an element.
#[derive(Clone, Debug, PartialEq, Eq)]
pub enum Content {
    /// A launcher icon.
    LauncherIcon(LauncherEntry),
    /// The neutral element that stands for an empty launcher.
    Placeholder,
    /// A notification.
    Notification(Notification),
    /// The status icon of the network.
    Network(NetworkStatus),
    /// The status icon of the battery.
    Battery(BatteryReading),
    /// A cell of the desktop grid.
    Cell(GridCell),
}

/// One command to the rendering collaborator.
#[derive(Clone, Debug, PartialEq, Eq)]
pub enum RenderCommand {
    SetVisible(Element, bool),
    SetValue(Element, u8),
    SetWidth(Element, i32),
    AttachChild(Element, Content),
    DetachAll(Element),
    SetClass(Element, StyleTag),
}

/// What the reducer asks of its surroundings in answer to an input.
#[derive(Clone, Debug, PartialEq, Eq)]
pub enum Action {
    /// A command to the rendering collaborator.
    Render(RenderCommand),
    /// The natural width of this notification, rendered, is wanted. It is
    /// handed back before any other input.
    Measure(Notification),
    /// The cue that tells of an arrival is to be given, once.
    Cue,
}

impl Content {
    /// A copy of this content.
    pub fn duplicate(&self) -> (content: Self)
        ensures
            content == *self,
    {
        match self {
            Content::LauncherIcon(entry) => Content::LauncherIcon(entry.duplicate()),
            Content::Placeholder => Content::Placeholder,
            Content::Notification(n) => Content::Notification(n.duplicate()),
            Content::Network(status) => Content::Network(status.duplicate()),
            Content::Battery(reading) => Content::Battery(*reading),
            Content::Cell(cell) => Content::Cell(cell.duplicate()),
        }
    }
}

/// The command that attaches `content` to `element`.
pub open spec fn attach_to(element: Element, content: Content) -> Action {
    Action::Render(RenderCommand::AttachChild(element, content))
}

/// The commands that attach each of `contents` to `element`, in order.
pub open spec fn attach_all(element: Element, contents: Seq<Content>) -> Seq<Action> {
    contents.map_values(|c: Content| attach_to(element, c))
}

/// The commands that empty `element` and then attach each of `contents` to
/// it, in order.
pub open spec fn refill(element: Element, contents: Seq<Content>) -> Seq<Action> {
    seq![Action::Render(RenderCommand::DetachAll(element))] + attach_all(element, contents)
}

/// Computes [`attach_all`].
pub fn attach_each(element: Element, contents: &Vec<Content>) -> (actions: Vec<Action>)
    ensures
        actions@ == attach_all(element, contents@),
{
    let mut actions: Vec<Action> = Vec::new();
    let mut i: usize = 0;
    while i < contents.len()
        invariant
            i <= contents.len(),
            actions@ == attach_all(element, contents@.take(i as int)),
        decreases contents.len() - i,
    {
        assert(attach_all(element, contents@.take(i + 1)) == attach_all(
            element,
            contents@.take(i as int),
        ).push(attach_to(element, contents@[i as int])));
        actions.push(Action::Render(RenderCommand::AttachChild(element, contents[i].duplicate())));
        i += 1;
    }
    assert(contents@.take(contents@.len() as int) == contents@);
    actions
}

/// Computes [`refill`].
pub fn refill_with(element: Element, contents: &Vec<Content>) -> (actions: Vec<Action>)
    ensures
        actions@ == refill(element, contents@),
{
    let mut actions: Vec<Action> = Vec::new();
    actions.push(Action::Render(RenderCommand::DetachAll(element)));
    let mut rest = attach_each(element, contents);
    actions.append(&mut rest);
    actions
}

} // verus!
