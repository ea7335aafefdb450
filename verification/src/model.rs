//! The state of the crate information page and the messages it reacts to.

use vstd::prelude::*;
use crate::flow::ControlFlow;
use crate::flow::Model;
use crate::runtime::apply_all;

verus! {

/// The tabs of a crate's page.
#[derive(Clone, Copy, Debug, PartialEq, Eq, Structural)]
pub enum Tab {
    Readme,
    Versions,
    Dependencies,
    Dependents,
}

impl Default for Tab {
    fn default() -> (tab: Tab)
        ensures
            tab == Tab::Readme,
    {
        Tab::Readme
    }
}

/// A message for the crate screen.
#[derive(Clone, Copy, Debug, PartialEq, Eq)]
pub enum CrateMessage {
    /// Show this tab.
    Tab(Tab),
    /// Select the version at this index.
    SelectVersion { idx: usize },
}

/// A published version of a crate.
#[derive(Clone, Debug, PartialEq, Eq)]
pub struct Version {
    pub name: String,
}

impl View for Version {
    type V = Seq<char>;

    open spec fn view(&self) -> Seq<char> {
        self.name@
    }
}

/// The names of a list of versions, in order.
pub open spec fn version_names(versions: Seq<Version>) -> Seq<Seq<char>> {
    Seq::new(versions.len(), |i: int| versions[i]@)
}

/// The mathematical value of a crate screen.
pub struct CrateScreenSpec {
    pub tab: Tab,
    pub name: Seq<char>,
    pub versions: Seq<Seq<char>>,
    pub version_idx: nat,
    pub license: Seq<char>,
    pub repository: Seq<char>,
}

/// The page of one crate: its data, the active tab and the selected version.
#[derive(Clone, Debug, PartialEq, Eq)]
pub struct CrateScreen {
    pub tab: Tab,
    pub name: String,
    pub versions: Vec<Version>,
    pub version_idx: usize,
    pub license: String,
    pub repository: String,
}

impl View for CrateScreen {
    type V = CrateScreenSpec;

    open spec fn view(&self) -> CrateScreenSpec {
        CrateScreenSpec {
            tab: self.tab,
            name: self.name@,
            versions: version_names(self.versions@),
            version_idx: self.version_idx as nat,
            license: self.license@,
            repository: self.repository@,
        }
    }
}

/// The crate screen that the page starts with.
pub open spec fn initial_crate_screen() -> CrateScreenSpec {
    CrateScreenSpec {
        tab: Tab::Readme,
        name: "viewbuilder"@,
        versions: seq!["v0.10.0"@, "v0.9.0"@],
        version_idx: 0,
        license: "MIT or Apache-2.0"@,
        repository: "https://github.com/matthunz/viewbuilder"@,
    }
}

impl Default for CrateScreen {
    fn default() -> (screen: CrateScreen)
        ensures
            screen@ == initial_crate_screen(),
    {
        let mut versions = Vec::new();
        versions.push(Version { name: String::from_str("v0.10.0") });
        versions.push(Version { name: String::from_str("v0.9.0") });
        let screen = CrateScreen {
            tab: Tab::Readme,
            name: String::from_str("viewbuilder"),
            versions,
            version_idx: 0,
            license: String::from_str("MIT or Apache-2.0"),
            repository: String::from_str("https://github.com/matthunz/viewbuilder"),
        };
        assert(screen@.versions =~= initial_crate_screen().versions);
        screen
    }
}

/// The mathematical value of a screen.
pub enum ScreenSpec {
    Home,
    Crate(CrateScreenSpec),
}

/// The screen the application shows.
#[derive(Clone, Debug, PartialEq, Eq)]
pub enum Screen {
    Home,
    Crate(CrateScreen),
}

impl View for Screen {
    type V = ScreenSpec;

    open spec fn view(&self) -> ScreenSpec {
        match self {
            Screen::Home => ScreenSpec::Home,
            Screen::Crate(krate) => ScreenSpec::Crate(krate@),
        }
    }
}

impl Default for Screen {
    fn default() -> (screen: Screen)
        ensures
            screen@ == ScreenSpec::Home,
    {
        Screen::Home
    }
}

/// The mathematical value of a message.
pub enum MessageSpec {
    Crate(CrateMessage),
    Screen(ScreenSpec),
}

/// A message for the application.
#[derive(Clone, Debug, PartialEq, Eq)]
pub enum Message {
    /// For the crate screen; it has no effect on another screen.
    Crate(CrateMessage),
    /// Show this screen.
    Screen(Screen),
}

impl View for Message {
    type V = MessageSpec;

    open spec fn view(&self) -> MessageSpec {
        match self {
            Message::Crate(msg) => MessageSpec::Crate(*msg),
            Message::Screen(screen) => MessageSpec::Screen(screen@),
        }
    }
}

/// The application state.
#[derive(Clone, Debug, PartialEq, Eq)]
pub struct App {
    pub screen: Screen,
}

impl View for App {
    type V = ScreenSpec;

    open spec fn view(&self) -> ScreenSpec {
        self.screen@
    }
}

impl Default for App {
    fn default() -> (app: App)
        ensures
            app@ == ScreenSpec::Home,
    {
        App { screen: Screen::Home }
    }
}

/// The crate screen after a message for it.
pub open spec fn crate_transition(krate: CrateScreenSpec, msg: CrateMessage) -> CrateScreenSpec {
    match msg {
        CrateMessage::Tab(tab) => CrateScreenSpec { tab, ..krate },
        CrateMessage::SelectVersion { idx } => CrateScreenSpec {
            version_idx: idx as nat,
            tab: Tab::Readme,
            ..krate
        },
    }
}

/// The screen after a message.
pub open spec fn transition(screen: ScreenSpec, msg: MessageSpec) -> ScreenSpec {
    match msg {
        MessageSpec::Crate(crate_msg) => match screen {
            ScreenSpec::Crate(krate) => ScreenSpec::Crate(crate_transition(krate, crate_msg)),
            ScreenSpec::Home => ScreenSpec::Home,
        },
        MessageSpec::Screen(next) => next,
    }
}

/// The screen after a sequence of messages, first to last.
pub open spec fn transitions(screen: ScreenSpec, msgs: Seq<MessageSpec>) -> ScreenSpec
    decreases msgs.len(),
{
    if msgs.len() == 0 {
        screen
    } else {
        transition(transitions(screen, msgs.drop_last()), msgs.last())
    }
}

/// The values of a sequence of messages, in order.
pub open spec fn messages_view(msgs: Seq<Message>) -> Seq<MessageSpec> {
    Seq::new(msgs.len(), |i: int| msgs[i]@)
}

/// The transition of the state is the transition of its value: what a
/// message does depends on the value of the state and of the message alone.
pub proof fn law_next_is_transition(app: App, msg: Message)
    ensures
        app.next(msg)@ == transition(app@, msg@),
        app.signal(msg) == ControlFlow::Rebuild,
{
    match msg {
        Message::Crate(crate_msg) => match app.screen {
            Screen::Crate(krate) => {
                assert(app.next(msg).screen->Crate_0@.versions =~= krate@.versions);
            },
            Screen::Home => {},
        },
        Message::Screen(screen) => {},
    }
}

/// Every sequence of messages has an outcome, from every state: the state
/// it leaves is the one that the transitions give, one message after the
/// other.
pub proof fn law_every_sequence_has_an_outcome(app: App, msgs: Seq<Message>)
    ensures
        apply_all(app, msgs)@ == transitions(app@, messages_view(msgs)),
    decreases msgs.len(),
{
    if msgs.len() > 0 {
        law_every_sequence_has_an_outcome(app, msgs.drop_last());
        law_next_is_transition(apply_all(app, msgs.drop_last()), msgs.last());
        assert(messages_view(msgs).drop_last() =~= messages_view(msgs.drop_last()));
    }
}

impl Model<Message> for App {
    open spec fn next(self, msg: Message) -> App {
        match msg {
            Message::Crate(crate_msg) => match self.screen {
                Screen::Crate(krate) => App {
                    screen: Screen::Crate(
                        match crate_msg {
                            CrateMessage::Tab(tab) => CrateScreen { tab, ..krate },
                            CrateMessage::SelectVersion { idx } => CrateScreen {
                                version_idx: idx,
                                tab: Tab::Readme,
                                ..krate
                            },
                        },
                    ),
                },
                Screen::Home => self,
            },
            Message::Screen(screen) => App { screen },
        }
    }

    open spec fn signal(self, msg: Message) -> ControlFlow {
        ControlFlow::Rebuild
    }

    /// Applies `msg`: a screen message replaces the screen; a crate message
    /// changes the crate screen and has no effect on the home screen. Every
    /// message asks for a rebuild.
    fn handle(&mut self, msg: Message) -> (flow: ControlFlow)
        ensures
            final(self)@ == transition(old(self)@, msg@),
            flow == ControlFlow::Rebuild,
    {
        match msg {
            Message::Crate(crate_msg) => {
                if let Screen::Crate(ref mut krate) = self.screen {
                    match crate_msg {
                        CrateMessage::Tab(tab) => krate.tab = tab,
                        CrateMessage::SelectVersion { idx } => {
                            krate.version_idx = idx;
                            krate.tab = Tab::Readme;
                        },
                    }
                }
            },
            Message::Screen(screen) => self.screen = screen,
        }
        ControlFlow::Rebuild
    }
}

} // verus!
