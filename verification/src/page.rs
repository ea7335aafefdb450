//! The view functions of the crate information page: each one is a function
//! of the state it is given and builds the tree for that state.

use vstd::prelude::*;
use crate::fault::Fault;
use crate::model::App;
use crate::model::CrateMessage;
use crate::model::CrateScreen;
use crate::model::CrateScreenSpec;
use crate::model::Message;
use crate::model::MessageSpec;
use crate::model::Screen;
use crate::model::ScreenSpec;
use crate::model::Tab;
use crate::model::Version;
use crate::model::initial_crate_screen;
use crate::model::transition;
use crate::model::version_names;
use crate::node::Attributes;
use crate::node::AttrSpec;
use crate::node::Node;
use crate::node::NodeSpec;
use crate::node::Render;
use crate::node::class;
use crate::node::element;
use crate::node::keyed_view;
use crate::node::nodes_view;
use crate::node::on_click;
use crate::node::text;
use crate::one_of::OneOf2;
use crate::one_of::OneOf4;

verus! {

/// A tree over the page's messages.
pub type Tree = NodeSpec<MessageSpec>;

/// An element of the page.
pub open spec fn el(
    tag: Seq<char>,
    attrs: Seq<AttrSpec<MessageSpec>>,
    children: Seq<Tree>,
) -> Tree {
    NodeSpec::Element { tag, attrs, children }
}

/// The tab label `name` for `tab`: marked as selected when `tab` is the
/// active one, and bound to the message that activates it.
pub open spec fn tab_item(name: Seq<char>, tab: Tab, selected: Tab) -> Tree {
    let binding = AttrSpec::OnClick(MessageSpec::Crate(CrateMessage::Tab(tab)));
    el(
        "li"@,
        if tab == selected {
            seq![AttrSpec::Class("selected"@), binding]
        } else {
            seq![binding]
        },
        seq![el("a"@, seq![], seq![NodeSpec::Text(name)])],
    )
}

/// A labelled entry of the sidebar.
pub open spec fn info_item(label: Seq<char>, content: Seq<Tree>) -> Tree {
    el(
        "li"@,
        seq![AttrSpec::Class("info"@)],
        seq![el("label"@, seq![], seq![NodeSpec::Text(label)])] + content,
    )
}

/// A command line of the sidebar.
pub open spec fn command_item(command: Seq<char>) -> Tree {
    el("li"@, seq![AttrSpec::Class("command"@)], seq![NodeSpec::Text(command)])
}

/// The entry of the version list for the version `name` at index `idx`:
/// its name, bound to the message that selects it, and its download count.
pub open spec fn version_item(idx: int, name: Seq<char>) -> Tree {
    el(
        "li"@,
        seq![AttrSpec::Class("version"@)],
        seq![
            el(
                "a"@,
                seq![
                    AttrSpec::Class("name"@),
                    AttrSpec::OnClick(
                        MessageSpec::Crate(CrateMessage::SelectVersion { idx: idx as usize }),
                    ),
                ],
                seq![NodeSpec::Text(name)],
            ),
            el("div"@, seq![], seq![NodeSpec::Text("12,000"@)]),
        ],
    )
}

/// The version list: one entry per version, in order, keyed by its index.
pub open spec fn versions_list(versions: Seq<Seq<char>>) -> Tree {
    el(
        "ul"@,
        seq![],
        Seq::new(
            versions.len(),
            |i: int|
                NodeSpec::Keyed { key: i as nat, node: Box::new(version_item(i, versions[i])) },
        ),
    )
}

/// The number of the alternative that shows `tab`.
pub open spec fn tab_number(tab: Tab) -> nat {
    match tab {
        Tab::Readme => 1,
        Tab::Versions => 2,
        Tab::Dependencies => 3,
        Tab::Dependents => 4,
    }
}

/// The content pane for the active tab.
pub open spec fn content_pane(model: CrateScreenSpec) -> Seq<Tree> {
    match model.tab {
        Tab::Readme => seq![NodeSpec::Text("Readme"@)],
        Tab::Versions => seq![versions_list(model.versions)],
        Tab::Dependencies => seq![NodeSpec::Text("Dependencies"@)],
        Tab::Dependents => seq![NodeSpec::Text("Dependents"@)],
    }
}

/// The bar of the four tab labels, the active one marked.
pub open spec fn tab_bar(selected: Tab) -> Tree {
    el(
        "ul"@,
        seq![AttrSpec::Class("tabs"@)],
        seq![
            tab_item("Readme"@, Tab::Readme, selected),
            tab_item("Versions"@, Tab::Versions, selected),
            tab_item("Dependencies"@, Tab::Dependencies, selected),
            tab_item("Dependents"@, Tab::Dependents, selected),
        ],
    )
}

/// A link without attributes.
pub open spec fn plain_link(label: Seq<char>) -> Tree {
    el("a"@, seq![], seq![NodeSpec::Text(label)])
}

/// The sidebar: links, install commands for the selected version, the
/// selected version and the license, and the time of the last update.
pub open spec fn sidebar(model: CrateScreenSpec) -> Tree {
    let selected = model.versions[model.version_idx as int];
    el(
        "ul"@,
        seq![AttrSpec::Class("sidebar"@)],
        seq![
            info_item("Documentation"@, seq![plain_link("url"@)]),
            info_item("Repository"@, seq![plain_link("url"@)]),
            info_item("Homepage"@, seq![plain_link("url"@)]),
            info_item(
                "Install"@,
                seq![
                    command_item("viewbuilder = "@ + selected),
                    command_item("cargo install viewbuilder"@),
                ],
            ),
            el(
                "li"@,
                seq![],
                seq![
                    el(
                        "ul"@,
                        seq![AttrSpec::Class("row"@)],
                        seq![
                            info_item("Version"@, seq![plain_link(selected)]),
                            info_item("License"@, seq![plain_link(model.license)]),
                        ],
                    ),
                ],
            ),
            info_item("Last update"@, seq![NodeSpec::Text("20 hours ago"@)]),
        ],
    )
}

/// Whether the selected version exists.
pub open spec fn selection_in_range(model: CrateScreenSpec) -> bool {
    model.version_idx < model.versions.len()
}

/// The page of a crate whose selected version exists: its name, its latest
/// version (the last of the list), the tab bar, the content pane of the
/// active tab and the sidebar.
pub open spec fn crate_page(model: CrateScreenSpec) -> Tree
    recommends
        selection_in_range(model),
{
    el(
        "div"@,
        seq![AttrSpec::Class("container"@)],
        seq![
            el("h1"@, seq![], seq![NodeSpec::Text(model.name)]),
            el(
                "h5"@,
                seq![AttrSpec::Class("latest-version"@)],
                seq![NodeSpec::Text(model.versions.last())],
            ),
            tab_bar(model.tab),
            el(
                "div"@,
                seq![AttrSpec::Class("wrap"@)],
                seq![
                    el("div"@, seq![AttrSpec::Class("content"@)], content_pane(model)),
                    sidebar(model),
                ],
            ),
        ],
    )
}

/// The fault of a crate screen whose selected version does not exist.
pub open spec fn selection_fault(model: CrateScreenSpec) -> Fault
    recommends
        !selection_in_range(model),
{
    Fault::IndexOutOfRange { index: model.version_idx as usize, len: model.versions.len() as usize }
}

/// What a render pass gives for a crate screen: its page, or the fault of
/// a selected version that does not exist.
pub open spec fn crate_outcome(model: CrateScreenSpec) -> Result<Tree, Fault> {
    if selection_in_range(model) {
        Ok(crate_page(model))
    } else {
        Err(selection_fault(model))
    }
}

/// The link that leads back to the home screen.
pub open spec fn home_link() -> Tree {
    el(
        "a"@,
        seq![AttrSpec::OnClick(MessageSpec::Screen(ScreenSpec::Home))],
        seq![NodeSpec::Text("Home"@)],
    )
}

/// The link of the home screen that opens the crate screen in its initial state.
pub open spec fn crate_link() -> Tree {
    el(
        "a"@,
        seq![AttrSpec::OnClick(MessageSpec::Screen(ScreenSpec::Crate(initial_crate_screen())))],
        seq![NodeSpec::Text("Go to crate"@)],
    )
}

/// The number of the alternative that shows `screen`.
pub open spec fn screen_number(screen: ScreenSpec) -> nat {
    match screen {
        ScreenSpec::Home => 1,
        ScreenSpec::Crate(_) => 2,
    }
}

/// What a render pass gives for a screen: the home link and then the
/// screen, or the fault of a crate screen whose selected version does not
/// exist.
pub open spec fn page_outcome(screen: ScreenSpec) -> Result<Seq<Tree>, Fault> {
    match screen {
        ScreenSpec::Home => Ok(seq![home_link(), crate_link()]),
        ScreenSpec::Crate(krate) => match crate_outcome(krate) {
            Ok(tree) => Ok(seq![home_link(), tree]),
            Err(fault) => Err(fault),
        },
    }
}

/// The value of what the view function hands back: the number of the
/// alternative that holds the screen, and the nodes of the page.
pub open spec fn page_value(
    result: Result<(Node<Message>, OneOf2<Node<Message>, Node<Message>>), Fault>,
) -> Result<(nat, Seq<Tree>), Fault> {
    match result {
        Ok(views) => Ok((views.1.tag(), views.nodes())),
        Err(fault) => Err(fault),
    }
}

/// The tab label `name` for `tab`.
pub fn view_tab(name: &'static str, tab: Tab, selected: Tab) -> (node: Node<Message>)
    ensures
        node@ == tab_item(name@, tab, selected),
{
    let attrs = (
        if tab == selected {
            Some(class("selected"))
        } else {
            None
        },
        on_click(Message::Crate(CrateMessage::Tab(tab))),
    );
    proof {
        assert(attrs.attrs() =~= tab_item(name@, tab, selected)->attrs);
    }
    element("li", attrs, element("a", (), name))
}

/// A labelled entry of the sidebar.
pub fn view_info<C: Render<Message>>(label: &'static str, content: C) -> (node: Node<Message>)
    ensures
        node@ == info_item(label@, content.nodes()),
{
    element("li", class("info"), (element("label", (), label), content))
}

/// A command line of the sidebar.
pub fn view_command(command: String) -> (node: Node<Message>)
    ensures
        node@ == command_item(command@),
{
    element("li", class("command"), command)
}

/// The content of the readme tab.
pub fn view_readme() -> (node: Node<Message>)
    ensures
        node@ == NodeSpec::<MessageSpec>::Text("Readme"@),
{
    text("Readme")
}

/// The content of the dependencies tab.
pub fn view_dependencies() -> (node: Node<Message>)
    ensures
        node@ == NodeSpec::<MessageSpec>::Text("Dependencies"@),
{
    text("Dependencies")
}

/// The content of the dependents tab.
pub fn view_dependents() -> (node: Node<Message>)
    ensures
        node@ == NodeSpec::<MessageSpec>::Text("Dependents"@),
{
    text("Dependents")
}

/// The version list: one entry per version, in order, keyed by its index.
pub fn view_versions(versions: &[Version]) -> (node: Node<Message>)
    ensures
        node@ == versions_list(version_names(versions@)),
{
    let mut entries: Vec<(usize, Node<Message>)> = Vec::new();
    let mut idx: usize = 0;
    while idx < versions.len()
        invariant
            idx <= versions@.len(),
            entries@.len() == idx,
            forall|i: int|
                0 <= i < idx ==> (#[trigger] entries@[i]).0 == i && entries@[i].1@ == version_item(
                    i,
                    versions@[i]@,
                ),
        decreases versions@.len() - idx,
    {
        let attrs = (
            class("name"),
            on_click(Message::Crate(CrateMessage::SelectVersion { idx })),
        );
        let name = element("a", attrs, versions[idx].name.clone());
        let downloads = element("div", (), "12,000");
        let item = element("li", class("version"), (name, downloads));
        proof {
            let expected = version_item(idx as int, versions@[idx as int]@);
            assert(attrs.attrs() =~= expected->children[0]->attrs);
            assert(seq![name@] + seq![downloads@] =~= expected->children);
        }
        entries.push((idx, item));
        idx += 1;
    }
    proof {
        assert(keyed_view(entries@) =~= versions_list(version_names(versions@))->children);
    }
    element("ul", (), entries)
}

/// The content pane for the active tab: the alternative with the tab's
/// number, holding that tab's content.
pub fn view_content(model: &CrateScreen) -> (pane: OneOf4<
    Node<Message>,
    Node<Message>,
    Node<Message>,
    Node<Message>,
>)
    ensures
        pane.tag() == tab_number(model.tab),
        pane.nodes() == content_pane(model@),
{
    match model.tab {
        Tab::Readme => OneOf4::a(view_readme()),
        Tab::Versions => OneOf4::b(view_versions(model.versions.as_slice())),
        Tab::Dependencies => OneOf4::c(view_dependencies()),
        Tab::Dependents => OneOf4::d(view_dependents()),
    }
}

/// The page of a crate.
///
/// The selected version has to exist: where `version_idx` is not an index of
/// `versions` (in particular where there is no version at all), the render
/// pass fails with [`Fault::IndexOutOfRange`].
pub fn view_crate(model: &CrateScreen) -> (result: Result<Node<Message>, Fault>)
    ensures
        match result {
            Ok(node) => crate_outcome(model@) == Ok::<Tree, Fault>(node@),
            Err(fault) => crate_outcome(model@) == Err::<Tree, Fault>(fault),
        },
{
    if model.version_idx >= model.versions.len() {
        return Err(Fault::IndexOutOfRange { index: model.version_idx, len: model.versions.len() });
    }
    let selected_version = &model.versions[model.version_idx];
    let latest_version = &model.versions[model.versions.len() - 1];
    let ghost selected = model@.versions[model.version_idx as int];
    assert(selected == selected_version.name@);
    assert(model@.versions.last() == latest_version.name@);

    let tab_items = vec![
        view_tab("Readme", Tab::Readme, model.tab),
        view_tab("Versions", Tab::Versions, model.tab),
        view_tab("Dependencies", Tab::Dependencies, model.tab),
        view_tab("Dependents", Tab::Dependents, model.tab),
    ];
    assert(nodes_view(tab_items@) =~= tab_bar(model.tab)->children);

    let install = view_info(
        "Install",
        (
            view_command(String::from_str("viewbuilder = ").concat(selected_version.name.as_str())),
            view_command(String::from_str("cargo install viewbuilder")),
        ),
    );
    assert(install@ == sidebar(model@)->children[3]) by {
        assert(seq![command_item("viewbuilder = "@ + selected)] + seq![
            command_item("cargo install viewbuilder"@),
        ] =~= seq![
            command_item("viewbuilder = "@ + selected),
            command_item("cargo install viewbuilder"@),
        ]);
    }
    let row_items = vec![
        view_info("Version", element("a", (), selected_version.name.clone())),
        view_info("License", element("a", (), model.license.clone())),
    ];
    assert(nodes_view(row_items@) =~= sidebar(model@)->children[4]->children[0]->children);
    let infos = vec![
        view_info("Documentation", element("a", (), "url")),
        view_info("Repository", element("a", (), "url")),
        view_info("Homepage", element("a", (), "url")),
        install,
        element("li", (), element("ul", class("row"), row_items)),
        view_info("Last update", "20 hours ago"),
    ];
    assert(nodes_view(infos@) =~= sidebar(model@)->children);

    let content = element("div", class("content"), view_content(model));
    let side = element("ul", class("sidebar"), infos);
    assert(seq![content@] + seq![side@] =~= crate_page(model@)->children[3]->children);

    let parts = vec![
        element("h1", (), model.name.clone()),
        element("h5", class("latest-version"), latest_version.name.clone()),
        element("ul", class("tabs"), tab_items),
        element("div", class("wrap"), (content, side)),
    ];
    assert(nodes_view(parts@) =~= crate_page(model@)->children);
    Ok(element("div", class("container"), parts))
}

/// The whole page: the link to the home screen, then the screen itself,
/// held as the alternative with the screen's number.
///
/// It fails where the crate screen's selected version does not exist.
pub fn view(model: &App) -> (result: Result<
    (Node<Message>, OneOf2<Node<Message>, Node<Message>>),
    Fault,
>)
    ensures
        page_value(result) == match page_outcome(model@) {
            Ok(nodes) => Ok((screen_number(model@), nodes)),
            Err(fault) => Err(fault),
        },
{
    let home = element("a", on_click(Message::Screen(Screen::Home)), "Home");
    let screen = match &model.screen {
        Screen::Home => OneOf2::a(
            element(
                "a",
                on_click(Message::Screen(Screen::Crate(CrateScreen::default()))),
                "Go to crate",
            ),
        ),
        Screen::Crate(krate) => match view_crate(krate) {
            Ok(node) => OneOf2::b(node),
            Err(fault) => {
                return Err(fault);
            },
        },
    };
    assert(seq![home@] + screen.nodes() =~= page_outcome(model@)->Ok_0);
    Ok((home, screen))
}

/// The page is a function of the state: whatever the view function hands
/// back for two states with the same value has the same value, be it a page
/// or a fault.
pub proof fn law_view_is_a_function_of_the_state(
    one: App,
    other: App,
    first: Result<(Node<Message>, OneOf2<Node<Message>, Node<Message>>), Fault>,
    second: Result<(Node<Message>, OneOf2<Node<Message>, Node<Message>>), Fault>,
)
    requires
        one@ == other@,
        call_ensures(view, (&one,), first),
        call_ensures(view, (&other,), second),
    ensures
        page_value(first) == page_value(second),
{
}

/// The content pane holds exactly one alternative, the one of the active tab.
pub proof fn law_content_pane_holds_the_active_tab(
    model: CrateScreen,
    pane: OneOf4<Node<Message>, Node<Message>, Node<Message>, Node<Message>>,
)
    requires
        call_ensures(view_content, (&model,), pane),
    ensures
        pane is A <==> model.tab == Tab::Readme,
        pane is B <==> model.tab == Tab::Versions,
        pane is C <==> model.tab == Tab::Dependencies,
        pane is D <==> model.tab == Tab::Dependents,
{
}

/// The page holds exactly one alternative below the home link, the one of
/// the screen that is shown.
pub proof fn law_page_holds_the_screen(
    model: App,
    views: (Node<Message>, OneOf2<Node<Message>, Node<Message>>),
)
    requires
        call_ensures(
            view,
            (&model,),
            Ok::<(Node<Message>, OneOf2<Node<Message>, Node<Message>>), Fault>(views),
        ),
    ensures
        views.1 is A <==> model.screen is Home,
        views.1 is B <==> model.screen is Crate,
{
}

/// Each entry of the version list has a key of its own: the index of its
/// version, which is also the index that its binding selects.
pub proof fn law_version_keys_are_indices(versions: Seq<Seq<char>>, i: int, j: int)
    requires
        0 <= i < versions.len(),
        0 <= j < versions.len(),
    ensures
        versions_list(versions)->children.len() == versions.len(),
        versions_list(versions)->children[i]->key == i,
        versions_list(versions)->children[i]->node == version_item(i, versions[i]),
        i != j ==> versions_list(versions)->children[i]->key != versions_list(
            versions,
        )->children[j]->key,
{
}

/// Selecting a version is a fault of the next render pass exactly when the
/// index is past the end of the version list: the fault names the index and
/// the length of the list.
pub proof fn law_selection_past_the_end_is_a_fault(krate: CrateScreen, idx: usize)
    ensures
        ({
            let after = transition(
                ScreenSpec::Crate(krate@),
                MessageSpec::Crate(CrateMessage::SelectVersion { idx }),
            );
            if idx < krate.versions@.len() {
                page_outcome(after) is Ok
            } else {
                page_outcome(after) == Err::<Seq<Tree>, Fault>(
                    Fault::IndexOutOfRange { index: idx, len: krate.versions@.len() as usize },
                )
            }
        }),
{
}

} // verus!
